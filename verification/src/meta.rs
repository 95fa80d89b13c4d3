//! The fixed texts of the tool: its logo, its version line and the notices
//! it shows when there is nothing to show.

use crate::text::{blanks, spaces};
use crate::util::{bare, push_bare, push_styled, span_views, styled, ColorfulRole, Span, SpanView};
use vstd::prelude::*;
use vstd::string::*;

verus! {

/// The notices and lines the tool can show.
#[derive(Debug, Clone, Copy, PartialEq, Eq)]
pub enum DictMsg {
    NotFound,
    Shrug,
    Wip,
    Version,
    Intro,
}

/// The text of each notice.
pub open spec fn msg_text(msg: DictMsg) -> Seq<char> {
    match msg {
        DictMsg::NotFound => "No result found"@,
        DictMsg::Shrug => "¯\\_(ツ)_/¯"@,
        DictMsg::Version => "Rdict v0.0.1"@,
        DictMsg::Intro => "A cli dict tool implemented by Rust with love."@,
        DictMsg::Wip => "🚧 Method Under Construction 🚧"@,
    }
}

impl DictMsg {
    /// The text of this notice.
    pub fn as_str(&self) -> (s: &'static str)
        ensures
            s@ == msg_text(*self),
    {
        match self {
            DictMsg::NotFound => "No result found",
            DictMsg::Shrug => "¯\\_(ツ)_/¯",
            DictMsg::Version => "Rdict v0.0.1",
            DictMsg::Intro => "A cli dict tool implemented by Rust with love.",
            DictMsg::Wip => "🚧 Method Under Construction 🚧",
        }
    }

    /// The text of this notice, owned.
    pub fn to_string(&self) -> (s: String)
        ensures
            s@ == msg_text(*self),
    {
        String::from_str(self.as_str())
    }
}

/// The logo, drawn in braille dots over four lines.
pub open spec fn logo_text() -> Seq<char> {
    "\n    ⣀⢀⣀⡀   ⢀⡀ ⣀⡀ \n    ⣿⠁⢀⡿  ⣀⢼⡇ ⣭ ⣠⠖⠲⡄⢀⣴⣧ \n    ⣿⠘⢷⡀ ⣾⠁⢸⡇ ⣿ ⣿    ⢸⡇\n    ⠛  ⠑ ⠙⠒⠚⠓ ⠛ ⠙⠛⠋⠁ ⠘⠋ "@
}

/// The logo.
pub fn logo() -> (s: &'static str)
    ensures
        s@ == logo_text(),
{
    "\n    ⣀⢀⣀⡀   ⢀⡀ ⣀⡀ \n    ⣿⠁⢀⡿  ⣀⢼⡇ ⣭ ⣠⠖⠲⡄⢀⣴⣧ \n    ⣿⠘⢷⡀ ⣾⠁⢸⡇ ⣿ ⣿    ⢸⡇\n    ⠛  ⠑ ⠙⠒⠚⠓ ⠛ ⠙⠛⠋⠁ ⠘⠋ "
}

/// The banner: the logo, then the version and the introduction, each
/// indented by four blanks on a line of its own.
pub open spec fn logo_layout() -> Seq<SpanView> {
    seq![
        styled(ColorfulRole::Logo, logo_text()),
        bare("\n"@),
        bare(blanks(4)),
        styled(ColorfulRole::Content, msg_text(DictMsg::Version)),
        bare("\n"@),
        bare(blanks(4)),
        styled(ColorfulRole::Content, msg_text(DictMsg::Intro)),
        bare("\n"@),
    ]
}

/// The banner followed by the notice that a method is not built yet.
pub open spec fn wip_layout() -> Seq<SpanView> {
    logo_layout() + seq![
        bare(blanks(4)),
        styled(ColorfulRole::Wip, msg_text(DictMsg::Wip)),
        bare("\n"@),
    ]
}

/// Lays out the banner.
pub fn show_logo() -> (out: Vec<Span>)
    ensures
        span_views(out@) == logo_layout(),
{
    let mut out: Vec<Span> = Vec::new();
    push_styled(&mut out, ColorfulRole::Logo, logo());
    push_bare(&mut out, "\n");
    push_bare(&mut out, spaces(4).as_str());
    push_styled(&mut out, ColorfulRole::Content, DictMsg::Version.as_str());
    push_bare(&mut out, "\n");
    push_bare(&mut out, spaces(4).as_str());
    push_styled(&mut out, ColorfulRole::Content, DictMsg::Intro.as_str());
    push_bare(&mut out, "\n");
    out
}

/// Lays out the banner with the notice that a method is not built yet.
pub fn wip() -> (out: Vec<Span>)
    ensures
        span_views(out@) == wip_layout(),
{
    let mut out = show_logo();
    push_bare(&mut out, spaces(4).as_str());
    push_styled(&mut out, ColorfulRole::Wip, DictMsg::Wip.as_str());
    push_bare(&mut out, "\n");
    out
}

} // verus!
