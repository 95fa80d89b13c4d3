//! Terminal styling: the roles a piece of output can play, their colours,
//! padding to a width, and the painting of styled spans into one string.

use crate::text::{blanks, decimal, spaces, texts};
use vstd::prelude::*;
use vstd::string::*;
use vstd::utf8::encode_utf8;

verus! {

/// What a piece of output is, which decides its colour.
#[derive(Debug, Clone, Copy, PartialEq, Eq)]
pub enum ColorfulRole {
    Title,
    Index,
    Dot,
    Content,
    Emphasis,
    Logo,
    Wip,
    Other,
}

/// The colour of each role, as red, green and blue.
pub open spec fn rgb_of(role: ColorfulRole) -> (u8, u8, u8) {
    match role {
        ColorfulRole::Title => (255u8, 95u8, 175u8),
        ColorfulRole::Index => (2u8, 169u8, 170u8),
        ColorfulRole::Dot => (188u8, 188u8, 188u8),
        ColorfulRole::Content => (95u8, 175u8, 95u8),
        ColorfulRole::Emphasis => (30u8, 250u8, 110u8),
        ColorfulRole::Logo => (0u8, 221u8, 192u8),
        ColorfulRole::Other => (0u8, 134u8, 1u8),
        ColorfulRole::Wip => (214u8, 158u8, 19u8),
    }
}

impl ColorfulRole {
    /// The colour of this role.
    pub fn rgb(self) -> (c: (u8, u8, u8))
        ensures
            c == rgb_of(self),
    {
        match self {
            ColorfulRole::Title => (255, 95, 175),
            ColorfulRole::Index => (2, 169, 170),
            ColorfulRole::Dot => (188, 188, 188),
            ColorfulRole::Content => (95, 175, 95),
            ColorfulRole::Emphasis => (30, 250, 110),
            ColorfulRole::Logo => (0, 221, 192),
            ColorfulRole::Other => (0, 134, 1),
            ColorfulRole::Wip => (214, 158, 19),
        }
    }
}

/// The code of a 24-bit foreground colour in an escape sequence.
pub open spec fn true_code(r: u8, g: u8, b: u8) -> Seq<char> {
    "38;2;"@ + decimal(r as nat) + ";"@ + decimal(g as nat) + ";"@ + decimal(b as nat)
}

/// Whether `code` is the code of one of the sixteen basic foreground
/// colours.
pub open spec fn basic_code(code: Seq<char>) -> bool {
    ||| code == "30"@
    ||| code == "31"@
    ||| code == "32"@
    ||| code == "33"@
    ||| code == "34"@
    ||| code == "35"@
    ||| code == "36"@
    ||| code == "37"@
    ||| code == "90"@
    ||| code == "91"@
    ||| code == "92"@
    ||| code == "93"@
    ||| code == "94"@
    ||| code == "95"@
    ||| code == "96"@
    ||| code == "97"@
}

/// A text between the escape sequence that sets a colour and the one that
/// resets it.
pub open spec fn wrapped(code: Seq<char>, text: Seq<char>) -> Seq<char> {
    "\u{1b}["@ + code + "m"@ + text + "\u{1b}[0m"@
}

/// Whether a text is free of the escape character.
pub open spec fn no_escape(text: Seq<char>) -> bool {
    forall|i: int| 0 <= i < text.len() ==> text[i] != '\u{1b}'
}

/// Whether `out` is `text` set in the colour given: in the 24-bit colour
/// itself, or in a basic colour that stands in for it.
pub open spec fn tinted(text: Seq<char>, r: u8, g: u8, b: u8, out: Seq<char>) -> bool {
    exists|code: Seq<char>|
        (code == true_code(r, g, b) || basic_code(code)) && out == wrapped(code, text)
}

/// Calls `Colorize::truecolor` of the `colored` crate and formats the
/// result. Whether that crate colours at all, and whether in 24 bits or in
/// the nearest basic colour, depends on the terminal and the environment,
/// so the contract leaves these open: the text comes back unchanged, or,
/// where it holds no escape character, wrapped in a colour's sequences.
#[verifier::external_body]
fn truecolor(text: &str, r: u8, g: u8, b: u8) -> (out: String)
    ensures
        out@ == text@ || (no_escape(text@) ==> tinted(text@, r, g, b, out@)),
{
    colored::Colorize::truecolor(text, r, g, b).to_string()
}

/// Whether `out` is what colouring `text` by `role` may give.
pub open spec fn colored_as(text: Seq<char>, role: ColorfulRole, out: Seq<char>) -> bool {
    out == text || (no_escape(text) ==> tinted(
        text,
        rgb_of(role).0,
        rgb_of(role).1,
        rgb_of(role).2,
        out,
    ))
}

/// Colours a text by its role.
pub fn coloring(text: &str, role: ColorfulRole) -> (out: String)
    ensures
        colored_as(text@, role, out@),
{
    let c = role.rgb();
    truecolor(text, c.0, c.1, c.2)
}

/// How many blanks bring a text of `len` bytes to `width`.
pub open spec fn padding(len: nat, width: nat) -> nat {
    if width > len {
        (width - len) as nat
    } else {
        0
    }
}

/// A text padded with blanks on its left, to `width` bytes of UTF-8.
pub open spec fn aligned_right(text: Seq<char>, width: nat) -> Seq<char> {
    blanks(padding(encode_utf8(text).len(), width)) + text
}

/// A text padded with blanks on its right, to `width` bytes of UTF-8.
pub open spec fn aligned_left(text: Seq<char>, width: nat) -> Seq<char> {
    text + blanks(padding(encode_utf8(text).len(), width))
}

/// Pads a text with blanks on its left, to `width` bytes.
pub fn align_right(text: &str, width: usize) -> (out: String)
    ensures
        out@ == aligned_right(text@, width as nat),
{
    let len = text.as_bytes().len();
    let n = if width > len {
        width - len
    } else {
        0
    };
    let mut out = spaces(n);
    out.append(text);
    out
}

/// Pads a text with blanks on its right, to `width` bytes.
pub fn align_left(text: &str, width: usize) -> (out: String)
    ensures
        out@ == aligned_left(text@, width as nat),
{
    let len = text.as_bytes().len();
    let n = if width > len {
        width - len
    } else {
        0
    };
    let mut out = String::from_str(text);
    let pad = spaces(n);
    out.append(pad.as_str());
    out
}

/// Styling for anything that is a text: colouring by role and padding to
/// a width.
pub trait Style {
    /// The text that is styled.
    spec fn styled_text(&self) -> Seq<char>;

    /// The text in the colour of `role`.
    fn coloring(&self, role: ColorfulRole) -> (out: String)
        ensures
            colored_as(self.styled_text(), role, out@),
    ;

    /// The text padded with blanks on its left, to `width` bytes.
    fn align_right(&self, width: usize) -> (out: String)
        ensures
            out@ == aligned_right(self.styled_text(), width as nat),
    ;

    /// The text padded with blanks on its right, to `width` bytes.
    fn align_left(&self, width: usize) -> (out: String)
        ensures
            out@ == aligned_left(self.styled_text(), width as nat),
    ;
}

impl Style for str {
    open spec fn styled_text(&self) -> Seq<char> {
        self@
    }

    fn coloring(&self, role: ColorfulRole) -> (out: String) {
        coloring(self, role)
    }

    fn align_right(&self, width: usize) -> (out: String) {
        align_right(self, width)
    }

    fn align_left(&self, width: usize) -> (out: String) {
        align_left(self, width)
    }
}

impl Style for String {
    open spec fn styled_text(&self) -> Seq<char> {
        self@
    }

    fn coloring(&self, role: ColorfulRole) -> (out: String) {
        coloring(self.as_str(), role)
    }

    fn align_right(&self, width: usize) -> (out: String) {
        align_right(self.as_str(), width)
    }

    fn align_left(&self, width: usize) -> (out: String) {
        align_left(self.as_str(), width)
    }
}

/// A piece of output with the role that colours it; without a role it is
/// written as it stands.
#[derive(Debug, Clone)]
pub struct Span {
    pub role: Option<ColorfulRole>,
    pub text: String,
}

/// A span as contracts see it.
pub struct SpanView {
    pub role: Option<ColorfulRole>,
    pub text: Seq<char>,
}

impl View for Span {
    type V = SpanView;

    open spec fn view(&self) -> SpanView {
        SpanView { role: self.role, text: self.text@ }
    }
}

/// An uncoloured span.
pub open spec fn bare(text: Seq<char>) -> SpanView {
    SpanView { role: None, text }
}

/// A span in the colour of `role`.
pub open spec fn styled(role: ColorfulRole, text: Seq<char>) -> SpanView {
    SpanView { role: Some(role), text }
}

/// The spans that a vector holds, as contracts see them.
pub open spec fn span_views(v: Seq<Span>) -> Seq<SpanView> {
    Seq::new(v.len(), |i: int| v[i]@)
}

/// The texts of some spans, in order.
pub open spec fn span_texts(spans: Seq<SpanView>) -> Seq<Seq<char>> {
    Seq::new(spans.len(), |i: int| spans[i].text)
}

/// Some texts written one after the other.
pub open spec fn joined(parts: Seq<Seq<char>>) -> Seq<char>
    decreases parts.len(),
{
    if parts.len() == 0 {
        Seq::empty()
    } else {
        joined(parts.drop_last()) + parts.last()
    }
}

/// Whether `part` is what painting `span` may give.
pub open spec fn paints(span: SpanView, part: Seq<char>) -> bool {
    match span.role {
        None => part == span.text,
        Some(role) => colored_as(span.text, role, part),
    }
}

/// Whether `parts` holds, span by span, what painting `spans` may give.
pub open spec fn painting_of(spans: Seq<SpanView>, parts: Seq<Seq<char>>) -> bool {
    &&& parts.len() == spans.len()
    &&& forall|i: int| 0 <= i < spans.len() ==> paints(#[trigger] spans[i], parts[i])
}

/// Appends an uncoloured span.
pub fn push_bare(out: &mut Vec<Span>, text: &str)
    ensures
        span_views(final(out)@) == span_views(old(out)@).push(bare(text@)),
{
    out.push(Span { role: None, text: String::from_str(text) });
}

/// Appends a span in the colour of `role`.
pub fn push_styled(out: &mut Vec<Span>, role: ColorfulRole, text: &str)
    ensures
        span_views(final(out)@) == span_views(old(out)@).push(styled(role, text@)),
{
    out.push(Span { role: Some(role), text: String::from_str(text) });
}

/// Writes some texts one after the other.
pub fn join_texts(parts: &Vec<String>) -> (out: String)
    ensures
        out@ == joined(texts(parts@)),
{
    let mut out = String::new();
    let mut i: usize = 0;
    while i < parts.len()
        invariant
            i <= parts.len(),
            out@ == joined(texts(parts@).take(i as int)),
        decreases parts.len() - i,
    {
        out.append(parts[i].as_str());
        i = i + 1;
        assert(texts(parts@).take(i as int).drop_last() =~= texts(parts@).take(i - 1));
    }
    assert(texts(parts@).take(i as int) =~= texts(parts@));
    out
}

/// The texts of the spans, in order.
pub fn plain_parts(spans: &Vec<Span>) -> (parts: Vec<String>)
    ensures
        texts(parts@) == span_texts(span_views(spans@)),
{
    let mut parts: Vec<String> = Vec::new();
    let mut i: usize = 0;
    while i < spans.len()
        invariant
            i <= spans.len(),
            parts.len() == i,
            forall|k: int| 0 <= k < i ==> (#[trigger] parts[k])@ == spans[k].text@,
        decreases spans.len() - i,
    {
        parts.push(spans[i].text.clone());
        i = i + 1;
    }
    parts
}

/// The spans painted one by one, each in the colour of its role. Whether
/// a colour shows is for the terminal to decide, span by span.
pub fn paint_parts(spans: &Vec<Span>) -> (parts: Vec<String>)
    ensures
        painting_of(span_views(spans@), texts(parts@)),
{
    let mut parts: Vec<String> = Vec::new();
    let mut i: usize = 0;
    while i < spans.len()
        invariant
            i <= spans.len(),
            parts.len() == i,
            forall|k: int| 0 <= k < i ==> paints(#[trigger] span_views(spans@)[k], parts[k]@),
        decreases spans.len() - i,
    {
        let span = &spans[i];
        match span.role {
            None => parts.push(span.text.clone()),
            Some(role) => parts.push(coloring(span.text.as_str(), role)),
        }
        i = i + 1;
    }
    parts
}

/// Writes the spans one after the other, without any colour.
pub fn plain(spans: &Vec<Span>) -> (out: String)
    ensures
        out@ == joined(span_texts(span_views(spans@))),
{
    let parts = plain_parts(spans);
    join_texts(&parts)
}

/// Writes the spans one after the other, each in the colour of its role.
pub fn paint(spans: &Vec<Span>) -> (out: String)
    ensures
        exists|parts: Seq<Seq<char>>|
            painting_of(span_views(spans@), parts) && out@ == joined(parts),
{
    let parts = paint_parts(spans);
    join_texts(&parts)
}

} // verus!
