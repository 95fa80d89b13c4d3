//! The dictionary engines and the vocabulary record that every answer is
//! brought into.

pub mod youdao;

use crate::meta::{msg_text, DictMsg};
use crate::result::{DictError, IoKind};
use crate::text::{
    blanks, decimal, decimal_text, ends_with, has_prefix, has_suffix, lowercase, opt_text,
    same_text, spaces, split_all, split_at_first, split_on, split_once, starts_with, texts,
    to_lower, trim, trimmed,
};
use crate::util::{
    bare, joined, paint, painting_of, push_bare, push_styled, span_views, styled, ColorfulRole,
    Span, SpanView,
};
use vstd::prelude::*;
use vstd::std_specs::convert::FromSpecImpl;
use vstd::string::*;

verus! {

/// A dictionary provider. Only the first is built.
#[derive(Debug, Clone, Copy, PartialEq, Eq, Structural)]
pub enum Engines {
    Youdao,
    Bing,
}

/// Which pronunciation to fetch or play.
#[derive(Debug, Clone, Copy, PartialEq, Eq, Structural)]
pub enum AudioType {
    US,
    UK,
}

/// The engine that a name on the command line selects: `bing` selects the
/// second one, every other name the first.
pub open spec fn engine_named(name: Seq<char>) -> Engines {
    if name == "bing"@ {
        Engines::Bing
    } else {
        Engines::Youdao
    }
}

impl From<String> for Engines {
    fn from(engine: String) -> (r: Engines) {
        if same_text(engine.as_str(), "bing") {
            Engines::Bing
        } else {
            Engines::Youdao
        }
    }
}

impl FromSpecImpl<String> for Engines {
    open spec fn obeys_from_spec() -> bool {
        true
    }

    open spec fn from_spec(engine: String) -> Engines {
        engine_named(engine@)
    }
}

/// The pronunciation that a word in lower case selects, if any: `1` or
/// `uk`, `2` or `us`.
pub open spec fn audio_coded(word: Seq<char>) -> Option<AudioType> {
    if word == "1"@ || word == "uk"@ {
        Some(AudioType::UK)
    } else if word == "2"@ || word == "us"@ {
        Some(AudioType::US)
    } else {
        None
    }
}

/// The pronunciation that a word on the command line selects, if any: the
/// one that the word selects once it is in lower case.
pub open spec fn audio_named(name: Seq<char>) -> Option<AudioType> {
    audio_coded(lowercase(name))
}

/// The code by which the provider and the cache know a pronunciation.
pub open spec fn audio_code(t: AudioType) -> Seq<char> {
    match t {
        AudioType::US => "2"@,
        AudioType::UK => "1"@,
    }
}

impl AudioType {
    /// Reads a pronunciation from a word in lower case.
    pub fn from_lower(word: &str) -> (r: Option<AudioType>)
        ensures
            r == audio_coded(word@),
    {
        if same_text(word, "1") || same_text(word, "uk") {
            Some(AudioType::UK)
        } else if same_text(word, "2") || same_text(word, "us") {
            Some(AudioType::US)
        } else {
            None
        }
    }

    /// Reads a pronunciation from a word of the command line, in any case
    /// of letters. A word that names none is refused as invalid input.
    pub fn try_from(s: String) -> (r: Result<AudioType, DictError>)
        ensures
            match audio_named(s@) {
                Some(t) => r == Ok::<AudioType, DictError>(t),
                None => r matches Err(DictError::Io(kind, _)) && kind == IoKind::InvalidInput,
            },
    {
        let l = to_lower(s.as_str());
        match AudioType::from_lower(l.as_str()) {
            Some(t) => Ok(t),
            None => Err(DictError::Io(IoKind::InvalidInput, "unexped type")),
        }
    }

    /// The code of this pronunciation.
    pub fn code(&self) -> (s: &'static str)
        ensures
            s@ == audio_code(*self),
    {
        match self {
            AudioType::US => "2",
            AudioType::UK => "1",
        }
    }
}

/// How a word is spoken, in British and in American English.
#[derive(Debug, Clone)]
pub struct Phonetic {
    pub us: Option<String>,
    pub uk: Option<String>,
}

/// A word the provider offers in place of a misspelt one.
#[derive(Debug, Clone)]
pub struct Typo {
    pub guessing: Option<String>,
    pub meaning: Option<String>,
}

/// One meaning of the phrase: free text, often a part of speech, a full
/// stop and a gloss.
#[derive(Debug, Default, Clone)]
pub struct Explain {
    pub content: String,
}

/// A sentence that uses the phrase, with its translation.
#[derive(Debug, Default, Clone)]
pub struct Example {
    pub sentence_eng: String,
    pub trans: String,
}

/// The vocabulary record. A section that has nothing in it is absent.
#[derive(Debug)]
pub struct VocabBody {
    pub phrase: String,
    pub phonetic: Option<Phonetic>,
    pub explains: Option<Vec<Explain>>,
    pub examples: Option<Vec<Example>>,
    pub typo: Option<Vec<Typo>>,
}

/// A phonetic block as contracts see it.
pub struct PhoneticView {
    pub us: Option<Seq<char>>,
    pub uk: Option<Seq<char>>,
}

/// A suggestion as contracts see it.
pub struct TypoView {
    pub guessing: Option<Seq<char>>,
    pub meaning: Option<Seq<char>>,
}

/// An explanation as contracts see it.
pub struct ExplainView {
    pub content: Seq<char>,
}

/// An example as contracts see it.
pub struct ExampleView {
    pub sentence_eng: Seq<char>,
    pub trans: Seq<char>,
}

/// The vocabulary record as contracts see it.
pub struct VocabView {
    pub phrase: Seq<char>,
    pub phonetic: Option<PhoneticView>,
    pub explains: Option<Seq<ExplainView>>,
    pub examples: Option<Seq<ExampleView>>,
    pub typo: Option<Seq<TypoView>>,
}

impl View for Phonetic {
    type V = PhoneticView;

    open spec fn view(&self) -> PhoneticView {
        PhoneticView { us: opt_text(self.us), uk: opt_text(self.uk) }
    }
}

impl View for Typo {
    type V = TypoView;

    open spec fn view(&self) -> TypoView {
        TypoView { guessing: opt_text(self.guessing), meaning: opt_text(self.meaning) }
    }
}

impl View for Explain {
    type V = ExplainView;

    open spec fn view(&self) -> ExplainView {
        ExplainView { content: self.content@ }
    }
}

impl View for Example {
    type V = ExampleView;

    open spec fn view(&self) -> ExampleView {
        ExampleView { sentence_eng: self.sentence_eng@, trans: self.trans@ }
    }
}

/// The items of a sequence, each as contracts see it.
pub open spec fn views<T: View>(s: Seq<T>) -> Seq<T::V> {
    Seq::new(s.len(), |i: int| s[i]@)
}

/// An optional value as contracts see it.
pub open spec fn opt_view<T: View>(o: Option<T>) -> Option<T::V> {
    match o {
        Some(x) => Some(x@),
        None => None,
    }
}

/// An optional list as contracts see it.
pub open spec fn opt_views<T: View>(o: Option<Vec<T>>) -> Option<Seq<T::V>> {
    match o {
        Some(v) => Some(views(v@)),
        None => None,
    }
}

impl View for VocabBody {
    type V = VocabView;

    open spec fn view(&self) -> VocabView {
        VocabView {
            phrase: self.phrase@,
            phonetic: opt_view(self.phonetic),
            explains: opt_views(self.explains),
            examples: opt_views(self.examples),
            typo: opt_views(self.typo),
        }
    }
}

impl VocabView {
    /// A record is empty when all four of its sections are absent.
    pub open spec fn is_empty(self) -> bool {
        self.phonetic is None && self.explains is None && self.examples is None && self.typo is None
    }
}

impl VocabBody {
    /// A record for `phrase` with no section yet.
    pub fn new(phrase: String) -> (vb: VocabBody)
        ensures
            vb@ == (VocabView {
                phrase: phrase@,
                phonetic: None,
                explains: None,
                examples: None,
                typo: None,
            }),
    {
        VocabBody { phrase, phonetic: None, explains: None, examples: None, typo: None }
    }

    /// Whether all four sections are absent.
    pub fn is_empty(&self) -> (r: bool)
        ensures
            r == self@.is_empty(),
            r == (self.phonetic is None && self.explains is None && self.examples is None
                && self.typo is None),
    {
        self.phonetic.is_none() && self.explains.is_none() && self.examples.is_none()
            && self.typo.is_none()
    }
}

/// What is shown for an empty record: a shrug and "no result", each
/// indented on a line of its own.
pub open spec fn empty_layout() -> Seq<SpanView> {
    seq![
        bare(blanks(4)),
        styled(ColorfulRole::Content, msg_text(DictMsg::Shrug)),
        bare("\n"@),
        bare(blanks(4)),
        styled(ColorfulRole::Content, msg_text(DictMsg::NotFound)),
        bare("\n"@),
    ]
}

/// One transcription in square brackets behind its label, or nothing where
/// the transcription is absent.
pub open spec fn phonetic_side(label: Seq<char>, p: Option<Seq<char>>) -> Seq<SpanView> {
    match p {
        Some(t) => seq![
            bare(blanks(4)),
            styled(ColorfulRole::Index, label),
            styled(ColorfulRole::Dot, "["@),
            styled(ColorfulRole::Content, t),
            styled(ColorfulRole::Dot, "]"@),
        ],
        None => Seq::empty(),
    }
}

/// The phonetic section: a title, then on one line the British and the
/// American transcription, then an empty line.
pub open spec fn phonetic_layout(p: Option<PhoneticView>) -> Seq<SpanView> {
    match p {
        Some(p) => seq![
            bare(blanks(4)),
            styled(ColorfulRole::Title, "音标"@),
            bare("\n"@),
            bare(blanks(4)),
        ] + phonetic_side("英"@, p.uk) + phonetic_side("美"@, p.us) + seq![
            bare("\n"@),
            bare("\n"@),
        ],
        None => Seq::empty(),
    }
}

/// The line of one meaning. Text with a full stop is split at the first
/// one into a part of speech and a gloss; other text follows a marker.
pub open spec fn explain_line(content: Seq<char>) -> Seq<SpanView> {
    match split_once(content, '.') {
        Some((part, gloss)) => seq![
            bare(blanks(8)),
            styled(ColorfulRole::Index, trimmed(part)),
            styled(ColorfulRole::Dot, ". "@),
            styled(ColorfulRole::Content, trimmed(gloss)),
            bare("\n"@),
        ],
        None => seq![
            bare(blanks(7)),
            styled(ColorfulRole::Index, ">> "@),
            styled(ColorfulRole::Content, trimmed(content)),
            bare("\n"@),
        ],
    }
}

/// The lines of some meanings, in order.
pub open spec fn explain_lines(es: Seq<ExplainView>) -> Seq<SpanView>
    decreases es.len(),
{
    if es.len() == 0 {
        Seq::empty()
    } else {
        explain_lines(es.drop_last()) + explain_line(es.last().content)
    }
}

/// The section of meanings: a title, a line for each, an empty line.
pub open spec fn explains_layout(es: Option<Seq<ExplainView>>) -> Seq<SpanView> {
    match es {
        Some(es) => seq![bare(blanks(4)), styled(ColorfulRole::Title, "释义"@), bare("\n"@)]
            + explain_lines(es) + seq![bare("\n"@)],
        None => Seq::empty(),
    }
}

/// Whether a word of a sentence is the phrase looked up: in lower case it
/// begins or ends with the phrase in lower case.
pub open spec fn is_hit(word: Seq<char>, phrase: Seq<char>) -> bool {
    has_prefix(lowercase(word), lowercase(phrase)) || has_suffix(lowercase(word), lowercase(phrase))
}

/// One word of a sentence, emphasised where it is the phrase.
pub open spec fn word_span(word: Seq<char>, phrase: Seq<char>) -> SpanView {
    if is_hit(word, phrase) {
        styled(ColorfulRole::Emphasis, word)
    } else {
        styled(ColorfulRole::Content, word)
    }
}

/// The words of a sentence, each followed by a blank.
pub open spec fn sentence_spans(words: Seq<Seq<char>>, phrase: Seq<char>) -> Seq<SpanView>
    decreases words.len(),
{
    if words.len() == 0 {
        Seq::empty()
    } else {
        sentence_spans(words.drop_last(), phrase) + seq![
            word_span(words.last(), phrase),
            bare(" "@),
        ]
    }
}

/// The two lines of one example: its number and the sentence, then the
/// translation under it.
pub open spec fn example_lines(e: ExampleView, number: nat, phrase: Seq<char>) -> Seq<SpanView> {
    seq![
        bare(blanks(8)),
        styled(ColorfulRole::Index, decimal(number)),
        styled(ColorfulRole::Dot, ". "@),
    ] + sentence_spans(split_on(e.sentence_eng, ' '), phrase) + seq![
        bare("\n"@),
        bare(blanks(11)),
        styled(ColorfulRole::Other, e.trans),
        bare("\n"@),
    ]
}

/// The lines of some examples, numbered from one.
pub open spec fn examples_lines(es: Seq<ExampleView>, phrase: Seq<char>) -> Seq<SpanView>
    decreases es.len(),
{
    if es.len() == 0 {
        Seq::empty()
    } else {
        examples_lines(es.drop_last(), phrase) + example_lines(es.last(), es.len(), phrase)
    }
}

/// The section of examples: a title and the lines of each.
pub open spec fn examples_layout(es: Seq<ExampleView>, phrase: Seq<char>) -> Seq<SpanView> {
    seq![bare(blanks(4)), styled(ColorfulRole::Title, "例句"@), bare("\n"@)] + examples_lines(
        es,
        phrase,
    )
}

/// The line of a suggested word, or nothing where there is none.
pub open spec fn guess_line(guess: Option<Seq<char>>) -> Seq<SpanView> {
    match guess {
        Some(g) => seq![
            bare(blanks(4)),
            styled(ColorfulRole::Dot, "> "@),
            styled(ColorfulRole::Emphasis, g),
            bare("\n"@),
        ],
        None => Seq::empty(),
    }
}

/// The line of a suggestion's meaning. Only a meaning with a full stop is
/// shown, split at the first one.
pub open spec fn meaning_line(meaning: Option<Seq<char>>) -> Seq<SpanView> {
    match meaning {
        Some(m) => match split_once(m, '.') {
            Some((part, gloss)) => seq![
                bare(blanks(6)),
                styled(ColorfulRole::Index, part),
                styled(ColorfulRole::Dot, ". "@),
                styled(ColorfulRole::Content, trimmed(gloss)),
                bare("\n"@),
            ],
            None => Seq::empty(),
        },
        None => Seq::empty(),
    }
}

/// The lines of some suggestions, in order.
pub open spec fn typo_lines(ts: Seq<TypoView>) -> Seq<SpanView>
    decreases ts.len(),
{
    if ts.len() == 0 {
        Seq::empty()
    } else {
        typo_lines(ts.drop_last()) + guess_line(ts.last().guessing) + meaning_line(
            ts.last().meaning,
        )
    }
}

/// The section of suggestions: the phrase with a question, an empty line,
/// and the lines of each suggestion.
pub open spec fn typos_layout(ts: Seq<TypoView>, phrase: Seq<char>) -> Seq<SpanView> {
    seq![
        bare(blanks(4)),
        styled(ColorfulRole::Emphasis, phrase),
        bare(" "@),
        styled(ColorfulRole::Content, "may be a typo, are you looking for:"@),
        bare("\n"@),
        bare("\n"@),
    ] + typo_lines(ts)
}

/// What closes the layout: the examples where there are any, else the
/// suggestions where there are any. Suggestions never stand beside
/// examples.
pub open spec fn closing_layout(v: VocabView) -> Seq<SpanView> {
    match v.examples {
        Some(es) => examples_layout(es, v.phrase),
        None => match v.typo {
            Some(ts) => typos_layout(ts, v.phrase),
            None => Seq::empty(),
        },
    }
}

/// How a record is laid out for the terminal.
pub open spec fn layout_of(v: VocabView) -> Seq<SpanView> {
    if v.is_empty() {
        empty_layout()
    } else {
        phonetic_layout(v.phonetic) + explains_layout(v.explains) + closing_layout(v)
    }
}

fn push_indent(out: &mut Vec<Span>, n: usize)
    ensures
        span_views(final(out)@) == span_views(old(out)@).push(bare(blanks(n as nat))),
{
    let pad = spaces(n);
    push_bare(out, pad.as_str());
}

fn push_phonetic_side(out: &mut Vec<Span>, label: &str, p: &Option<String>)
    ensures
        span_views(final(out)@) == span_views(old(out)@) + phonetic_side(label@, opt_text(*p)),
{
    match p {
        Some(t) => {
            push_indent(out, 4);
            push_styled(out, ColorfulRole::Index, label);
            push_styled(out, ColorfulRole::Dot, "[");
            push_styled(out, ColorfulRole::Content, t.as_str());
            push_styled(out, ColorfulRole::Dot, "]");
        },
        None => {},
    }
}

fn push_phonetic(out: &mut Vec<Span>, p: &Option<Phonetic>)
    ensures
        span_views(final(out)@) == span_views(old(out)@) + phonetic_layout(opt_view(*p)),
{
    match p {
        Some(p) => {
            push_indent(out, 4);
            push_styled(out, ColorfulRole::Title, "音标");
            push_bare(out, "\n");
            push_indent(out, 4);
            push_phonetic_side(out, "英", &p.uk);
            push_phonetic_side(out, "美", &p.us);
            push_bare(out, "\n");
            push_bare(out, "\n");
        },
        None => {},
    }
}

fn push_explain(out: &mut Vec<Span>, e: &Explain)
    ensures
        span_views(final(out)@) == span_views(old(out)@) + explain_line(e.content@),
{
    match split_at_first(e.content.as_str(), '.') {
        Some((part, gloss)) => {
            push_indent(out, 8);
            push_styled(out, ColorfulRole::Index, trim(part));
            push_styled(out, ColorfulRole::Dot, ". ");
            push_styled(out, ColorfulRole::Content, trim(gloss));
            push_bare(out, "\n");
        },
        None => {
            push_indent(out, 7);
            push_styled(out, ColorfulRole::Index, ">> ");
            push_styled(out, ColorfulRole::Content, trim(e.content.as_str()));
            push_bare(out, "\n");
        },
    }
}

fn push_explains(out: &mut Vec<Span>, es: &Option<Vec<Explain>>)
    ensures
        span_views(final(out)@) == span_views(old(out)@) + explains_layout(opt_views(*es)),
{
    match es {
        Some(es) => {
            push_indent(out, 4);
            push_styled(out, ColorfulRole::Title, "释义");
            push_bare(out, "\n");
            let ghost head = span_views(out@);
            let mut i: usize = 0;
            while i < es.len()
                invariant
                    i <= es.len(),
                    span_views(out@) == head + explain_lines(views(es@).take(i as int)),
                decreases es.len() - i,
            {
                push_explain(out, &es[i]);
                i = i + 1;
                assert(views(es@).take(i as int).drop_last() =~= views(es@).take(i - 1));
            }
            assert(views(es@).take(i as int) =~= views(es@));
            push_bare(out, "\n");
        },
        None => {},
    }
}

fn push_sentence(out: &mut Vec<Span>, sentence: &str, phrase: &str)
    ensures
        span_views(final(out)@) == span_views(old(out)@) + sentence_spans(
            split_on(sentence@, ' '),
            phrase@,
        ),
{
    let low = to_lower(phrase);
    let words = split_all(sentence, ' ');
    let ghost head = span_views(out@);
    let mut i: usize = 0;
    while i < words.len()
        invariant
            i <= words.len(),
            low@ == lowercase(phrase@),
            span_views(out@) == head + sentence_spans(texts(words@).take(i as int), phrase@),
        decreases words.len() - i,
    {
        let word = words[i].as_str();
        let x = to_lower(word);
        if starts_with(x.as_str(), low.as_str()) || ends_with(x.as_str(), low.as_str()) {
            push_styled(out, ColorfulRole::Emphasis, word);
        } else {
            push_styled(out, ColorfulRole::Content, word);
        }
        push_bare(out, " ");
        i = i + 1;
        assert(texts(words@).take(i as int).drop_last() =~= texts(words@).take(i - 1));
    }
    assert(texts(words@).take(i as int) =~= texts(words@));
}

fn push_example(out: &mut Vec<Span>, e: &Example, number: usize, phrase: &str)
    ensures
        span_views(final(out)@) == span_views(old(out)@) + example_lines(
            e@,
            number as nat,
            phrase@,
        ),
{
    push_indent(out, 8);
    let n = decimal_text(number);
    push_styled(out, ColorfulRole::Index, n.as_str());
    push_styled(out, ColorfulRole::Dot, ". ");
    push_sentence(out, e.sentence_eng.as_str(), phrase);
    push_bare(out, "\n");
    push_indent(out, 11);
    push_styled(out, ColorfulRole::Other, e.trans.as_str());
    push_bare(out, "\n");
}

fn push_examples(out: &mut Vec<Span>, es: &Vec<Example>, phrase: &str)
    ensures
        span_views(final(out)@) == span_views(old(out)@) + examples_layout(views(es@), phrase@),
{
    push_indent(out, 4);
    push_styled(out, ColorfulRole::Title, "例句");
    push_bare(out, "\n");
    let ghost head = span_views(out@);
    let mut i: usize = 0;
    while i < es.len()
        invariant
            i <= es.len(),
            span_views(out@) == head + examples_lines(views(es@).take(i as int), phrase@),
        decreases es.len() - i,
    {
        push_example(out, &es[i], i + 1, phrase);
        i = i + 1;
        assert(views(es@).take(i as int).drop_last() =~= views(es@).take(i - 1));
    }
    assert(views(es@).take(i as int) =~= views(es@));
}

fn push_typo(out: &mut Vec<Span>, t: &Typo)
    ensures
        span_views(final(out)@) == span_views(old(out)@) + guess_line(t@.guessing) + meaning_line(
            t@.meaning,
        ),
{
    if let Some(g) = &t.guessing {
        push_indent(out, 4);
        push_styled(out, ColorfulRole::Dot, "> ");
        push_styled(out, ColorfulRole::Emphasis, g.as_str());
        push_bare(out, "\n");
    }
    if let Some(m) = &t.meaning {
        if let Some((part, gloss)) = split_at_first(m.as_str(), '.') {
            push_indent(out, 6);
            push_styled(out, ColorfulRole::Index, part);
            push_styled(out, ColorfulRole::Dot, ". ");
            push_styled(out, ColorfulRole::Content, trim(gloss));
            push_bare(out, "\n");
        }
    }
}

fn push_typos(out: &mut Vec<Span>, ts: &Vec<Typo>, phrase: &str)
    ensures
        span_views(final(out)@) == span_views(old(out)@) + typos_layout(views(ts@), phrase@),
{
    push_indent(out, 4);
    push_styled(out, ColorfulRole::Emphasis, phrase);
    push_bare(out, " ");
    push_styled(out, ColorfulRole::Content, "may be a typo, are you looking for:");
    push_bare(out, "\n");
    push_bare(out, "\n");
    let ghost head = span_views(out@);
    let mut i: usize = 0;
    while i < ts.len()
        invariant
            i <= ts.len(),
            span_views(out@) == head + typo_lines(views(ts@).take(i as int)),
        decreases ts.len() - i,
    {
        push_typo(out, &ts[i]);
        i = i + 1;
        assert(views(ts@).take(i as int).drop_last() =~= views(ts@).take(i - 1));
    }
    assert(views(ts@).take(i as int) =~= views(ts@));
}

impl VocabBody {
    /// Lays the record out for the terminal, as a sequence of spans: an
    /// empty record as a notice, any other as its sections in order.
    pub fn layout(&self) -> (out: Vec<Span>)
        ensures
            span_views(out@) == layout_of(self@),
    {
        let mut out: Vec<Span> = Vec::new();
        if self.is_empty() {
            push_indent(&mut out, 4);
            push_styled(&mut out, ColorfulRole::Content, DictMsg::Shrug.as_str());
            push_bare(&mut out, "\n");
            push_indent(&mut out, 4);
            push_styled(&mut out, ColorfulRole::Content, DictMsg::NotFound.as_str());
            push_bare(&mut out, "\n");
            return out;
        }
        push_phonetic(&mut out, &self.phonetic);
        push_explains(&mut out, &self.explains);
        if let Some(es) = &self.examples {
            push_examples(&mut out, es, self.phrase.as_str());
        } else if let Some(ts) = &self.typo {
            push_typos(&mut out, ts, self.phrase.as_str());
        }
        out
    }
}

impl VocabBody {
    /// Writes the record for the terminal: its layout, each span in the
    /// colour of its role where the terminal shows colours.
    pub fn to_string(&self) -> (out: String)
        ensures
            exists|parts: Seq<Seq<char>>|
                painting_of(layout_of(self@), parts) && out@ == joined(parts),
    {
        let spans = self.layout();
        paint(&spans)
    }
}

/// Where a record has examples, its suggestions are never laid out:
/// whatever suggestions it holds, the layout is the same.
pub proof fn lemma_examples_hide_typos(v: VocabView, typo: Option<Seq<TypoView>>)
    requires
        v.examples is Some,
    ensures
        layout_of(v) == layout_of(VocabView { typo, ..v }),
{
}

/// An HTTP GET: an address and the parameters of its query, in order.
#[derive(Debug, Clone)]
pub struct Request {
    pub url: String,
    pub query: Vec<(String, String)>,
}

/// A request as contracts see it.
pub struct RequestView {
    pub url: Seq<char>,
    pub query: Seq<(Seq<char>, Seq<char>)>,
}

impl View for Request {
    type V = RequestView;

    open spec fn view(&self) -> RequestView {
        RequestView {
            url: self.url@,
            query: Seq::new(self.query@.len(), |i: int| (self.query@[i].0@, self.query@[i].1@)),
        }
    }
}

/// The request for the meaning of a phrase.
pub open spec fn meaning_request(phrase: Seq<char>) -> RequestView {
    RequestView { url: "http://dict.youdao.com/jsonapi"@, query: seq![("q"@, phrase)] }
}

/// The request for the pronunciation of a phrase.
pub open spec fn audio_request(phrase: Seq<char>, t: AudioType) -> RequestView {
    RequestView {
        url: "http://dict.youdao.com/dictvoice"@,
        query: seq![("audio"@, phrase), ("type"@, audio_code(t))],
    }
}

impl Engines {
    /// The request that asks this engine for the meaning of `phrase`. The
    /// second engine has none.
    pub fn request_meaning(&self, phrase: &str) -> (r: Option<Request>)
        ensures
            match *self {
                Engines::Youdao => r is Some && r->Some_0@ == meaning_request(phrase@),
                Engines::Bing => r is None,
            },
    {
        match self {
            Engines::Bing => None,
            Engines::Youdao => {
                let mut query: Vec<(String, String)> = Vec::new();
                query.push((String::from_str("q"), String::from_str(phrase)));
                let r = Request { url: String::from_str("http://dict.youdao.com/jsonapi"), query };
                assert(r@.query =~= meaning_request(phrase@).query);
                Some(r)
            },
        }
    }

    /// The request that asks for the pronunciation of `phrase`.
    pub fn request_audio(&self, phrase: &str, t: AudioType) -> (r: Request)
        ensures
            r@ == audio_request(phrase@, t),
    {
        let mut query: Vec<(String, String)> = Vec::new();
        query.push((String::from_str("audio"), String::from_str(phrase)));
        query.push((String::from_str("type"), String::from_str(t.code())));
        let r = Request { url: String::from_str("http://dict.youdao.com/dictvoice"), query };
        assert(r@.query =~= audio_request(phrase@, t).query);
        r
    }
}

} // verus!
