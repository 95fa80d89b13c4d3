//! The answer of the first engine: its shape, how it is read from JSON,
//! and how it becomes a vocabulary record.

use crate::handler::{
    opt_view, opt_views, views, Example, ExampleView, Explain, ExplainView, Phonetic,
    PhoneticView, Typo, TypoView, VocabBody, VocabView,
};
use crate::json::{is_decode_error, is_malformed, malformed, parse, parsed, Json};
use crate::result::DictError;
use crate::text::{opt_text, same_text, texts};
use vstd::prelude::*;
use vstd::string::*;

verus! {

/// One piece of a meaning's text. The provider sends a plain string, or an
/// object that carries the text under the key `#text`.
#[derive(Debug, Clone)]
pub enum Fragment {
    /// A plain string.
    Text(String),
    /// An object with its text.
    Tagged(String),
    /// An object without a text.
    Untagged,
    /// Any other value.
    Other,
}

/// The text of one meaning: an optional part of speech and the fragments.
#[derive(Debug, Clone)]
pub struct TrsTrL {
    pub pos: Option<String>,
    pub i: Vec<Fragment>,
}

/// One meaning, in the variants the provider offers of it.
#[derive(Debug, Clone)]
pub struct Trs {
    pub tr: Vec<TrsTrL>,
}

/// One entry of the dictionary for the phrase.
#[derive(Debug, Clone)]
pub struct Word {
    pub usphone: Option<String>,
    pub ukphone: Option<String>,
    pub trs: Option<Vec<Trs>>,
    pub return_phrase: Option<String>,
}

/// What the provider says of the request itself.
#[derive(Debug, Clone)]
pub struct Meta {
    pub lang: String,
    pub guess_language: String,
    pub input: String,
    pub dicts: Vec<String>,
}

/// A sentence and its translation.
#[derive(Debug, Clone)]
pub struct SentencePair {
    pub sentence: String,
    pub sentence_translation: String,
}

/// A word offered in place of a misspelt one, with its translation.
#[derive(Debug, Clone)]
pub struct TypoContent {
    pub word: Option<String>,
    pub trans: Option<String>,
}

/// The provider's answer.
#[derive(Debug, Clone)]
pub struct YoudaoRes {
    pub meta: Meta,
    /// The dictionary entries, English to Chinese or Chinese to English.
    pub ec: Option<Vec<Word>>,
    pub typos: Option<Vec<TypoContent>>,
    /// The example sentences.
    pub blng_sents_part: Option<Vec<SentencePair>>,
}

/// A fragment as contracts see it.
pub enum FragmentView {
    Text(Seq<char>),
    Tagged(Seq<char>),
    Untagged,
    Other,
}

/// A meaning's text as contracts see it.
pub struct TrsTrLView {
    pub pos: Option<Seq<char>>,
    pub i: Seq<FragmentView>,
}

/// A meaning as contracts see it.
pub struct TrsView {
    pub tr: Seq<TrsTrLView>,
}

/// A dictionary entry as contracts see it.
pub struct WordView {
    pub usphone: Option<Seq<char>>,
    pub ukphone: Option<Seq<char>>,
    pub trs: Option<Seq<TrsView>>,
    pub return_phrase: Option<Seq<char>>,
}

/// The request's description as contracts see it.
pub struct MetaView {
    pub lang: Seq<char>,
    pub guess_language: Seq<char>,
    pub input: Seq<char>,
    pub dicts: Seq<Seq<char>>,
}

/// A sentence pair as contracts see it.
pub struct SentencePairView {
    pub sentence: Seq<char>,
    pub sentence_translation: Seq<char>,
}

/// One of the provider's suggestions as contracts see it.
pub struct TypoContentView {
    pub word: Option<Seq<char>>,
    pub trans: Option<Seq<char>>,
}

/// The provider's answer as contracts see it.
pub struct YoudaoResView {
    pub meta: MetaView,
    pub ec: Option<Seq<WordView>>,
    pub typos: Option<Seq<TypoContentView>>,
    pub blng_sents_part: Option<Seq<SentencePairView>>,
}

impl View for Fragment {
    type V = FragmentView;

    open spec fn view(&self) -> FragmentView {
        match self {
            Fragment::Text(s) => FragmentView::Text(s@),
            Fragment::Tagged(s) => FragmentView::Tagged(s@),
            Fragment::Untagged => FragmentView::Untagged,
            Fragment::Other => FragmentView::Other,
        }
    }
}

impl View for TrsTrL {
    type V = TrsTrLView;

    open spec fn view(&self) -> TrsTrLView {
        TrsTrLView { pos: opt_text(self.pos), i: views(self.i@) }
    }
}

impl View for Trs {
    type V = TrsView;

    open spec fn view(&self) -> TrsView {
        TrsView { tr: views(self.tr@) }
    }
}

impl View for Word {
    type V = WordView;

    open spec fn view(&self) -> WordView {
        WordView {
            usphone: opt_text(self.usphone),
            ukphone: opt_text(self.ukphone),
            trs: opt_views(self.trs),
            return_phrase: opt_text(self.return_phrase),
        }
    }
}

impl View for Meta {
    type V = MetaView;

    open spec fn view(&self) -> MetaView {
        MetaView {
            lang: self.lang@,
            guess_language: self.guess_language@,
            input: self.input@,
            dicts: texts(self.dicts@),
        }
    }
}

impl View for SentencePair {
    type V = SentencePairView;

    open spec fn view(&self) -> SentencePairView {
        SentencePairView {
            sentence: self.sentence@,
            sentence_translation: self.sentence_translation@,
        }
    }
}

impl View for TypoContent {
    type V = TypoContentView;

    open spec fn view(&self) -> TypoContentView {
        TypoContentView { word: opt_text(self.word), trans: opt_text(self.trans) }
    }
}

impl View for YoudaoRes {
    type V = YoudaoResView;

    open spec fn view(&self) -> YoudaoResView {
        YoudaoResView {
            meta: self.meta@,
            ec: opt_views(self.ec),
            typos: opt_views(self.typos),
            blng_sents_part: opt_views(self.blng_sents_part),
        }
    }
}

/// A member that is there and not `null`.
pub open spec fn present(m: Option<Json>) -> Option<Json> {
    match m {
        Some(Json::Null) => None,
        _ => m,
    }
}

/// What reading an optional member gives once the member is known to be
/// there: the value read, or failure.
pub open spec fn found<T>(o: Option<T>) -> Option<Option<T>> {
    match o {
        Some(t) => Some(Some(t)),
        None => None,
    }
}

/// The string under `key`, which must be there.
pub open spec fn text_at(j: Json, key: Seq<char>) -> Option<Seq<char>> {
    match j.member(key) {
        Some(x) => x.text(),
        None => None,
    }
}

/// The string under `key`, which may be missing or `null`. The outer
/// result is absent where the member is there and no string.
pub open spec fn opt_text_at(j: Json, key: Seq<char>) -> Option<Option<Seq<char>>> {
    match present(j.member(key)) {
        Some(x) => found(x.text()),
        None => Some(None),
    }
}

/// The array under `key`, which must be there.
pub open spec fn items_at(j: Json, key: Seq<char>) -> Option<Seq<Json>> {
    match j.member(key) {
        Some(x) => x.items(),
        None => None,
    }
}

/// A fragment, read from any JSON value.
pub open spec fn fragment_of(j: Json) -> FragmentView {
    match j {
        Json::Str(s) => FragmentView::Text(s@),
        Json::Object(_) => match j.member("#text"@) {
            Some(Json::Str(t)) => FragmentView::Tagged(t@),
            _ => FragmentView::Untagged,
        },
        _ => FragmentView::Other,
    }
}

/// The fragments of an array, item by item.
pub open spec fn fragments_of(items: Seq<Json>) -> Seq<FragmentView> {
    Seq::new(items.len(), |k: int| fragment_of(items[k]))
}

/// The text of a meaning, read from the object under `l`: an optional
/// string `pos` and an array `i`.
pub open spec fn decode_l(j: Json) -> Option<TrsTrLView> {
    if !(j is Object) {
        None
    } else {
        match (opt_text_at(j, "pos"@), items_at(j, "i"@)) {
            (Some(pos), Some(items)) => Some(TrsTrLView { pos, i: fragments_of(items) }),
            _ => None,
        }
    }
}

/// One variant of a meaning: an object with the member `l`.
pub open spec fn decode_tr(j: Json) -> Option<TrsTrLView> {
    if j is Object {
        match j.member("l"@) {
            Some(l) => decode_l(l),
            None => None,
        }
    } else {
        None
    }
}

/// The variants of a meaning, all of which must be well-formed.
pub open spec fn decode_tr_list(items: Seq<Json>) -> Option<Seq<TrsTrLView>> {
    if forall|k: int| 0 <= k < items.len() ==> (#[trigger] decode_tr(items[k])) is Some {
        Some(Seq::new(items.len(), |k: int| decode_tr(items[k])->Some_0))
    } else {
        None
    }
}

/// One meaning: an object with the array `tr`.
pub open spec fn decode_trs(j: Json) -> Option<TrsView> {
    if j is Object {
        match items_at(j, "tr"@) {
            Some(items) => match decode_tr_list(items) {
                Some(tr) => Some(TrsView { tr }),
                None => None,
            },
            None => None,
        }
    } else {
        None
    }
}

/// The meanings of an entry, all of which must be well-formed.
pub open spec fn decode_trs_list(items: Seq<Json>) -> Option<Seq<TrsView>> {
    if forall|k: int| 0 <= k < items.len() ==> (#[trigger] decode_trs(items[k])) is Some {
        Some(Seq::new(items.len(), |k: int| decode_trs(items[k])->Some_0))
    } else {
        None
    }
}

/// The phrase as the provider writes it: the string `i` in the object `l`
/// in an object.
pub open spec fn decode_phrase(j: Json) -> Option<Seq<char>> {
    if j is Object {
        match j.member("l"@) {
            Some(l) => if l is Object {
                text_at(l, "i"@)
            } else {
                None
            },
            None => None,
        }
    } else {
        None
    }
}

/// The meanings under `trs`, which may be missing.
pub open spec fn opt_trs_at(j: Json) -> Option<Option<Seq<TrsView>>> {
    match present(j.member("trs"@)) {
        Some(x) => match x.items() {
            Some(items) => found(decode_trs_list(items)),
            None => None,
        },
        None => Some(None),
    }
}

/// The phrase under `return-phrase`, which may be missing.
pub open spec fn opt_phrase_at(j: Json) -> Option<Option<Seq<char>>> {
    match present(j.member("return-phrase"@)) {
        Some(x) => found(decode_phrase(x)),
        None => Some(None),
    }
}

/// One dictionary entry: an object whose members are all optional.
pub open spec fn decode_word(j: Json) -> Option<WordView> {
    if !(j is Object) {
        None
    } else {
        match (
            opt_text_at(j, "usphone"@),
            opt_text_at(j, "ukphone"@),
            opt_trs_at(j),
            opt_phrase_at(j),
        ) {
            (Some(usphone), Some(ukphone), Some(trs), Some(return_phrase)) => Some(
                WordView { usphone, ukphone, trs, return_phrase },
            ),
            _ => None,
        }
    }
}

/// The entries of an answer, all of which must be well-formed.
pub open spec fn decode_word_list(items: Seq<Json>) -> Option<Seq<WordView>> {
    if forall|k: int| 0 <= k < items.len() ==> (#[trigger] decode_word(items[k])) is Some {
        Some(Seq::new(items.len(), |k: int| decode_word(items[k])->Some_0))
    } else {
        None
    }
}

/// The dictionary entries: an object with the array `word`.
pub open spec fn decode_ec(j: Json) -> Option<Seq<WordView>> {
    if j is Object {
        match items_at(j, "word"@) {
            Some(items) => decode_word_list(items),
            None => None,
        }
    } else {
        None
    }
}

/// A sentence pair: an object with two strings.
pub open spec fn decode_pair(j: Json) -> Option<SentencePairView> {
    if !(j is Object) {
        None
    } else {
        match (text_at(j, "sentence"@), text_at(j, "sentence-translation"@)) {
            (Some(sentence), Some(sentence_translation)) => Some(
                SentencePairView { sentence, sentence_translation },
            ),
            _ => None,
        }
    }
}

/// The sentence pairs of an answer, all of which must be well-formed.
pub open spec fn decode_pair_list(items: Seq<Json>) -> Option<Seq<SentencePairView>> {
    if forall|k: int| 0 <= k < items.len() ==> (#[trigger] decode_pair(items[k])) is Some {
        Some(Seq::new(items.len(), |k: int| decode_pair(items[k])->Some_0))
    } else {
        None
    }
}

/// The example sentences: an object with the array `sentence-pair`.
pub open spec fn decode_sents(j: Json) -> Option<Seq<SentencePairView>> {
    if j is Object {
        match items_at(j, "sentence-pair"@) {
            Some(items) => decode_pair_list(items),
            None => None,
        }
    } else {
        None
    }
}

/// A suggestion: an object with two optional strings.
pub open spec fn decode_typo(j: Json) -> Option<TypoContentView> {
    if !(j is Object) {
        None
    } else {
        match (opt_text_at(j, "word"@), opt_text_at(j, "trans"@)) {
            (Some(word), Some(trans)) => Some(TypoContentView { word, trans }),
            _ => None,
        }
    }
}

/// The suggestions of an answer, all of which must be well-formed.
pub open spec fn decode_typo_list(items: Seq<Json>) -> Option<Seq<TypoContentView>> {
    if forall|k: int| 0 <= k < items.len() ==> (#[trigger] decode_typo(items[k])) is Some {
        Some(Seq::new(items.len(), |k: int| decode_typo(items[k])->Some_0))
    } else {
        None
    }
}

/// The suggestions: an object with the array `typo`.
pub open spec fn decode_typos(j: Json) -> Option<Seq<TypoContentView>> {
    if j is Object {
        match items_at(j, "typo"@) {
            Some(items) => decode_typo_list(items),
            None => None,
        }
    } else {
        None
    }
}

/// The strings of an array, all of whose items must be strings.
pub open spec fn decode_text_list(items: Seq<Json>) -> Option<Seq<Seq<char>>> {
    if forall|k: int| 0 <= k < items.len() ==> (#[trigger] items[k].text()) is Some {
        Some(Seq::new(items.len(), |k: int| items[k].text()->Some_0))
    } else {
        None
    }
}

/// The request's description: an object with three strings and an array
/// of strings.
pub open spec fn decode_meta(j: Json) -> Option<MetaView> {
    if !(j is Object) {
        None
    } else {
        match (
            text_at(j, "lang"@),
            text_at(j, "guessLanguage"@),
            text_at(j, "input"@),
            items_at(j, "dicts"@),
        ) {
            (Some(lang), Some(guess_language), Some(input), Some(items)) => match decode_text_list(
                items,
            ) {
                Some(dicts) => Some(MetaView { lang, guess_language, input, dicts }),
                None => None,
            },
            _ => None,
        }
    }
}

/// The member that holds the dictionary entries. It goes by two names, of
/// which an answer may use one; with both the answer is malformed.
pub open spec fn entries_member(j: Json) -> Option<Option<Json>> {
    match (j.member("ec"@), j.member("ce"@)) {
        (Some(_), Some(_)) => None,
        (Some(e), None) => Some(Some(e)),
        (None, Some(e)) => Some(Some(e)),
        (None, None) => Some(None),
    }
}

/// The dictionary entries of an answer, which may be missing.
pub open spec fn opt_ec_at(j: Json) -> Option<Option<Seq<WordView>>> {
    match entries_member(j) {
        Some(m) => match present(m) {
            Some(x) => found(decode_ec(x)),
            None => Some(None),
        },
        None => None,
    }
}

/// The suggestions of an answer, which may be missing.
pub open spec fn opt_typos_at(j: Json) -> Option<Option<Seq<TypoContentView>>> {
    match present(j.member("typos"@)) {
        Some(x) => found(decode_typos(x)),
        None => Some(None),
    }
}

/// The example sentences of an answer, which may be missing.
pub open spec fn opt_sents_at(j: Json) -> Option<Option<Seq<SentencePairView>>> {
    match present(j.member("blng_sents_part"@)) {
        Some(x) => found(decode_sents(x)),
        None => Some(None),
    }
}

/// The request's description of an answer, which must be there.
pub open spec fn meta_at(j: Json) -> Option<MetaView> {
    match j.member("meta"@) {
        Some(x) => decode_meta(x),
        None => None,
    }
}

/// The provider's answer, read from a JSON value; absent where the value
/// has another shape.
pub open spec fn decode_res(j: Json) -> Option<YoudaoResView> {
    if !(j is Object) {
        None
    } else {
        match (meta_at(j), opt_ec_at(j), opt_typos_at(j), opt_sents_at(j)) {
            (Some(meta), Some(ec), Some(typos), Some(blng_sents_part)) => Some(
                YoudaoResView { meta, ec, typos, blng_sents_part },
            ),
            _ => None,
        }
    }
}

fn read_text(j: &Json) -> (r: Option<String>)
    ensures
        opt_text(r) == j.text(),
{
    match j.as_str() {
        Some(s) => Some(String::from_str(s)),
        None => None,
    }
}

fn read_text_at(j: &Json, key: &str) -> (r: Option<String>)
    ensures
        opt_text(r) == text_at(*j, key@),
{
    match j.get(key) {
        Some(x) => read_text(x),
        None => None,
    }
}

fn get_present<'a>(j: &'a Json, key: &str) -> (r: Option<&'a Json>)
    ensures
        match r {
            Some(x) => present(j.member(key@)) == Some(*x),
            None => present(j.member(key@)) is None,
        },
{
    match j.get(key) {
        Some(x) => if x.is_null() {
            None
        } else {
            Some(x)
        },
        None => None,
    }
}

fn read_opt_text_at(j: &Json, key: &str) -> (r: Option<Option<String>>)
    ensures
        match r {
            Some(o) => opt_text_at(*j, key@) == Some(opt_text(o)),
            None => opt_text_at(*j, key@) is None,
        },
{
    match get_present(j, key) {
        Some(x) => match read_text(x) {
            Some(s) => Some(Some(s)),
            None => None,
        },
        None => Some(None),
    }
}

fn get_items_at<'a>(j: &'a Json, key: &str) -> (r: Option<&'a Vec<Json>>)
    ensures
        match r {
            Some(a) => items_at(*j, key@) == Some(a@),
            None => items_at(*j, key@) is None,
        },
{
    match j.get(key) {
        Some(x) => x.as_array(),
        None => None,
    }
}

fn read_fragment(j: &Json) -> (f: Fragment)
    ensures
        f@ == fragment_of(*j),
{
    match j {
        Json::Str(s) => Fragment::Text(s.clone()),
        Json::Object(_) => match j.get("#text") {
            Some(Json::Str(t)) => Fragment::Tagged(t.clone()),
            _ => Fragment::Untagged,
        },
        _ => Fragment::Other,
    }
}

fn read_fragments(items: &Vec<Json>) -> (out: Vec<Fragment>)
    ensures
        views(out@) == fragments_of(items@),
{
    let mut out: Vec<Fragment> = Vec::new();
    let mut i: usize = 0;
    while i < items.len()
        invariant
            i <= items.len(),
            out.len() == i,
            forall|k: int| 0 <= k < i ==> (#[trigger] out[k])@ == fragment_of(items[k]),
        decreases items.len() - i,
    {
        out.push(read_fragment(&items[i]));
        i = i + 1;
    }
    out
}

fn read_l(j: &Json) -> (r: Option<TrsTrL>)
    ensures
        opt_view(r) == decode_l(*j),
{
    if !j.is_object() {
        return None;
    }
    match (read_opt_text_at(j, "pos"), get_items_at(j, "i")) {
        (Some(pos), Some(items)) => Some(TrsTrL { pos, i: read_fragments(items) }),
        _ => None,
    }
}

fn read_tr(j: &Json) -> (r: Option<TrsTrL>)
    ensures
        opt_view(r) == decode_tr(*j),
{
    if !j.is_object() {
        return None;
    }
    match j.get("l") {
        Some(l) => read_l(l),
        None => None,
    }
}

fn read_tr_list(items: &Vec<Json>) -> (r: Option<Vec<TrsTrL>>)
    ensures
        opt_views(r) == decode_tr_list(items@),
{
    let mut out: Vec<TrsTrL> = Vec::new();
    let mut i: usize = 0;
    while i < items.len()
        invariant
            i <= items.len(),
            out.len() == i,
            forall|k: int| 0 <= k < i ==> #[trigger] decode_tr(items[k]) == Some(out[k]@),
        decreases items.len() - i,
    {
        match read_tr(&items[i]) {
            Some(x) => out.push(x),
            None => {
                return None;
            },
        }
        i = i + 1;
    }
    Some(out)
}

fn read_trs(j: &Json) -> (r: Option<Trs>)
    ensures
        opt_view(r) == decode_trs(*j),
{
    if !j.is_object() {
        return None;
    }
    match get_items_at(j, "tr") {
        Some(items) => match read_tr_list(items) {
            Some(tr) => Some(Trs { tr }),
            None => None,
        },
        None => None,
    }
}

fn read_trs_list(items: &Vec<Json>) -> (r: Option<Vec<Trs>>)
    ensures
        opt_views(r) == decode_trs_list(items@),
{
    let mut out: Vec<Trs> = Vec::new();
    let mut i: usize = 0;
    while i < items.len()
        invariant
            i <= items.len(),
            out.len() == i,
            forall|k: int| 0 <= k < i ==> #[trigger] decode_trs(items[k]) == Some(out[k]@),
        decreases items.len() - i,
    {
        match read_trs(&items[i]) {
            Some(x) => out.push(x),
            None => {
                return None;
            },
        }
        i = i + 1;
    }
    Some(out)
}

fn read_phrase(j: &Json) -> (r: Option<String>)
    ensures
        opt_text(r) == decode_phrase(*j),
{
    if !j.is_object() {
        return None;
    }
    match j.get("l") {
        Some(l) => if l.is_object() {
            read_text_at(l, "i")
        } else {
            None
        },
        None => None,
    }
}

fn read_opt_trs_at(j: &Json) -> (r: Option<Option<Vec<Trs>>>)
    ensures
        match r {
            Some(o) => opt_trs_at(*j) == Some(opt_views(o)),
            None => opt_trs_at(*j) is None,
        },
{
    match get_present(j, "trs") {
        Some(x) => match x.as_array() {
            Some(items) => match read_trs_list(items) {
                Some(v) => Some(Some(v)),
                None => None,
            },
            None => None,
        },
        None => Some(None),
    }
}

fn read_opt_phrase_at(j: &Json) -> (r: Option<Option<String>>)
    ensures
        match r {
            Some(o) => opt_phrase_at(*j) == Some(opt_text(o)),
            None => opt_phrase_at(*j) is None,
        },
{
    match get_present(j, "return-phrase") {
        Some(x) => match read_phrase(x) {
            Some(s) => Some(Some(s)),
            None => None,
        },
        None => Some(None),
    }
}

fn read_word(j: &Json) -> (r: Option<Word>)
    ensures
        opt_view(r) == decode_word(*j),
{
    if !j.is_object() {
        return None;
    }
    match (
        read_opt_text_at(j, "usphone"),
        read_opt_text_at(j, "ukphone"),
        read_opt_trs_at(j),
        read_opt_phrase_at(j),
    ) {
        (Some(usphone), Some(ukphone), Some(trs), Some(return_phrase)) => Some(
            Word { usphone, ukphone, trs, return_phrase },
        ),
        _ => None,
    }
}

fn read_word_list(items: &Vec<Json>) -> (r: Option<Vec<Word>>)
    ensures
        opt_views(r) == decode_word_list(items@),
{
    let mut out: Vec<Word> = Vec::new();
    let mut i: usize = 0;
    while i < items.len()
        invariant
            i <= items.len(),
            out.len() == i,
            forall|k: int| 0 <= k < i ==> #[trigger] decode_word(items[k]) == Some(out[k]@),
        decreases items.len() - i,
    {
        match read_word(&items[i]) {
            Some(x) => out.push(x),
            None => {
                return None;
            },
        }
        i = i + 1;
    }
    Some(out)
}

fn read_ec(j: &Json) -> (r: Option<Vec<Word>>)
    ensures
        opt_views(r) == decode_ec(*j),
{
    if !j.is_object() {
        return None;
    }
    match get_items_at(j, "word") {
        Some(items) => read_word_list(items),
        None => None,
    }
}

fn read_pair(j: &Json) -> (r: Option<SentencePair>)
    ensures
        opt_view(r) == decode_pair(*j),
{
    if !j.is_object() {
        return None;
    }
    match (read_text_at(j, "sentence"), read_text_at(j, "sentence-translation")) {
        (Some(sentence), Some(sentence_translation)) => Some(
            SentencePair { sentence, sentence_translation },
        ),
        _ => None,
    }
}

fn read_pair_list(items: &Vec<Json>) -> (r: Option<Vec<SentencePair>>)
    ensures
        opt_views(r) == decode_pair_list(items@),
{
    let mut out: Vec<SentencePair> = Vec::new();
    let mut i: usize = 0;
    while i < items.len()
        invariant
            i <= items.len(),
            out.len() == i,
            forall|k: int| 0 <= k < i ==> #[trigger] decode_pair(items[k]) == Some(out[k]@),
        decreases items.len() - i,
    {
        match read_pair(&items[i]) {
            Some(x) => out.push(x),
            None => {
                return None;
            },
        }
        i = i + 1;
    }
    Some(out)
}

fn read_sents(j: &Json) -> (r: Option<Vec<SentencePair>>)
    ensures
        opt_views(r) == decode_sents(*j),
{
    if !j.is_object() {
        return None;
    }
    match get_items_at(j, "sentence-pair") {
        Some(items) => read_pair_list(items),
        None => None,
    }
}

fn read_typo(j: &Json) -> (r: Option<TypoContent>)
    ensures
        opt_view(r) == decode_typo(*j),
{
    if !j.is_object() {
        return None;
    }
    match (read_opt_text_at(j, "word"), read_opt_text_at(j, "trans")) {
        (Some(word), Some(trans)) => Some(TypoContent { word, trans }),
        _ => None,
    }
}

fn read_typo_list(items: &Vec<Json>) -> (r: Option<Vec<TypoContent>>)
    ensures
        opt_views(r) == decode_typo_list(items@),
{
    let mut out: Vec<TypoContent> = Vec::new();
    let mut i: usize = 0;
    while i < items.len()
        invariant
            i <= items.len(),
            out.len() == i,
            forall|k: int| 0 <= k < i ==> #[trigger] decode_typo(items[k]) == Some(out[k]@),
        decreases items.len() - i,
    {
        match read_typo(&items[i]) {
            Some(x) => out.push(x),
            None => {
                return None;
            },
        }
        i = i + 1;
    }
    Some(out)
}

fn read_typos(j: &Json) -> (r: Option<Vec<TypoContent>>)
    ensures
        opt_views(r) == decode_typos(*j),
{
    if !j.is_object() {
        return None;
    }
    match get_items_at(j, "typo") {
        Some(items) => read_typo_list(items),
        None => None,
    }
}

fn read_text_list(items: &Vec<Json>) -> (r: Option<Vec<String>>)
    ensures
        match r {
            Some(v) => decode_text_list(items@) == Some(texts(v@)),
            None => decode_text_list(items@) is None,
        },
{
    let mut out: Vec<String> = Vec::new();
    let mut i: usize = 0;
    while i < items.len()
        invariant
            i <= items.len(),
            out.len() == i,
            forall|k: int| 0 <= k < i ==> #[trigger] items[k].text() == Some(out[k]@),
        decreases items.len() - i,
    {
        match read_text(&items[i]) {
            Some(x) => out.push(x),
            None => {
                return None;
            },
        }
        i = i + 1;
    }
    Some(out)
}

fn read_meta(j: &Json) -> (r: Option<Meta>)
    ensures
        opt_view(r) == decode_meta(*j),
{
    if !j.is_object() {
        return None;
    }
    match (
        read_text_at(j, "lang"),
        read_text_at(j, "guessLanguage"),
        read_text_at(j, "input"),
        get_items_at(j, "dicts"),
    ) {
        (Some(lang), Some(guess_language), Some(input), Some(items)) => match read_text_list(
            items,
        ) {
            Some(dicts) => Some(Meta { lang, guess_language, input, dicts }),
            None => None,
        },
        _ => None,
    }
}

fn read_opt_ec_at(j: &Json) -> (r: Option<Option<Vec<Word>>>)
    ensures
        match r {
            Some(o) => opt_ec_at(*j) == Some(opt_views(o)),
            None => opt_ec_at(*j) is None,
        },
{
    let m = match (j.get("ec"), j.get("ce")) {
        (Some(_), Some(_)) => {
            return None;
        },
        (Some(e), None) => Some(e),
        (None, Some(e)) => Some(e),
        (None, None) => None,
    };
    match m {
        Some(x) => if x.is_null() {
            Some(None)
        } else {
            match read_ec(x) {
                Some(v) => Some(Some(v)),
                None => None,
            }
        },
        None => Some(None),
    }
}

fn read_opt_typos_at(j: &Json) -> (r: Option<Option<Vec<TypoContent>>>)
    ensures
        match r {
            Some(o) => opt_typos_at(*j) == Some(opt_views(o)),
            None => opt_typos_at(*j) is None,
        },
{
    match get_present(j, "typos") {
        Some(x) => match read_typos(x) {
            Some(v) => Some(Some(v)),
            None => None,
        },
        None => Some(None),
    }
}

fn read_opt_sents_at(j: &Json) -> (r: Option<Option<Vec<SentencePair>>>)
    ensures
        match r {
            Some(o) => opt_sents_at(*j) == Some(opt_views(o)),
            None => opt_sents_at(*j) is None,
        },
{
    match get_present(j, "blng_sents_part") {
        Some(x) => match read_sents(x) {
            Some(v) => Some(Some(v)),
            None => None,
        },
        None => Some(None),
    }
}

fn read_meta_at(j: &Json) -> (r: Option<Meta>)
    ensures
        opt_view(r) == meta_at(*j),
{
    match j.get("meta") {
        Some(x) => read_meta(x),
        None => None,
    }
}

impl YoudaoRes {
    /// Reads the provider's answer from a JSON value. A value of another
    /// shape gives a decode error.
    pub fn from_json(j: &Json) -> (r: Result<YoudaoRes, DictError>)
        ensures
            match decode_res(*j) {
                Some(v) => r is Ok && r->Ok_0@ == v,
                None => r is Err && is_malformed(r->Err_0),
            },
    {
        if !j.is_object() {
            return Err(malformed());
        }
        match (read_meta_at(j), read_opt_ec_at(j), read_opt_typos_at(j), read_opt_sents_at(j)) {
            (Some(meta), Some(ec), Some(typos), Some(blng_sents_part)) => Ok(
                YoudaoRes { meta, ec, typos, blng_sents_part },
            ),
            _ => Err(malformed()),
        }
    }
}

/// The texts of some fragments written one after the other. A plain
/// string and a tagged object give their text, any other value gives
/// nothing; an object without a text makes the whole absent.
pub open spec fn fragments_text(fs: Seq<FragmentView>) -> Option<Seq<char>>
    decreases fs.len(),
{
    if fs.len() == 0 {
        Some(Seq::empty())
    } else {
        match (fragments_text(fs.drop_last()), fs.last()) {
            (Some(t), FragmentView::Text(s)) => Some(t + s),
            (Some(t), FragmentView::Tagged(s)) => Some(t + s),
            (Some(t), FragmentView::Other) => Some(t),
            _ => None,
        }
    }
}

/// The part of speech, or the empty text where there is none.
pub open spec fn pos_text(pos: Option<Seq<char>>) -> Seq<char> {
    match pos {
        Some(p) => p,
        None => Seq::empty(),
    }
}

/// The text of a meaning. Where the phrase was taken for Chinese (`zh`),
/// it is the part of speech followed by all fragments; otherwise it is the
/// first fragment, which must be a plain string.
pub open spec fn extract_text(l: TrsTrLView, lang: Seq<char>) -> Option<Seq<char>> {
    if lang == "zh"@ {
        match fragments_text(l.i) {
            Some(t) => Some(pos_text(l.pos) + t),
            None => None,
        }
    } else if l.i.len() > 0 {
        match l.i[0] {
            FragmentView::Text(s) => Some(s),
            _ => None,
        }
    } else {
        None
    }
}

/// The explanation that a meaning gives: the text of its first variant.
pub open spec fn explain_of(t: TrsView, lang: Seq<char>) -> Option<ExplainView> {
    if t.tr.len() > 0 {
        match extract_text(t.tr[0], lang) {
            Some(content) => Some(ExplainView { content }),
            None => None,
        }
    } else {
        None
    }
}

/// The explanations of some meanings, all of which must give one.
pub open spec fn explain_list(ts: Seq<TrsView>, lang: Seq<char>) -> Option<Seq<ExplainView>> {
    if forall|k: int| 0 <= k < ts.len() ==> (#[trigger] explain_of(ts[k], lang)) is Some {
        Some(Seq::new(ts.len(), |k: int| explain_of(ts[k], lang)->Some_0))
    } else {
        None
    }
}

/// The explanations of an entry; none where it has no meanings.
pub open spec fn explains_of(trs: Option<Seq<TrsView>>, lang: Seq<char>) -> Option<
    Seq<ExplainView>,
> {
    match trs {
        Some(ts) => explain_list(ts, lang),
        None => Some(Seq::empty()),
    }
}

/// A transcription counts only where it is not the empty text.
pub open spec fn valid_phonetic(p: Option<Seq<char>>) -> Option<Seq<char>> {
    match p {
        Some(t) => if t.len() == 0 {
            None
        } else {
            p
        },
        None => None,
    }
}

/// The phonetic block of an entry: there as soon as one transcription
/// counts, and then holding those that count.
pub open spec fn phonetic_of(w: WordView) -> Option<PhoneticView> {
    let uk = valid_phonetic(w.ukphone);
    let us = valid_phonetic(w.usphone);
    if uk is None && us is None {
        None
    } else {
        Some(PhoneticView { us, uk })
    }
}

/// A list as a section of the record: absent where it is empty.
pub open spec fn section<T>(s: Seq<T>) -> Option<Seq<T>> {
    if s.len() == 0 {
        None
    } else {
        Some(s)
    }
}

/// The suggestion that the record holds for one of the provider's.
pub open spec fn typo_of(t: TypoContentView) -> TypoView {
    TypoView { guessing: t.word, meaning: t.trans }
}

/// The suggestions of the record.
pub open spec fn typos_of(ts: Option<Seq<TypoContentView>>) -> Option<Seq<TypoView>> {
    match ts {
        Some(ts) => section(Seq::new(ts.len(), |k: int| typo_of(ts[k]))),
        None => None,
    }
}

/// The example that the record holds for one sentence pair.
pub open spec fn example_of(p: SentencePairView) -> ExampleView {
    ExampleView { sentence_eng: p.sentence, trans: p.sentence_translation }
}

/// The examples of the record.
pub open spec fn examples_of(ps: Option<Seq<SentencePairView>>) -> Option<Seq<ExampleView>> {
    match ps {
        Some(ps) => section(Seq::new(ps.len(), |k: int| example_of(ps[k]))),
        None => None,
    }
}

/// The phrase of the record: the one the provider returns with the entry,
/// else the one it was asked for.
pub open spec fn phrase_of(w: WordView, meta: MetaView) -> Seq<char> {
    match w.return_phrase {
        Some(p) => p,
        None => meta.input,
    }
}

/// The vocabulary record of an answer. Without dictionary entries the
/// record holds the suggestions alone. With entries the first one gives
/// phrase, phonetics and explanations, and the answer's sentence pairs
/// give the examples. The record is absent where the list of entries is
/// empty or a meaning gives no text.
pub open spec fn normalized(res: YoudaoResView) -> Option<VocabView> {
    match res.ec {
        None => Some(
            VocabView {
                phrase: res.meta.input,
                phonetic: None,
                explains: None,
                examples: None,
                typo: typos_of(res.typos),
            },
        ),
        Some(words) => if words.len() == 0 {
            None
        } else {
            match explains_of(words[0].trs, res.meta.guess_language) {
                Some(es) => Some(
                    VocabView {
                        phrase: phrase_of(words[0], res.meta),
                        phonetic: phonetic_of(words[0]),
                        explains: section(es),
                        examples: examples_of(res.blng_sents_part),
                        typo: typos_of(res.typos),
                    },
                ),
                None => None,
            }
        },
    }
}

/// The vocabulary record that a byte string gives: it must be JSON text,
/// of the shape of an answer, with meanings that give text.
pub open spec fn record_of(bytes: Seq<u8>) -> Option<VocabView> {
    match parsed(bytes) {
        Some(j) => match decode_res(j) {
            Some(res) => normalized(res),
            None => None,
        },
        None => None,
    }
}

impl VocabView {
    /// No section of the record is an empty list, and no transcription in
    /// it is the empty text.
    pub open spec fn well_formed(self) -> bool {
        &&& self.explains matches Some(es) ==> es.len() > 0
        &&& self.examples matches Some(es) ==> es.len() > 0
        &&& self.typo matches Some(ts) ==> ts.len() > 0
        &&& self.phonetic matches Some(p) ==> {
            &&& p.uk is Some || p.us is Some
            &&& p.uk matches Some(t) ==> t.len() > 0
            &&& p.us matches Some(t) ==> t.len() > 0
        }
    }
}

/// Every record that normalisation gives is well-formed: a section is
/// there only with something in it.
pub proof fn lemma_normalized_well_formed(res: YoudaoResView)
    ensures
        normalized(res) matches Some(v) ==> v.well_formed(),
{
}

fn copy_opt(o: &Option<String>) -> (r: Option<String>)
    ensures
        opt_text(r) == opt_text(*o),
{
    match o {
        Some(s) => Some(s.clone()),
        None => None,
    }
}

fn keep_valid(o: &Option<String>) -> (r: Option<String>)
    ensures
        opt_text(r) == valid_phonetic(opt_text(*o)),
{
    match o {
        Some(s) => if s.as_str().unicode_len() == 0 {
            None
        } else {
            Some(s.clone())
        },
        None => None,
    }
}

impl TrsTrL {
    /// The text of this meaning for a phrase taken to be of language
    /// `lang`; nothing where the fragments do not give one.
    pub fn extract(&self, lang: &str) -> (r: Option<String>)
        ensures
            opt_text(r) == extract_text(self@, lang@),
    {
        if same_text(lang, "zh") {
            let mut s = String::new();
            if let Some(x) = &self.pos {
                s.append(x.as_str());
            }
            let ghost all = views(self.i@);
            let ghost mut t: Seq<char> = Seq::empty();
            let mut k: usize = 0;
            while k < self.i.len()
                invariant
                    k <= self.i.len(),
                    lang@ == "zh"@,
                    all == self@.i,
                    all == views(self.i@),
                    fragments_text(all.take(k as int)) == Some(t),
                    s@ == pos_text(self@.pos) + t,
                decreases self.i.len() - k,
            {
                assert(all.take(k + 1).drop_last() =~= all.take(k as int));
                match &self.i[k] {
                    Fragment::Text(v) => {
                        s.append(v.as_str());
                        proof {
                            t = t + v@;
                        }
                    },
                    Fragment::Tagged(v) => {
                        s.append(v.as_str());
                        proof {
                            t = t + v@;
                        }
                    },
                    Fragment::Other => {},
                    Fragment::Untagged => {
                        proof {
                            lemma_fragments_text_fails(all, k as int);
                        }
                        return None;
                    },
                }
                k = k + 1;
            }
            assert(all.take(k as int) =~= all);
            Some(s)
        } else if self.i.len() > 0 {
            match &self.i[0] {
                Fragment::Text(v) => Some(v.clone()),
                _ => None,
            }
        } else {
            None
        }
    }
}

/// Fragments with an object without a text among them give no text.
pub proof fn lemma_fragments_text_fails(fs: Seq<FragmentView>, k: int)
    requires
        0 <= k < fs.len(),
        fs[k] is Untagged,
    ensures
        fragments_text(fs) is None,
    decreases fs.len(),
{
    if k < fs.len() - 1 {
        lemma_fragments_text_fails(fs.drop_last(), k);
    }
}

fn explain(t: &Trs, lang: &str) -> (r: Option<Explain>)
    ensures
        opt_view(r) == explain_of(t@, lang@),
{
    if t.tr.len() > 0 {
        match t.tr[0].extract(lang) {
            Some(content) => Some(Explain { content }),
            None => None,
        }
    } else {
        None
    }
}

fn explains(trs: &Option<Vec<Trs>>, lang: &str) -> (r: Option<Vec<Explain>>)
    ensures
        opt_views(r) == explains_of(opt_views(*trs), lang@),
{
    let mut out: Vec<Explain> = Vec::new();
    match trs {
        Some(ts) => {
            let mut i: usize = 0;
            while i < ts.len()
                invariant
                    i <= ts.len(),
                    out.len() == i,
                    opt_views(*trs) == Some(views(ts@)),
                    forall|k: int|
                        0 <= k < i ==> #[trigger] explain_of(views(ts@)[k], lang@) == Some(
                            out[k]@,
                        ),
                decreases ts.len() - i,
            {
                match explain(&ts[i], lang) {
                    Some(e) => out.push(e),
                    None => {
                        assert(explain_of(views(ts@)[i as int], lang@) is None);
                        return None;
                    },
                }
                i = i + 1;
            }
            Some(out)
        },
        None => {
            Some(out)
        },
    }
}

fn typo_section(ts: &Option<Vec<TypoContent>>) -> (r: Option<Vec<Typo>>)
    ensures
        opt_views(r) == typos_of(opt_views(*ts)),
{
    match ts {
        Some(ts) => {
            if ts.len() == 0 {
                return None;
            }
            let mut out: Vec<Typo> = Vec::new();
            let mut i: usize = 0;
            while i < ts.len()
                invariant
                    i <= ts.len(),
                    out.len() == i,
                    forall|k: int| 0 <= k < i ==> (#[trigger] out[k])@ == typo_of(ts[k]@),
                decreases ts.len() - i,
            {
                out.push(Typo { guessing: copy_opt(&ts[i].word), meaning: copy_opt(&ts[i].trans) });
                i = i + 1;
            }
            Some(out)
        },
        None => None,
    }
}

fn example_section(ps: &Option<Vec<SentencePair>>) -> (r: Option<Vec<Example>>)
    ensures
        opt_views(r) == examples_of(opt_views(*ps)),
{
    match ps {
        Some(ps) => {
            if ps.len() == 0 {
                return None;
            }
            let mut out: Vec<Example> = Vec::new();
            let mut i: usize = 0;
            while i < ps.len()
                invariant
                    i <= ps.len(),
                    out.len() == i,
                    forall|k: int| 0 <= k < i ==> (#[trigger] out[k])@ == example_of(ps[k]@),
                decreases ps.len() - i,
            {
                out.push(
                    Example {
                        sentence_eng: ps[i].sentence.clone(),
                        trans: ps[i].sentence_translation.clone(),
                    },
                );
                i = i + 1;
            }
            Some(out)
        },
        None => None,
    }
}

fn phonetic(w: &Word) -> (r: Option<Phonetic>)
    ensures
        opt_view(r) == phonetic_of(w@),
{
    let uk = keep_valid(&w.ukphone);
    let us = keep_valid(&w.usphone);
    if uk.is_none() && us.is_none() {
        None
    } else {
        Some(Phonetic { us, uk })
    }
}

impl VocabBody {
    /// Brings the provider's answer into a vocabulary record. An answer
    /// whose entries or meanings give nothing to read is a decode error.
    pub fn from_response(res: &YoudaoRes) -> (r: Result<VocabBody, DictError>)
        ensures
            match normalized(res@) {
                Some(v) => r is Ok && r->Ok_0@ == v && v.well_formed(),
                None => r is Err && is_malformed(r->Err_0),
            },
    {
        let typo = typo_section(&res.typos);
        match &res.ec {
            None => Ok(
                VocabBody {
                    phrase: res.meta.input.clone(),
                    phonetic: None,
                    explains: None,
                    examples: None,
                    typo,
                },
            ),
            Some(words) => {
                if words.len() == 0 {
                    return Err(malformed());
                }
                let w = &words[0];
                match explains(&w.trs, res.meta.guess_language.as_str()) {
                    Some(es) => {
                        let phrase = match &w.return_phrase {
                            Some(p) => p.clone(),
                            None => res.meta.input.clone(),
                        };
                        let explains = if es.len() == 0 {
                            None
                        } else {
                            Some(es)
                        };
                        Ok(
                            VocabBody {
                                phrase,
                                phonetic: phonetic(w),
                                explains,
                                examples: example_section(&res.blng_sents_part),
                                typo,
                            },
                        )
                    },
                    None => Err(malformed()),
                }
            },
        }
    }

    /// Reads a vocabulary record from the raw bytes of an answer. Bytes
    /// that are no JSON text, or no answer, give a decode error.
    pub fn from_bytes(bytes: &[u8]) -> (r: Result<VocabBody, DictError>)
        ensures
            match record_of(bytes@) {
                Some(v) => r is Ok && r->Ok_0@ == v && v.well_formed(),
                None => r is Err && is_decode_error(r->Err_0),
            },
            record_of(bytes@) is None && parsed(bytes@) is Some ==> is_malformed(r->Err_0),
    {
        match parse(bytes) {
            Ok(j) => match YoudaoRes::from_json(&j) {
                Ok(res) => VocabBody::from_response(&res),
                Err(e) => Err(e),
            },
            Err(e) => Err(e),
        }
    }
}

} // verus!
