//! One lookup from start to finish, as decisions: what to ask the cache
//! for, when to go to the network, what to write back. The caller reads
//! the cache and talks to the network; the history of lookups is listed
//! from the keys the cache holds.

use crate::handler::youdao::record_of;
use crate::handler::{
    audio_code, audio_request, layout_of, meaning_request, AudioType, Engines, Request,
    RequestView, VocabBody,
};
use crate::json::is_decode_error;
use crate::result::{DictError, IoKind};
use crate::text::{blanks, decimal, decimal_text, lowercase, spaces, texts, to_lower, utf8_text};
use crate::util::{
    align_left, align_right, aligned_left, aligned_right, bare, joined, paint, painting_of,
    push_bare, push_styled, span_views, styled, ColorfulRole, Span, SpanView,
};
use vstd::prelude::*;
use vstd::slice::slice_to_vec;
use vstd::string::*;
use vstd::utf8::{decode_utf8, valid_utf8};

verus! {

/// One lookup: the phrase, the engine asked, and the raw answer once the
/// lookup has been made.
#[derive(Debug)]
pub struct QueryTarget {
    pub engine: Engines,
    pub phrase: String,
    pub raw: Option<Vec<u8>>,
}

/// A lookup as contracts see it.
pub struct QueryTargetView {
    pub engine: Engines,
    pub phrase: Seq<char>,
    pub raw: Option<Seq<u8>>,
}

/// The bytes that an optional buffer holds.
pub open spec fn opt_bytes(o: Option<Vec<u8>>) -> Option<Seq<u8>> {
    match o {
        Some(b) => Some(b@),
        None => None,
    }
}

impl View for QueryTarget {
    type V = QueryTargetView;

    open spec fn view(&self) -> QueryTargetView {
        QueryTargetView { engine: self.engine, phrase: self.phrase@, raw: opt_bytes(self.raw) }
    }
}

/// What the caller does next for a lookup.
#[derive(Debug)]
pub enum QueryStep {
    /// The engine is not built: show the notice and end the program.
    Halt,
    /// The answer is there; nothing goes over the network.
    Done,
    /// Send this request and hand the response to `accept`.
    Fetch(Request),
}

/// A step as contracts see it.
pub enum QueryStepView {
    Halt,
    Done,
    Fetch(RequestView),
}

impl View for QueryStep {
    type V = QueryStepView;

    open spec fn view(&self) -> QueryStepView {
        match self {
            QueryStep::Halt => QueryStepView::Halt,
            QueryStep::Done => QueryStepView::Done,
            QueryStep::Fetch(r) => QueryStepView::Fetch(r@),
        }
    }
}

/// What the caller does next for a pronunciation.
#[derive(Debug)]
pub enum AudioStep {
    /// The cache held the audio.
    Ready(Vec<u8>),
    /// Send this request; the response is the audio.
    Fetch(Request),
}

/// An entry of the cache: the raw answer under its key.
#[derive(Debug)]
pub struct CacheRecord {
    pub key: String,
    pub value: Vec<u8>,
}

/// The key under which the cache holds the answer for a phrase: the phrase
/// in lower case.
pub open spec fn cache_key_of(phrase: Seq<char>) -> Seq<char> {
    lowercase(phrase)
}

/// The key under which the cache holds a pronunciation of a phrase.
pub open spec fn audio_key_of(phrase: Seq<char>, t: AudioType) -> Seq<char> {
    lowercase(phrase) + "_"@ + audio_code(t)
}

/// What a cache read counts as: a read that failed counts as a miss.
pub open spec fn cache_answer<E>(found: Result<Option<Vec<u8>>, E>) -> Option<Seq<u8>> {
    match found {
        Ok(Some(b)) => Some(b@),
        _ => None,
    }
}

/// The lookup after the cache has answered, and what the caller does
/// next. The second engine halts. Else a hit becomes the raw answer and
/// the lookup is done; a miss asks the provider for the phrase in lower
/// case.
pub open spec fn query_step(t: QueryTargetView, cached: Option<Seq<u8>>) -> (
    QueryTargetView,
    QueryStepView,
) {
    match t.engine {
        Engines::Bing => (t, QueryStepView::Halt),
        Engines::Youdao => match cached {
            Some(b) => (QueryTargetView { raw: Some(b), ..t }, QueryStepView::Done),
            None => (t, QueryStepView::Fetch(meaning_request(lowercase(t.phrase)))),
        },
    }
}

/// The cache after a lookup has been saved into it: the raw answer stands
/// under the phrase's key, whatever stood there before.
pub open spec fn store_after_save(
    store: Map<Seq<char>, Seq<u8>>,
    t: QueryTargetView,
) -> Map<Seq<char>, Seq<u8>> {
    match t.raw {
        Some(b) => store.insert(cache_key_of(t.phrase), b),
        None => store,
    }
}

/// What the cache holds under a key.
pub open spec fn store_get(store: Map<Seq<char>, Seq<u8>>, key: Seq<char>) -> Option<Seq<u8>> {
    if store.dom().contains(key) {
        Some(store[key])
    } else {
        None
    }
}

/// A phrase that was saved is served from the cache: a later lookup of a
/// phrase with the same key, answered by the cache as it is after the
/// save, sends nothing over the network, holds the bytes that were saved,
/// and so gives the same vocabulary record.
pub proof fn lemma_saved_phrase_hits_cache(
    store: Map<Seq<char>, Seq<u8>>,
    saved: QueryTargetView,
    asking: QueryTargetView,
)
    requires
        saved.raw is Some,
        asking.engine == Engines::Youdao,
        cache_key_of(asking.phrase) == cache_key_of(saved.phrase),
    ensures
        ({
            let after_save = store_after_save(store, saved);
            let cached = store_get(after_save, cache_key_of(asking.phrase));
            let (after, step) = query_step(asking, cached);
            &&& step is Done
            &&& after.raw == saved.raw
            &&& record_of(after.raw->Some_0) == record_of(saved.raw->Some_0)
        }),
{
}

/// Saving twice is saving once: the second write changes nothing.
pub proof fn lemma_save_idempotent(store: Map<Seq<char>, Seq<u8>>, t: QueryTargetView)
    ensures
        store_after_save(store_after_save(store, t), t) == store_after_save(store, t),
{
}

impl QueryTarget {
    /// A lookup that has not been made yet.
    pub fn new(phrase: String, engine: Engines) -> (t: QueryTarget)
        ensures
            t@ == (QueryTargetView { engine, phrase: phrase@, raw: None }),
    {
        QueryTarget { phrase, engine, raw: None }
    }

    /// The key of this lookup in the cache.
    pub fn cache_key(&self) -> (key: String)
        ensures
            key@ == cache_key_of(self@.phrase),
    {
        to_lower(self.phrase.as_str())
    }

    /// The key of a pronunciation of this phrase in the cache.
    pub fn audio_key(&self, t: AudioType) -> (key: String)
        ensures
            key@ == audio_key_of(self@.phrase, t),
    {
        let mut key = to_lower(self.phrase.as_str());
        key.append("_");
        key.append(t.code());
        key
    }

    /// Takes what a read of the cache gave. A cache that could not be
    /// read does not stop the lookup: it counts as a miss.
    pub fn from_cache(&self, found: Result<Option<Vec<u8>>, DictError>) -> (r: Option<Vec<u8>>)
        ensures
            opt_bytes(r) == cache_answer(found),
    {
        match found {
            Ok(Some(b)) => Some(b),
            _ => None,
        }
    }

    /// Decides the lookup once the cache has answered: see `query_step`.
    pub fn query_meaning(&mut self, cached: Option<Vec<u8>>) -> (step: QueryStep)
        ensures
            (final(self)@, step@) == query_step(old(self)@, opt_bytes(cached)),
    {
        match self.engine {
            Engines::Bing => QueryStep::Halt,
            Engines::Youdao => match cached {
                Some(b) => {
                    self.raw = Some(b);
                    QueryStep::Done
                },
                None => {
                    let key = to_lower(self.phrase.as_str());
                    match self.engine.request_meaning(key.as_str()) {
                        Some(r) => QueryStep::Fetch(r),
                        None => QueryStep::Halt,
                    }
                },
            },
        }
    }

    /// Takes the provider's response to a request of `query_meaning`. A
    /// response becomes the raw answer; a failure is handed back as it
    /// came and leaves the lookup as it was.
    pub fn accept(&mut self, response: Result<Vec<u8>, DictError>) -> (r: Result<(), DictError>)
        ensures
            final(self)@.engine == old(self)@.engine,
            final(self)@.phrase == old(self)@.phrase,
            match response {
                Ok(b) => r is Ok && final(self)@.raw == Some(b@),
                Err(e) => r == Err::<(), DictError>(e) && final(self)@.raw == old(self)@.raw,
            },
    {
        match response {
            Ok(b) => {
                self.raw = Some(b);
                Ok(())
            },
            Err(e) => Err(e),
        }
    }

    /// The entry to write into the cache: the raw answer under the
    /// phrase's key. Before a lookup has been made there is nothing to
    /// save, which is an error.
    pub fn save(&self) -> (r: Result<CacheRecord, DictError>)
        ensures
            match self@.raw {
                Some(b) => r is Ok && r->Ok_0.key@ == cache_key_of(self@.phrase) && r->Ok_0.value@
                    == b,
                None => r matches Err(DictError::Io(kind, _)) && kind == IoKind::NotFound,
            },
    {
        match &self.raw {
            Some(b) => Ok(CacheRecord { key: self.cache_key(), value: slice_to_vec(b.as_slice()) }),
            None => Err(DictError::Io(IoKind::NotFound, "nothing to save")),
        }
    }

    /// Decides where a pronunciation comes from once the cache has
    /// answered: from the cache on a hit, from the provider on a miss.
    pub fn query_audio(&self, t: AudioType, cached: Option<Vec<u8>>) -> (step: AudioStep)
        ensures
            match cached {
                Some(b) => step matches AudioStep::Ready(a) && a@ == b@,
                None => step matches AudioStep::Fetch(r) && r@ == audio_request(
                    lowercase(self@.phrase),
                    t,
                ),
            },
    {
        match cached {
            Some(b) => AudioStep::Ready(b),
            None => {
                let key = to_lower(self.phrase.as_str());
                AudioStep::Fetch(self.engine.request_audio(key.as_str(), t))
            },
        }
    }

    /// The vocabulary record of the raw answer. Before a lookup has been
    /// made there is none; a raw answer that is no answer of the provider
    /// gives a decode error.
    pub fn vocab(&self) -> (r: Result<VocabBody, DictError>)
        ensures
            match self@.raw {
                Some(b) => match record_of(b) {
                    Some(v) => r is Ok && r->Ok_0@ == v,
                    None => r is Err && is_decode_error(r->Err_0),
                },
                None => r matches Err(DictError::Io(kind, _)) && kind == IoKind::NotFound,
            },
    {
        match &self.raw {
            Some(b) => VocabBody::from_bytes(b.as_slice()),
            None => Err(DictError::Io(IoKind::NotFound, "nothing to show")),
        }
    }

    /// Writes the answer for the terminal: the record of the raw answer,
    /// laid out and painted.
    pub fn display(&self) -> (r: Result<String, DictError>)
        ensures
            match self@.raw {
                Some(b) => match record_of(b) {
                    Some(v) => r is Ok && exists|parts: Seq<Seq<char>>|
                        painting_of(layout_of(v), parts) && r->Ok_0@ == joined(parts),
                    None => r is Err && is_decode_error(r->Err_0),
                },
                None => r matches Err(DictError::Io(kind, _)) && kind == IoKind::NotFound,
            },
    {
        match self.vocab() {
            Ok(vb) => Ok(vb.to_string()),
            Err(e) => Err(e),
        }
    }
}

/// The phrases looked up before, as the cache lists them.
#[derive(Debug)]
pub struct History(pub Vec<String>);

/// The byte strings that a vector of buffers holds.
pub open spec fn byte_strings(v: Seq<Vec<u8>>) -> Seq<Seq<u8>> {
    Seq::new(v.len(), |i: int| v[i]@)
}

/// The keys that are well-formed UTF-8, decoded, in their order. A key
/// that is not is left out.
pub open spec fn decoded_keys(keys: Seq<Seq<u8>>) -> Seq<Seq<char>>
    decreases keys.len(),
{
    if keys.len() == 0 {
        Seq::empty()
    } else if valid_utf8(keys.last()) {
        decoded_keys(keys.drop_last()).push(decode_utf8(keys.last()))
    } else {
        decoded_keys(keys.drop_last())
    }
}

/// The first `n` keys, or all of them where there are fewer.
pub open spec fn first_keys(keys: Seq<Seq<u8>>, n: nat) -> Seq<Seq<u8>> {
    if n < keys.len() {
        keys.take(n as int)
    } else {
        keys
    }
}

/// The history of up to `n` lookups, given the keys of the cache in the
/// order in which the cache lists them.
pub open spec fn history_of(keys: Seq<Seq<u8>>, n: nat) -> Seq<Seq<char>> {
    decoded_keys(first_keys(keys, n))
}

/// A history is never longer than the keys it is read from.
pub proof fn lemma_decoded_keys_len(keys: Seq<Seq<u8>>)
    ensures
        decoded_keys(keys).len() <= keys.len(),
    decreases keys.len(),
{
    if keys.len() > 0 {
        lemma_decoded_keys_len(keys.drop_last());
    }
}

/// Keys that are all well-formed UTF-8 are all listed, each decoded.
pub proof fn lemma_decoded_keys_all(keys: Seq<Seq<u8>>)
    requires
        forall|i: int| 0 <= i < keys.len() ==> valid_utf8(#[trigger] keys[i]),
    ensures
        decoded_keys(keys) == Seq::new(keys.len(), |i: int| decode_utf8(keys[i])),
    decreases keys.len(),
{
    if keys.len() > 0 {
        lemma_decoded_keys_all(keys.drop_last());
    }
}

/// A history of no lookups is empty; one of more lookups than the cache
/// holds keys lists what all the keys give; and no history is longer than
/// asked for.
pub proof fn lemma_history_bounds(keys: Seq<Seq<u8>>, n: nat)
    ensures
        n == 0 ==> history_of(keys, n) == Seq::<Seq<char>>::empty(),
        n >= keys.len() ==> history_of(keys, n) == decoded_keys(keys),
        history_of(keys, n).len() <= n,
        history_of(keys, n).len() <= keys.len(),
{
    lemma_decoded_keys_len(first_keys(keys, n));
    if n == 0 {
    }
}

/// The line of one phrase of the history: its number, right-aligned in
/// two columns, a full stop, the phrase.
pub open spec fn history_line(number: nat, phrase: Seq<char>) -> Seq<SpanView> {
    seq![
        bare(blanks(4)),
        styled(ColorfulRole::Index, aligned_right(decimal(number), 2)),
        styled(ColorfulRole::Dot, aligned_left("."@, 2)),
        styled(ColorfulRole::Content, phrase),
        bare("\n"@),
    ]
}

/// The lines of some phrases, numbered from one.
pub open spec fn history_lines(phrases: Seq<Seq<char>>) -> Seq<SpanView>
    decreases phrases.len(),
{
    if phrases.len() == 0 {
        Seq::empty()
    } else {
        history_lines(phrases.drop_last()) + history_line(phrases.len(), phrases.last())
    }
}

/// How a history is laid out: an empty line, then a line for each phrase.
pub open spec fn history_layout(phrases: Seq<Seq<char>>) -> Seq<SpanView> {
    seq![bare("\n"@)] + history_lines(phrases)
}

impl History {
    /// The history of up to `length` lookups, read from the keys of the
    /// cache in the order in which the cache lists them.
    pub fn getn(keys: &Vec<Vec<u8>>, length: usize) -> (h: History)
        ensures
            texts(h.0@) == history_of(byte_strings(keys@), length as nat),
            h.0@.len() <= length,
            h.0@.len() <= keys@.len(),
            length == 0 ==> h.0@.len() == 0,
    {
        let n = if length < keys.len() {
            length
        } else {
            keys.len()
        };
        let ghost all = byte_strings(keys@);
        let mut res: Vec<String> = Vec::new();
        let mut i: usize = 0;
        while i < n
            invariant
                i <= n <= keys.len(),
                all == byte_strings(keys@),
                texts(res@) == decoded_keys(all.take(i as int)),
            decreases n - i,
        {
            assert(all.take(i + 1).drop_last() =~= all.take(i as int));
            match utf8_text(slice_to_vec(keys[i].as_slice())) {
                Some(s) => {
                    res.push(s);
                },
                None => {},
            }
            i = i + 1;
        }
        proof {
            assert(all.take(n as int) =~= first_keys(all, length as nat));
            lemma_history_bounds(all, length as nat);
        }
        History(res)
    }

    /// Lays the history out for the terminal.
    pub fn layout(&self) -> (out: Vec<Span>)
        ensures
            span_views(out@) == history_layout(texts(self.0@)),
    {
        let mut out: Vec<Span> = Vec::new();
        push_bare(&mut out, "\n");
        let ghost head = span_views(out@);
        let ghost all = texts(self.0@);
        let mut k: usize = 0;
        while k < self.0.len()
            invariant
                k <= self.0.len(),
                all == texts(self.0@),
                span_views(out@) == head + history_lines(all.take(k as int)),
            decreases self.0.len() - k,
        {
            let pad = spaces(4);
            push_bare(&mut out, pad.as_str());
            let number = decimal_text(k + 1);
            let index = align_right(number.as_str(), 2);
            push_styled(&mut out, ColorfulRole::Index, index.as_str());
            let dot = align_left(".", 2);
            push_styled(&mut out, ColorfulRole::Dot, dot.as_str());
            push_styled(&mut out, ColorfulRole::Content, self.0[k].as_str());
            push_bare(&mut out, "\n");
            assert(all.take(k + 1).drop_last() =~= all.take(k as int));
            k = k + 1;
        }
        assert(all.take(k as int) =~= all);
        out
    }

    /// Writes the history for the terminal.
    pub fn to_string(&self) -> (out: String)
        ensures
            exists|parts: Seq<Seq<char>>|
                painting_of(history_layout(texts(self.0@)), parts) && out@ == joined(parts),
    {
        let spans = self.layout();
        paint(&spans)
    }
}

impl From<Vec<String>> for History {
    fn from(s: Vec<String>) -> (h: History) {
        History(s)
    }
}

impl vstd::std_specs::convert::FromSpecImpl<Vec<String>> for History {
    open spec fn obeys_from_spec() -> bool {
        true
    }

    open spec fn from_spec(s: Vec<String>) -> History {
        History(s)
    }
}

} // verus!
