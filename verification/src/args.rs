//! What the command line asks for, once its words have been read.

use crate::handler::{audio_named, engine_named, AudioType, Engines};
use crate::result::{DictError, IoKind};
use crate::text::{opt_text, texts};
use vstd::prelude::*;
use vstd::string::*;

verus! {

/// The words of the command line, by option.
#[derive(Debug, Clone)]
pub struct Args {
    /// What to look up.
    pub phrase: Vec<String>,
    /// Which dictionary to ask.
    pub dict: String,
    /// Whether to speak the phrase, and in which pronunciation.
    pub voice: Option<String>,
    /// How many past lookups to list.
    pub list: Option<usize>,
}

/// A lookup to make.
#[derive(Debug)]
pub struct QueryContent {
    pub phrase: String,
    pub engine: Engines,
    pub voice: Option<AudioType>,
}

/// What the tool is to do.
#[derive(Debug)]
pub enum CliAction {
    Query(QueryContent),
    ListHistory(usize),
    Other,
}

/// An action as contracts see it.
pub enum CliActionView {
    Query { phrase: Seq<char>, engine: Engines, voice: Option<AudioType> },
    ListHistory(usize),
    Other,
}

impl View for CliAction {
    type V = CliActionView;

    open spec fn view(&self) -> CliActionView {
        match self {
            CliAction::Query(c) => CliActionView::Query {
                phrase: c.phrase@,
                engine: c.engine,
                voice: c.voice,
            },
            CliAction::ListHistory(n) => CliActionView::ListHistory(*n),
            CliAction::Other => CliActionView::Other,
        }
    }
}

/// Some words with a blank between each two.
pub open spec fn spaced(words: Seq<Seq<char>>) -> Seq<char>
    decreases words.len(),
{
    if words.len() == 0 {
        Seq::empty()
    } else if words.len() == 1 {
        words[0]
    } else {
        spaced(words.drop_last()) + " "@ + words.last()
    }
}

/// The pronunciation asked for: none where no word was given, and no
/// answer at all where the word names none.
pub open spec fn voice_of(voice: Option<Seq<char>>) -> Option<Option<AudioType>> {
    match voice {
        Some(v) => match audio_named(v) {
            Some(t) => Some(Some(t)),
            None => None,
        },
        None => Some(None),
    }
}

/// The action that the words ask for. Words to look up make a lookup of
/// them as one phrase; without them a count makes a listing; without
/// either there is nothing to do. A pronunciation that names none makes
/// the whole invalid.
pub open spec fn action_of(
    phrase: Seq<Seq<char>>,
    dict: Seq<char>,
    voice: Option<Seq<char>>,
    list: Option<usize>,
) -> Option<CliActionView> {
    if phrase.len() > 0 {
        match voice_of(voice) {
            Some(voice) => Some(
                CliActionView::Query { phrase: spaced(phrase), engine: engine_named(dict), voice },
            ),
            None => None,
        }
    } else {
        match list {
            Some(n) => Some(CliActionView::ListHistory(n)),
            None => Some(CliActionView::Other),
        }
    }
}

/// Whether a word begins with a dash, as an option does.
pub open spec fn is_option(word: Seq<char>) -> bool {
    word.len() > 0 && word[0] == '-'
}

/// The words of the command line as the option parser is to see them. A
/// line with the program's name alone gives no words. A line whose first
/// word is no option is a line of words to look up: `-p` is put before
/// that word.
pub open spec fn normal_input(input: Seq<Seq<char>>) -> Seq<Seq<char>> {
    if input.len() <= 1 {
        Seq::empty()
    } else if is_option(input[1]) {
        input
    } else {
        input.insert(1, "-p"@)
    }
}

/// Prepares the words of the command line for the option parser.
pub fn handle_input(input: Vec<String>) -> (out: Vec<String>)
    ensures
        texts(out@) == normal_input(texts(input@)),
{
    if input.len() <= 1 {
        let out: Vec<String> = Vec::new();
        return out;
    }
    let first = input[1].as_str();
    let dashed = first.unicode_len() > 0 && first.get_char(0) == '-';
    let mut input = input;
    if !dashed {
        input.insert(1, String::from_str("-p"));
    }
    input
}

fn join_words(words: &Vec<String>) -> (out: String)
    ensures
        out@ == spaced(texts(words@)),
{
    let mut out = String::new();
    let ghost all = texts(words@);
    let mut i: usize = 0;
    while i < words.len()
        invariant
            i <= words.len(),
            all == texts(words@),
            out@ == spaced(all.take(i as int)),
        decreases words.len() - i,
    {
        assert(all.take(i + 1).drop_last() =~= all.take(i as int));
        if i > 0 {
            out.append(" ");
        }
        out.append(words[i].as_str());
        i = i + 1;
    }
    assert(all.take(i as int) =~= all);
    out
}

/// Decides what the tool is to do from the words of the command line.
pub fn parse_args(args: Args) -> (r: Result<CliAction, DictError>)
    ensures
        match action_of(texts(args.phrase@), args.dict@, opt_text(args.voice), args.list) {
            Some(a) => r is Ok && r->Ok_0@ == a,
            None => r matches Err(DictError::Io(kind, _)) && kind == IoKind::InvalidInput,
        },
{
    if args.phrase.len() > 0 {
        let phrase = join_words(&args.phrase);
        let engine = Engines::from(args.dict);
        let voice = match args.voice {
            Some(t) => match AudioType::try_from(t) {
                Ok(v) => Some(v),
                Err(e) => {
                    return Err(e);
                },
            },
            None => None,
        };
        Ok(CliAction::Query(QueryContent { phrase, engine, voice }))
    } else {
        match args.list {
            Some(n) => Ok(CliAction::ListHistory(n)),
            None => Ok(CliAction::Other),
        }
    }
}

} // verus!
