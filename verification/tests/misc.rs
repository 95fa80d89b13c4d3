use rdict::args::{handle_input, parse_args, Args, CliAction};
use rdict::handler::{AudioType, Engines};
use rdict::meta::{logo, show_logo, wip, DictMsg};
use rdict::progressbar::{Indicator, IndicatorStep, POLL_PAUSE, WARMUP_PAUSE, WARMUP_TICKS};
use rdict::result::{AudioError, DictError, IoKind};
use rdict::util::{
    align_left, align_right, coloring, join_texts, paint, paint_parts, plain, plain_parts,
    ColorfulRole, Span, Style,
};

fn words(ws: &[&str]) -> Vec<String> {
    ws.iter().map(|w| w.to_string()).collect()
}

fn args(phrase: &[&str], dict: &str, voice: Option<&str>, list: Option<usize>) -> Args {
    Args {
        phrase: words(phrase),
        dict: dict.to_string(),
        voice: voice.map(|v| v.to_string()),
        list,
    }
}

#[test]
fn role_colours() {
    assert_eq!(ColorfulRole::Title.rgb(), (255, 95, 175));
    assert_eq!(ColorfulRole::Index.rgb(), (2, 169, 170));
    assert_eq!(ColorfulRole::Dot.rgb(), (188, 188, 188));
    assert_eq!(ColorfulRole::Content.rgb(), (95, 175, 95));
    assert_eq!(ColorfulRole::Emphasis.rgb(), (30, 250, 110));
    assert_eq!(ColorfulRole::Logo.rgb(), (0, 221, 192));
    assert_eq!(ColorfulRole::Other.rgb(), (0, 134, 1));
    assert_eq!(ColorfulRole::Wip.rgb(), (214, 158, 19));
}

/// The colour code of `out` where `out` is `text` between a colour's
/// sequence and the reset.
fn code_around(out: &str, text: &str) -> Option<String> {
    let rest = out.strip_prefix("\u{1b}[")?;
    let rest = rest.strip_suffix("\u{1b}[0m")?;
    let code = rest.strip_suffix(text)?;
    Some(code.strip_suffix('m')?.to_string())
}

fn is_colour_code(code: &str, rgb: (u8, u8, u8)) -> bool {
    let basic = [
        "30", "31", "32", "33", "34", "35", "36", "37", "90", "91", "92", "93", "94", "95", "96",
        "97",
    ];
    code == format!("38;2;{};{};{}", rgb.0, rgb.1, rgb.2) || basic.contains(&code)
}

#[test]
fn coloring_wraps_text_in_escape_sequences() {
    colored::control::set_override(true);
    let a = coloring("x", ColorfulRole::Title);
    assert!(is_colour_code(&code_around(&a, "x").unwrap(), (255, 95, 175)), "{:?}", a);
    let b = "x".coloring(ColorfulRole::Other);
    assert!(is_colour_code(&code_around(&b, "x").unwrap(), (0, 134, 1)), "{:?}", b);
    let c = "锈".to_string().coloring(ColorfulRole::Wip);
    assert!(is_colour_code(&code_around(&c, "锈").unwrap(), (214, 158, 19)), "{:?}", c);
    assert_ne!(a, "x");
}

#[test]
fn coloring_leaves_text_alone_without_colours() {
    colored::control::set_override(false);
    assert_eq!(coloring("x", ColorfulRole::Title), "x");
}

#[test]
fn align_pads_to_width_in_bytes() {
    assert_eq!(align_right(" ", 4), "    ");
    assert_eq!(align_right("7", 2), " 7");
    assert_eq!(align_right("10", 2), "10");
    assert_eq!(align_right("123", 2), "123");
    assert_eq!(align_right("", 0), "");
    assert_eq!(align_left(".", 2), ". ");
    assert_eq!(align_left(">", 2), "> ");
    assert_eq!(align_left("abc", 2), "abc");
    assert_eq!(align_right("锈", 4), " 锈");
    assert_eq!(align_left("锈", 5), "锈  ");
    assert_eq!("7".align_right(3), "  7");
    assert_eq!("7".to_string().align_left(3), "7  ");
}

#[test]
fn messages() {
    assert_eq!(DictMsg::NotFound.to_string(), "No result found");
    assert_eq!(DictMsg::Shrug.to_string(), "¯\\_(ツ)_/¯");
    assert_eq!(DictMsg::Version.to_string(), "Rdict v0.0.1");
    assert_eq!(DictMsg::Intro.as_str(), "A cli dict tool implemented by Rust with love.");
    assert_eq!(DictMsg::Wip.as_str(), "🚧 Method Under Construction 🚧");
}

#[test]
fn banner_layout() {
    let spans = show_logo();
    let mut want = String::from(logo());
    want.push_str("\n    Rdict v0.0.1\n    A cli dict tool implemented by Rust with love.\n");
    assert_eq!(plain(&spans), want);
    assert_eq!(spans[0].role, Some(ColorfulRole::Logo));
    assert_eq!(logo().lines().count(), 5);
}

#[test]
fn wip_layout_ends_with_notice() {
    let spans = wip();
    let shown = plain(&spans);
    assert!(shown.starts_with(&plain(&show_logo())));
    assert!(shown.ends_with("    🚧 Method Under Construction 🚧\n"));
    assert_eq!(spans[spans.len() - 2].role, Some(ColorfulRole::Wip));
}

#[test]
fn error_lines() {
    assert_eq!(
        DictError::Io(IoKind::InvalidData, "serde error").to_string(),
        "IO error: (InvalidData, serde error)"
    );
    assert_eq!(
        DictError::Io(IoKind::NotFound, "io error").to_string(),
        "IO error: (NotFound, io error)"
    );
    assert_eq!(
        DictError::Http("Dns".to_string(), "http error").to_string(),
        "HTTP error: (Dns, http error)"
    );
    assert_eq!(
        DictError::Arg("InvalidValue".to_string(), "clap error").to_string(),
        "Parsing Argument error: InvalidValue, clap error"
    );
    assert_eq!(
        DictError::Db("Corruption".to_string(), "sled error").to_string(),
        "sled error: Corruption sled error"
    );
    assert_eq!(
        DictError::Audio(AudioError::Play("NoDevice".to_string()), "audio error").to_string(),
        "audio error: Play(NoDevice) audio error"
    );
    assert_eq!(AudioError::Stream("s".to_string()).to_string(), "Stream(s)");
    assert_eq!(AudioError::Device("d".to_string()).to_string(), "Device(d)");
    assert_eq!(AudioError::Decode("x".to_string()).to_string(), "Decode(x)");
    assert_eq!(AudioError::Mp3("m".to_string()).to_string(), "Mp3(m)");
    assert_eq!(IoKind::InvalidInput.name(), "InvalidInput");
    assert_eq!(IoKind::UnexpectedEof.name(), "UnexpectedEof");
    assert_eq!(IoKind::Other.name(), "Other");
}

#[test]
fn engines_by_name() {
    assert_eq!(Engines::from("youdao".to_string()), Engines::Youdao);
    assert_eq!(Engines::from("bing".to_string()), Engines::Bing);
    assert_eq!(Engines::from("anything".to_string()), Engines::Youdao);
    assert_eq!(Engines::from("Bing".to_string()), Engines::Youdao);
}

#[test]
fn second_engine_has_no_request() {
    assert!(Engines::Bing.request_meaning("rust").is_none());
    let r = Engines::Youdao.request_meaning("rust").unwrap();
    assert_eq!(r.url, "http://dict.youdao.com/jsonapi");
    assert_eq!(r.query, vec![("q".to_string(), "rust".to_string())]);
    let a = Engines::Youdao.request_audio("rust", AudioType::US);
    assert_eq!(a.url, "http://dict.youdao.com/dictvoice");
    assert_eq!(a.query[1], ("type".to_string(), "2".to_string()));
}

#[test]
fn audio_type_by_word() {
    for w in ["1", "uk", "UK", "Uk"] {
        assert_eq!(AudioType::try_from(w.to_string()).unwrap(), AudioType::UK);
    }
    for w in ["2", "us", "US"] {
        assert_eq!(AudioType::try_from(w.to_string()).unwrap(), AudioType::US);
    }
    for w in ["", "3", "gb", "u k"] {
        assert!(matches!(
            AudioType::try_from(w.to_string()),
            Err(DictError::Io(IoKind::InvalidInput, _))
        ));
    }
    assert_eq!(AudioType::UK.code(), "1");
    assert_eq!(AudioType::US.code(), "2");
}

#[test]
fn input_gets_phrase_option_where_first_word_is_no_option() {
    assert_eq!(handle_input(words(&["rdict"])), Vec::<String>::new());
    assert_eq!(handle_input(Vec::new()), Vec::<String>::new());
    assert_eq!(handle_input(words(&["rdict", "rust"])), words(&["rdict", "-p", "rust"]));
    assert_eq!(
        handle_input(words(&["rdict", "hello", "world", "-v"])),
        words(&["rdict", "-p", "hello", "world", "-v"])
    );
    assert_eq!(handle_input(words(&["rdict", "-l", "3"])), words(&["rdict", "-l", "3"]));
    assert_eq!(handle_input(words(&["rdict", ""])), words(&["rdict", "-p", ""]));
}

#[test]
fn phrase_words_make_a_query() {
    match parse_args(args(&["hello", "world"], "youdao", Some("US"), Some(3))).unwrap() {
        CliAction::Query(c) => {
            assert_eq!(c.phrase, "hello world");
            assert_eq!(c.engine, Engines::Youdao);
            assert_eq!(c.voice, Some(AudioType::US));
        }
        other => panic!("{:?}", other),
    }
    match parse_args(args(&["rust"], "bing", None, None)).unwrap() {
        CliAction::Query(c) => {
            assert_eq!(c.phrase, "rust");
            assert_eq!(c.engine, Engines::Bing);
            assert_eq!(c.voice, None);
        }
        other => panic!("{:?}", other),
    }
}

#[test]
fn list_count_makes_a_listing() {
    assert!(matches!(
        parse_args(args(&[], "youdao", None, Some(5))).unwrap(),
        CliAction::ListHistory(5)
    ));
    assert!(matches!(
        parse_args(args(&[], "youdao", Some("nonsense"), Some(0))).unwrap(),
        CliAction::ListHistory(0)
    ));
}

#[test]
fn nothing_asked_is_other() {
    assert!(matches!(parse_args(args(&[], "youdao", None, None)).unwrap(), CliAction::Other));
}

#[test]
fn unknown_voice_is_invalid_input() {
    assert!(matches!(
        parse_args(args(&["rust"], "youdao", Some("gb"), None)),
        Err(DictError::Io(IoKind::InvalidInput, _))
    ));
}

#[test]
fn indicator_warms_up_whatever_the_signal() {
    let mut ind = Indicator::new();
    assert!(!ind.polls());
    for i in 0..WARMUP_TICKS {
        assert!(!ind.polls());
        assert_eq!(ind.step(i % 2 == 0), IndicatorStep::Tick(WARMUP_PAUSE));
    }
    assert_eq!(ind.ticks, 100);
    assert!(ind.polls());
    assert!(!ind.finished);
}

#[test]
fn indicator_polls_until_signal_then_stops() {
    let mut ind = Indicator::new();
    for _ in 0..WARMUP_TICKS {
        ind.step(true);
    }
    assert_eq!(ind.step(false), IndicatorStep::Tick(POLL_PAUSE));
    assert_eq!(ind.step(false), IndicatorStep::Tick(POLL_PAUSE));
    assert_eq!(ind.step(true), IndicatorStep::Finish);
    assert!(ind.finished);
    assert!(!ind.polls());
    assert_eq!(ind.step(false), IndicatorStep::Finish);
    assert_eq!(WARMUP_PAUSE, 3000);
    assert_eq!(POLL_PAUSE, 1);
}

#[test]
fn concat_writes_texts_in_order() {
    assert_eq!(join_texts(&words(&[])), "");
    assert_eq!(join_texts(&words(&["a"])), "a");
    assert_eq!(join_texts(&words(&["a", "", "锈", " b"])), "a锈 b");
}

#[test]
fn parts_keep_one_text_per_span() {
    colored::control::set_override(true);
    let spans = vec![
        Span { role: None, text: "  ".to_string() },
        Span { role: Some(ColorfulRole::Index), text: "1".to_string() },
        Span { role: None, text: "\n".to_string() },
    ];
    assert_eq!(plain_parts(&spans), words(&["  ", "1", "\n"]));
    let painted = paint_parts(&spans);
    assert_eq!(painted.len(), 3);
    assert_eq!(painted[0], "  ");
    assert!(is_colour_code(&code_around(&painted[1], "1").unwrap(), (2, 169, 170)));
    assert_eq!(painted[2], "\n");
    assert_eq!(paint(&spans), join_texts(&painted));
    assert_eq!(plain(&spans), "  1\n");
}

#[test]
fn audio_type_from_lower_case_word() {
    assert_eq!(AudioType::from_lower("1"), Some(AudioType::UK));
    assert_eq!(AudioType::from_lower("uk"), Some(AudioType::UK));
    assert_eq!(AudioType::from_lower("2"), Some(AudioType::US));
    assert_eq!(AudioType::from_lower("us"), Some(AudioType::US));
    assert_eq!(AudioType::from_lower("UK"), None);
    assert_eq!(AudioType::from_lower(""), None);
}
