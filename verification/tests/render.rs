use rdict::handler::{Example, Explain, Phonetic, Typo, VocabBody};
use rdict::util::{paint, plain, ColorfulRole, Span};

fn record() -> VocabBody {
    VocabBody::new("rust".to_string())
}

fn typo(word: Option<&str>, meaning: Option<&str>) -> Typo {
    Typo { guessing: word.map(|s| s.to_string()), meaning: meaning.map(|s| s.to_string()) }
}

fn example(s: &str, t: &str) -> Example {
    Example { sentence_eng: s.to_string(), trans: t.to_string() }
}

fn texts(spans: &[Span]) -> Vec<&str> {
    spans.iter().map(|s| s.text.as_str()).collect()
}

#[test]
fn new_record_is_empty() {
    let vb = record();
    assert!(vb.is_empty());
    assert_eq!(vb.phrase, "rust");
    assert!(vb.phonetic.is_none() && vb.explains.is_none());
    assert!(vb.examples.is_none() && vb.typo.is_none());
}

#[test]
fn any_section_makes_record_non_empty() {
    let mut a = record();
    a.phonetic = Some(Phonetic { us: None, uk: Some("x".to_string()) });
    assert!(!a.is_empty());
    let mut b = record();
    b.explains = Some(vec![Explain { content: "n. x".to_string() }]);
    assert!(!b.is_empty());
    let mut c = record();
    c.examples = Some(vec![example("a", "b")]);
    assert!(!c.is_empty());
    let mut d = record();
    d.typo = Some(vec![typo(Some("x"), None)]);
    assert!(!d.is_empty());
    let mut e = record();
    e.typo = Some(vec![]);
    assert!(!e.is_empty());
}

#[test]
fn empty_record_shows_no_result() {
    let spans = record().layout();
    assert_eq!(plain(&spans), "    ¯\\_(ツ)_/¯\n    No result found\n");
    assert_eq!(spans[1].role, Some(ColorfulRole::Content));
    assert_eq!(spans[0].role, None);
}

#[test]
fn examples_suppress_typos() {
    let mut vb = record();
    vb.examples = Some(vec![example("Rust is red.", "锈是红的。")]);
    vb.typo = Some(vec![typo(Some("trust"), Some("n. 信任"))]);
    let with_typos = plain(&vb.layout());
    assert!(with_typos.contains("例句"));
    assert!(with_typos.contains("Rust is red."));
    assert!(!with_typos.contains("may be a typo"));
    assert!(!with_typos.contains("trust"));
    assert!(!with_typos.contains("信任"));
    vb.typo = None;
    assert_eq!(plain(&vb.layout()), with_typos);
}

#[test]
fn typos_show_without_examples() {
    let mut vb = VocabBody::new("rsut".to_string());
    vb.typo = Some(vec![
        typo(Some("rust"), Some("n. 锈")),
        typo(Some("rest"), Some("no stop here")),
        typo(None, Some("v.  休息 ")),
    ]);
    assert_eq!(
        plain(&vb.layout()),
        "    rsut may be a typo, are you looking for:\n\n    > rust\n      n. 锈\n    > rest\n      v. 休息\n"
    );
}

#[test]
fn phonetic_section() {
    let mut vb = record();
    vb.phonetic = Some(Phonetic { us: Some("rʌst".to_string()), uk: Some("rAst".to_string()) });
    assert_eq!(plain(&vb.layout()), "    音标\n        英[rAst]    美[rʌst]\n\n");
    vb.phonetic = Some(Phonetic { us: Some("rʌst".to_string()), uk: None });
    assert_eq!(plain(&vb.layout()), "    音标\n        美[rʌst]\n\n");
}

#[test]
fn explain_section() {
    let mut vb = record();
    vb.explains = Some(vec![
        Explain { content: " n . 锈；铁锈 ".to_string() },
        Explain { content: "  no full stop ".to_string() },
        Explain { content: "vt. 使生锈. 腐蚀".to_string() },
    ]);
    assert_eq!(
        plain(&vb.layout()),
        "    释义\n        n. 锈；铁锈\n       >> no full stop\n        vt. 使生锈. 腐蚀\n\n"
    );
}

#[test]
fn example_section_numbers_and_emphasis() {
    let mut vb = VocabBody::new("Rust".to_string());
    vb.examples = Some(vec![
        example("The rust ate it.", "一"),
        example("Trust rusty RUST crust", "二"),
    ]);
    let spans = vb.layout();
    assert_eq!(
        plain(&spans),
        "    例句\n        1. The rust ate it. \n           一\n        2. Trust rusty RUST crust \n           二\n"
    );
    let role_of = |word: &str| spans.iter().find(|s| s.text == word).unwrap().role;
    assert_eq!(role_of("The"), Some(ColorfulRole::Content));
    assert_eq!(role_of("rust"), Some(ColorfulRole::Emphasis));
    assert_eq!(role_of("ate"), Some(ColorfulRole::Content));
    assert_eq!(role_of("Trust"), Some(ColorfulRole::Emphasis));
    assert_eq!(role_of("rusty"), Some(ColorfulRole::Emphasis));
    assert_eq!(role_of("RUST"), Some(ColorfulRole::Emphasis));
    assert_eq!(role_of("crust"), Some(ColorfulRole::Emphasis));
    assert_eq!(role_of("it."), Some(ColorfulRole::Content));
    assert_eq!(role_of("一"), Some(ColorfulRole::Other));
    assert_eq!(role_of("1"), Some(ColorfulRole::Index));
    assert_eq!(role_of("例句"), Some(ColorfulRole::Title));
}

#[test]
fn sentence_with_double_blank_keeps_empty_word() {
    let mut vb = record();
    vb.examples = Some(vec![example("a  b", "t")]);
    let spans = vb.layout();
    let words = texts(&spans);
    assert_eq!(
        words,
        vec!["    ", "例句", "\n", "        ", "1", ". ", "a", " ", "", " ", "b", " ", "\n", "           ", "t", "\n"]
    );
}

#[test]
fn full_record_in_section_order() {
    let mut vb = record();
    vb.phonetic = Some(Phonetic { us: Some("u".to_string()), uk: Some("k".to_string()) });
    vb.explains = Some(vec![Explain { content: "n. 锈".to_string() }]);
    vb.examples = Some(vec![example("rust", "锈")]);
    assert_eq!(
        plain(&vb.layout()),
        "    音标\n        英[k]    美[u]\n\n    释义\n        n. 锈\n\n    例句\n        1. rust \n           锈\n"
    );
}

#[test]
fn painting_without_colours_is_plain_text() {
    colored::control::set_override(false);
    let mut vb = record();
    vb.explains = Some(vec![Explain { content: "n. 锈".to_string() }]);
    let spans = vb.layout();
    assert_eq!(paint(&spans), plain(&spans));
    assert_eq!(vb.to_string(), plain(&spans));
}

#[test]
fn painting_with_colours_wraps_each_styled_span() {
    colored::control::set_override(true);
    let mut vb = record();
    vb.explains = Some(vec![Explain { content: "n. 锈".to_string() }]);
    let shown = vb.to_string();
    let reset = "\u{1b}[0m";
    assert!(shown.starts_with("    \u{1b}["));
    assert_eq!(shown.matches(reset).count(), 4);
    assert!(shown.contains(&format!("m释义{}\n        \u{1b}[", reset)));
    assert!(shown.contains(&format!("mn{}\u{1b}[", reset)));
    assert!(shown.contains(&format!("m. {}\u{1b}[", reset)));
    assert!(shown.ends_with(&format!("m锈{}\n\n", reset)));
    let spans = vb.layout();
    assert_ne!(shown, plain(&spans));
    assert_eq!(paint(&spans), shown);
}
