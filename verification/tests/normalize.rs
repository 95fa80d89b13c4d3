use rdict::handler::youdao::{
    Fragment, Meta, SentencePair, Trs, TrsTrL, TypoContent, Word, YoudaoRes,
};
use rdict::handler::VocabBody;
use rdict::json::{parse, Json};
use rdict::result::{DictError, IoKind};

fn meta(input: &str, lang: &str) -> Meta {
    Meta {
        lang: "eng".to_string(),
        guess_language: lang.to_string(),
        input: input.to_string(),
        dicts: vec!["ec".to_string()],
    }
}

fn word(uk: Option<&str>, us: Option<&str>) -> Word {
    Word {
        usphone: us.map(|s| s.to_string()),
        ukphone: uk.map(|s| s.to_string()),
        trs: None,
        return_phrase: None,
    }
}

fn answer(words: Option<Vec<Word>>) -> YoudaoRes {
    YoudaoRes { meta: meta("rust", "eng"), ec: words, typos: None, blng_sents_part: None }
}

fn meaning(pos: Option<&str>, i: Vec<Fragment>) -> Trs {
    Trs { tr: vec![TrsTrL { pos: pos.map(|s| s.to_string()), i }] }
}

const RUST: &str = r##"{
  "meta": {"input": "rust", "guessLanguage": "eng", "lang": "eng", "dicts": ["ec", "blng_sents_part"]},
  "ec": {"word": [{
      "usphone": "rʌst", "ukphone": "rʌst",
      "trs": [{"tr": [{"l": {"i": ["n. 锈；铁锈"]}}]}],
      "return-phrase": {"l": {"i": "rust"}}
  }]},
  "blng_sents_part": {"sentence-pair": [
      {"sentence": "The rust ate the iron.", "sentence-translation": "锈腐蚀了铁。"},
      {"sentence": "Rust never sleeps.", "sentence-translation": "锈从不休息。"},
      {"sentence": "Remove the rust first.", "sentence-translation": "先除锈。"}
  ]}
}"##;

#[test]
fn phonetic_with_empty_uk_keeps_us_only() {
    let vb = VocabBody::from_response(&answer(Some(vec![word(Some(""), Some("rʌst"))]))).unwrap();
    let p = vb.phonetic.expect("the block is there");
    assert_eq!(p.uk, None);
    assert_eq!(p.us, Some("rʌst".to_string()));
}

#[test]
fn phonetic_with_both_empty_is_absent() {
    let vb = VocabBody::from_response(&answer(Some(vec![word(Some(""), Some(""))]))).unwrap();
    assert!(vb.phonetic.is_none());
    assert!(vb.is_empty());
}

#[test]
fn phonetic_with_both_missing_is_absent() {
    let vb = VocabBody::from_response(&answer(Some(vec![word(None, None)]))).unwrap();
    assert!(vb.phonetic.is_none());
}

#[test]
fn phonetic_with_both_sides() {
    let vb = VocabBody::from_response(&answer(Some(vec![word(Some("a"), Some("b"))]))).unwrap();
    let p = vb.phonetic.unwrap();
    assert_eq!(p.uk, Some("a".to_string()));
    assert_eq!(p.us, Some("b".to_string()));
}

#[test]
fn extract_concatenates_pos_and_fragments_in_order() {
    let l = TrsTrL {
        pos: Some("n.".to_string()),
        i: vec![Fragment::Text("n.".to_string()), Fragment::Tagged("锈".to_string())],
    };
    assert_eq!(l.extract("zh"), Some("n.n.锈".to_string()));
}

#[test]
fn extract_without_pos() {
    let l = TrsTrL {
        pos: None,
        i: vec![Fragment::Tagged("a".to_string()), Fragment::Text("b".to_string())],
    };
    assert_eq!(l.extract("zh"), Some("ab".to_string()));
}

#[test]
fn extract_skips_other_values() {
    let l = TrsTrL {
        pos: None,
        i: vec![Fragment::Text("a".to_string()), Fragment::Other, Fragment::Text("b".to_string())],
    };
    assert_eq!(l.extract("zh"), Some("ab".to_string()));
}

#[test]
fn extract_fails_on_object_without_text() {
    let l = TrsTrL { pos: None, i: vec![Fragment::Text("a".to_string()), Fragment::Untagged] };
    assert_eq!(l.extract("zh"), None);
}

#[test]
fn extract_of_no_fragments_is_pos_alone() {
    let l = TrsTrL { pos: Some("v.".to_string()), i: vec![] };
    assert_eq!(l.extract("zh"), Some("v.".to_string()));
}

#[test]
fn extract_in_other_language_takes_first_fragment() {
    let l = TrsTrL {
        pos: Some("n.".to_string()),
        i: vec![Fragment::Text("n. rust".to_string()), Fragment::Text("more".to_string())],
    };
    assert_eq!(l.extract("eng"), Some("n. rust".to_string()));
}

#[test]
fn extract_in_other_language_needs_a_plain_first_fragment() {
    let tagged = TrsTrL { pos: None, i: vec![Fragment::Tagged("x".to_string())] };
    assert_eq!(tagged.extract("eng"), None);
    let none = TrsTrL { pos: None, i: vec![] };
    assert_eq!(none.extract("eng"), None);
}

#[test]
fn response_without_entries_keeps_input_phrase_and_typos() {
    let res = YoudaoRes {
        meta: meta("rsut", "eng"),
        ec: None,
        typos: Some(vec![TypoContent {
            word: Some("rust".to_string()),
            trans: Some("n. 锈".to_string()),
        }]),
        blng_sents_part: Some(vec![SentencePair {
            sentence: "s".to_string(),
            sentence_translation: "t".to_string(),
        }]),
    };
    let vb = VocabBody::from_response(&res).unwrap();
    assert_eq!(vb.phrase, "rsut");
    assert!(vb.phonetic.is_none());
    assert!(vb.explains.is_none());
    assert!(vb.examples.is_none());
    let typo = vb.typo.unwrap();
    assert_eq!(typo.len(), 1);
    assert_eq!(typo[0].guessing, Some("rust".to_string()));
    assert_eq!(typo[0].meaning, Some("n. 锈".to_string()));
}

#[test]
fn empty_lists_are_absent_sections() {
    let mut w = word(None, None);
    w.trs = Some(vec![]);
    let res = YoudaoRes {
        meta: meta("x", "eng"),
        ec: Some(vec![w]),
        typos: Some(vec![]),
        blng_sents_part: Some(vec![]),
    };
    let vb = VocabBody::from_response(&res).unwrap();
    assert!(vb.explains.is_none());
    assert!(vb.examples.is_none());
    assert!(vb.typo.is_none());
    assert!(vb.is_empty());
}

#[test]
fn returned_phrase_overrides_input() {
    let mut w = word(None, None);
    w.return_phrase = Some("British".to_string());
    let res = YoudaoRes {
        meta: meta("british", "eng"),
        ec: Some(vec![w]),
        typos: None,
        blng_sents_part: None,
    };
    assert_eq!(VocabBody::from_response(&res).unwrap().phrase, "British");
}

#[test]
fn only_first_entry_counts() {
    let res = answer(Some(vec![word(Some("one"), None), word(Some("two"), Some("two"))]));
    let p = VocabBody::from_response(&res).unwrap().phonetic.unwrap();
    assert_eq!(p.uk, Some("one".to_string()));
    assert_eq!(p.us, None);
}

#[test]
fn no_entries_in_list_is_decode_error() {
    match VocabBody::from_response(&answer(Some(vec![]))) {
        Err(DictError::Io(IoKind::InvalidData, _)) => {}
        other => panic!("{:?}", other),
    }
}

#[test]
fn meaning_without_variant_is_decode_error() {
    let mut w = word(None, None);
    w.trs = Some(vec![Trs { tr: vec![] }]);
    assert!(matches!(
        VocabBody::from_response(&answer(Some(vec![w]))),
        Err(DictError::Io(IoKind::InvalidData, _))
    ));
}

#[test]
fn explanations_follow_meanings() {
    let mut w = word(None, None);
    w.trs = Some(vec![
        meaning(None, vec![Fragment::Text("n. one".to_string())]),
        meaning(None, vec![Fragment::Text("v. two".to_string())]),
    ]);
    let vb = VocabBody::from_response(&answer(Some(vec![w]))).unwrap();
    let es = vb.explains.unwrap();
    assert_eq!(es.len(), 2);
    assert_eq!(es[0].content, "n. one");
    assert_eq!(es[1].content, "v. two");
}

#[test]
fn from_bytes_reads_full_answer() {
    let vb = VocabBody::from_bytes(RUST.as_bytes()).unwrap();
    assert_eq!(vb.phrase, "rust");
    assert!(!vb.is_empty());
    let p = vb.phonetic.as_ref().unwrap();
    assert_eq!(p.uk.as_deref(), Some("rʌst"));
    assert_eq!(p.us.as_deref(), Some("rʌst"));
    let es = vb.explains.as_ref().unwrap();
    assert_eq!(es.len(), 1);
    assert_eq!(es[0].content, "n. 锈；铁锈");
    let xs = vb.examples.as_ref().unwrap();
    assert_eq!(xs.len(), 3);
    assert_eq!(xs[0].sentence_eng, "The rust ate the iron.");
    assert_eq!(xs[2].trans, "先除锈。");
    assert!(vb.typo.is_none());
}

#[test]
fn from_bytes_chinese_answer_with_tagged_fragment() {
    let raw = r##"{"meta":{"input":"锈","guessLanguage":"zh","lang":"eng","dicts":[]},
        "ce":{"word":[{"trs":[{"tr":[{"l":{"pos":"n.","i":["n.",{"#text":"锈"}, 7]}}]}]}]}}"##;
    let vb = VocabBody::from_bytes(raw.as_bytes()).unwrap();
    assert_eq!(vb.explains.unwrap()[0].content, "n.n.锈");
    assert_eq!(vb.phrase, "锈");
}

#[test]
fn from_bytes_typos_only() {
    let raw = r##"{"meta":{"input":"rsut","guessLanguage":"eng","lang":"eng","dicts":["typos"]},
        "typos":{"typo":[{"word":"rust","trans":"n. 锈"},{"word":"rest"},{"trans":null}]}}"##;
    let vb = VocabBody::from_bytes(raw.as_bytes()).unwrap();
    let ts = vb.typo.unwrap();
    assert_eq!(ts.len(), 3);
    assert_eq!(ts[1].guessing.as_deref(), Some("rest"));
    assert_eq!(ts[1].meaning, None);
    assert_eq!(ts[2].guessing, None);
    assert_eq!(ts[2].meaning, None);
}

#[test]
fn from_bytes_rejects_text_that_is_no_json() {
    assert!(matches!(
        VocabBody::from_bytes(b"not json"),
        Err(DictError::Io(IoKind::InvalidData, _))
    ));
}

#[test]
fn from_bytes_rejects_truncated_json() {
    assert!(matches!(
        VocabBody::from_bytes(b"{\"meta\": {\"input\": \"ru"),
        Err(DictError::Io(IoKind::UnexpectedEof, _))
    ));
}

#[test]
fn from_bytes_rejects_missing_meta() {
    assert!(matches!(
        VocabBody::from_bytes(b"{\"ec\": null}"),
        Err(DictError::Io(IoKind::InvalidData, _))
    ));
}

#[test]
fn from_bytes_rejects_wrong_shape() {
    let not_object = b"[1, 2, 3]";
    assert!(VocabBody::from_bytes(not_object).is_err());
    let bad_phone = r##"{"meta":{"input":"a","guessLanguage":"eng","lang":"eng","dicts":[]},
        "ec":{"word":[{"usphone": 5}]}}"##;
    assert!(VocabBody::from_bytes(bad_phone.as_bytes()).is_err());
    let bad_dicts = r##"{"meta":{"input":"a","guessLanguage":"eng","lang":"eng","dicts":[1]}}"##;
    assert!(VocabBody::from_bytes(bad_dicts.as_bytes()).is_err());
    let bad_second_word = r##"{"meta":{"input":"a","guessLanguage":"eng","lang":"eng","dicts":[]},
        "ec":{"word":[{}, 3]}}"##;
    assert!(VocabBody::from_bytes(bad_second_word.as_bytes()).is_err());
}

#[test]
fn from_bytes_rejects_both_names_of_entries() {
    let raw = r##"{"meta":{"input":"a","guessLanguage":"eng","lang":"eng","dicts":[]},
        "ec":{"word":[{}]}, "ce":{"word":[{}]}}"##;
    assert!(VocabBody::from_bytes(raw.as_bytes()).is_err());
}

#[test]
fn from_bytes_takes_null_for_missing() {
    let raw = r##"{"meta":{"input":"a","guessLanguage":"eng","lang":"eng","dicts":[]},
        "ec":null, "typos":null, "blng_sents_part":null, "extra": {"ignored": true}}"##;
    let vb = VocabBody::from_bytes(raw.as_bytes()).unwrap();
    assert!(vb.is_empty());
    assert_eq!(vb.phrase, "a");
}

#[test]
fn parse_builds_the_tree() {
    let j = parse(br#"{"b": [1, "x", null, true, -2.5], "a": {"k": "v"}}"#).unwrap();
    let a = j.get("a").unwrap();
    assert_eq!(a.get("k").unwrap().as_str(), Some("v"));
    assert!(a.get("missing").is_none());
    let b = j.get("b").unwrap().as_array().unwrap();
    assert_eq!(b.len(), 5);
    assert!(matches!(&b[0], Json::Number(n) if n == "1"));
    assert_eq!(b[1].as_str(), Some("x"));
    assert!(b[2].is_null());
    assert!(matches!(b[3], Json::Bool(true)));
    assert!(matches!(&b[4], Json::Number(n) if n == "-2.5"));
    assert!(j.is_object());
    assert!(!b[1].is_object());
    assert!(j.as_str().is_none());
    assert!(j.as_array().is_none());
    assert!(b[1].get("a").is_none());
}

#[test]
fn from_json_reads_typed_answer() {
    let j = parse(RUST.as_bytes()).unwrap();
    let res = YoudaoRes::from_json(&j).unwrap();
    assert_eq!(res.meta.input, "rust");
    assert_eq!(res.meta.guess_language, "eng");
    assert_eq!(res.meta.dicts, vec!["ec".to_string(), "blng_sents_part".to_string()]);
    let words = res.ec.unwrap();
    assert_eq!(words.len(), 1);
    assert_eq!(words[0].return_phrase.as_deref(), Some("rust"));
    let trs = words[0].trs.as_ref().unwrap();
    assert_eq!(trs.len(), 1);
    assert!(matches!(&trs[0].tr[0].i[0], Fragment::Text(t) if t == "n. 锈；铁锈"));
    assert_eq!(res.blng_sents_part.unwrap().len(), 3);
    assert!(res.typos.is_none());
}
