use kana_table::index::KanaIndex;
use kana_table::Kana;

fn kana(romaji: &str, hiragana: &str, katakana: &str) -> Kana {
    Kana {
        romaji: romaji.to_string(),
        script_type: "gojuuon".to_string(),
        hiragana: hiragana.to_string(),
        katakana: katakana.to_string(),
    }
}

#[test]
fn records_are_found_under_canonical_keys() {
    let idx = KanaIndex::build(&vec![kana("a", "あ", "ア"), kana("shi", "し", "シ"), kana("n", "ん", "ン")]);
    assert!(!idx.is_empty());
    assert_eq!(idx.get("si").unwrap().hiragana, "し");
    assert_eq!(idx.get("Nu").unwrap().katakana, "ン");
    assert_eq!(idx.get("a").unwrap().romaji, "a");
    assert!(idx.get("shi").is_none());
    assert!(idx.get("u").is_none());
}

#[test]
fn colliding_keys_keep_the_last_record() {
    let idx = KanaIndex::build(&vec![kana("si", "first", "F"), kana("ka", "か", "カ"), kana("shi", "last", "L")]);
    assert_eq!(idx.get("si").unwrap().hiragana, "last");
    assert_eq!(idx.get("ka").unwrap().hiragana, "か");
}

#[test]
fn empty_index_holds_nothing() {
    let idx = KanaIndex::build(&vec![]);
    assert!(idx.is_empty());
    assert!(idx.get("a").is_none());
    assert!(KanaIndex::new().is_empty());
}
