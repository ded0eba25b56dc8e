use kana_table::grid::GridCell;
use kana_table::table::KanaTable;
use kana_table::{get_kana_display_name, AppConfig, Kana, KanaCard, KanaType};

fn kana(romaji: &str, hiragana: &str, katakana: &str) -> Kana {
    Kana {
        romaji: romaji.to_string(),
        script_type: "gojuuon".to_string(),
        hiragana: hiragana.to_string(),
        katakana: katakana.to_string(),
    }
}

fn card(kana: &str) -> KanaCard {
    KanaCard {
        romaji: String::new(),
        meaning: String::new(),
        kana: kana.to_string(),
        kanji: String::new(),
        src: String::new(),
    }
}

#[test]
fn display_name_marks_the_current_script() {
    assert_eq!(get_kana_display_name(&KanaType::Hiragana, &KanaType::Hiragana), "✅ hiragana");
    assert_eq!(get_kana_display_name(&KanaType::Katakana, &KanaType::Hiragana), "katakana");
    assert_eq!(KanaType::Katakana.name(), "katakana");
    assert_eq!(AppConfig::default().kana_type, KanaType::Hiragana);
}

#[test]
fn clicking_a_cell_shows_its_cards() {
    let mut t = KanaTable::new();
    t.load_kana(&vec![kana("ka", "か", "カ"), kana("shi", "し", "シ")]);
    t.load_cards(vec![card("しお"), card("かさ"), card("すし"), card("し")]);
    assert_eq!(t.carousel().total(), 0);
    t.select("si");
    assert_eq!(t.focused_kana().unwrap().hiragana, "し");
    assert_eq!(t.carousel().total(), 3);
    assert_eq!(t.carousel().current().unwrap().kana, "し");
    t.previous_card();
    assert_eq!(t.carousel().current().unwrap().kana, "すし");
    t.select("ka");
    assert_eq!(t.carousel().total(), 1);
    assert_eq!(t.carousel().index(), 0);
    t.select("ka");
    assert!(t.focus().key().is_none());
    assert_eq!(t.carousel().total(), 0);
}

#[test]
fn switching_script_refilters() {
    let mut t = KanaTable::new();
    t.load_kana(&vec![kana("ka", "か", "カ")]);
    t.load_cards(vec![card("カサ"), card("かさ")]);
    t.select("ka");
    assert_eq!(t.carousel().current().unwrap().kana, "かさ");
    t.set_kana_type(KanaType::Katakana);
    assert_eq!(t.kana_type(), KanaType::Katakana);
    assert_eq!(t.carousel().current().unwrap().kana, "カサ");
    t.next_card();
    assert_eq!(t.carousel().index(), 0);
}

#[test]
fn table_grid_follows_loaded_kana() {
    let mut t = KanaTable::new();
    assert!(t.index().is_empty());
    t.load_kana(&vec![kana("chi", "ち", "チ")]);
    let g = t.grid();
    assert!(matches!(&g[4][2], GridCell::Kana(k, _) if k == "ti"));
}
