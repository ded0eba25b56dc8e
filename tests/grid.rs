use kana_table::grid::{card_follows_row, cell_at, layout, GridCell, COLUMNS, ROWS};
use kana_table::index::KanaIndex;
use kana_table::Kana;

fn kana(romaji: &str, hiragana: &str) -> Kana {
    Kana {
        romaji: romaji.to_string(),
        script_type: "gojuuon".to_string(),
        hiragana: hiragana.to_string(),
        katakana: String::new(),
    }
}

#[test]
fn grid_is_seventeen_by_nine() {
    let g = layout(&KanaIndex::new());
    assert_eq!(ROWS, 17);
    assert_eq!(COLUMNS, 9);
    assert_eq!(g.len(), 17);
    for row in &g {
        assert_eq!(row.len(), 9);
    }
}

#[test]
fn headers_carry_the_labels() {
    let g = layout(&KanaIndex::new());
    assert!(matches!(&g[0][0], GridCell::RowHeader(s) if s.is_empty()));
    assert!(matches!(&g[3][0], GridCell::RowHeader(s) if s == "s"));
    assert!(matches!(&g[11][0], GridCell::RowHeader(s) if s == "N"));
    assert!(matches!(&g[16][0], GridCell::RowHeader(s) if s == "p"));
    assert!(matches!(&g[0][1], GridCell::ColumnHeader(s) if s == "a"));
    assert!(matches!(&g[0][8], GridCell::ColumnHeader(s) if s == "yo"));
}

#[test]
fn vowel_row_glides_are_always_empty() {
    let idx = KanaIndex::build(&vec![kana("ya", "や"), kana("yu", "ゆ"), kana("yo", "よ"), kana("a", "あ")]);
    let g = layout(&idx);
    for i in 6..9 {
        assert!(matches!(g[1][i], GridCell::Empty));
    }
    assert!(matches!(&g[1][1], GridCell::Kana(k, r) if k == "a" && r.hiragana == "あ"));
    assert!(matches!(&g[8][1], GridCell::Kana(k, r) if k == "ya" && r.hiragana == "や"));
}

#[test]
fn cells_look_up_normalised_keys() {
    let idx = KanaIndex::build(&vec![kana("shi", "し"), kana("sha", "しゃ"), kana("n", "ん")]);
    assert!(matches!(cell_at(&idx, 3, 2), GridCell::Kana(k, r) if k == "si" && r.hiragana == "し"));
    assert!(matches!(cell_at(&idx, 3, 6), GridCell::Kana(k, _) if k == "sya"));
    assert!(matches!(cell_at(&idx, 11, 3), GridCell::Kana(k, r) if k == "Nu" && r.hiragana == "ん"));
    assert!(matches!(cell_at(&idx, 3, 1), GridCell::Empty));
    assert!(matches!(cell_at(&idx, 1, 3), GridCell::Empty));
}

#[test]
fn card_follows_the_row_of_its_key() {
    assert!(card_follows_row(1, "a"));
    assert!(!card_follows_row(1, "ka"));
    assert!(card_follows_row(2, "ka"));
    assert!(card_follows_row(3, "sya"));
    assert!(!card_follows_row(3, "ka"));
    assert!(card_follows_row(11, "Nu"));
    assert!(!card_follows_row(0, "a"));
}
