use kana_table::cards::{filter_cards, query, sort_cards};
use kana_table::carousel::CardCarousel;
use kana_table::{Kana, KanaCard, KanaCardComponentProps, KanaType};

fn card(kana: &str) -> KanaCard {
    KanaCard {
        romaji: String::new(),
        meaning: String::new(),
        kana: kana.to_string(),
        kanji: String::new(),
        src: String::new(),
    }
}

fn sa() -> Kana {
    Kana {
        romaji: "sa".to_string(),
        script_type: "gojuuon".to_string(),
        hiragana: "さ".to_string(),
        katakana: "サ".to_string(),
    }
}

fn kanas(v: &[KanaCard]) -> Vec<&str> {
    v.iter().map(|c| c.kana.as_str()).collect()
}

#[test]
fn shortest_first_then_load_order() {
    let all = vec![card("さくら"), card("さく"), card("さかな")];
    let r = query(&all, Some(&sa()), KanaType::Hiragana);
    assert_eq!(kanas(&r), vec!["さく", "さくら", "さかな"]);
}

#[test]
fn starting_with_the_form_comes_first_among_equal_lengths() {
    let all = vec![card("あさ"), card("さあ"), card("かさね"), card("さ"), card("かき")];
    let r = query(&all, Some(&sa()), KanaType::Hiragana);
    assert_eq!(kanas(&r), vec!["さ", "さあ", "あさ", "かさね"]);
}

#[test]
fn katakana_filters_on_the_katakana_form() {
    let all = vec![card("さくら"), card("サクラ"), card("アサ")];
    let r = query(&all, Some(&sa()), KanaType::Katakana);
    assert_eq!(kanas(&r), vec!["アサ", "サクラ"]);
}

#[test]
fn empty_or_unmatched_query_is_empty() {
    assert!(query(&vec![], Some(&sa()), KanaType::Hiragana).is_empty());
    assert!(query(&vec![card("かき"), card("ねこ")], Some(&sa()), KanaType::Hiragana).is_empty());
    assert!(query(&vec![card("さくら")], None, KanaType::Hiragana).is_empty());
}

#[test]
fn filter_keeps_source_order() {
    let all = vec![card("さくら"), card("ねこ"), card("あさ")];
    assert_eq!(kanas(&filter_cards(&all, "さ")), vec!["さくら", "あさ"]);
}

#[test]
fn sort_moves_later_shorter_cards_forward() {
    let all = vec![card("ccc"), card("ab"), card("a"), card("bb")];
    assert_eq!(kanas(&sort_cards(&all, "a")), vec!["a", "ab", "bb", "ccc"]);
}

#[test]
fn props_query_uses_their_script() {
    let props = KanaCardComponentProps { current_type: KanaType::Katakana, kana_key: "sa".to_string(), kana: sa() };
    let all = vec![card("サクラ"), card("さくら")];
    assert_eq!(kanas(&props.cards(&all)), vec!["サクラ"]);
}

#[test]
fn carousel_wraps_both_ways() {
    let mut c = CardCarousel::new();
    c.show(vec![card("a"), card("b"), card("c")]);
    assert_eq!(c.total(), 3);
    assert_eq!(c.index(), 0);
    c.previous();
    assert_eq!(c.index(), 2);
    assert_eq!(c.current().unwrap().kana, "c");
    c.next();
    assert_eq!(c.index(), 0);
    c.next();
    assert_eq!(c.index(), 1);
}

#[test]
fn carousel_clamps_to_a_smaller_set() {
    let mut c = CardCarousel::new();
    c.show(vec![card("a"), card("b"), card("c")]);
    c.previous();
    assert_eq!(c.index(), 2);
    c.show(vec![card("x"), card("y")]);
    assert_eq!(c.index(), 1);
    assert_eq!(c.current().unwrap().kana, "y");
}

#[test]
fn empty_carousel_shows_nothing() {
    let mut c = CardCarousel::new();
    c.show(vec![]);
    assert_eq!(c.total(), 0);
    assert!(c.current().is_none());
    c.next();
    c.previous();
    assert_eq!(c.index(), 0);
    assert!(c.current().is_none());
}
