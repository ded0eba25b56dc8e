use kana_table::focus::FocusState;

#[test]
fn focus_toggles_and_replaces() {
    let mut f = FocusState::new();
    assert!(f.key().is_none());
    f.toggle("ka");
    assert_eq!(f.key().unwrap(), "ka");
    assert!(f.is_focused("ka"));
    f.toggle("ka");
    assert!(f.key().is_none());
    f.toggle("ka");
    f.toggle("ki");
    assert_eq!(f.key().unwrap(), "ki");
    assert!(!f.is_focused("ka"));
}
