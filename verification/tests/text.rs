use jetx_monitor::text::{chars_of, same_text};

#[test]
fn lists_the_characters_of_a_text() {
    assert_eq!(chars_of(""), Vec::<char>::new());
    assert_eq!(chars_of("a_b"), vec!['a', '_', 'b']);
    assert_eq!(chars_of("zoë€"), vec!['z', 'o', 'ë', '€']);
}

#[test]
fn compares_texts_by_their_characters() {
    assert!(same_text("", ""));
    assert!(same_text("gBoard", "gBoard"));
    assert!(!same_text("gBoard", "gboard"));
    assert!(!same_text("g", "gBoard"));
    assert!(!same_text("response", ""));
}
