use mr_tagger::text::{id3_join, id3_split, opt_to_str};

#[test]
fn split_two_composers() {
    let parts = id3_split(Some("Alice\u{0}Bob"));
    assert_eq!(parts, vec!["Alice".to_string(), "Bob".to_string()]);
}

#[test]
fn split_nothing_is_empty() {
    assert_eq!(id3_split(None), Vec::<String>::new());
}

#[test]
fn split_keeps_empty_segments() {
    assert_eq!(id3_split(Some("")), vec![String::new()]);
    assert_eq!(id3_split(Some("a\u{0}")), vec!["a".to_string(), String::new()]);
    assert_eq!(
        id3_split(Some("\u{0}\u{0}")),
        vec![String::new(), String::new(), String::new()]
    );
}

#[test]
fn join_restores_the_frame_text() {
    let text = "Alice\u{0}Bob";
    assert_eq!(id3_join(&id3_split(Some(text))), text);
    assert_eq!(id3_join(&vec![]), "");
    assert_eq!(id3_join(&vec!["x".to_string()]), "x");
}

#[test]
fn numbers_as_text() {
    assert_eq!(opt_to_str(None), "");
    assert_eq!(opt_to_str(Some(0)), "0");
    assert_eq!(opt_to_str(Some(7)), "7");
    assert_eq!(opt_to_str(Some(10)), "10");
    assert_eq!(opt_to_str(Some(4294967295)), "4294967295");
}
