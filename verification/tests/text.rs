use offload::text::{chars_of, contains_text, join_from, single_line};

fn strings(items: &[&str]) -> Vec<String> {
    items.iter().map(|s| s.to_string()).collect()
}

#[test]
fn join_from_puts_one_separator_between_neighbours() {
    let parts = strings(&["offload", "host", "make", "-j", "4"]);
    assert_eq!(join_from(&parts, 2, " "), "make -j 4");
    assert_eq!(join_from(&parts, 0, ", "), "offload, host, make, -j, 4");
}

#[test]
fn join_from_of_one_item_is_the_item() {
    let parts = strings(&["a", "b", "c"]);
    assert_eq!(join_from(&parts, 2, " "), "c");
}

#[test]
fn join_from_the_end_is_empty() {
    let parts = strings(&["a", "b"]);
    assert_eq!(join_from(&parts, 2, " "), "");
    assert_eq!(join_from(&Vec::new(), 0, " "), "");
}

#[test]
fn join_from_keeps_empty_items() {
    let parts = strings(&["", "", "x"]);
    assert_eq!(join_from(&parts, 0, " "), "  x");
}

#[test]
fn single_line_replaces_every_line_break() {
    assert_eq!(single_line("a\nb\r\nc"), "a b  c");
    assert_eq!(single_line("\n"), " ");
}

#[test]
fn single_line_keeps_a_single_line() {
    assert_eq!(single_line("no break here"), "no break here");
    assert_eq!(single_line(""), "");
    assert_eq!(single_line("grüße → ok"), "grüße → ok");
}

#[test]
fn chars_of_lists_the_characters() {
    assert_eq!(chars_of("aß→"), vec!['a', 'ß', '→']);
    assert_eq!(chars_of(""), Vec::<char>::new());
}

#[test]
fn contains_text_finds_a_needle_anywhere() {
    assert!(contains_text("Host key verification failed.", "Host key"));
    assert!(contains_text("x: Host key verification failed.", "verification failed."));
    assert!(contains_text("abcabd", "abd"));
    assert!(contains_text("abc", "abc"));
}

#[test]
fn contains_text_rejects_what_is_not_there() {
    assert!(!contains_text("abcabd", "abe"));
    assert!(!contains_text("ab", "abc"));
    assert!(!contains_text("", "a"));
    assert!(!contains_text("Host key", "host key"));
}

#[test]
fn contains_text_finds_the_empty_needle() {
    assert!(contains_text("abc", ""));
    assert!(contains_text("", ""));
}
