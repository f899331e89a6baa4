use prepare_commit_msg::text::{blank, joined, same_text, starts_with};
use prepare_commit_msg::ticket::is_ticket_id;

#[test]
fn blank_text_holds_white_space_only() {
    assert!(blank(""));
    assert!(blank(" "));
    assert!(blank("\n\t \r"));
    assert!(blank("\u{2028}\u{3000}"));
    assert!(!blank("a"));
    assert!(!blank("  a  "));
    assert!(!blank("\n.\n"));
    assert!(!blank("\u{200b}"));
}

#[test]
fn starts_with_compares_the_front() {
    assert!(starts_with("fixup! x", "fixup!"));
    assert!(starts_with("fixup!", "fixup!"));
    assert!(starts_with("anything", ""));
    assert!(starts_with("", ""));
    assert!(!starts_with("fixup", "fixup!"));
    assert!(!starts_with("", "a"));
    assert!(!starts_with("fixuq! x", "fixup!"));
    assert!(!starts_with("xfixup!", "fixup!"));
    assert!(starts_with("\u{e9}t\u{e9}", "\u{e9}t"));
    assert!(!starts_with("\u{e9}t\u{e9}", "et"));
    assert!(!starts_with("\u{e9}", "\u{c3}"));
}

#[test]
fn same_text_compares_all_characters() {
    assert!(same_text("", ""));
    assert!(same_text("TICKET-1", "TICKET-1"));
    assert!(same_text("\u{e9}\u{1f600}", "\u{e9}\u{1f600}"));
    assert!(!same_text("TICKET-1", "TICKET-2"));
    assert!(!same_text("TICKET-1", "TICKET-12"));
    assert!(!same_text("TICKET-1", "ticket-1"));
    assert!(!same_text("", "a"));
    assert!(!same_text("e\u{301}", "\u{e9}"));
}

#[test]
fn joined_puts_the_tail_behind_the_head() {
    assert_eq!(joined("ab", "cd"), "abcd");
    assert_eq!(joined("", "cd"), "cd");
    assert_eq!(joined("ab", ""), "ab");
    assert_eq!(joined("", ""), "");
    assert_eq!(joined("\u{e9}", "\u{1f600}"), "\u{e9}\u{1f600}");
}

#[test]
fn ticket_id_is_letters_hyphen_digits() {
    assert!(is_ticket_id("TICKET-123"));
    assert!(is_ticket_id("A-0"));
    assert!(is_ticket_id("AZ-09"));
    assert!(is_ticket_id("ABC-0001234567890"));
}

#[test]
fn other_texts_are_no_ticket_ids() {
    for text in [
        "",
        "-",
        "A",
        "A-",
        "-1",
        "1-A",
        "a-1",
        "A-a",
        "A--1",
        "A-1-",
        "A-1-2",
        "AB-12 ",
        " AB-12",
        "AB-12:",
        "A1-2",
        "AB_12",
        "AB-1\u{662}",
        "\u{c9}-1",
        "A\u{2010}1",
        "@-1",
        "[-1",
        "A-/",
        "A-:",
    ] {
        assert!(!is_ticket_id(text), "text {:?}", text);
    }
}
