use sqlite_repros::verdict::{confirmed_text, not_reproduced_text};

#[test]
fn verdicts_are_worded_apart() {
    assert_eq!(confirmed_text("it leaks"), "BUG CONFIRMED: it leaks");
    assert_eq!(not_reproduced_text("it does not"), "BUG NOT REPRODUCED: it does not");
    assert_ne!(confirmed_text(""), not_reproduced_text(""));
}
