use auth_proxy::text::matches_ignoring_case;

#[test]
fn equal_texts_match() {
    assert!(matches_ignoring_case("connection", "connection"));
    assert!(matches_ignoring_case("", ""));
}

#[test]
fn letter_case_is_ignored() {
    assert!(matches_ignoring_case("Connection", "connection"));
    assert!(matches_ignoring_case("CONNECTION", "connection"));
    assert!(matches_ignoring_case("x-forwarded-for", "X-Forwarded-For"));
}

#[test]
fn different_texts_do_not_match() {
    assert!(!matches_ignoring_case("connection", "connectio"));
    assert!(!matches_ignoring_case("connection", "connections"));
    assert!(!matches_ignoring_case("connection", "bonnection"));
}

#[test]
fn only_letters_fold() {
    // '@' is 32 below '`', and '[' is 32 below '{': neither pair is a letter
    assert!(!matches_ignoring_case("@", "`"));
    assert!(!matches_ignoring_case("[", "{"));
    // '0' and 'P' are 32 apart
    assert!(!matches_ignoring_case("0", "P"));
    assert!(!matches_ignoring_case("\u{e9}", "\u{c9}"));
}
