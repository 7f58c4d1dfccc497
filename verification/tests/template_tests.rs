use uaparser_rs::template::replace_captures;

fn groups(items: &[Option<&str>]) -> Vec<Option<String>> {
    items.iter().map(|g| g.map(|s| s.to_string())).collect()
}

#[test]
fn expand_two_placeholders() {
    let caps = groups(&[Some("18 0"), Some("18"), Some("0")]);
    assert_eq!(replace_captures("$1 $2", &caps), "18 0");
}

#[test]
fn expand_without_placeholders_is_identity() {
    let caps = groups(&[Some("whole"), Some("18"), Some("0")]);
    assert_eq!(replace_captures("Firefox", &caps), "Firefox");
    assert_eq!(replace_captures("", &caps), "");
}

#[test]
fn expand_leaves_unknown_index_untouched() {
    let caps = groups(&[Some("m"), Some("x")]);
    assert_eq!(replace_captures("$9", &caps), "$9");
    assert_eq!(replace_captures("a$1b$9c", &caps), "axb$9c");
}

#[test]
fn expand_absent_group_becomes_empty() {
    let caps = groups(&[Some("m"), None, Some("z")]);
    assert_eq!(replace_captures("[$1][$2]", &caps), "[][z]");
}

#[test]
fn expand_inserts_captured_text_verbatim() {
    let caps = groups(&[Some("m"), Some("a$b\\1")]);
    assert_eq!(replace_captures("$1", &caps), "a$b\\1");
    // a captured value that itself looks like a placeholder is carried
    // through as literal text, never re-substituted
    let caps = groups(&[Some("m"), Some("$2"), Some("X")]);
    assert_eq!(replace_captures("$1", &caps), "$2");
}

#[test]
fn expand_replaces_every_occurrence() {
    let caps = groups(&[Some("m"), Some("7")]);
    assert_eq!(replace_captures("$1.$1.$1", &caps), "7.7.7");
}

#[test]
fn expand_token_is_dollar_and_one_digit() {
    // eleven groups, so a group 10 exists, but a placeholder token is a
    // dollar sign and one digit: "$10" reads as the token "$1" followed by
    // the literal character '0'
    let mut caps: Vec<Option<String>> = vec![Some("m".to_string()), Some("X".to_string())];
    for _ in 2..=10 {
        caps.push(Some("y".to_string()));
    }
    assert_eq!(replace_captures("$10", &caps), "X0");
}

#[test]
fn expand_with_no_sub_captures_is_identity() {
    let caps = groups(&[Some("m")]);
    assert_eq!(replace_captures("$1", &caps), "$1");
    let empty: Vec<Option<String>> = Vec::new();
    assert_eq!(replace_captures("$1", &empty), "$1");
}
