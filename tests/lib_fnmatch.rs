use fast_ignore::{fnmatch_to_regex, is_match};

#[test]
fn lib_fnmatch_test_stars() {
    assert_eq!(is_match("a*b", "ab"), Ok(true));
    assert_eq!(is_match("a*b", "abb"), Ok(true));
    assert_eq!(is_match("a*b", "acb"), Ok(true));
    assert_eq!(is_match("a*b", "aaabbbb"), Ok(true));
    assert_eq!(is_match("a*b", "a/b"), Ok(false));
    assert_eq!(is_match("a*b", "aaabbbb"), Ok(true));
    assert_eq!(is_match("a*b", "a/b"), Ok(false));
}

#[test]
fn lib_fnmatch_test_two_stars() {
    assert_eq!(is_match("**/b", "b"), Ok(true));
    assert_eq!(is_match("**/b", "a/b"), Ok(true));
    assert_eq!(is_match("**/b", "a/c/b"), Ok(true));
    assert_eq!(is_match("**/b", "ab"), Ok(false));

    assert_eq!(is_match("b/**", "b/a"), Ok(true));
    assert_eq!(is_match("b/**", "b"), Ok(false));
    assert_eq!(is_match("b/**", "b/a/b"), Ok(true));
    assert_eq!(is_match("b/**", "baa"), Ok(false));

    assert_eq!(is_match("a/**/b", "a/b"), Ok(true));
    assert_eq!(is_match("a/**/b", "a/b/c/b"), Ok(true));
    assert_eq!(is_match("a/**/b", "a/c/b"), Ok(true));
    assert_eq!(is_match("a/**/**/b", "a/b"), Ok(true));
    assert_eq!(is_match("a/**/b", "ab"), Ok(false));
    assert_eq!(is_match("a/**/b", "a/ab"), Ok(false));
}

#[test]
fn lib_fnmatch_to_regex_to_string() {
    assert_eq!(fnmatch_to_regex("[[]").unwrap().to_string(), r"^[\[]$");
}

#[test]
fn lib_fnmatch_test_character_group_range() {
    assert_eq!(is_match("[a-c]", "a"), Ok(true));
    assert_eq!(is_match("[a-c]", "b"), Ok(true));
    assert_eq!(is_match("[a-c]", "c"), Ok(true));
    assert_eq!(is_match("[a-c]", "d"), Ok(false));
    assert_eq!(is_match("[a-c]", "-"), Ok(false));
}

#[test]
fn lib_fnmatch_test_character_group_with_dash_at_end() {
    assert_eq!(is_match("[a-]", "a"), Ok(true));
    assert_eq!(is_match("[a-]", "-"), Ok(true));
    assert_eq!(is_match("[a-]", "b"), Ok(false));
    assert_eq!(is_match("[-a]", "a"), Ok(true));
    assert_eq!(is_match("[-a]", "-"), Ok(true));
    assert_eq!(is_match("[-a]", "b"), Ok(false));
}

#[test]
fn lib_fnmatch_test_character_group() {
    assert_eq!(is_match("[abc]", "a"), Ok(true));
    assert_eq!(is_match("[abc]", "b"), Ok(true));
    assert_eq!(is_match("[abc]", "c"), Ok(true));
    assert_eq!(is_match("[abc]", "d"), Ok(false));
    assert_eq!(is_match("a[b/]c", "abc"), Ok(true));
    assert_eq!(is_match("a[b/]c", "a/c"), Ok(false));
    assert_eq!(is_match("a[/]c", "a/c"), Ok(false));
    assert_eq!(is_match("a[/]c", "ac"), Ok(false));

    assert_eq!(is_match("a[[]c", "a[c"), Ok(true));
}

#[test]
fn lib_fnmatch_test_question_mark() {
    assert_eq!(is_match("?", "a"), Ok(true));
    assert_eq!(is_match("a", "?"), Ok(false));
    assert_eq!(is_match("a?c", "abc"), Ok(true));
    assert_eq!(is_match("a?c", "aac"), Ok(true));
    assert_eq!(is_match("a?c", "a.c"), Ok(true));
    assert_eq!(is_match("a?c", "a/c"), Ok(false));
}

#[test]
fn lib_fnmatch_test_case_insensitivity() {
    assert_eq!(is_match("i", "I"), Ok(true));
    assert_eq!(is_match("I", "i"), Ok(true));
    assert_eq!(is_match("ø", "Ø"), Ok(true));
    assert_eq!(is_match("Ø", "ø"), Ok(true));
}

#[test]
fn lib_fnmatch_test_exact_equality() {
    assert_eq!(is_match("", ""), Ok(true));
    assert_eq!(is_match("a", "a"), Ok(true));
    assert_eq!(is_match("ABC", "ABC"), Ok(true));
    assert_eq!(is_match(".a", ".a"), Ok(true));
    assert_eq!(is_match("a/b/c", "a/b/c"), Ok(true));

    assert_eq!(is_match("a", ""), Ok(false));
    assert_eq!(is_match("a/b/c", "a/b"), Ok(false));
    assert_eq!(is_match("", "BC"), Ok(false));
}
