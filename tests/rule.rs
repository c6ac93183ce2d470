use fast_ignore::Rule;

#[test]
fn rule_keeps_flags() {
    let r = Rule::new("a*", true, false).unwrap();
    assert!(r.dir_only());
    assert!(!r.negation());
    let n = Rule::new("a*", false, true).unwrap();
    assert!(!n.dir_only());
    assert!(n.negation());
}

#[test]
fn rule_matches_its_pattern() {
    let r = Rule::new("/**/*.log", false, false).unwrap();
    assert!(r.is_match("/a/b/x.log"));
    assert!(r.is_match("/x.LOG"));
    assert!(!r.is_match("/x.txt"));
    assert!(!r.is_match("x.log"));
}

#[test]
fn rule_rejects_malformed_pattern() {
    assert!(Rule::new("[b-a]", false, false).is_err());
}
