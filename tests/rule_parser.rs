use fast_ignore::{ParseStep, ParsedLine, RuleParser};

fn parsed(line: &str, allow: bool) -> ParsedLine {
    match RuleParser::new(line, "/root", allow, false).parse() {
        ParseStep::Parsed(p) => p,
        _ => panic!("line was not parsed"),
    }
}

fn is_skip(line: &str) -> bool {
    matches!(RuleParser::new(line, "/root", false, false).parse(), ParseStep::Skip)
}

#[test]
fn blank_and_comment_lines_are_skipped() {
    assert!(is_skip(""));
    assert!(is_skip("   "));
    assert!(is_skip("# comment"));
    assert!(is_skip("\n"));
    assert!(!is_skip("foo"));
    assert!(!is_skip(" #foo"));
}

#[test]
fn negation_flips_from_baseline() {
    let deny = parsed("!foo", false);
    assert!(deny.negation);
    assert_eq!(deny.pattern, "foo");
    let allow = parsed("!foo", true);
    assert!(!allow.negation);
    assert_eq!(allow.pattern, "foo");
    assert!(!parsed("foo", false).negation);
    assert!(parsed("foo", true).negation);
}

#[test]
fn leading_slash_anchors_without_prefix() {
    let p = parsed("/foo", false);
    assert!(p.anchored);
    assert_eq!(p.prefix, "");
    assert_eq!(p.pattern, "/foo");
}

#[test]
fn plain_pattern_matches_at_any_depth() {
    let p = parsed("foo", false);
    assert!(!p.anchored);
    assert_eq!(p.prefix, "/**/");
    assert_eq!(p.full_pattern(), "/**/foo");
}

#[test]
fn double_star_anchors_with_root_prefix() {
    let p = parsed("foo/**", false);
    assert!(p.anchored);
    assert_eq!(p.prefix, "/");
    let q = parsed("a/**/b", false);
    assert!(q.anchored);
    assert_eq!(q.prefix, "/");
}

#[test]
fn trailing_slash_marks_directory_only() {
    let p = parsed("build/", false);
    assert!(p.dir_only);
    assert_eq!(p.pattern, "build");
    let q = parsed("build//", false);
    assert!(q.dir_only);
    assert_eq!(q.pattern, "build");
    assert!(!parsed("build", false).dir_only);
}

#[test]
fn trailing_white_space_is_stripped() {
    assert_eq!(parsed("foo  \n", false).pattern, "foo");
    assert_eq!(parsed("foo\t\r\n", false).pattern, "foo");
}

#[test]
fn escaped_trailing_space_is_kept() {
    assert_eq!(parsed("foo\\ ", false).pattern, "foo\\ ");
    assert_eq!(parsed("foo\\ \n", false).pattern, "foo\\ ");
}

#[test]
fn path_like_pattern_stops_for_resolution() {
    let mut parser = RuleParser::new("./src/", "/root", false, true);
    match parser.parse() {
        ParseStep::Resolve { path, root } => {
            assert_eq!(path, "./src");
            assert_eq!(root, "/root");
        }
        _ => panic!("expected a path to resolve"),
    }
    let line = parser.resolved("/root/src");
    assert!(line.dir_only);
    assert!(line.anchored);
    assert_eq!(line.prefix, "");
    assert_eq!(line.pattern, "/root/src");
}

#[test]
fn expansion_off_leaves_path_like_pattern() {
    let p = parsed("./src", false);
    assert_eq!(p.pattern, "./src");
    assert!(!p.anchored);
}

#[test]
fn negated_pattern_is_not_expanded() {
    let mut parser = RuleParser::new("!/foo", "/root", false, true);
    match parser.parse() {
        ParseStep::Parsed(p) => {
            assert!(p.negation);
            assert!(p.anchored);
            assert_eq!(p.pattern, "/foo");
        }
        _ => panic!("expected a parsed line"),
    }
}

#[test]
fn parsed_line_compiles_to_rule() {
    let rule = parsed("*.log/", false).to_rule().unwrap();
    assert!(rule.dir_only());
    assert!(!rule.negation());
    assert!(rule.is_match("/x.log"));
    assert!(rule.is_match("/a/b/x.log"));
    assert!(!rule.is_match("/a/x.txt"));
    let anchored = parsed("/foo", false).to_rule().unwrap();
    assert!(anchored.is_match("/foo"));
    assert!(!anchored.is_match("/a/foo"));
}

#[test]
fn only_one_negation_mark_is_taken_off() {
    let p = parsed("!!foo", false);
    assert!(p.negation);
    assert_eq!(p.pattern, "!foo");
}

#[test]
fn each_directory_step_takes_off_one_slash() {
    let p = parsed("build///", false);
    assert!(p.dir_only);
    assert_eq!(p.pattern, "build/");
}
