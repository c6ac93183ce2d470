//! Normalisation of one line of an ignore file into a rule description:
//! strip, skip blank lines and comments, take off the directory-only slash,
//! expand path-like patterns, take off the negation mark, and decide the
//! anchoring and the prefix.
//!
//! Path expansion resolves a path on disk, which this library does not do:
//! `parse` stops and hands back the path to resolve, and `resolved` takes
//! the canonical path and finishes the line.

use vstd::prelude::*;
use crate::engine::regex_accepts;
use crate::fnmatch::{glob_matches, glob_regex, CompileError};
use crate::rule::Rule;
use crate::text::{
    concat, contains, ends_with, has_infix, has_prefix, has_suffix, pop_end_newlines,
    pop_end_white, starts_with, str_chars, string_from_chars, trim_end_newlines, trim_end_white,
};

verus! {

/// The line with its trailing newlines taken off, and then its trailing
/// white space too, unless it ends with an escaped space (`\ `).
pub open spec fn stripped(line: Seq<char>) -> Seq<char> {
    let t = trim_end_newlines(line);
    if has_suffix(t, seq!['\\', ' ']) {
        t
    } else {
        trim_end_white(t)
    }
}

/// A blank line or a comment: it yields no rule.
pub open spec fn is_skipped(s: Seq<char>) -> bool {
    s.len() == 0 || s[0] == '#'
}

/// The pattern and directory-only flag after the trailing `/` is taken
/// off.
pub open spec fn dir_only_step(s: Seq<char>, dir_only: bool) -> (Seq<char>, bool) {
    if s.len() > 0 && s.last() == '/' {
        (s.drop_last(), true)
    } else {
        (s, dir_only)
    }
}

/// A pattern that names a path: it starts with `~`, `/`, `./` or `../`.
pub open spec fn is_path_like(s: Seq<char>) -> bool {
    has_prefix(s, seq!['~']) || has_prefix(s, seq!['/']) || has_prefix(s, seq!['.', '/'])
        || has_prefix(s, seq!['.', '.', '/'])
}

/// The pattern and negation flag after the leading `!` is taken off: the
/// flag starts as `allow`, and a `!` flips it.
pub open spec fn negation_step(s: Seq<char>, allow: bool) -> (Seq<char>, bool) {
    if s.len() > 0 && s[0] == '!' {
        (s.drop_first(), !allow)
    } else {
        (s, allow)
    }
}

/// `/**/`: the prefix that lets a pattern match at any depth.
pub open spec fn any_depth_prefix() -> Seq<char> {
    seq!['/', '*', '*', '/']
}

/// Whether the pattern is anchored, and the prefix it is given: a leading
/// `/` anchors it with no prefix; a trailing `/**` or an inner `/**/`
/// anchors it with the prefix `/`; anything else matches at any depth.
pub open spec fn anchoring(s: Seq<char>) -> (bool, Seq<char>) {
    if has_prefix(s, seq!['/']) {
        (true, seq![])
    } else if has_suffix(s, seq!['/', '*', '*']) || has_infix(s, any_depth_prefix()) {
        (true, seq!['/'])
    } else {
        (false, any_depth_prefix())
    }
}

/// A normalised line, as mathematical values.
pub struct LineModel {
    pub pattern: Seq<char>,
    pub dir_only: bool,
    pub negation: bool,
    pub anchored: bool,
    pub prefix: Seq<char>,
}

/// The pattern and directory-only flag once the line is stripped and a
/// trailing `/` is taken off: what path expansion sees.
pub open spec fn before_expansion(line: Seq<char>) -> (Seq<char>, bool) {
    dir_only_step(stripped(line), false)
}

/// The rest of the pipeline, from the pattern that path expansion left:
/// directory-only again, negation, anchoring.
pub open spec fn finish_line(s: Seq<char>, dir_only: bool, allow: bool) -> LineModel {
    let d = dir_only_step(s, dir_only);
    let n = negation_step(d.0, allow);
    let a = anchoring(n.0);
    LineModel { pattern: n.0, dir_only: d.1, negation: n.1, anchored: a.0, prefix: a.1 }
}

/// A normalised line of an ignore file. `pattern` is the glob without its
/// marks; `prefix` goes in front of it before it is compiled.
pub struct ParsedLine {
    pub pattern: String,
    pub dir_only: bool,
    pub negation: bool,
    pub anchored: bool,
    pub prefix: String,
}

impl View for ParsedLine {
    type V = LineModel;

    open spec fn view(&self) -> LineModel {
        LineModel {
            pattern: self.pattern@,
            dir_only: self.dir_only,
            negation: self.negation,
            anchored: self.anchored,
            prefix: self.prefix@,
        }
    }
}

impl ParsedLine {
    /// The glob pattern to compile: the prefix followed by the pattern.
    pub fn full_pattern(&self) -> (r: String)
        ensures
            r@ == self.prefix@ + self.pattern@,
    {
        string_from_chars(&concat(&str_chars(self.prefix.as_str()), &str_chars(self.pattern.as_str())))
    }

    /// The rule this line describes: its full pattern compiled, with its two
    /// flags.
    pub fn to_rule(&self) -> (r: Result<Rule, CompileError>)
        ensures
            r is Ok <==> regex_accepts(glob_regex(self.prefix@ + self.pattern@)),
            r matches Ok(rule) ==> {
                &&& rule.dir_only() == self.dir_only
                &&& rule.negation() == self.negation
                &&& forall|path: Seq<char>|
                    rule.matches(path) == glob_matches(self.prefix@ + self.pattern@, path)
            },
    {
        let full = self.full_pattern();
        Rule::new(full.as_str(), self.dir_only, self.negation)
    }
}

/// What parsing a line comes to.
pub enum ParseStep {
    /// A blank line or a comment: no rule.
    Skip,
    /// The pattern names a path that has to be resolved against `root`;
    /// hand the canonical path to `RuleParser::resolved`.
    Resolve { path: String, root: String },
    /// The line is normalised.
    Parsed(ParsedLine),
}

/// Whether parsing the line stops for a path to be resolved: paths are
/// expanded and the pattern, stripped and without its trailing `/`, names
/// a path.
pub open spec fn stops_to_resolve(m: ParserModel) -> bool {
    m.expand_path && is_path_like(before_expansion(m.rule).0)
}

/// The parser's state, as mathematical values.
pub struct ParserModel {
    pub rule: Seq<char>,
    pub root: Seq<char>,
    pub allow: bool,
    pub expand_path: bool,
    pub dir_only: bool,
    pub negation: bool,
    pub anchored: bool,
    pub prefix: Seq<char>,
}

/// Parses one line of an ignore file.
pub struct RuleParser {
    rule: Vec<char>,
    root: String,
    allow: bool,
    expand_path: bool,
    dir_only: bool,
    negation: bool,
    anchored: bool,
    prefix: Vec<char>,
}

impl View for RuleParser {
    type V = ParserModel;

    closed spec fn view(&self) -> ParserModel {
        ParserModel {
            rule: self.rule@,
            root: self.root@,
            allow: self.allow,
            expand_path: self.expand_path,
            dir_only: self.dir_only,
            negation: self.negation,
            anchored: self.anchored,
            prefix: self.prefix@,
        }
    }
}

impl RuleParser {
    /// A parser for `rule`, a line of an ignore file under `root`. `allow`
    /// says the file lists what to include rather than what to exclude;
    /// `expand_path` says path-like patterns are resolved on disk.
    pub fn new(rule: &str, root: &str, allow: bool, expand_path: bool) -> (r: RuleParser)
        ensures
            r@ == (ParserModel {
                rule: rule@,
                root: root@,
                allow,
                expand_path,
                dir_only: false,
                negation: allow,
                anchored: false,
                prefix: seq![],
            }),
    {
        RuleParser {
            rule: str_chars(rule),
            root: root.to_owned(),
            allow,
            expand_path,
            dir_only: false,
            negation: allow,
            anchored: false,
            prefix: Vec::new(),
        }
    }

    /// Takes off the trailing newlines, and the trailing white space unless
    /// the line ends with an escaped space.
    fn strip(&mut self)
        ensures
            final(self)@ == (ParserModel { rule: stripped(old(self)@.rule), ..old(self)@ }),
    {
        pop_end_newlines(&mut self.rule);
        let escaped_space: Vec<char> = vec!['\\', ' '];
        assert(escaped_space@ =~= seq!['\\', ' ']);
        if !ends_with(&self.rule, &escaped_space) {
            pop_end_white(&mut self.rule);
        }
    }

    /// Whether the line is blank or a comment.
    fn skip(&self) -> (r: bool)
        ensures
            r == is_skipped(self@.rule),
    {
        self.rule.len() == 0 || self.rule[0] == '#'
    }

    /// Takes off the trailing `/` and marks the rule directory-only.
    fn extract_dir_only(&mut self)
        ensures
            final(self)@ == (ParserModel {
                rule: dir_only_step(old(self)@.rule, old(self)@.dir_only).0,
                dir_only: dir_only_step(old(self)@.rule, old(self)@.dir_only).1,
                ..old(self)@
            }),
    {
        if self.rule.len() > 0 && self.rule[self.rule.len() - 1] == '/' {
            self.rule.pop();
            self.dir_only = true;
        }
    }

    /// Whether the pattern names a path.
    fn path_like(&self) -> (r: bool)
        ensures
            r == is_path_like(self@.rule),
    {
        let tilde: Vec<char> = vec!['~'];
        let slash: Vec<char> = vec!['/'];
        let dot: Vec<char> = vec!['.', '/'];
        let dot_dot: Vec<char> = vec!['.', '.', '/'];
        assert(tilde@ =~= seq!['~']);
        assert(slash@ =~= seq!['/']);
        assert(dot@ =~= seq!['.', '/']);
        assert(dot_dot@ =~= seq!['.', '.', '/']);
        starts_with(&self.rule, &tilde) || starts_with(&self.rule, &slash) || starts_with(
            &self.rule,
            &dot,
        ) || starts_with(&self.rule, &dot_dot)
    }

    /// Puts the resolved path in place of the pattern.
    fn process_expand_path(&mut self, canonical: &str)
        ensures
            final(self)@ == (ParserModel { rule: canonical@, ..old(self)@ }),
    {
        self.rule = str_chars(canonical);
    }

    /// Takes off the leading `!` and flips the negation flag from its
    /// baseline.
    fn extract_negation(&mut self)
        ensures
            final(self)@ == (ParserModel {
                rule: negation_step(old(self)@.rule, old(self)@.allow).0,
                negation: if old(self)@.rule.len() > 0 && old(self)@.rule[0] == '!' {
                    !old(self)@.allow
                } else {
                    old(self)@.negation
                },
                ..old(self)@
            }),
    {
        if self.rule.len() > 0 && self.rule[0] == '!' {
            self.negation = !self.allow;
            let ghost before = self.rule@;
            self.rule.remove(0);
            assert(self.rule@ =~= before.drop_first());
        }
    }

    /// Decides the anchoring and the prefix.
    fn prefix(&mut self)
        ensures
            final(self)@ == (ParserModel {
                anchored: if anchoring(old(self)@.rule).0 {
                    true
                } else {
                    old(self)@.anchored
                },
                prefix: anchoring(old(self)@.rule).1,
                ..old(self)@
            }),
    {
        let slash: Vec<char> = vec!['/'];
        let tail: Vec<char> = vec!['/', '*', '*'];
        let inner: Vec<char> = vec!['/', '*', '*', '/'];
        assert(slash@ =~= seq!['/']);
        assert(tail@ =~= seq!['/', '*', '*']);
        assert(inner@ =~= any_depth_prefix());
        if starts_with(&self.rule, &slash) {
            self.anchored = true;
            self.prefix = Vec::new();
        } else if ends_with(&self.rule, &tail) || contains(&self.rule, &inner) {
            self.anchored = true;
            self.prefix = slash;
        } else {
            self.prefix = inner;
        }
    }

    /// The normalised line the parser now holds.
    fn line(&self) -> (r: ParsedLine)
        ensures
            r@ == (LineModel {
                pattern: self@.rule,
                dir_only: self@.dir_only,
                negation: self@.negation,
                anchored: self@.anchored,
                prefix: self@.prefix,
            }),
    {
        ParsedLine {
            pattern: string_from_chars(&self.rule),
            dir_only: self.dir_only,
            negation: self.negation,
            anchored: self.anchored,
            prefix: string_from_chars(&self.prefix),
        }
    }

    /// The steps after path expansion, from the negation baseline and an
    /// unanchored state.
    fn finish(&mut self) -> (r: ParsedLine)
        ensures
            r@ == finish_line(old(self)@.rule, old(self)@.dir_only, old(self)@.allow),
    {
        self.negation = self.allow;
        self.anchored = false;
        self.extract_dir_only();
        self.extract_negation();
        self.prefix();
        self.line()
    }

    /// Parses the line the parser was made for: a blank line or a comment
    /// is skipped; a path-like pattern, where paths are expanded, stops for
    /// its path to be resolved; any other line comes out normalised.
    pub fn parse(&mut self) -> (r: ParseStep)
        ensures
            is_skipped(stripped(old(self)@.rule)) ==> r is Skip,
            !is_skipped(stripped(old(self)@.rule)) && stops_to_resolve(old(self)@) ==> ({
                &&& r matches ParseStep::Resolve { path, root }
                &&& path@ == before_expansion(old(self)@.rule).0
                &&& root@ == old(self)@.root
                &&& final(self)@ == (ParserModel {
                    rule: before_expansion(old(self)@.rule).0,
                    dir_only: before_expansion(old(self)@.rule).1,
                    negation: old(self)@.allow,
                    anchored: false,
                    ..old(self)@
                })
            }),
            !is_skipped(stripped(old(self)@.rule)) && !stops_to_resolve(old(self)@) ==> ({
                &&& r matches ParseStep::Parsed(line)
                &&& line@ == finish_line(
                    before_expansion(old(self)@.rule).0,
                    before_expansion(old(self)@.rule).1,
                    old(self)@.allow,
                )
            }),
    {
        self.dir_only = false;
        self.negation = self.allow;
        self.anchored = false;
        self.strip();
        if self.skip() {
            return ParseStep::Skip;
        }
        self.extract_dir_only();
        if self.expand_path && self.path_like() {
            return ParseStep::Resolve {
                path: string_from_chars(&self.rule),
                root: self.root.clone(),
            };
        }
        ParseStep::Parsed(self.finish())
    }

    /// Finishes a line that stopped for path resolution, with `canonical`,
    /// the resolved path, in place of the pattern.
    pub fn resolved(&mut self, canonical: &str) -> (r: ParsedLine)
        ensures
            r@ == finish_line(canonical@, old(self)@.dir_only, old(self)@.allow),
    {
        self.process_expand_path(canonical);
        self.finish()
    }
}

} // verus!
