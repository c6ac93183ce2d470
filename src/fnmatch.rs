//! Translation of a glob pattern into a fully anchored regular expression.
//!
//! The pattern is read left to right by a scanner with four pieces of state
//! (an escape pending, inside a character class, the class has content, and
//! the run of stars not yet resolved). Each character moves the scanner to a
//! new state and appends some regex text; stars are resolved lazily, at the
//! next separator, at the next other character, or at the end.

use vstd::prelude::*;
use regex::Regex;
use crate::engine::{
    build_case_insensitive, escape_char, regex_escaped, regex_accepts, regex_built_case_insensitive, regex_finds,
    regex_is_match, regex_pattern,
};
use crate::text::{str_chars, string_from_chars};

verus! {

/// The placeholder placed in a character class that would otherwise be
/// empty: a non-printable character, so the class stays valid and matches
/// nothing a path holds in practice.
pub const EMPTY_CLASS_SENTINEL: char = '\u{07}';

/// The scanner's state, as a mathematical value.
pub struct ScanModel {
    pub escape_next: bool,
    pub in_group: bool,
    pub group_has_chars: bool,
    pub stars: nat,
}

/// The state before the first character.
pub open spec fn initial_scan() -> ScanModel {
    ScanModel { escape_next: false, in_group: false, group_has_chars: false, stars: 0 }
}

/// `[^/]*`: any run of characters within one path segment.
pub open spec fn segment_run() -> Seq<char> {
    seq!['[', '^', '/', ']', '*']
}

/// `[^/]`: one character other than the separator.
pub open spec fn segment_char() -> Seq<char> {
    seq!['[', '^', '/', ']']
}

/// `(?:.*/)?`: zero or more whole path segments, each with its separator.
pub open spec fn any_segments() -> Seq<char> {
    seq!['(', '?', ':', '.', '*', '/', ')', '?']
}

/// `.*`: anything, separators included.
pub open spec fn anything() -> Seq<char> {
    seq!['.', '*']
}

/// The regex text appended when the scanner in state `st` reads `c`.
pub open spec fn step_output(st: ScanModel, c: char) -> Seq<char> {
    if st.escape_next {
        regex_escaped(c)
    } else if c == '\\' {
        seq![]
    } else if st.in_group {
        if c == '/' {
            seq![]
        } else if c == ']' {
            if st.group_has_chars {
                seq![']']
            } else {
                seq![EMPTY_CLASS_SENTINEL, ']']
            }
        } else if c == '-' {
            seq!['-']
        } else {
            regex_escaped(c)
        }
    } else if c == '*' {
        seq![]
    } else if c == '/' {
        if st.stars == 2 {
            any_segments()
        } else if st.stars > 0 {
            segment_run() + seq!['/']
        } else {
            seq!['/']
        }
    } else {
        (if st.stars > 0 {
            segment_run()
        } else {
            seq![]
        }) + (if c == '?' {
            segment_char()
        } else if c == '[' {
            seq!['[']
        } else {
            regex_escaped(c)
        })
    }
}

/// The state the scanner in state `st` moves to on reading `c`.
pub open spec fn step_state(st: ScanModel, c: char) -> ScanModel {
    if st.escape_next {
        ScanModel { escape_next: false, ..st }
    } else if c == '\\' {
        ScanModel { escape_next: true, ..st }
    } else if st.in_group {
        if c == '/' {
            st
        } else if c == ']' {
            ScanModel { in_group: false, group_has_chars: false, ..st }
        } else {
            ScanModel { group_has_chars: true, ..st }
        }
    } else if c == '*' {
        ScanModel { stars: st.stars + 1, ..st }
    } else if c == '[' {
        ScanModel { in_group: true, stars: 0, ..st }
    } else {
        ScanModel { stars: 0, ..st }
    }
}

/// The state after reading all of `p`.
pub open spec fn scan_state(p: Seq<char>) -> ScanModel
    decreases p.len(),
{
    if p.len() == 0 {
        initial_scan()
    } else {
        step_state(scan_state(p.drop_last()), p.last())
    }
}

/// The regex text appended while reading all of `p`.
pub open spec fn scan_output(p: Seq<char>) -> Seq<char>
    decreases p.len(),
{
    if p.len() == 0 {
        seq![]
    } else {
        scan_output(p.drop_last()) + step_output(scan_state(p.drop_last()), p.last())
    }
}

/// What the stars still pending at the end of the pattern become: `**`
/// matches anything, any other run stays within one segment.
pub open spec fn trailing_stars(stars: nat) -> Seq<char> {
    if stars == 2 {
        anything()
    } else if stars > 0 {
        segment_run()
    } else {
        seq![]
    }
}

/// The regular expression that the glob pattern `p` translates to: the
/// scanner's output between `^` and `$`.
pub open spec fn glob_regex(p: Seq<char>) -> Seq<char> {
    seq!['^'] + scan_output(p) + trailing_stars(scan_state(p).stars) + seq!['$']
}

/// Whether a path matches a glob pattern: the pattern's regex, matched
/// without regard to case, finds the path.
pub open spec fn glob_matches(pattern: Seq<char>, path: Seq<char>) -> bool {
    regex_finds(glob_regex(pattern), path)
}

/// The scanner's state while a pattern is read.
pub struct ScanState {
    pub escape_next: bool,
    pub in_group: bool,
    pub group_has_chars: bool,
    pub stars: usize,
}

impl View for ScanState {
    type V = ScanModel;

    open spec fn view(&self) -> ScanModel {
        ScanModel {
            escape_next: self.escape_next,
            in_group: self.in_group,
            group_has_chars: self.group_has_chars,
            stars: self.stars as nat,
        }
    }
}

fn push_all(out: &mut Vec<char>, text: Vec<char>)
    ensures
        final(out)@ == old(out)@ + text@,
{
    let mut text = text;
    out.append(&mut text);
}

fn segment_run_text() -> (r: Vec<char>)
    ensures
        r@ == segment_run(),
{
    let r: Vec<char> = vec!['[', '^', '/', ']', '*'];
    assert(r@ =~= segment_run());
    r
}

impl ScanState {
    /// The state before the first character.
    pub fn new() -> (r: ScanState)
        ensures
            r@ == initial_scan(),
    {
        ScanState { escape_next: false, in_group: false, group_has_chars: false, stars: 0 }
    }

    /// Reads one character: appends its regex text to `out` and moves on.
    pub fn step(&mut self, c: char, out: &mut Vec<char>)
        requires
            old(self).stars < usize::MAX,
        ensures
            final(self)@ == step_state(old(self)@, c),
            final(out)@ == old(out)@ + step_output(old(self)@, c),
    {
        if self.escape_next {
            push_all(out, escape_char(c));
            self.escape_next = false;
        } else if c == '\\' {
            self.escape_next = true;
            assert(out@ =~= out@ + Seq::<char>::empty());
        } else if self.in_group {
            if c == '/' {
                assert(out@ =~= out@ + Seq::<char>::empty());
            } else if c == ']' {
                if !self.group_has_chars {
                    out.push(EMPTY_CLASS_SENTINEL);
                }
                out.push(']');
                self.in_group = false;
                self.group_has_chars = false;
            } else if c == '-' {
                self.group_has_chars = true;
                out.push('-');
            } else {
                self.group_has_chars = true;
                push_all(out, escape_char(c));
            }
        } else if c == '*' {
            self.stars = self.stars + 1;
            assert(out@ =~= out@ + Seq::<char>::empty());
        } else if c == '/' {
            if self.stars == 2 {
                let t: Vec<char> = vec!['(', '?', ':', '.', '*', '/', ')', '?'];
                assert(t@ =~= any_segments());
                push_all(out, t);
            } else if self.stars > 0 {
                push_all(out, segment_run_text());
                out.push('/');
            } else {
                out.push('/');
            }
            self.stars = 0;
        } else {
            let ghost before = out@;
            if self.stars > 0 {
                push_all(out, segment_run_text());
                self.stars = 0;
            }
            let ghost mid = out@;
            if c == '?' {
                let t: Vec<char> = vec!['[', '^', '/', ']'];
                assert(t@ =~= segment_char());
                push_all(out, t);
            } else if c == '[' {
                out.push('[');
                self.in_group = true;
            } else {
                push_all(out, escape_char(c));
            }
            assert(out@ =~= before + (mid.skip(before.len() as int) + out@.skip(
                mid.len() as int,
            )));
        }
    }

    /// Resolves the stars still pending at the end of the pattern.
    pub fn finish(&self, out: &mut Vec<char>)
        ensures
            final(out)@ == old(out)@ + trailing_stars(self@.stars),
    {
        if self.stars == 2 {
            out.push('.');
            out.push('*');
        } else if self.stars > 0 {
            push_all(out, segment_run_text());
        } else {
            assert(out@ =~= out@ + Seq::<char>::empty());
        }
    }
}

/// The regex text of the glob pattern whose characters are `p`.
fn translate(p: &Vec<char>) -> (r: Vec<char>)
    ensures
        r@ == glob_regex(p@),
{
    let mut out: Vec<char> = Vec::new();
    out.push('^');
    let mut st = ScanState::new();
    let n = p.len();
    let mut i: usize = 0;
    while i < n
        invariant
            n == p@.len(),
            i <= n,
            st@ == scan_state(p@.take(i as int)),
            out@ == seq!['^'] + scan_output(p@.take(i as int)),
            st.stars <= i,
        decreases n - i,
    {
        let c = p[i];
        let ghost prefix = p@.take(i as int);
        assert(p@.take(i + 1).drop_last() =~= prefix);
        assert(p@.take(i + 1).last() == c);
        st.step(c, &mut out);
        assert(out@ =~= seq!['^'] + scan_output(p@.take(i + 1)));
        i = i + 1;
    }
    assert(p@.take(n as int) =~= p@);
    st.finish(&mut out);
    out.push('$');
    assert(out@ =~= glob_regex(p@));
    out
}

/// The regular expression a glob pattern translates to, as text.
pub fn regex_source(pattern: &str) -> (r: String)
    ensures
        r@ == glob_regex(pattern@),
{
    string_from_chars(&translate(&str_chars(pattern)))
}

/// Why a pattern could not be compiled.
#[derive(Debug, Clone, Copy, PartialEq, Eq, Structural)]
pub enum CompileError {
    /// The regex engine rejected the translated pattern: a class such as
    /// `[z-a]` or `[ab` that is no valid regex class, or a pattern whose
    /// compiled form exceeds the engine's size limit.
    MalformedPattern,
}

/// `re` is the case-insensitive compilation of the glob pattern `pattern`.
pub open spec fn compiled_from(re: Regex, pattern: Seq<char>) -> bool {
    regex_pattern(re) == glob_regex(pattern) && regex_built_case_insensitive(re)
}

/// Whether the compiled regex `re` matches `path`.
pub open spec fn regex_matches(re: Regex, path: Seq<char>) -> bool {
    regex_finds(regex_pattern(re), path)
}

/// Compiles a glob pattern into a case-insensitive, fully anchored regex.
/// Fails only where the regex engine rejects the translation.
pub fn fnmatch_to_regex(pattern: &str) -> (r: Result<Regex, CompileError>)
    ensures
        r is Ok <==> regex_accepts(glob_regex(pattern@)),
        r matches Ok(re) ==> compiled_from(re, pattern@),
{
    match build_case_insensitive(&translate(&str_chars(pattern))) {
        Ok(re) => Ok(re),
        Err(_) => Err(CompileError::MalformedPattern),
    }
}

/// Whether `path` matches the glob pattern `pattern`, or why the pattern
/// could not be compiled.
pub fn is_match(pattern: &str, path: &str) -> (r: Result<bool, CompileError>)
    ensures
        r is Ok <==> regex_accepts(glob_regex(pattern@)),
        r matches Ok(b) ==> b == glob_matches(pattern@, path@),
{
    match fnmatch_to_regex(pattern) {
        Ok(re) => Ok(regex_is_match(&re, path)),
        Err(e) => Err(e),
    }
}

/// Compiling the same pattern twice gives matchers that agree on every
/// path, and both match exactly as the pattern does.
pub proof fn lemma_compile_deterministic(pattern: Seq<char>, a: Regex, b: Regex)
    requires
        compiled_from(a, pattern),
        compiled_from(b, pattern),
    ensures
        forall|path: Seq<char>|
            #![auto]
            regex_matches(a, path) == regex_matches(b, path) && regex_matches(a, path)
                == glob_matches(pattern, path),
{
}

/// A pattern with no wildcard, class or escape: no `*`, `?`, `[` or `\`.
pub open spec fn is_literal(p: Seq<char>) -> bool {
    forall|i: int|
        0 <= i < p.len() ==> p[i] != '*' && p[i] != '?' && p[i] != '[' && p[i] != '\\'
}

/// Each character of `p` written so that a regex matches it literally.
pub open spec fn escaped_text(p: Seq<char>) -> Seq<char>
    decreases p.len(),
{
    if p.len() == 0 {
        seq![]
    } else {
        escaped_text(p.drop_last()) + regex_escaped(p.last())
    }
}

proof fn lemma_literal_scan(p: Seq<char>)
    requires
        is_literal(p),
    ensures
        scan_state(p) == initial_scan(),
        scan_output(p) == escaped_text(p),
    decreases p.len(),
{
    if p.len() > 0 {
        let q = p.drop_last();
        assert(is_literal(q));
        lemma_literal_scan(q);
        assert(p.last() == p[p.len() - 1]);
    }
}

/// A pattern with no wildcard, class or escape translates to its own text,
/// every character matched literally, between `^` and `$`: it can match
/// only the path equal to it up to case.
pub proof fn lemma_literal_regex(p: Seq<char>)
    requires
        is_literal(p),
    ensures
        glob_regex(p) == seq!['^'] + escaped_text(p) + seq!['$'],
{
    lemma_literal_scan(p);
    assert(trailing_stars(0) =~= Seq::<char>::empty());
    assert(glob_regex(p) =~= seq!['^'] + escaped_text(p) + seq!['$']);
}

} // verus!
