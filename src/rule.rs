//! A compiled ignore rule: a glob pattern's matcher with its two flags.

use vstd::prelude::*;
use regex::Regex;
use crate::engine::{regex_accepts, regex_built_case_insensitive, regex_is_match};
use crate::fnmatch::{compiled_from, fnmatch_to_regex, glob_matches, glob_regex, regex_matches, CompileError};

verus! {

/// One rule of an ignore file. `dir_only` says the rule applies to
/// directories only; `negation` says a match re-includes a path that an
/// earlier rule excluded. Both are for the caller that weighs a list of
/// rules; the rule itself only matches. Its regex is always one built
/// case-insensitively with every other option at its default.
pub struct Rule {
    re: Regex,
    dir_only: bool,
    negation: bool,
}

impl Rule {
    /// The rule's regex was built the way `new` builds one: case-insensitive,
    /// every other option at its default.
    #[verifier::type_invariant]
    spec fn built_by_new(&self) -> bool {
        regex_built_case_insensitive(self.re)
    }

    /// The rule's compiled regex.
    pub closed spec fn regex(&self) -> Regex {
        self.re
    }

    /// Whether the rule applies to directories only.
    pub closed spec fn spec_dir_only(&self) -> bool {
        self.dir_only
    }

    /// Whether a match re-includes the path.
    pub closed spec fn spec_negation(&self) -> bool {
        self.negation
    }

    /// Whether this rule's matcher matches `path`.
    pub open spec fn matches(&self, path: Seq<char>) -> bool {
        regex_matches(self.regex(), path)
    }

    /// Compiles `rule` into a rule with the given flags. Fails only where
    /// the regex engine rejects the pattern's translation.
    pub fn new(rule: &str, dir_only: bool, negation: bool) -> (r: Result<Rule, CompileError>)
        ensures
            r is Ok <==> regex_accepts(glob_regex(rule@)),
            r matches Ok(made) ==> {
                &&& compiled_from(made.regex(), rule@)
                &&& made.dir_only() == dir_only
                &&& made.negation() == negation
                &&& forall|path: Seq<char>| made.matches(path) == glob_matches(rule@, path)
            },
    {
        match fnmatch_to_regex(rule) {
            Ok(re) => Ok(Rule { re, dir_only, negation }),
            Err(e) => Err(e),
        }
    }

    /// Whether the rule matches the whole of `path`.
    pub fn is_match(&self, path: &str) -> (r: bool)
        ensures
            r == self.matches(path@),
    {
        proof {
            use_type_invariant(self);
        }
        regex_is_match(&self.re, path)
    }

    /// Whether the rule applies to directories only.
    #[verifier::when_used_as_spec(spec_dir_only)]
    pub fn dir_only(&self) -> (r: bool)
        ensures
            r == self.spec_dir_only(),
    {
        self.dir_only
    }

    /// Whether a match re-includes the path.
    #[verifier::when_used_as_spec(spec_negation)]
    pub fn negation(&self) -> (r: bool)
        ensures
            r == self.spec_negation(),
    {
        self.negation
    }
}

} // verus!
