//! Gitignore-style glob patterns: translation into anchored regular
//! expressions, compiled rules, and normalisation of ignore-file lines.

pub mod engine;
pub mod fnmatch;
pub mod rule;
pub mod rule_parser;
pub mod text;

pub use fnmatch::{fnmatch_to_regex, is_match, regex_source, CompileError};
pub use rule::Rule;
pub use rule_parser::{ParseStep, ParsedLine, RuleParser};
