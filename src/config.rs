//! Turning the raw arguments into a validated search configuration.

use vstd::prelude::*;

use crate::text::{lower_of, lowercase};

verus! {

/// The token, in any casing, that asks for a case-insensitive search.
pub const FALSE_TOKEN: &'static str = "f";

/// The token, in any casing, that asks for a case-sensitive search.
pub const TRUE_TOKEN: &'static str = "t";

/// Reported when the query is empty.
pub const MISSING_QUERY: &'static str = "missing query argument...";

/// Reported when the file path is empty.
pub const MISSING_FILE: &'static str = "missing file name...";

/// Reported when the case-sensitivity token is neither of the two accepted.
pub const INVALID_CASE_SENSITIVE: &'static str = "invalid case sensitive argument...";

/// The arguments as given: the query, the path of the file to search, and
/// the case-sensitivity token.
pub struct Args {
    pub query: String,
    pub file: String,
    pub case_sensitive: String,
}

/// A validated configuration: a non-empty query, a non-empty file path, and
/// whether matching is case-sensitive.
pub struct Terms {
    pub query: String,
    pub file: String,
    pub case_sensitive: bool,
}

/// Whether `token` is, up to casing, one of the two accepted tokens.
pub open spec fn token_accepted(token: Seq<char>) -> bool {
    lower_of(token) == FALSE_TOKEN@ || lower_of(token) == TRUE_TOKEN@
}

/// The mode a token selects: case-sensitive unless it is the false token.
pub open spec fn token_mode(token: Seq<char>) -> bool {
    lower_of(token) != FALSE_TOKEN@
}

/// The first rule that `args` break, in the order query, file, token; or
/// none.
pub open spec fn first_violation(args: &Args) -> Option<Seq<char>> {
    if args.query@.len() == 0 {
        Some(MISSING_QUERY@)
    } else if args.file@.len() == 0 {
        Some(MISSING_FILE@)
    } else if !token_accepted(args.case_sensitive@) {
        Some(INVALID_CASE_SENSITIVE@)
    } else {
        None
    }
}

impl Terms {
    /// Whether `self` holds what a validation of `args` builds.
    pub open spec fn built_from(&self, args: &Args) -> bool {
        &&& self.query@ == args.query@
        &&& self.file@ == args.file@
        &&& self.case_sensitive == token_mode(args.case_sensitive@)
    }

    /// Validates `args` and, when they pass, builds the configuration they
    /// describe; otherwise reports the first rule they break.
    pub fn new(args: &Args) -> (r: Result<Terms, &'static str>)
        ensures
            match first_violation(args) {
                Some(message) => r is Err && r->Err_0@ == message,
                None => r is Ok && r->Ok_0.built_from(args),
            },
    {
        if let Err(e) = validate_args(args) {
            return Err(e);
        }
        Ok(create_terms_struct(args))
    }
}

/// Builds the configuration from `args` as they stand, without validating.
pub fn create_terms_struct(args: &Args) -> (r: Terms)
    ensures
        r.built_from(args),
{
    let (query, file, case_sensitive) = extract_terms_properties_from_args(args);
    Terms { query, file, case_sensitive }
}

/// Copies of the query and the file path, and the mode the token selects.
pub fn extract_terms_properties_from_args(args: &Args) -> (r: (String, String, bool))
    ensures
        r.0@ == args.query@,
        r.1@ == args.file@,
        r.2 == token_mode(args.case_sensitive@),
{
    (args.query.clone(), args.file.clone(), parse_true_or_false_argument(args.case_sensitive.as_str()))
}

/// `Ok(true)` when `args` are valid; otherwise the message of the first rule
/// they break, checked in the order query, file, token.
pub fn validate_args(args: &Args) -> (r: Result<bool, &'static str>)
    ensures
        match first_violation(args) {
            Some(message) => r is Err && r->Err_0@ == message,
            None => r == Ok::<bool, &'static str>(true),
        },
{
    if args.query.as_str().is_empty() {
        return Err(MISSING_QUERY);
    }
    if args.file.as_str().is_empty() {
        return Err(MISSING_FILE);
    }
    if validate_case_sensitive_character(args.case_sensitive.clone()) {
        return Err(INVALID_CASE_SENSITIVE);
    }
    Ok(true)
}

/// Whether `case_sensitive` is, up to casing, neither of the two accepted
/// tokens: `true` means the token is invalid.
pub fn validate_case_sensitive_character(case_sensitive: String) -> (r: bool)
    ensures
        r == !token_accepted(case_sensitive@),
{
    let lowered = lowercase(case_sensitive.as_str());
    !(lowered == FALSE_TOKEN.to_owned()) && !(lowered == TRUE_TOKEN.to_owned())
}

/// The mode a token selects: `false` (case-insensitive) for the false token
/// in any casing, `true` (case-sensitive) for anything else.
pub fn parse_true_or_false_argument(case_sensitive: &str) -> (r: bool)
    ensures
        r == token_mode(case_sensitive@),
{
    let is_case_sensitive = if lowercase(case_sensitive) == FALSE_TOKEN.to_owned() {
        false
    } else {
        true
    };
    is_case_sensitive
}

} // verus!
