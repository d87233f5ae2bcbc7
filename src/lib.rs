//! Line-based substring search: argument validation, and exact or
//! lowercased matching of a query against the lines of a text.

pub mod text;
pub mod search;
pub mod config;

pub use config::{
    create_terms_struct, extract_terms_properties_from_args, parse_true_or_false_argument,
    validate_args, validate_case_sensitive_character, Args, Terms,
};
pub use search::{search, search_case_insensitive, search_case_sensitive};
