//! A content filter for chat messages: it compiles a list of forbidden terms,
//! together with a table of confusable characters, into a single
//! case-insensitive pattern, and tells whether a message, once brought into
//! Unicode normal form, contains one of the terms in plain or disguised form.

pub mod laws;
pub mod matcher;
pub mod normalize;
pub mod pattern;
pub mod standard;
pub mod substitution;

pub use matcher::{build_matcher, FilterError, Matcher};
pub use normalize::normalize;
pub use pattern::build_pattern;
pub use standard::{standard_substitutions, standard_terms};
pub use substitution::SubstitutionTable;
