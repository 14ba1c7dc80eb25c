//! Extraction of a regular-expression capture group from a text value, with
//! SQL-style null propagation.

mod extract;
mod pattern;
mod value;

pub use extract::{
    arity_message, error_text, extraction, lemma_same_argument_list_same_outcome, list_extracts_to,
    rejected_pattern_error, extracts_to, lemma_null_argument_gives_null, lemma_same_arguments_same_outcome,
    regexp_extract, regexp_extract_fn, str_view,
};
pub use pattern::{compile_error_text, compiles, group_text, match_groups, select_group};
pub use value::{int_of, invalid_pattern_prefix, text_of, ExtractError, ScalarValue};
