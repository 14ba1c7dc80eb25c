//! The argument and result values of an extraction, and its errors.

use vstd::prelude::*;

verus! {

/// A single argument or result value: a nullable text or a nullable 32-bit
/// integer.
#[derive(Clone, Debug, PartialEq, Eq)]
pub enum ScalarValue {
    Utf8(Option<String>),
    Int32(Option<i32>),
}

/// The text held by a value, as the extraction reads it: `None` for a null
/// text.
pub open spec fn text_of(v: ScalarValue) -> Option<Seq<char>> {
    match v {
        ScalarValue::Utf8(s) => s.deep_view(),
        ScalarValue::Int32(_) => None,
    }
}

/// The integer held by a value, as the extraction reads it: `None` for a null
/// integer.
pub open spec fn int_of(v: ScalarValue) -> Option<i32> {
    match v {
        ScalarValue::Int32(i) => i,
        ScalarValue::Utf8(_) => None,
    }
}

/// Why an extraction failed.
#[derive(Clone, Debug, PartialEq, Eq)]
pub enum ExtractError {
    /// The caller broke the calling convention (wrong number of arguments).
    Internal(String),
    /// The pattern was rejected by the regex engine; holds the engine's
    /// diagnostic.
    InvalidPattern(String),
}

/// The text that opens the message of an `InvalidPattern` error.
pub open spec fn invalid_pattern_prefix() -> Seq<char> {
    "Invalid regex pattern: "@
}

impl ExtractError {
    /// A readable description of the error.
    pub fn message(&self) -> (r: String)
        ensures
            r@ == match self {
                ExtractError::Internal(m) => m@,
                ExtractError::InvalidPattern(d) => invalid_pattern_prefix() + d@,
            },
    {
        match self {
            ExtractError::Internal(m) => m.clone(),
            ExtractError::InvalidPattern(d) => {
                let prefix = String::from_str("Invalid regex pattern: ");
                prefix.concat(d.as_str())
            },
        }
    }
}

} // verus!
