//! The extraction itself: null propagation, compilation, first match and
//! group selection.

use vstd::prelude::*;
use crate::pattern::{
    compile, compile_error_text, compiles, first_match, group_text, match_groups, select_group,
};
use crate::value::{int_of, text_of, ExtractError, ScalarValue};

verus! {

/// What an extraction yields: `None` when the pattern is rejected, otherwise
/// the result value, which is null exactly when an argument is null.
pub open spec fn extraction(
    input: Option<Seq<char>>,
    pattern: Option<Seq<char>>,
    index: Option<i32>,
) -> Option<Option<Seq<char>>> {
    match (input, pattern, index) {
        (Some(s), Some(p), Some(k)) => if compiles(p) {
            Some(Some(group_text(match_groups(p, s), k as int)))
        } else {
            None
        },
        _ => Some(None),
    }
}

/// The error of an extraction whose pattern the engine rejects: an
/// `InvalidPattern` error holding the engine's diagnostic for the pattern.
pub open spec fn rejected_pattern_error(pattern: Option<Seq<char>>, e: ExtractError) -> bool {
    match e {
        ExtractError::InvalidPattern(d) => pattern is Some && d@ == compile_error_text(
            pattern->Some_0,
        ),
        ExtractError::Internal(_) => false,
    }
}

/// Whether `r` is a correct outcome of extracting with these arguments.
pub open spec fn extracts_to(
    input: Option<Seq<char>>,
    pattern: Option<Seq<char>>,
    index: Option<i32>,
    r: Result<Option<String>, ExtractError>,
) -> bool {
    match r {
        Ok(v) => extraction(input, pattern, index) == Some(v.deep_view()),
        Err(e) => extraction(input, pattern, index) is None && rejected_pattern_error(pattern, e),
    }
}

/// The message of the error for a call with the wrong number of arguments.
pub open spec fn arity_message() -> Seq<char> {
    "regexp_extract expects exactly 3 arguments"@
}

/// Whether `r` is a correct outcome of extracting with the argument list
/// `args` (input, pattern, index): a wrong number of arguments is an
/// `Internal` error, and three arguments extract as `extracts_to` says, the
/// result being a text value.
pub open spec fn list_extracts_to(args: Seq<ScalarValue>, r: Result<ScalarValue, ExtractError>) -> bool {
    if args.len() != 3 {
        r matches Err(ExtractError::Internal(m)) && m@ == arity_message()
    } else {
        match r {
            Ok(ScalarValue::Utf8(v)) => extraction(text_of(args[0]), text_of(args[1]), int_of(args[2]))
                == Some(v.deep_view()),
            Ok(ScalarValue::Int32(_)) => false,
            Err(e) => extraction(text_of(args[0]), text_of(args[1]), int_of(args[2])) is None
                && rejected_pattern_error(text_of(args[1]), e),
        }
    }
}

/// The text an error carries.
pub open spec fn error_text(e: ExtractError) -> Seq<char> {
    match e {
        ExtractError::Internal(m) => m@,
        ExtractError::InvalidPattern(d) => d@,
    }
}

/// The text of an optional string slice, `None` staying `None`.
pub open spec fn str_view(s: Option<&str>) -> Option<Seq<char>> {
    match s {
        Some(t) => Some(t@),
        None => None,
    }
}

/// Extracts from `input` the text of capture group `index` of the first match
/// of `pattern`: group 0 is the whole match. The result is null when any
/// argument is null (the pattern is then not compiled), and empty when the
/// pattern does not match or the group is out of range or did not take part.
/// A pattern the engine rejects is an `InvalidPattern` error.
pub fn regexp_extract(input: Option<&str>, pattern: Option<&str>, index: Option<i32>) -> (r: Result<
    Option<String>,
    ExtractError,
>)
    ensures
        extracts_to(str_view(input), str_view(pattern), index, r),
{
    match (input, pattern, index) {
        (Some(s), Some(p), Some(k)) => match compile(p) {
            Ok(re) => {
                let groups = first_match(&re, s);
                Ok(Some(select_group(&groups, k)))
            },
            Err(diagnostic) => Err(ExtractError::InvalidPattern(diagnostic)),
        },
        _ => Ok(None),
    }
}

fn text_arg(v: &ScalarValue) -> (r: Option<&str>)
    requires
        v is Utf8,
    ensures
        str_view(r) == text_of(*v),
{
    match v {
        ScalarValue::Utf8(Some(s)) => Some(s.as_str()),
        _ => None,
    }
}

/// The argument list form of `regexp_extract`: `args` holds the input text,
/// the pattern text and the group index, in that order, and the result is a
/// text value. Any other number of arguments is an `Internal` error.
pub fn regexp_extract_fn(args: &[ScalarValue]) -> (r: Result<ScalarValue, ExtractError>)
    requires
        args@.len() == 3 ==> args@[0] is Utf8 && args@[1] is Utf8 && args@[2] is Int32,
    ensures
        list_extracts_to(args@, r),
{
    if args.len() != 3 {
        proof {
            reveal_strlit("regexp_extract expects exactly 3 arguments");
        }
        return Err(ExtractError::Internal(String::from_str("regexp_extract expects exactly 3 arguments")));
    }
    let input = text_arg(&args[0]);
    let pattern = text_arg(&args[1]);
    let index = match &args[2] {
        ScalarValue::Int32(k) => *k,
        ScalarValue::Utf8(_) => None,
    };
    match regexp_extract(input, pattern, index) {
        Ok(v) => Ok(ScalarValue::Utf8(v)),
        Err(e) => Err(e),
    }
}

/// A null argument makes the result null, whatever the other two arguments
/// are: no error is raised, even for a pattern the engine would reject.
pub proof fn lemma_null_argument_gives_null(
    input: Option<Seq<char>>,
    pattern: Option<Seq<char>>,
    index: Option<i32>,
    r: Result<Option<String>, ExtractError>,
)
    requires
        input is None || pattern is None || index is None,
        extracts_to(input, pattern, index, r),
    ensures
        r is Ok,
        r->Ok_0 is None,
{
}

/// Extraction is pure, so repeating it changes nothing: two outcomes on the
/// same arguments either both succeed with the same value or both fail on the
/// pattern with the same error text.
pub proof fn lemma_same_arguments_same_outcome(
    input: Option<Seq<char>>,
    pattern: Option<Seq<char>>,
    index: Option<i32>,
    r1: Result<Option<String>, ExtractError>,
    r2: Result<Option<String>, ExtractError>,
)
    requires
        extracts_to(input, pattern, index, r1),
        extracts_to(input, pattern, index, r2),
    ensures
        r1 is Ok <==> r2 is Ok,
        r1 is Ok ==> r1->Ok_0.deep_view() == r2->Ok_0.deep_view(),
        r1 is Err ==> r1->Err_0 is InvalidPattern && r2->Err_0 is InvalidPattern
            && r1->Err_0->InvalidPattern_0@ == r2->Err_0->InvalidPattern_0@,
{
}


/// Extraction from an argument list is pure as well: two outcomes on the same
/// list are both text values with the same contents, or both errors of the
/// same kind with the same text.
pub proof fn lemma_same_argument_list_same_outcome(
    args: Seq<ScalarValue>,
    r1: Result<ScalarValue, ExtractError>,
    r2: Result<ScalarValue, ExtractError>,
)
    requires
        list_extracts_to(args, r1),
        list_extracts_to(args, r2),
    ensures
        r1 is Ok <==> r2 is Ok,
        r1 is Ok ==> r1->Ok_0 is Utf8 && r2->Ok_0 is Utf8 && r1->Ok_0->Utf8_0.deep_view()
            == r2->Ok_0->Utf8_0.deep_view(),
        r1 is Err ==> (r1->Err_0 is Internal <==> r2->Err_0 is Internal) && error_text(r1->Err_0)
            == error_text(r2->Err_0),
{
}

} // verus!
