//! Compiled patterns and the groups of a pattern's first match.

use vstd::prelude::*;

verus! {

/// Whether the regex engine accepts `pattern`: its syntax is valid and the
/// compiled program stays within the engine's default size limit.
pub uninterp spec fn compiles(pattern: Seq<char>) -> bool;

/// The diagnostic the regex engine gives for a pattern it rejects; it
/// depends on the pattern text alone.
pub uninterp spec fn compile_error_text(pattern: Seq<char>) -> Seq<char>;

/// The capture groups of the leftmost-first match of `pattern` in `input`,
/// by group number (group 0 being the whole match), or `None` when the
/// pattern matches nowhere in `input`. A group that did not take part in the
/// match is `None`.
pub uninterp spec fn match_groups(pattern: Seq<char>, input: Seq<char>) -> Option<
    Seq<Option<Seq<char>>>,
>;

/// The text selected by `index` among the groups of a match: the group's text
/// when the index names a group that took part in the match, and the empty
/// string when there was no match, the index is out of range, or the group
/// did not take part.
pub open spec fn group_text(groups: Option<Seq<Option<Seq<char>>>>, index: int) -> Seq<char> {
    match groups {
        Some(g) => if 0 <= index < g.len() && g[index] is Some {
            g[index]->Some_0
        } else {
            Seq::empty()
        },
        None => Seq::empty(),
    }
}

/// A regular expression together with the pattern text it was compiled from.
pub struct Pattern {
    re: regex::Regex,
    source: Ghost<Seq<char>>,
}

impl Pattern {
    /// The pattern text this regular expression was compiled from.
    pub closed spec fn source(&self) -> Seq<char> {
        self.source@
    }

    fn from_compiled(re: regex::Regex, source: &str) -> (p: Pattern)
        ensures
            p.source() == source@,
    {
        Pattern { re, source: Ghost(source@) }
    }
}

#[verifier::external_type_specification]
#[verifier::external_body]
pub struct ExRegex(regex::Regex);

/// Relies on `regex::Regex::new`: it succeeds exactly on the patterns the
/// engine accepts, which depends on the pattern text alone; a rejection is
/// handed on as the text of the engine's `regex::Error` (its `Display`).
#[verifier::external_body]
pub(crate) fn compile(pattern: &str) -> (r: Result<Pattern, String>)
    ensures
        r is Ok <==> compiles(pattern@),
        r matches Ok(p) ==> p.source() == pattern@,
        r matches Err(m) ==> m@ == compile_error_text(pattern@),
{
    regex::Regex::new(pattern).map(|re| Pattern::from_compiled(re, pattern)).map_err(|e| e.to_string())
}

/// Relies on `regex::Regex::captures`, read through `Captures::iter` and
/// `Match::as_str`: the groups of the leftmost-first match, one entry per
/// group of the pattern, `None` for a group that did not take part.
#[verifier::external_body]
pub(crate) fn first_match(p: &Pattern, input: &str) -> (r: Option<Vec<Option<String>>>)
    ensures
        r.deep_view() == match_groups(p.source(), input@),
{
    p.re.captures(input).map(|caps| caps.iter().map(|m| m.map(|m| m.as_str().to_string())).collect())
}

/// The text that `index` selects among the groups of a match (see
/// `group_text`); `groups` is what a first-match search returned.
pub fn select_group(groups: &Option<Vec<Option<String>>>, index: i32) -> (r: String)
    ensures
        r@ == group_text(groups.deep_view(), index as int),
{
    match groups {
        Some(g) => {
            if 0 <= index && (index as usize) < g.len() {
                match &g[index as usize] {
                    Some(s) => s.clone(),
                    None => String::new(),
                }
            } else {
                String::new()
            }
        },
        None => String::new(),
    }
}

} // verus!
