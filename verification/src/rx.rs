//! The regular-expression layer. Pattern compilation, matching, and
//! substitution are pure functions of their string arguments, computed by
//! the regex crate; their results are named here and every caller's
//! contract is stated over those names.

use vstd::prelude::*;

verus! {

/// Whether a pattern is accepted by the regular-expression compiler.
pub uninterp spec fn regex_valid(pat: Seq<char>) -> bool;

/// The compiler's error message for a rejected pattern, a function of
/// the pattern text alone; it is surfaced verbatim to the caller.
pub uninterp spec fn regex_error_of(pat: Seq<char>) -> Seq<char>;

/// The successive non-overlapping matches of a pattern in a haystack,
/// left to right, each as (start byte offset, end byte offset, matched
/// text).
pub uninterp spec fn regex_find_all(pat: Seq<char>, hay: Seq<char>) -> Seq<
    (usize, usize, Seq<char>),
>;

/// The haystack with every non-overlapping match of the pattern
/// replaced, left to right in one pass, by the replacement template
/// (which may reference captured groups).
pub uninterp spec fn regex_replace_all(pat: Seq<char>, hay: Seq<char>, rep: Seq<char>) -> Seq<
    char,
>;

/// Whether the pattern matches anywhere in the haystack: exactly when
/// the haystack holds at least one match.
pub open spec fn regex_is_match(pat: Seq<char>, hay: Seq<char>) -> bool {
    regex_find_all(pat, hay).len() > 0
}

/// One reported match: byte offsets into the haystack it was found in,
/// and the matched text.
pub struct RxMatch {
    pub start: usize,
    pub end: usize,
    pub text: String,
}

/// The view of one reported match.
pub open spec fn match_view(m: RxMatch) -> (usize, usize, Seq<char>) {
    (m.start, m.end, m.text@)
}

/// The views of a sequence of reported matches.
pub open spec fn matches_view(ms: Seq<RxMatch>) -> Seq<(usize, usize, Seq<char>)> {
    Seq::new(ms.len(), |i: int| match_view(ms[i]))
}

/// Relies on regex::Regex::new: compiling a pattern succeeds or fails as
/// a function of the pattern text alone; on failure the compiler's
/// message is returned verbatim.
#[verifier::external_body]
pub(crate) fn rx_validate(pat: &str) -> (r: Result<(), String>)
    ensures
        r is Ok <==> regex_valid(pat@),
        match r {
            Ok(_) => true,
            Err(m) => m@ == regex_error_of(pat@),
        },
{
    match regex::Regex::new(pat) {
        Ok(_) => Ok(()),
        Err(error) => Err(error.to_string()),
    }
}

/// Relies on regex::Regex::is_match (the pattern is recompiled with
/// regex::Regex::new, a pure function of the pattern): true if and only
/// if there is a match anywhere in the haystack, that is, exactly when
/// the sequence of matches is non-empty.
#[verifier::external_body]
pub(crate) fn rx_is_match(pat: &str, hay: &str) -> (r: bool)
    requires
        regex_valid(pat@),
    ensures
        r == regex_is_match(pat@, hay@),
{
    regex::Regex::new(pat).unwrap().is_match(hay)
}

/// Relies on regex::Regex::find_iter (the pattern is recompiled with
/// regex::Regex::new): yields the successive non-overlapping matches in
/// the haystack, each with its byte offsets and matched text.
#[verifier::external_body]
pub(crate) fn rx_matches(pat: &str, hay: &str) -> (r: Vec<RxMatch>)
    requires
        regex_valid(pat@),
    ensures
        matches_view(r@) == regex_find_all(pat@, hay@),
{
    let re = regex::Regex::new(pat).unwrap();
    let mut out: Vec<RxMatch> = Vec::new();
    for m in re.find_iter(hay) {
        out.push(RxMatch { start: m.start(), end: m.end(), text: m.as_str().to_string() });
    }
    out
}

/// Relies on regex::Regex::replace_all (the pattern is recompiled with
/// regex::Regex::new): replaces all non-overlapping matches with the
/// replacement template; when there is no match the haystack is returned
/// unchanged.
#[verifier::external_body]
pub(crate) fn rx_replace_all(pat: &str, hay: &str, rep: &str) -> (r: String)
    requires
        regex_valid(pat@),
    ensures
        r@ == regex_replace_all(pat@, hay@, rep@),
        !regex_is_match(pat@, hay@) ==> r@ == hay@,
{
    let re = regex::Regex::new(pat).unwrap();
    re.replace_all(hay, rep).into_owned()
}

} // verus!
