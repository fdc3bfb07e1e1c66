//! Regular-expression tests on text.
use vstd::prelude::*;

verus! {

/// Whether the regular expression `pattern` finds a match anywhere in `text`
/// (false where the pattern does not compile).
pub uninterp spec fn regex_matches(pattern: Seq<char>, text: Seq<char>) -> bool;

/// Relies on `regex::Regex::new` and `regex::Regex::is_match`: the result
/// depends on the pattern and the text alone.
#[verifier::external_body]
pub(crate) fn regex_is_match(pattern: &str, text: &str) -> (r: bool)
    ensures
        r == regex_matches(pattern@, text@),
{
    match regex::Regex::new(pattern) {
        Ok(re) => re.is_match(text),
        Err(_) => false,
    }
}

/// One of the patterns finds a match in the text.
pub open spec fn any_matches(pats: Seq<&str>, text: Seq<char>) -> bool {
    exists|i: int| 0 <= i < pats.len() && regex_matches(#[trigger] pats[i]@, text)
}

/// Whether one of `patterns` finds a match anywhere in `text`.
pub fn set_is_match(patterns: &Vec<&str>, text: &str) -> (r: bool)
    ensures
        r == any_matches(patterns@, text@),
{
    let mut i: usize = 0;
    while i < patterns.len()
        invariant
            i <= patterns@.len(),
            forall|m: int| 0 <= m < i ==> !regex_matches(#[trigger] patterns@[m]@, text@),
        decreases patterns@.len() - i,
    {
        if regex_is_match(patterns[i], text) {
            return true;
        }
        i = i + 1;
    }
    false
}

} // verus!
