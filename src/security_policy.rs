//! Security policy check.
use vstd::prelude::*;

use crate::check::{CheckInput, CheckOutput, Mode};
use crate::pattern::{any_matches, set_is_match};
use crate::registry::CheckId;
use crate::resolve::{find_file_or_readme_ref, spec_file_or_readme_ref};

verus! {

/// Identifier of this check.
pub const ID: CheckId = CheckId::SecurityPolicy;

/// Globs locating a security policy file.
pub open spec fn file_patterns() -> Seq<&'static str> {
    seq!["security*", ".github/security*", "docs/security*"]
}

/// Patterns of a reference to the security policy in the README.
pub open spec fn readme_ref() -> Seq<&'static str> {
    seq![r"(?im)^#+.*security.*$", r"(?im)^security$", r"(?i)\[.*security.*\]\(.*\)"]
}

fn file_patterns_vec() -> (r: Vec<&'static str>)
    ensures
        r@ == file_patterns(),
{
    let mut v: Vec<&'static str> = Vec::new();
    v.push("security*");
    v.push(".github/security*");
    v.push("docs/security*");
    assert(v@ =~= file_patterns());
    v
}

fn readme_ref_vec() -> (r: Vec<&'static str>)
    ensures
        r@ == readme_ref(),
{
    let mut v: Vec<&'static str> = Vec::new();
    v.push(r"(?im)^#+.*security.*$");
    v.push(r"(?im)^security$");
    v.push(r"(?i)\[.*security.*\]\(.*\)");
    assert(v@ =~= readme_ref());
    v
}

/// Whether `text` holds a reference to a security policy.
pub fn readme_ref_match(text: &str) -> (r: bool)
    ensures
        r == any_matches(readme_ref(), text@),
{
    set_is_match(&readme_ref_vec(), text)
}

/// The outcome: a policy file or README reference; else, in remote mode only,
/// the platform's security policy URL.
pub open spec fn spec_check(input: CheckInput) -> (bool, Option<Seq<char>>) {
    let local = spec_file_or_readme_ref(input.li.entries@, file_patterns(), readme_ref());
    if local.0 {
        local
    } else if input.li.mode == Mode::Local {
        (false, None)
    } else if input.gh_md is Some && input.gh_md->0.security_policy_url is Some {
        (true, Some(input.gh_md->0.security_policy_url->0@))
    } else {
        (false, None)
    }
}

/// Security policy check.
pub fn check(input: &CheckInput) -> (r: CheckOutput)
    ensures
        r@ == spec_check(*input),
{
    let output = find_file_or_readme_ref(&input.li.entries, &file_patterns_vec(), &readme_ref_vec());
    if output.passed {
        return output;
    }
    if input.li.mode == Mode::Local {
        return CheckOutput::not_passed();
    }
    if let Some(md) = &input.gh_md {
        if let Some(url) = &md.security_policy_url {
            return CheckOutput::passed().url(Some(url.clone()));
        }
    }
    CheckOutput::not_passed()
}

} // verus!
