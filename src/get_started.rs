//! Getting-started guide check.
use vstd::prelude::*;

use crate::check::{CheckInput, CheckOutput, Mode};
use crate::pattern::{any_matches, set_is_match};
use crate::registry::CheckId;
use crate::resolve::{find_file_or_readme_ref, spec_file_or_readme_ref};

verus! {

/// Identifier of this check.
pub const ID: CheckId = CheckId::GetStarted;

/// Globs locating a getting-started guide.
pub open spec fn file_patterns() -> Seq<&'static str> {
    seq!["docs/quickstart*", "docs/get*started*"]
}

/// Patterns of a reference to a getting-started guide in the README.
pub open spec fn readme_ref() -> Seq<&'static str> {
    seq![
        r"(?im)^#+.*get.started.*$",
        r"(?im)^#+.*快速开始.*$",
        r"(?im)^#+.*quickstart.*$",
        r"(?im)^get.started$",
        r"(?im)^快速开始$",
        r"(?im)^quickstart$",
        r"(?i)\[.*get.started.*\]\(.*\)",
        r"(?i)\[.*quickstart.*\]\(.*\)",
        r"(?i)\[.*快速开始.*\]\(.*\)",
        r"(?im)^#+.*(开始使用|入门指南).*$",
    ]
}

fn file_patterns_vec() -> (r: Vec<&'static str>)
    ensures
        r@ == file_patterns(),
{
    let mut v: Vec<&'static str> = Vec::new();
    v.push("docs/quickstart*");
    v.push("docs/get*started*");
    assert(v@ =~= file_patterns());
    v
}

fn readme_ref_vec() -> (r: Vec<&'static str>)
    ensures
        r@ == readme_ref(),
{
    let mut v: Vec<&'static str> = Vec::new();
    v.push(r"(?im)^#+.*get.started.*$");
    v.push(r"(?im)^#+.*快速开始.*$");
    v.push(r"(?im)^#+.*quickstart.*$");
    v.push(r"(?im)^get.started$");
    v.push(r"(?im)^快速开始$");
    v.push(r"(?im)^quickstart$");
    v.push(r"(?i)\[.*get.started.*\]\(.*\)");
    v.push(r"(?i)\[.*quickstart.*\]\(.*\)");
    v.push(r"(?i)\[.*快速开始.*\]\(.*\)");
    v.push(r"(?im)^#+.*(开始使用|入门指南).*$");
    assert(v@ =~= readme_ref());
    v
}

/// Whether `text` holds a reference to a getting-started guide.
pub fn readme_ref_match(text: &str) -> (r: bool)
    ensures
        r == any_matches(readme_ref(), text@),
{
    set_is_match(&readme_ref_vec(), text)
}

/// The outcome: a guide file or README reference; else, in remote mode only,
/// the platform's code of conduct URL.
pub open spec fn spec_check(input: CheckInput) -> (bool, Option<Seq<char>>) {
    let local = spec_file_or_readme_ref(input.li.entries@, file_patterns(), readme_ref());
    if local.0 {
        local
    } else if input.li.mode == Mode::Local {
        (false, None)
    } else if input.gh_md is Some && input.gh_md->0.code_of_conduct_url is Some {
        (true, Some(input.gh_md->0.code_of_conduct_url->0@))
    } else {
        (false, None)
    }
}

/// Getting-started guide check.
pub fn check(input: &CheckInput) -> (r: CheckOutput)
    ensures
        r@ == spec_check(*input),
{
    let output = find_file_or_readme_ref(&input.li.entries, &file_patterns_vec(), &readme_ref_vec());
    if output.passed {
        return output;
    }
    if input.li.mode == Mode::Local {
        return CheckOutput::not_passed();
    }
    if let Some(md) = &input.gh_md {
        if let Some(url) = &md.code_of_conduct_url {
            return CheckOutput::passed().url(Some(url.clone()));
        }
    }
    CheckOutput::not_passed()
}

} // verus!
