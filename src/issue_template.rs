//! Issue template check.
use vstd::prelude::*;

use crate::check::{CheckError, CheckInput, CheckOutput};
use crate::registry::CheckId;
use crate::template::{find_template, spec_template};

verus! {

/// Identifier of this check.
pub const ID: CheckId = CheckId::IssueTemplate;

/// The outcome over the template file, then the template directory, or `None` where the template file could not be read.
pub open spec fn spec_check(input: CheckInput) -> Option<bool> {
    spec_template(input.li.entries@, ".github/ISSUE_TEMPLATE.md"@, ".github/ISSUE_TEMPLATE"@)
}

/// Issue template check.
pub fn check(input: &CheckInput) -> (r: Result<CheckOutput, CheckError>)
    ensures
        match spec_check(*input) {
            Some(b) => r matches Ok(o) && o@ == (b, None::<Seq<char>>),
            None => r is Err,
        },
{
    find_template(&input.li.entries, ".github/ISSUE_TEMPLATE.md", ".github/ISSUE_TEMPLATE")
}

} // verus!
