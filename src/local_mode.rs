//! In local mode no check reads the remote metadata or the scorecard report.
use vstd::prelude::*;

use crate::check::{CheckInput, Mode};

verus! {

/// Two inputs in local mode that agree on the local clone get the same
/// outcome from every check, whatever their remote metadata and scorecard
/// report hold.
pub proof fn lemma_local_mode_ignores_remote(a: CheckInput, b: CheckInput)
    requires
        a.li == b.li,
        a.li.mode == Mode::Local,
    ensures
        crate::dco::spec_check(a) == crate::dco::spec_check(b),
        crate::get_started::spec_check(a) == crate::get_started::spec_check(b),
        crate::gitignore::spec_check(a) == crate::gitignore::spec_check(b),
        crate::issue_template::spec_check(a) == crate::issue_template::spec_check(b),
        crate::pr_template::spec_check(a) == crate::pr_template::spec_check(b),
        crate::maintained::spec_check(a) == crate::maintained::spec_check(b),
        crate::security_policy::spec_check(a) == crate::security_policy::spec_check(b),
{
}

} // verus!
