//! Maintenance check, decided by the scorecard report.
use vstd::prelude::*;

use crate::check::{CheckInput, CheckOutput, Mode};
use crate::registry::CheckId;
use crate::scorecard::{first_named, get_check, output_from_lookup};

verus! {

/// Identifier of this check.
pub const ID: CheckId = CheckId::Maintained;

/// The outcome: in remote mode, passed where the report holds the check's
/// entry, with that entry's documentation as evidence.
pub open spec fn spec_check(input: CheckInput) -> (bool, Option<Seq<char>>) {
    if input.li.mode == Mode::Local {
        (false, None)
    } else {
        match input.scorecard {
            Ok(s) => if exists|k: int| first_named(s.checks@, "Maintained"@, k) {
                let k = choose|k: int| first_named(s.checks@, "Maintained"@, k);
                (true, Some(s.checks@[k].documentation.url@))
            } else {
                (false, None)
            },
            Err(_) => (false, None),
        }
    }
}

/// Maintenance check.
pub fn check(input: &CheckInput) -> (r: CheckOutput)
    ensures
        r@ == spec_check(*input),
{
    if input.li.mode == Mode::Local {
        return CheckOutput::not_passed();
    }
    let lookup = get_check(&input.scorecard, ID);
    proof {
        if input.scorecard is Ok && lookup matches Ok(Some(c)) {
            let s = input.scorecard->Ok_0;
            let c = *lookup->Ok_0->0;
            {
                let k = choose|k: int| first_named(s.checks@, "Maintained"@, k) && s.checks@[k] == c;
                let j = choose|j: int| first_named(s.checks@, "Maintained"@, j);
                assert(j == k) by {
                    if j < k {
                        assert(s.checks@[j].name@ == "Maintained"@);
                    } else if j > k {
                        assert(s.checks@[k].name@ == "Maintained"@);
                    }
                }
            }
        }
    }
    output_from_lookup(lookup)
}

} // verus!
