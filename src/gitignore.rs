//! Ignore-file check.
use vstd::prelude::*;

use crate::check::{CheckError, CheckInput, CheckOutput};
use crate::path::find;
use crate::registry::CheckId;
use crate::resolve::found_at;

verus! {

/// Identifier of this check.
pub const ID: CheckId = CheckId::Gitignore;

/// Globs locating the ignore file.
pub open spec fn file_patterns() -> Seq<&'static str> {
    seq![".gitignore"]
}

/// The outcome, or `None` where the file found could not be read: passed,
/// with the file's path as evidence, where the file is found and not empty.
pub open spec fn spec_check(input: CheckInput) -> Option<(bool, Option<Seq<char>>)> {
    let entries = input.li.entries@;
    if exists|k: int| found_at(entries, file_patterns(), k) {
        let e = entries[choose|k: int| found_at(entries, file_patterns(), k)];
        match e.content {
            None => None,
            Some(c) => if c@.len() > 0 {
                Some((true, Some(e.path@)))
            } else {
                Some((false, None))
            },
        }
    } else {
        Some((false, None))
    }
}

/// Ignore-file check.
pub fn check(input: &CheckInput) -> (r: Result<CheckOutput, CheckError>)
    ensures
        match spec_check(*input) {
            Some(v) => r matches Ok(o) && o@ == v,
            None => r is Err,
        },
{
    let mut pats: Vec<&'static str> = Vec::new();
    pats.push(".gitignore");
    assert(pats@ =~= file_patterns());
    let entries = &input.li.entries;
    match find(entries, &pats) {
        Some(k) => {
            proof {
                assert(found_at(entries@, pats@, k as int));
                let j = choose|j: int| found_at(entries@, pats@, j);
                assert(j == k) by {
                    if j < k {
                        assert(crate::path::path_found(pats@, entries@[j].path@));
                    } else if j > k {
                        assert(!crate::path::path_found(pats@, entries@[k as int].path@));
                    }
                }
            }
            let e = &entries[k];
            match &e.content {
                None => Err(CheckError { message: e.path.clone() }),
                Some(c) => {
                    if !c.as_str().is_empty() {
                        Ok(CheckOutput::passed().url(Some(e.path.clone())))
                    } else {
                        Ok(CheckOutput::not_passed())
                    }
                },
            }
        },
        None => Ok(CheckOutput::not_passed()),
    }
}

} // verus!
