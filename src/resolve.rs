//! The shared evidence chain: a file in the repository, else a reference in
//! the top-level README.
use vstd::prelude::*;

use crate::check::{CheckOutput, EntryKind, RepoEntry};
use crate::path::{confined, find, glob_match, glob_matches, is_confined, path_found};
use crate::pattern::{any_matches, set_is_match};

verus! {

/// Entry `k` is the first one, in tree order, found by the globs.
pub open spec fn found_at(entries: Seq<RepoEntry>, pats: Seq<&str>, k: int) -> bool {
    &&& 0 <= k < entries.len()
    &&& path_found(pats, entries[k].path@)
    &&& forall|m: int| 0 <= m < k ==> !path_found(pats, #[trigger] entries[m].path@)
}

/// The path is that of the top-level README.
pub open spec fn is_readme(t: Seq<char>) -> bool {
    confined(t) && glob_matches("README*"@, t)
}

/// The entry is a top-level README file whose text one of the patterns matches.
pub open spec fn readme_entry_refers(e: RepoEntry, refs: Seq<&str>) -> bool {
    &&& is_readme(e.path@)
    &&& e.kind == EntryKind::File
    &&& match e.content {
        Some(c) => any_matches(refs, c@),
        None => false,
    }
}

/// Some top-level README file has text in which one of the patterns matches.
pub open spec fn readme_refers(entries: Seq<RepoEntry>, refs: Seq<&str>) -> bool {
    exists|k: int| 0 <= k < entries.len() && #[trigger] readme_entry_refers(entries[k], refs)
}

/// The outcome of the chain: passed with the path found as evidence; else
/// passed with no evidence where the README refers to the artifact; else not
/// passed.
pub open spec fn spec_file_or_readme_ref(entries: Seq<RepoEntry>, pats: Seq<&str>, refs: Seq<&str>) -> (
    bool,
    Option<Seq<char>>,
) {
    if exists|k: int| found_at(entries, pats, k) {
        (true, Some(entries[choose|k: int| found_at(entries, pats, k)].path@))
    } else if readme_refers(entries, refs) {
        (true, None)
    } else {
        (false, None)
    }
}

/// Whether the top-level README refers to the artifact.
pub fn readme_matches(entries: &Vec<RepoEntry>, refs: &Vec<&str>) -> (r: bool)
    ensures
        r == readme_refers(entries@, refs@),
{
    let mut k: usize = 0;
    while k < entries.len()
        invariant
            k <= entries@.len(),
            forall|m: int| 0 <= m < k ==> !#[trigger] readme_entry_refers(entries@[m], refs@),
        decreases entries@.len() - k,
    {
        let e = &entries[k];
        if e.kind == EntryKind::File && is_confined(e.path.as_str()) && glob_match(
            "README*",
            e.path.as_str(),
        ) {
            if let Some(c) = &e.content {
                if set_is_match(refs, c.as_str()) {
                    assert(readme_entry_refers(entries@[k as int], refs@));
                    return true;
                }
            }
        }
        k = k + 1;
    }
    false
}

/// Looks for the artifact as a file matching `patterns`, then as a reference
/// matching `refs` in the README.
pub fn find_file_or_readme_ref(entries: &Vec<RepoEntry>, patterns: &Vec<&str>, refs: &Vec<&str>) -> (r:
    CheckOutput)
    ensures
        r@ == spec_file_or_readme_ref(entries@, patterns@, refs@),
{
    match find(entries, patterns) {
        Some(k) => {
            assert(found_at(entries@, patterns@, k as int));
            proof {
                let j = choose|j: int| found_at(entries@, patterns@, j);
                assert(j == k) by {
                    if j < k {
                        assert(path_found(patterns@, entries@[j].path@));
                    } else if j > k {
                        assert(!path_found(patterns@, entries@[k as int].path@));
                    }
                }
            }
            CheckOutput::passed().url(Some(entries[k].path.clone()))
        },
        None => {
            assert(!exists|j: int| found_at(entries@, patterns@, j));
            if readme_matches(entries, refs) {
                CheckOutput::passed()
            } else {
                CheckOutput::not_passed()
            }
        },
    }
}

} // verus!
