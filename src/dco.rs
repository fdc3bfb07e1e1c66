//! Contributor sign-off: analysis of the recent commit history, and the check
//! built on it.
use vstd::prelude::*;

use crate::check::{CheckInput, CheckOutput, Mode, RemoteMetadata};
use crate::registry::CheckId;
use crate::pattern::{any_matches, regex_is_match, regex_matches, set_is_match};

verus! {

/// Identifier of this check.
pub const ID: CheckId = CheckId::Dco;

/// Largest number of commits, counted from the branch tip, that are inspected.
pub const DCO_MAX_COMMITS: usize = 20;

/// A commit as the history walk yielded it.
#[derive(Clone, Debug)]
pub enum CommitEntry {
    /// The walk reported an error for this position.
    Unreadable,
    /// A commit, with its message where it is valid text.
    Commit { message: Option<String> },
}

/// Subject of a merged pull request.
pub open spec fn merge_pr_pattern() -> Seq<char> {
    "^Merge pull request "@
}

/// Subject of a merged branch.
pub open spec fn merge_branch_pattern() -> Seq<char> {
    "^Merge branch "@
}

/// A sign-off line.
pub open spec fn signature_pattern() -> Seq<char> {
    "(?m)^Signed-off-by: "@
}

/// The message is that of an automated merge.
pub open spec fn is_merge(msg: Seq<char>) -> bool {
    regex_matches(merge_pr_pattern(), msg) || regex_matches(merge_branch_pattern(), msg)
}

/// The message has a sign-off line.
pub open spec fn is_signed(msg: Seq<char>) -> bool {
    regex_matches(signature_pattern(), msg)
}

/// The entry does not disqualify the history: it is unreadable (and skipped),
/// a merge, or signed off.
pub open spec fn commit_ok(e: CommitEntry) -> bool {
    match e {
        CommitEntry::Unreadable => true,
        CommitEntry::Commit { message: None } => false,
        CommitEntry::Commit { message: Some(m) } => is_merge(m@) || is_signed(m@),
    }
}

/// The inspected window: the first `DCO_MAX_COMMITS` entries.
pub open spec fn window(h: Seq<CommitEntry>) -> Seq<CommitEntry> {
    if h.len() <= DCO_MAX_COMMITS {
        h
    } else {
        h.take(DCO_MAX_COMMITS as int)
    }
}

/// Every commit of the window is a merge or signed off.
pub open spec fn spec_signed_off(h: Seq<CommitEntry>) -> bool {
    forall|i: int| 0 <= i < window(h).len() ==> commit_ok(#[trigger] window(h)[i])
}

fn classify(msg: &str) -> (r: (bool, bool))
    ensures
        r.0 == is_merge(msg@),
        !r.0 ==> r.1 == is_signed(msg@),
{
    let merge = regex_is_match("^Merge pull request ", msg) || regex_is_match("^Merge branch ", msg);
    if merge {
        (true, false)
    } else {
        (false, regex_is_match("(?m)^Signed-off-by: ", msg))
    }
}

/// Whether the most recent commits show a consistent sign-off practice:
/// within the first `DCO_MAX_COMMITS` entries, every commit that is not an
/// automated merge carries a sign-off line. Unreadable entries are skipped
/// but use up the bound; a commit whose message is not valid text counts as
/// visited and neither merged nor signed.
pub fn commits_have_dco_signature(history: &Vec<CommitEntry>) -> (r: bool)
    ensures
        r == spec_signed_off(history@),
{
    let n: usize = if history.len() < DCO_MAX_COMMITS {
        history.len()
    } else {
        DCO_MAX_COMMITS
    };
    assert(window(history@).len() == n);
    let mut processed: usize = 0;
    let mut signed_off: usize = 0;
    let mut merge: usize = 0;
    let mut missing: usize = 0;
    let mut k: usize = 0;
    while k < n
        invariant
            n <= history@.len(),
            window(history@).len() == n,
            forall|i: int| 0 <= i < n ==> window(history@)[i] == history@[i],
            k <= n,
            processed <= k,
            signed_off + merge + missing == processed,
            (missing == 0) == (forall|i: int| 0 <= i < k ==> commit_ok(#[trigger] history@[i])),
        decreases n - k,
    {
        match &history[k] {
            CommitEntry::Unreadable => {},
            CommitEntry::Commit { message } => {
                processed = processed + 1;
                match message {
                    Some(msg) => {
                        let (is_m, is_s) = classify(msg.as_str());
                        if is_m {
                            merge = merge + 1;
                        } else if is_s {
                            signed_off = signed_off + 1;
                        } else {
                            assert(!commit_ok(history@[k as int]));
                            assert(!commit_ok(window(history@)[k as int]));
                            return false;
                        }
                    },
                    None => {
                        missing = missing + 1;
                    },
                }
            },
        }
        k = k + 1;
    }
    assert(spec_signed_off(history@) == (missing == 0));
    signed_off == processed - merge
}

/// A commit whose message is signed off and is no merge.
pub open spec fn signed_commit(e: CommitEntry) -> bool {
    e matches CommitEntry::Commit { message: Some(m) } && is_signed(m@) && !is_merge(m@)
}

/// A commit whose message is neither a merge nor signed off.
pub open spec fn unsigned_commit(e: CommitEntry) -> bool {
    e matches CommitEntry::Commit { message: Some(m) } && !is_signed(m@) && !is_merge(m@)
}

/// Sign-off outcome laws. A history in which every commit is a merge or
/// signed off passes. A history with one commit in the inspected window that
/// is neither fails, wherever in the window it stands. Only the window
/// counts: a history longer than the bound gets the outcome of its first
/// `DCO_MAX_COMMITS` entries, and one whose every commit is signed passes
/// however long it is.
pub proof fn lemma_sign_off_outcome(h: Seq<CommitEntry>, bad: int)
    ensures
        (forall|i: int|
            0 <= i < h.len() ==> #[trigger] signed_commit(h[i]) || (h[i] matches CommitEntry::Commit {
                message: Some(m),
            } && is_merge(m@))) ==> spec_signed_off(h),
        0 <= bad < h.len() && bad < DCO_MAX_COMMITS && unsigned_commit(h[bad]) ==> !spec_signed_off(h),
        h.len() > DCO_MAX_COMMITS ==> spec_signed_off(h) == spec_signed_off(
            h.take(DCO_MAX_COMMITS as int),
        ),
{
    if 0 <= bad < h.len() && bad < DCO_MAX_COMMITS && unsigned_commit(h[bad]) {
        assert(window(h)[bad] == h[bad]);
        assert(!commit_ok(window(h)[bad]));
    }
    if forall|i: int|
        0 <= i < h.len() ==> #[trigger] signed_commit(h[i]) || (h[i] matches CommitEntry::Commit {
            message: Some(m),
        } && is_merge(m@)) {
        assert forall|i: int| 0 <= i < window(h).len() implies commit_ok(#[trigger] window(h)[i]) by {
            assert(window(h)[i] == h[i]);
            assert(signed_commit(h[i]) || (h[i] matches CommitEntry::Commit {
                message: Some(m),
            } && is_merge(m@)));
        }
    }
    if h.len() > DCO_MAX_COMMITS {
        assert(window(h.take(DCO_MAX_COMMITS as int)) =~= window(h));
    }
}

/// Names of status checks that stand for a sign-off requirement.
pub fn check_ref() -> (r: Vec<&'static str>)
    ensures
        r@ == seq!["(?i)dco"],
{
    let mut v: Vec<&'static str> = Vec::new();
    v.push("(?i)dco");
    assert(v@ =~= seq!["(?i)dco"]);
    v
}

/// Whether `text` names a sign-off status check.
pub fn check_ref_match(text: &str) -> (r: bool)
    ensures
        r == any_matches(seq!["(?i)dco"], text@),
{
    set_is_match(&check_ref(), text)
}

/// One of the required status checks matches one of the patterns.
pub open spec fn has_check(md: RemoteMetadata, pats: Seq<&str>) -> bool {
    exists|i: int| 0 <= i < md.status_checks@.len() && any_matches(pats, #[trigger] md.status_checks@[i]@)
}

/// Whether one of the required status checks matches one of `patterns`.
pub fn remote_has_check(md: &RemoteMetadata, patterns: &Vec<&str>) -> (r: bool)
    ensures
        r == has_check(*md, patterns@),
{
    let mut i: usize = 0;
    while i < md.status_checks.len()
        invariant
            i <= md.status_checks@.len(),
            forall|m: int| 0 <= m < i ==> !any_matches(patterns@, #[trigger] md.status_checks@[m]@),
        decreases md.status_checks@.len() - i,
    {
        if set_is_match(patterns, md.status_checks[i].as_str()) {
            return true;
        }
        i = i + 1;
    }
    false
}

/// The outcome of the sign-off check: passed where the history shows
/// consistent sign-off; otherwise, in remote mode only, passed where a
/// required status check is a sign-off check.
pub open spec fn spec_check(input: CheckInput) -> (bool, Option<Seq<char>>) {
    if input.li.history matches Ok(h) && spec_signed_off(h@) {
        (true, None)
    } else if input.li.mode == Mode::Local {
        (false, None)
    } else if input.gh_md matches Some(md) && has_check(md, seq!["(?i)dco"]) {
        (true, None)
    } else {
        (false, None)
    }
}

/// Sign-off check.
pub fn check(input: &CheckInput) -> (r: CheckOutput)
    ensures
        r@ == spec_check(*input),
{
    if let Ok(h) = &input.li.history {
        if commits_have_dco_signature(h) {
            return CheckOutput::passed();
        }
    }
    if input.li.mode == Mode::Local {
        return CheckOutput::not_passed();
    }
    if let Some(md) = &input.gh_md {
        if remote_has_check(md, &check_ref()) {
            return CheckOutput::passed();
        }
    }
    CheckOutput::not_passed()
}

} // verus!
