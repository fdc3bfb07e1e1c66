//! Presence of a template, as a non-blank file or as a directory holding
//! Markdown files.
use vstd::prelude::*;

use crate::check::{CheckError, CheckOutput, EntryKind, RepoEntry};
use crate::path::chars_of;

verus! {

/// Whether the text holds nothing but whitespace.
pub uninterp spec fn blank(s: Seq<char>) -> bool;

/// Relies on `str::trim` (with `str::is_empty`): whether nothing is left once
/// leading and trailing whitespace is removed.
#[verifier::external_body]
fn is_blank(s: &str) -> (r: bool)
    ensures
        r == blank(s@),
        s@.len() == 0 ==> r,
{
    s.trim().is_empty()
}

/// What one candidate location decides.
#[derive(Clone, Copy, Debug, PartialEq, Eq, Structural)]
pub enum Step {
    /// Nothing usable there: try the next location.
    Next,
    /// A template is there.
    Found,
    /// The file there could not be read.
    Unreadable,
}

/// Entry `k` is the first one whose path is exactly `t`.
pub open spec fn exact_at(entries: Seq<RepoEntry>, t: Seq<char>, k: int) -> bool {
    &&& 0 <= k < entries.len()
    &&& entries[k].path@ == t
    &&& forall|m: int| 0 <= m < k ==> (#[trigger] entries[m]).path@ != t
}

/// The path `p` names a Markdown file directly inside the directory `dir`:
/// its last component has the extension `md` and a non-empty stem.
pub open spec fn md_child(dir: Seq<char>, p: Seq<char>) -> bool {
    let n = dir.len();
    &&& p.len() > n + 4
    &&& p.subrange(0, n as int) == dir
    &&& p[n as int] == '/'
    &&& forall|m: int| n < m < p.len() ==> p[m] != '/'
    &&& p[p.len() - 3] == '.' && p[p.len() - 2] == 'm' && p[p.len() - 1] == 'd'
}

/// The directory `dir` holds a Markdown file.
pub open spec fn has_md_child(entries: Seq<RepoEntry>, dir: Seq<char>) -> bool {
    exists|k: int|
        0 <= k < entries.len() && entries[k].kind == EntryKind::File && #[trigger] md_child(
            dir,
            entries[k].path@,
        )
}

/// What the location `t` decides: a non-blank file, or a directory with a
/// Markdown file, is a template; a file that could not be read is a failure.
pub open spec fn spec_step(entries: Seq<RepoEntry>, t: Seq<char>) -> Step {
    if exists|k: int| exact_at(entries, t, k) {
        let e = entries[choose|k: int| exact_at(entries, t, k)];
        match e.kind {
            EntryKind::File => match e.content {
                None => Step::Unreadable,
                Some(c) => if blank(c@) {
                    Step::Next
                } else {
                    Step::Found
                },
            },
            EntryKind::Dir => if has_md_child(entries, t) {
                Step::Found
            } else {
                Step::Next
            },
        }
    } else {
        Step::Next
    }
}

/// The outcome over the two locations, tried in order, or `None` where a
/// file could not be read.
pub open spec fn spec_template(entries: Seq<RepoEntry>, file: Seq<char>, dir: Seq<char>) -> Option<bool> {
    match spec_step(entries, file) {
        Step::Found => Some(true),
        Step::Unreadable => None,
        Step::Next => match spec_step(entries, dir) {
            Step::Found => Some(true),
            Step::Unreadable => None,
            Step::Next => Some(false),
        },
    }
}

fn is_md_child(dir: &Vec<char>, p: &str) -> (r: bool)
    ensures
        r == md_child(dir@, p@),
{
    let t = chars_of(p);
    let n = dir.len();
    if t.len() <= n || t.len() - n <= 4 {
        return false;
    }
    let mut k: usize = 0;
    while k < n
        invariant
            t@ == p@,
            n == dir@.len(),
            n < t@.len(),
            k <= n,
            forall|m: int| 0 <= m < k ==> t@[m] == dir@[m],
        decreases n - k,
    {
        if t[k] != dir[k] {
            assert(t@.subrange(0, n as int)[k as int] != dir@[k as int]);
            return false;
        }
        k = k + 1;
    }
    assert(t@.subrange(0, n as int) =~= dir@);
    if t[n] != '/' {
        return false;
    }
    let mut m: usize = n + 1;
    while m < t.len()
        invariant
            t@ == p@,
            n == dir@.len(),
            n < m <= t@.len(),
            forall|q: int| n < q < m ==> t@[q] != '/',
        decreases t@.len() - m,
    {
        if t[m] == '/' {
            return false;
        }
        m = m + 1;
    }
    let l = t.len();
    t[l - 3] == '.' && t[l - 2] == 'm' && t[l - 1] == 'd'
}

fn dir_has_md(entries: &Vec<RepoEntry>, dir: &str) -> (r: bool)
    ensures
        r == has_md_child(entries@, dir@),
{
    let d = chars_of(dir);
    let mut k: usize = 0;
    while k < entries.len()
        invariant
            d@ == dir@,
            k <= entries@.len(),
            forall|m: int|
                0 <= m < k ==> !(entries@[m].kind == EntryKind::File && #[trigger] md_child(
                    dir@,
                    entries@[m].path@,
                )),
        decreases entries@.len() - k,
    {
        if entries[k].kind == EntryKind::File && is_md_child(&d, entries[k].path.as_str()) {
            return true;
        }
        k = k + 1;
    }
    false
}

fn step(entries: &Vec<RepoEntry>, target: &str) -> (r: Step)
    ensures
        r == spec_step(entries@, target@),
{
    let t = target.to_owned();
    let mut k: usize = 0;
    while k < entries.len()
        invariant
            t@ == target@,
            k <= entries@.len(),
            forall|m: int| 0 <= m < k ==> (#[trigger] entries@[m]).path@ != target@,
        decreases entries@.len() - k,
    {
        if entries[k].path == t {
            proof {
                assert(exact_at(entries@, target@, k as int));
                let j = choose|j: int| exact_at(entries@, target@, j);
                assert(j == k) by {
                    if j < k {
                        assert(entries@[j].path@ == target@);
                    } else if j > k {
                        assert(entries@[k as int].path@ == target@);
                    }
                }
            }
            return match entries[k].kind {
                EntryKind::File => match &entries[k].content {
                    None => Step::Unreadable,
                    Some(c) => if is_blank(c.as_str()) {
                        Step::Next
                    } else {
                        Step::Found
                    },
                },
                EntryKind::Dir => if dir_has_md(entries, target) {
                    Step::Found
                } else {
                    Step::Next
                },
            };
        }
        k = k + 1;
    }
    Step::Next
}

/// Looks for a template as the file `file`, then as the directory `dir`.
pub fn find_template(entries: &Vec<RepoEntry>, file: &str, dir: &str) -> (r: Result<CheckOutput, CheckError>)
    ensures
        match spec_template(entries@, file@, dir@) {
            Some(b) => r matches Ok(o) && o@ == (b, None::<Seq<char>>),
            None => r is Err,
        },
{
    match step(entries, file) {
        Step::Found => {
            return Ok(CheckOutput::passed());
        },
        Step::Unreadable => {
            return Err(CheckError { message: file.to_owned() });
        },
        Step::Next => {},
    }
    match step(entries, dir) {
        Step::Found => Ok(CheckOutput::passed()),
        Step::Unreadable => Err(CheckError { message: dir.to_owned() }),
        Step::Next => Ok(CheckOutput::not_passed()),
    }
}

} // verus!
