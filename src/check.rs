//! Input and output shared by every check.
use vstd::prelude::*;

use crate::dco::CommitEntry;
use crate::scorecard::{Scorecard, ScorecardError};

verus! {

/// Whether an evaluation may consult remote sources.
#[derive(Clone, Copy, Debug, PartialEq, Eq, Structural)]
pub enum Mode {
    Local,
    Remote,
}

/// Kind of a repository tree entry.
#[derive(Clone, Copy, Debug, PartialEq, Eq, Structural)]
pub enum EntryKind {
    File,
    Dir,
}

/// One entry of the repository tree, by its path relative to the root
/// (components separated by `/`), with the text of a file where it was readable.
#[derive(Clone, Debug)]
pub struct RepoEntry {
    pub path: String,
    pub kind: EntryKind,
    pub content: Option<String>,
}

/// Why the commit history could not be read.
#[derive(Clone, Debug, PartialEq)]
pub struct HistoryError {
    pub message: String,
}

/// What the local clone provides: the evaluation mode, the repository tree,
/// and the most recent commits from the branch tip backwards (or why they
/// could not be read).
#[derive(Debug)]
pub struct LocalRepo {
    pub mode: Mode,
    pub entries: Vec<RepoEntry>,
    pub history: Result<Vec<CommitEntry>, HistoryError>,
}

/// A snapshot of the hosting platform's metadata for the repository.
#[derive(Clone, Debug)]
pub struct RemoteMetadata {
    pub security_policy_url: Option<String>,
    pub code_of_conduct_url: Option<String>,
    /// Names of the status checks required on the default branch.
    pub status_checks: Vec<String>,
}

/// Everything a check may consult. In local mode only `li` is read.
#[derive(Debug)]
pub struct CheckInput {
    pub li: LocalRepo,
    pub gh_md: Option<RemoteMetadata>,
    pub scorecard: Result<Scorecard, ScorecardError>,
}

/// An evidence source failed and the check has no further tier to try.
#[derive(Clone, Debug, PartialEq)]
pub struct CheckError {
    pub message: String,
}

/// Outcome of a check, with the evidence that decided it.
#[derive(Clone, Debug)]
pub struct CheckOutput {
    pub passed: bool,
    pub url: Option<String>,
}

/// The mathematical view of an optional string.
pub open spec fn opt_view(o: Option<String>) -> Option<Seq<char>> {
    match o {
        Some(s) => Some(s@),
        None => None,
    }
}

impl View for CheckOutput {
    type V = (bool, Option<Seq<char>>);

    open spec fn view(&self) -> (bool, Option<Seq<char>>) {
        (self.passed, opt_view(self.url))
    }
}

impl CheckOutput {
    /// A outcome of "passed" with no evidence.
    pub fn passed() -> (r: CheckOutput)
        ensures
            r@ == (true, None::<Seq<char>>),
    {
        CheckOutput { passed: true, url: None }
    }

    /// A outcome of "not passed".
    pub fn not_passed() -> (r: CheckOutput)
        ensures
            r@ == (false, None::<Seq<char>>),
    {
        CheckOutput { passed: false, url: None }
    }

    /// This outcome with the evidence given.
    pub fn url(self, url: Option<String>) -> (r: CheckOutput)
        ensures
            r@ == (self@.0, opt_view(url)),
    {
        CheckOutput { passed: self.passed, url }
    }
}

} // verus!
