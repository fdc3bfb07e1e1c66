//! The scorecard report model, the lookup of a named entry, and the
//! invocation contract of the scorecard tool.
use vstd::prelude::*;
use vstd::string::*;

use crate::check::CheckOutput;
use crate::registry::CheckId;

verus! {

/// Documentation of a scorecard entry.
#[derive(Clone, Debug, PartialEq)]
pub struct ScorecardCheckDocs {
    pub url: String,
}

/// One named result of a scorecard report. The score is held in hundredths
/// of a point (the tool reports it on a scale of 0 to 10).
#[derive(Clone, Debug, PartialEq)]
pub struct ScorecardCheck {
    pub name: String,
    pub reason: String,
    pub details: Option<Vec<String>>,
    pub score_hundredths: i64,
    pub documentation: ScorecardCheckDocs,
}

/// A scorecard report: its named results, in the order the tool gave them.
#[derive(Clone, Debug)]
pub struct Scorecard {
    pub checks: Vec<ScorecardCheck>,
}

/// Why a scorecard report is unavailable.
#[derive(Clone, Debug, PartialEq)]
pub struct ScorecardError {
    pub message: String,
}

impl Default for Scorecard {
    fn default() -> (r: Scorecard)
        ensures
            r.checks@.len() == 0,
    {
        Scorecard { checks: Vec::new() }
    }
}

/// Entry `k` of the report is the first one named `name`.
pub open spec fn first_named(checks: Seq<ScorecardCheck>, name: Seq<char>, k: int) -> bool {
    &&& 0 <= k < checks.len()
    &&& checks[k].name@ == name
    &&& forall|m: int| 0 <= m < k ==> (#[trigger] checks[m]).name@ != name
}

/// No entry of the report is named `name`.
pub open spec fn none_named(checks: Seq<ScorecardCheck>, name: Seq<char>) -> bool {
    forall|m: int| 0 <= m < checks.len() ==> (#[trigger] checks[m]).name@ != name
}

/// The entry of `checks` named `name`, the first one where several are.
pub fn find_named<'a>(checks: &'a Vec<ScorecardCheck>, name: &str) -> (r: Option<&'a ScorecardCheck>)
    ensures
        match r {
            Some(c) => exists|k: int| first_named(checks@, name@, k) && checks@[k] == *c,
            None => none_named(checks@, name@),
        },
{
    let target = name.to_owned();
    let mut k: usize = 0;
    while k < checks.len()
        invariant
            target@ == name@,
            k <= checks@.len(),
            forall|m: int| 0 <= m < k ==> (#[trigger] checks@[m]).name@ != name@,
        decreases checks@.len() - k,
    {
        if checks[k].name == target {
            assert(first_named(checks@, name@, k as int));
            return Some(&checks[k]);
        }
        k = k + 1;
    }
    None
}

/// The entry of the report that stands for the check `check_id`. A report
/// that could not be had yields its failure; a report without such an entry
/// yields `None`.
pub fn get_check<'a>(scorecard: &'a Result<Scorecard, ScorecardError>, check_id: CheckId) -> (r:
    Result<Option<&'a ScorecardCheck>, &'a ScorecardError>)
    requires
        check_id.spec_scorecard_name() is Some,
    ensures
        match scorecard {
            Err(e) => r == Err::<Option<&ScorecardCheck>, &ScorecardError>(e),
            Ok(s) => match r {
                Ok(Some(c)) => exists|k: int|
                    first_named(s.checks@, check_id.spec_scorecard_name()->0, k) && s.checks@[k]
                        == *c,
                Ok(None) => none_named(s.checks@, check_id.spec_scorecard_name()->0),
                Err(_) => false,
            },
        },
{
    match scorecard {
        Ok(s) => {
            let name = match check_id.scorecard_name() {
                Some(n) => n,
                None => {
                    return Ok(None);
                },
            };
            Ok(find_named(&s.checks, name))
        },
        Err(e) => Err(e),
    }
}

/// The outcome a scorecard lookup gives: passed, with the entry's
/// documentation as evidence, where the entry is present; not passed where it
/// is absent or the report is unavailable.
pub fn output_from_lookup(lookup: Result<Option<&ScorecardCheck>, &ScorecardError>) -> (r:
    CheckOutput)
    ensures
        match lookup {
            Ok(Some(c)) => r@ == (true, Some(c.documentation.url@)),
            _ => r@ == (false, None::<Seq<char>>),
        },
{
    match lookup {
        Ok(Some(c)) => CheckOutput::passed().url(Some(c.documentation.url.clone())),
        _ => CheckOutput::not_passed(),
    }
}

/// The scorecard sub-checks that are asked for.
pub open spec fn spec_requested_checks() -> Seq<char> {
    "--checks=Binary-Artifacts,Code-Review,Dangerous-Workflow,Dependency-Update-Tool,Maintained,Signed-Releases,Token-Permissions"@
}

/// The command-line arguments of the scorecard tool for the repository at
/// `repo_url`.
pub fn scorecard_args(repo_url: &str) -> (r: Vec<String>)
    ensures
        r@.len() == 4,
        r@[0]@ == "--repo="@ + repo_url@,
        r@[1]@ == "--format=json"@,
        r@[2]@ == "--show-details"@,
        r@[3]@ == spec_requested_checks(),
{
    let mut repo = "--repo=".to_owned();
    repo.append(repo_url);
    let mut v: Vec<String> = Vec::new();
    v.push(repo);
    v.push("--format=json".to_owned());
    v.push("--show-details".to_owned());
    v.push(
        "--checks=Binary-Artifacts,Code-Review,Dangerous-Workflow,Dependency-Update-Tool,Maintained,Signed-Releases,Token-Permissions".to_owned(),
    );
    v
}

/// The outcome of one run of the scorecard tool: its failure output where it
/// exited unsuccessfully, else the decoded report or the decoding failure.
pub fn scorecard_result(success: bool, stderr: String, decoded: Result<Scorecard, String>) -> (r:
    Result<Scorecard, ScorecardError>)
    ensures
        !success ==> (r matches Err(e) && e.message@ == stderr@),
        success ==> match decoded {
            Ok(s) => r == Ok::<Scorecard, ScorecardError>(s),
            Err(m) => (r matches Err(e) && e.message@ == m@),
        },
{
    if !success {
        return Err(ScorecardError { message: stderr });
    }
    match decoded {
        Ok(s) => Ok(s),
        Err(m) => Err(ScorecardError { message: m }),
    }
}

} // verus!
