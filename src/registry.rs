//! The fixed table of checks: identifier, weight, categories and the name a
//! check carries in a scorecard report.
use vstd::prelude::*;

verus! {

/// Identifier of a registered check.
#[derive(Clone, Copy, Debug, PartialEq, Eq, Structural)]
pub enum CheckId {
    CodeReview,
    Dco,
    GetStarted,
    Gitignore,
    IssueTemplate,
    Maintained,
    PrTemplate,
    SecurityPolicy,
}

/// Category a check contributes to.
#[derive(Clone, Copy, Debug, PartialEq, Eq, Structural)]
pub enum CheckSet {
    Code,
    CodeLite,
    Community,
    AntIncubator,
}

/// Metadata of a check.
#[derive(Clone, Debug)]
pub struct CheckMetadata {
    pub weight: usize,
    pub check_sets: Vec<CheckSet>,
    pub scorecard_name: Option<&'static str>,
}

/// Every registered check, in table order.
pub open spec fn all_ids() -> Seq<CheckId> {
    seq![
        CheckId::CodeReview,
        CheckId::Dco,
        CheckId::GetStarted,
        CheckId::Gitignore,
        CheckId::IssueTemplate,
        CheckId::Maintained,
        CheckId::PrTemplate,
        CheckId::SecurityPolicy,
    ]
}

impl CheckId {
    /// The identifier's text.
    pub open spec fn spec_name(self) -> Seq<char> {
        match self {
            CheckId::CodeReview => "code_review"@,
            CheckId::Dco => "dco"@,
            CheckId::GetStarted => "get_started"@,
            CheckId::Gitignore => "gitignore"@,
            CheckId::IssueTemplate => "issue_template"@,
            CheckId::Maintained => "maintained"@,
            CheckId::PrTemplate => "pr_template"@,
            CheckId::SecurityPolicy => "security_policy"@,
        }
    }

    /// The score weight.
    pub open spec fn spec_weight(self) -> usize {
        match self {
            CheckId::CodeReview => 3,
            CheckId::Dco => 1,
            CheckId::GetStarted => 2,
            CheckId::Gitignore => 2,
            CheckId::IssueTemplate => 2,
            CheckId::Maintained => 3,
            CheckId::PrTemplate => 2,
            CheckId::SecurityPolicy => 3,
        }
    }

    /// The categories.
    pub open spec fn spec_check_sets(self) -> Seq<CheckSet> {
        match self {
            CheckId::CodeReview => seq![CheckSet::Code, CheckSet::CodeLite],
            CheckId::Dco => seq![CheckSet::Code, CheckSet::CodeLite],
            CheckId::GetStarted => seq![CheckSet::AntIncubator],
            CheckId::Gitignore => seq![CheckSet::AntIncubator],
            CheckId::IssueTemplate => seq![CheckSet::AntIncubator],
            CheckId::Maintained => seq![CheckSet::Code],
            CheckId::PrTemplate => seq![CheckSet::AntIncubator],
            CheckId::SecurityPolicy => seq![CheckSet::Code, CheckSet::Community],
        }
    }

    /// The name of the check in a scorecard report, where it has one.
    pub open spec fn spec_scorecard_name(self) -> Option<Seq<char>> {
        match self {
            CheckId::CodeReview => Some("Code-Review"@),
            CheckId::Maintained => Some("Maintained"@),
            _ => None,
        }
    }

    /// The identifier's text.
    pub fn name(self) -> (r: &'static str)
        ensures
            r@ == self.spec_name(),
    {
        match self {
            CheckId::CodeReview => "code_review",
            CheckId::Dco => "dco",
            CheckId::GetStarted => "get_started",
            CheckId::Gitignore => "gitignore",
            CheckId::IssueTemplate => "issue_template",
            CheckId::Maintained => "maintained",
            CheckId::PrTemplate => "pr_template",
            CheckId::SecurityPolicy => "security_policy",
        }
    }

    /// The score weight, a positive constant.
    pub fn weight(self) -> (r: usize)
        ensures
            r == self.spec_weight(),
            r > 0,
    {
        match self {
            CheckId::CodeReview => 3,
            CheckId::Dco => 1,
            CheckId::GetStarted => 2,
            CheckId::Gitignore => 2,
            CheckId::IssueTemplate => 2,
            CheckId::Maintained => 3,
            CheckId::PrTemplate => 2,
            CheckId::SecurityPolicy => 3,
        }
    }

    /// The categories, never empty.
    pub fn check_sets(self) -> (r: Vec<CheckSet>)
        ensures
            r@ == self.spec_check_sets(),
            r@.len() > 0,
    {
        let mut v: Vec<CheckSet> = Vec::new();
        match self {
            CheckId::CodeReview | CheckId::Dco => {
                v.push(CheckSet::Code);
                v.push(CheckSet::CodeLite);
            },
            CheckId::Maintained => {
                v.push(CheckSet::Code);
            },
            CheckId::SecurityPolicy => {
                v.push(CheckSet::Code);
                v.push(CheckSet::Community);
            },
            _ => {
                v.push(CheckSet::AntIncubator);
            },
        }
        assert(v@ =~= self.spec_check_sets());
        v
    }

    /// The name of the check in a scorecard report, where it has one.
    pub fn scorecard_name(self) -> (r: Option<&'static str>)
        ensures
            match r {
                Some(s) => self.spec_scorecard_name() == Some(s@),
                None => self.spec_scorecard_name() is None,
            },
    {
        match self {
            CheckId::CodeReview => Some("Code-Review"),
            CheckId::Maintained => Some("Maintained"),
            _ => None,
        }
    }

    /// The metadata registered for the check.
    pub fn metadata(self) -> (r: CheckMetadata)
        ensures
            r.weight == self.spec_weight(),
            r.weight > 0,
            r.check_sets@ == self.spec_check_sets(),
            match r.scorecard_name {
                Some(s) => self.spec_scorecard_name() == Some(s@),
                None => self.spec_scorecard_name() is None,
            },
    {
        CheckMetadata {
            weight: self.weight(),
            check_sets: self.check_sets(),
            scorecard_name: self.scorecard_name(),
        }
    }

    /// Every registered check, in table order.
    pub fn all() -> (r: Vec<CheckId>)
        ensures
            r@ == all_ids(),
    {
        let mut v: Vec<CheckId> = Vec::new();
        v.push(CheckId::CodeReview);
        v.push(CheckId::Dco);
        v.push(CheckId::GetStarted);
        v.push(CheckId::Gitignore);
        v.push(CheckId::IssueTemplate);
        v.push(CheckId::Maintained);
        v.push(CheckId::PrTemplate);
        v.push(CheckId::SecurityPolicy);
        assert(v@ =~= all_ids());
        v
    }

    /// The check registered under `name`, if any.
    pub fn from_name(name: &str) -> (r: Option<CheckId>)
        ensures
            match r {
                Some(id) => id.spec_name() == name@,
                None => forall|id: CheckId| #[trigger] id.spec_name() != name@,
            },
    {
        let ids = CheckId::all();
        let target = name.to_owned();
        let mut k: usize = 0;
        while k < ids.len()
            invariant
                ids@ == all_ids(),
                target@ == name@,
                k <= ids@.len(),
                forall|m: int| 0 <= m < k ==> (#[trigger] ids@[m]).spec_name() != name@,
            decreases ids@.len() - k,
        {
            let candidate = ids[k].name().to_owned();
            if candidate == target {
                return Some(ids[k]);
            }
            k = k + 1;
        }
        assert forall|id: CheckId| #[trigger] id.spec_name() != name@ by {
            let m: int = match id {
                CheckId::CodeReview => 0,
                CheckId::Dco => 1,
                CheckId::GetStarted => 2,
                CheckId::Gitignore => 3,
                CheckId::IssueTemplate => 4,
                CheckId::Maintained => 5,
                CheckId::PrTemplate => 6,
                CheckId::SecurityPolicy => 7,
            };
            assert(ids@[m] == id);
        }
        None
    }
}

/// Every registered check appears in the table exactly once, and each carries
/// a positive weight and at least one category.
pub proof fn lemma_registry_well_formed()
    ensures
        forall|i: int, j: int|
            0 <= i < j < all_ids().len() ==> #[trigger] all_ids()[i] != #[trigger] all_ids()[j],
        forall|id: CheckId| all_ids().contains(id),
        forall|id: CheckId| #[trigger] id.spec_weight() > 0 && id.spec_check_sets().len() > 0,
        forall|a: CheckId, b: CheckId| #[trigger] a.spec_name() == #[trigger] b.spec_name() ==> a == b,
{
    reveal_strlit("code_review");
    reveal_strlit("dco");
    reveal_strlit("get_started");
    reveal_strlit("gitignore");
    reveal_strlit("issue_template");
    reveal_strlit("maintained");
    reveal_strlit("pr_template");
    reveal_strlit("security_policy");
    assert forall|a: CheckId, b: CheckId| #[trigger] a.spec_name() == #[trigger] b.spec_name() implies a
        == b by {
        assert(a.spec_name().len() == b.spec_name().len());
        assert(a.spec_name()[0] == b.spec_name()[0]);
    }
    assert forall|id: CheckId| all_ids().contains(id) by {
        let m: int = match id {
            CheckId::CodeReview => 0,
            CheckId::Dco => 1,
            CheckId::GetStarted => 2,
            CheckId::Gitignore => 3,
            CheckId::IssueTemplate => 4,
            CheckId::Maintained => 5,
            CheckId::PrTemplate => 6,
            CheckId::SecurityPolicy => 7,
        };
        assert(all_ids()[m] == id);
    }
}

} // verus!
