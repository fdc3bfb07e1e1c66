use clomonitor_checks::check::{
    CheckInput, EntryKind, HistoryError, LocalRepo, Mode, RemoteMetadata, RepoEntry,
};
use clomonitor_checks::dco::{self, CommitEntry};
use clomonitor_checks::scorecard::{Scorecard, ScorecardCheck, ScorecardCheckDocs, ScorecardError};
use clomonitor_checks::{
    get_started, gitignore, issue_template, maintained, pr_template, security_policy,
};

fn file(path: &str, content: &str) -> RepoEntry {
    RepoEntry {
        path: path.to_string(),
        kind: EntryKind::File,
        content: Some(content.to_string()),
    }
}

fn dir(path: &str) -> RepoEntry {
    RepoEntry {
        path: path.to_string(),
        kind: EntryKind::Dir,
        content: None,
    }
}

fn input(mode: Mode, entries: Vec<RepoEntry>) -> CheckInput {
    CheckInput {
        li: LocalRepo {
            mode,
            entries,
            history: Err(HistoryError {
                message: "not a repository".to_string(),
            }),
        },
        gh_md: None,
        scorecard: Err(ScorecardError {
            message: "unavailable".to_string(),
        }),
    }
}

fn metadata(security: Option<&str>, coc: Option<&str>, status: Vec<&str>) -> RemoteMetadata {
    RemoteMetadata {
        security_policy_url: security.map(|s| s.to_string()),
        code_of_conduct_url: coc.map(|s| s.to_string()),
        status_checks: status.into_iter().map(|s| s.to_string()).collect(),
    }
}

fn signed(subject: &str) -> CommitEntry {
    CommitEntry::Commit {
        message: Some(format!("{subject}\n\nSigned-off-by: A Dev <a@dev.io>\n")),
    }
}

fn unsigned(subject: &str) -> CommitEntry {
    CommitEntry::Commit {
        message: Some(format!("{subject}\n")),
    }
}

fn merge_pr() -> CommitEntry {
    CommitEntry::Commit {
        message: Some("Merge pull request #12 from a/b\n".to_string()),
    }
}

fn merge_branch() -> CommitEntry {
    CommitEntry::Commit {
        message: Some("Merge branch 'main' into feature\n".to_string()),
    }
}

#[test]
fn gitignore_non_empty_passes_with_path() {
    let i = input(Mode::Local, vec![file("README.md", "# x"), file(".gitignore", "target/\n")]);
    let out = gitignore::check(&i).unwrap();
    assert!(out.passed);
    assert_eq!(out.url, Some(".gitignore".to_string()));
}

#[test]
fn gitignore_empty_or_missing_fails() {
    let empty = input(Mode::Local, vec![file(".gitignore", "")]);
    let out = gitignore::check(&empty).unwrap();
    assert!(!out.passed);
    assert_eq!(out.url, None);
    let missing = input(Mode::Local, vec![file("src/.gitignore", "x")]);
    assert!(!gitignore::check(&missing).unwrap().passed);
}

#[test]
fn gitignore_unreadable_is_error() {
    let i = input(Mode::Local, vec![dir(".gitignore")]);
    assert!(gitignore::check(&i).is_err());
}

#[test]
fn security_policy_file_any_case() {
    let i = input(Mode::Local, vec![file("SECURITY.MD", "report here")]);
    let out = security_policy::check(&i);
    assert!(out.passed);
    assert_eq!(out.url, Some("SECURITY.MD".to_string()));
    let nested = input(Mode::Local, vec![file(".GitHub/Security.md", "x")]);
    assert_eq!(security_policy::check(&nested).url, Some(".GitHub/Security.md".to_string()));
}

#[test]
fn security_policy_path_outside_root_never_matches() {
    let i = input(
        Mode::Local,
        vec![file("../security.md", "x"), file("/security.md", "x"), file("docs/../security.md", "x")],
    );
    assert!(!security_policy::check(&i).passed);
}

#[test]
fn security_policy_readme_reference_passes_without_url() {
    let i = input(Mode::Local, vec![file("README.md", "# Project\n\n## Security\nMail us.\n")]);
    let out = security_policy::check(&i);
    assert!(out.passed);
    assert_eq!(out.url, None);
}

#[test]
fn security_policy_remote_url_passes() {
    let mut i = input(Mode::Remote, vec![file("README.md", "# Project\n")]);
    i.gh_md = Some(metadata(Some("https://github.com/o/r/security/policy"), None, vec![]));
    let out = security_policy::check(&i);
    assert!(out.passed);
    assert_eq!(out.url, Some("https://github.com/o/r/security/policy".to_string()));
}

#[test]
fn security_policy_local_ignores_remote() {
    let mut i = input(Mode::Local, vec![file("README.md", "# Project\n")]);
    i.gh_md = Some(metadata(Some("https://github.com/o/r/security/policy"), None, vec!["dco"]));
    let out = security_policy::check(&i);
    assert!(!out.passed);
    assert_eq!(out.url, None);
}

#[test]
fn get_started_file_and_fallback() {
    let i = input(Mode::Local, vec![file("docs/Getting-Started.md", "x")]);
    assert_eq!(get_started::check(&i).url, Some("docs/Getting-Started.md".to_string()));
    let mut r = input(Mode::Remote, vec![]);
    r.gh_md = Some(metadata(None, Some("https://coc.url"), vec![]));
    assert_eq!(get_started::check(&r).url, Some("https://coc.url".to_string()));
    let l = input(Mode::Local, vec![file("docs/guide/quickstart.md", "x")]);
    assert!(!get_started::check(&l).passed);
}

#[test]
fn maintained_uses_scorecard_in_remote_mode() {
    let report = Scorecard {
        checks: vec![ScorecardCheck {
            name: "Maintained".to_string(),
            reason: "active".to_string(),
            details: Some(vec!["30 commits".to_string()]),
            score_hundredths: 1000,
            documentation: ScorecardCheckDocs {
                url: "https://docs/maintained".to_string(),
            },
        }],
    };
    let mut r = input(Mode::Remote, vec![]);
    r.scorecard = Ok(report.clone());
    let out = maintained::check(&r);
    assert!(out.passed);
    assert_eq!(out.url, Some("https://docs/maintained".to_string()));
    let mut l = input(Mode::Local, vec![]);
    l.scorecard = Ok(report);
    assert!(!maintained::check(&l).passed);
    let failed = input(Mode::Remote, vec![]);
    assert!(!maintained::check(&failed).passed);
}

#[test]
fn dco_all_signed_with_merges_passes() {
    let h = vec![signed("a"), merge_pr(), signed("b"), merge_branch(), signed("c")];
    assert!(dco::commits_have_dco_signature(&h));
}

#[test]
fn dco_one_unsigned_fails_at_any_position() {
    for pos in 0..20 {
        let mut h: Vec<CommitEntry> = (0..20).map(|k| signed(&format!("c{k}"))).collect();
        h[pos] = unsigned("oops");
        assert!(!dco::commits_have_dco_signature(&h), "position {pos}");
    }
}

#[test]
fn dco_only_twenty_most_recent_inspected() {
    let mut h: Vec<CommitEntry> = (0..25).map(|k| signed(&format!("c{k}"))).collect();
    assert!(dco::commits_have_dco_signature(&h));
    h[22] = unsigned("old");
    assert!(dco::commits_have_dco_signature(&h));
}

#[test]
fn dco_unreadable_skipped_and_textless_fails() {
    let h = vec![signed("a"), CommitEntry::Unreadable, signed("b")];
    assert!(dco::commits_have_dco_signature(&h));
    let t = vec![signed("a"), CommitEntry::Commit { message: None }];
    assert!(!dco::commits_have_dco_signature(&t));
    assert!(dco::commits_have_dco_signature(&vec![]));
}

#[test]
fn dco_check_tiers() {
    let mut i = input(Mode::Remote, vec![]);
    i.li.history = Ok(vec![signed("a")]);
    assert!(dco::check(&i).passed);
    let mut r = input(Mode::Remote, vec![]);
    r.gh_md = Some(metadata(None, None, vec!["ci", "DCO"]));
    assert!(dco::check(&r).passed);
    let mut l = input(Mode::Local, vec![]);
    l.gh_md = Some(metadata(None, None, vec!["DCO"]));
    assert!(!dco::check(&l).passed);
    let mut u = input(Mode::Remote, vec![]);
    u.li.history = Ok(vec![unsigned("a")]);
    assert!(!dco::check(&u).passed);
}

#[test]
fn issue_template_file_and_directory() {
    let f = input(Mode::Local, vec![file(".github/ISSUE_TEMPLATE.md", "Describe the bug")]);
    assert!(issue_template::check(&f).unwrap().passed);
    let blank = input(Mode::Local, vec![file(".github/ISSUE_TEMPLATE.md", "  \n\t")]);
    assert!(!issue_template::check(&blank).unwrap().passed);
    let d = input(
        Mode::Local,
        vec![dir(".github/ISSUE_TEMPLATE"), file(".github/ISSUE_TEMPLATE/bug.md", "x")],
    );
    assert!(issue_template::check(&d).unwrap().passed);
    let other = input(
        Mode::Local,
        vec![
            dir(".github/ISSUE_TEMPLATE"),
            file(".github/ISSUE_TEMPLATE/config.yml", "x"),
            file(".github/ISSUE_TEMPLATE/sub/bug.md", "x"),
            file(".github/ISSUE_TEMPLATE/.md", "x"),
        ],
    );
    assert!(!issue_template::check(&other).unwrap().passed);
}

#[test]
fn pr_template_cases() {
    let f = input(Mode::Local, vec![file(".github/PULL_REQUEST_TEMPLATE.md", "## Checklist")]);
    assert!(pr_template::check(&f).unwrap().passed);
    let unreadable = input(
        Mode::Local,
        vec![RepoEntry {
            path: ".github/PULL_REQUEST_TEMPLATE.md".to_string(),
            kind: EntryKind::File,
            content: None,
        }],
    );
    assert!(pr_template::check(&unreadable).is_err());
    assert!(!pr_template::check(&input(Mode::Local, vec![])).unwrap().passed);
}
