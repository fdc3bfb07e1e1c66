use clomonitor_checks::path::{glob_match, is_confined};
use clomonitor_checks::registry::{CheckId, CheckSet};

#[test]
fn glob_is_case_insensitive() {
    assert!(glob_match("security*", "SECURITY.MD"));
    assert!(glob_match("security*", "Security.md"));
    assert!(glob_match("docs/get*started*", "docs/Get-Started.md"));
    assert!(!glob_match("security*", "docs/security.md"));
    assert!(!glob_match(".gitignore", ".gitignore2"));
}

#[test]
fn confinement() {
    assert!(is_confined("docs/security.md"));
    assert!(is_confined("..hidden"));
    assert!(!is_confined("../security.md"));
    assert!(!is_confined("docs/../../x"));
    assert!(!is_confined("/etc/passwd"));
}

#[test]
fn registry_metadata() {
    assert_eq!(CheckId::Dco.weight(), 1);
    assert_eq!(CheckId::SecurityPolicy.weight(), 3);
    assert_eq!(CheckId::SecurityPolicy.check_sets(), vec![CheckSet::Code, CheckSet::Community]);
    assert_eq!(CheckId::Maintained.scorecard_name(), Some("Maintained"));
    assert_eq!(CheckId::CodeReview.metadata().scorecard_name, Some("Code-Review"));
    assert_eq!(CheckId::Gitignore.scorecard_name(), None);
    assert_eq!(CheckId::from_name("pr_template"), Some(CheckId::PrTemplate));
    assert_eq!(CheckId::from_name("nope"), None);
    let all = CheckId::all();
    assert_eq!(all.len(), 8);
    for id in all {
        assert_eq!(CheckId::from_name(id.name()), Some(id));
    }
}
