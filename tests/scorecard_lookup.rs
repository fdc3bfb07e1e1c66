use clomonitor_checks::registry::CheckId;
use clomonitor_checks::scorecard::{
    get_check, scorecard_args, scorecard_result, Scorecard, ScorecardCheck, ScorecardCheckDocs,
    ScorecardError,
};

fn code_review_entry() -> ScorecardCheck {
    ScorecardCheck {
        name: "Code-Review".to_string(),
        reason: "test".to_string(),
        details: None,
        score_hundredths: 800,
        documentation: ScorecardCheckDocs {
            url: "https://test.url".to_string(),
        },
    }
}

#[test]
fn get_check_found() {
    let scorecard: Result<Scorecard, ScorecardError> = Ok(Scorecard {
        checks: vec![code_review_entry()],
    });

    assert_eq!(
        get_check(&scorecard, CheckId::CodeReview).unwrap().unwrap(),
        &scorecard.as_ref().unwrap().checks[0]
    );
}

#[test]
fn get_check_not_found() {
    let scorecard: Result<Scorecard, ScorecardError> = Ok(Scorecard { checks: vec![] });

    assert!(get_check(&scorecard, CheckId::CodeReview).unwrap().is_none());
}

#[test]
fn get_check_absent_name_among_others() {
    let scorecard: Result<Scorecard, ScorecardError> = Ok(Scorecard {
        checks: vec![code_review_entry()],
    });
    assert!(get_check(&scorecard, CheckId::Maintained).unwrap().is_none());
}

#[test]
fn get_check_failed_report_propagates() {
    let scorecard: Result<Scorecard, ScorecardError> = Err(ScorecardError {
        message: "bad json".to_string(),
    });
    let err = get_check(&scorecard, CheckId::CodeReview).unwrap_err();
    assert_eq!(err.message, "bad json");
}

#[test]
fn scorecard_default_is_empty() {
    assert!(Scorecard::default().checks.is_empty());
}

#[test]
fn scorecard_invocation_arguments() {
    let args = scorecard_args("https://github.com/o/r");
    assert_eq!(
        args,
        vec![
            "--repo=https://github.com/o/r".to_string(),
            "--format=json".to_string(),
            "--show-details".to_string(),
            "--checks=Binary-Artifacts,Code-Review,Dangerous-Workflow,Dependency-Update-Tool,Maintained,Signed-Releases,Token-Permissions".to_string(),
        ]
    );
}

#[test]
fn scorecard_result_cases() {
    let failed = scorecard_result(false, "boom".to_string(), Ok(Scorecard::default()));
    assert_eq!(failed.unwrap_err().message, "boom");
    let undecoded = scorecard_result(true, String::new(), Err("eof".to_string()));
    assert_eq!(undecoded.unwrap_err().message, "eof");
    let ok = scorecard_result(
        true,
        String::new(),
        Ok(Scorecard {
            checks: vec![code_review_entry()],
        }),
    );
    assert_eq!(ok.unwrap().checks.len(), 1);
}
