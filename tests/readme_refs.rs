use clomonitor_checks::{dco, get_started, security_policy};

#[test]
fn check_ref_match() {
    assert!(dco::check_ref_match(r"DCO"));
}

#[test]
fn get_started_readme_ref_match() {
    assert!(get_started::readme_ref_match("## Quickstarts"));
    assert!(get_started::readme_ref_match(
        r"
...

## Quickstarts

This project follows the [CNCF Code of Conduct](https://github.com/cncf/foundation/blob/master/code-of-conduct.md).
...
            "
    ));
    assert!(get_started::readme_ref_match(
        r"
...
快速开始
get started

---------------
...
            "
    ));
    assert!(get_started::readme_ref_match("[get started](...)"));
}

#[test]
fn security_policy_readme_ref_match() {
    assert!(security_policy::readme_ref_match("# Security"));
    assert!(security_policy::readme_ref_match(
        r"
...
## Project security and others
...
            "
    ));
    assert!(security_policy::readme_ref_match(
        r"
...
Security
--------
...
            "
    ));
    assert!(security_policy::readme_ref_match("[Project security policy](...)"));
}

#[test]
fn readme_ref_non_ascii_variants() {
    assert!(get_started::readme_ref_match("# 快速开始指南"));
    assert!(get_started::readme_ref_match("快速开始"));
    assert!(get_started::readme_ref_match("[快速开始](docs/start.md)"));
    assert!(get_started::readme_ref_match("## 入门指南"));
}

#[test]
fn readme_ref_rejects_unrelated_text() {
    assert!(!security_policy::readme_ref_match("# Installation\nRun the binary.\n"));
    assert!(!security_policy::readme_ref_match("We care about secure defaults."));
    assert!(!get_started::readme_ref_match("# Usage\nSee the manual.\n"));
    assert!(!dco::check_ref_match("ci/build"));
}

#[test]
fn readme_ref_heading_anywhere() {
    assert!(security_policy::readme_ref_match("intro\n\ntext\n### Reporting a SECURITY issue\nmore"));
    assert!(get_started::readme_ref_match("intro\n## How to Get Started fast\n"));
}
