//! Check evaluation engine: evidence resolvers, a sign-off history analyzer,
//! a scorecard lookup, a registry of check metadata, and the checks built on them.
pub mod check;
pub mod dco;
pub mod get_started;
pub mod gitignore;
pub mod issue_template;
pub mod local_mode;
pub mod maintained;
pub mod path;
pub mod pattern;
pub mod pr_template;
pub mod registry;
pub mod resolve;
pub mod scorecard;
pub mod security_policy;
pub mod template;
