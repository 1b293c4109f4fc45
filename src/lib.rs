//! Cache and request-orchestration layer for a Jira-like issue tracker:
//! domain models, request building for the REST endpoints, the
//! per-session project/issue cache with its selection state, and the
//! stored company configuration.
pub mod actions;
pub mod config;
pub mod errors;
pub mod issues;
pub mod jira_data;
pub mod json;
pub mod keyed;
pub mod metadata;
pub mod projects;
pub mod request;
pub mod statuses;
pub mod text;
