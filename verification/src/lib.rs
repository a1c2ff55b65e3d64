//! The logic of a release tool, verified: parsing git remote specifiers,
//! describing the continuous-integration service a build runs under, and
//! checking the release configuration.

pub mod cli;
pub mod config;
pub mod env_ci;
pub mod error;
pub mod hosted_git_info;
pub mod text;
