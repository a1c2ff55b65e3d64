//! One module for each service that is told apart.

pub mod git;
pub mod github;
pub mod gitlab;
