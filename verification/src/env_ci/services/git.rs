//! A plain git checkout, under no known service.

use crate::env_ci::builder::CiEnvBuilder;
use crate::env_ci::environment::Environment;
use crate::env_ci::util::{env_var_exists, var};
use crate::env_ci::{CiEnv, CiEnvView, CiServices};
use crate::text::text_of;
use vstd::prelude::*;

verus! {

/// What is said of a build under no known service, given the commit and the
/// branch that git reports.
pub open spec fn described(
    env: Map<Seq<char>, Seq<char>>,
    commit: Option<Seq<char>>,
    branch: Option<Seq<char>>,
) -> CiEnvView {
    CiEnvView {
        name: "Git"@,
        service: CiServices::Git,
        slug: None,
        root: None,
        commit,
        tag: None,
        branch,
        pull_request: None,
        pull_request_branch: None,
        job: None,
        job_url: None,
        build: None,
        build_url: None,
        is_ci: var(env, "CI"@) is Some,
        is_pull_request: false,
    }
}

/// Describes the build from the commit and the branch that git reports for the
/// checkout, and from the variable `CI`.
pub fn get(env: &Environment, commit: Option<String>, branch: Option<String>) -> (r: CiEnv)
    ensures
        r@ == described(env@, text_of(commit), text_of(branch)),
{
    let is_ci: bool = env_var_exists(env, "CI");

    CiEnvBuilder::new("Git", CiServices::Git).commit(commit).branch(branch).is_ci(is_ci).get()
}

} // verus!
