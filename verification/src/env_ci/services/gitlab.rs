//! GitLab CI/CD.

use crate::env_ci::builder::CiEnvBuilder;
use crate::env_ci::environment::Environment;
use crate::env_ci::util::{env_var_exists, get_env_var, var};
use crate::env_ci::{CiEnv, CiEnvView, CiServices};
use crate::text::text_of;
use vstd::prelude::*;
use vstd::string::StringExecFns;

verus! {

/// Whether `env` is that of a GitLab job.
pub open spec fn detected(env: Map<Seq<char>, Seq<char>>) -> bool {
    var(env, "GITLAB_CI"@) is Some
}

/// The address of an item of a project: the project's address, `infix`, and
/// the item's number; nothing unless both are known.
pub open spec fn item_url(
    project_url: Option<Seq<char>>,
    infix: Seq<char>,
    item: Option<Seq<char>>,
) -> Option<Seq<char>> {
    if item is Some && project_url is Some {
        Some(project_url->0 + infix + item->0)
    } else {
        None
    }
}

/// What the variables of a GitLab job say of the build.
pub open spec fn described(env: Map<Seq<char>, Seq<char>>) -> CiEnvView {
    let project_url = var(env, "CI_PROJECT_URL"@);
    let pull_request = var(env, "CI_MERGE_REQUEST_ID"@);
    let target = var(env, "CI_MERGE_REQUEST_TARGET_BRANCH_NAME"@);
    let job = var(env, "CI_JOB_ID"@);
    let build = var(env, "CI_PIPELINE_ID"@);
    CiEnvView {
        name: "GitLab CI/CD"@,
        service: CiServices::GitLab,
        slug: var(env, "CI_PROJECT_PATH"@),
        root: var(env, "CI_PROJECT_DIR"@),
        commit: var(env, "CI_COMMIT_SHA"@),
        tag: var(env, "CI_COMMIT_TAG"@),
        branch: if pull_request is Some && target is Some {
            target
        } else {
            var(env, "CI_COMMIT_REF_NAME"@)
        },
        pull_request,
        pull_request_branch: var(env, "CI_MERGE_REQUEST_SOURCE_BRANCH_NAME"@),
        job,
        job_url: item_url(project_url, "/-/jobs/"@, job),
        build,
        build_url: item_url(project_url, "/pipelines/"@, build),
        is_ci: true,
        is_pull_request: pull_request is Some,
    }
}

/// Whether the build runs as a GitLab job.
pub fn detect(env: &Environment) -> (r: bool)
    ensures
        r == detected(env@),
{
    env_var_exists(env, "GITLAB_CI")
}

fn join_url(project_url: &Option<String>, infix: &str, item: &Option<String>) -> (r: Option<String>)
    ensures
        text_of(r) == item_url(
            text_of(*project_url),
            infix@,
            text_of(*item),
        ),
{
    match item {
        Some(i) => match project_url {
            Some(p) => Some(p.clone().concat(infix).concat(i.as_str())),
            None => None,
        },
        None => None,
    }
}

/// Describes the build from the variables of a GitLab job.
pub fn get(env: &Environment) -> (r: CiEnv)
    ensures
        r@ == described(env@),
{
    let ci_project_url: Option<String> = get_env_var(env, "CI_PROJECT_URL");
    let pull_request: Option<String> = get_env_var(env, "CI_MERGE_REQUEST_ID");
    let target: Option<String> = if pull_request.is_some() {
        get_env_var(env, "CI_MERGE_REQUEST_TARGET_BRANCH_NAME")
    } else {
        None
    };
    let branch: Option<String> = if target.is_some() {
        target
    } else {
        get_env_var(env, "CI_COMMIT_REF_NAME")
    };
    let job: Option<String> = get_env_var(env, "CI_JOB_ID");
    let job_url: Option<String> = join_url(&ci_project_url, "/-/jobs/", &job);
    let build: Option<String> = get_env_var(env, "CI_PIPELINE_ID");
    let build_url: Option<String> = join_url(&ci_project_url, "/pipelines/", &build);
    let is_pull_request: bool = pull_request.is_some();

    CiEnvBuilder::new("GitLab CI/CD", CiServices::GitLab)
        .slug(get_env_var(env, "CI_PROJECT_PATH"))
        .root(get_env_var(env, "CI_PROJECT_DIR"))
        .commit(get_env_var(env, "CI_COMMIT_SHA"))
        .tag(get_env_var(env, "CI_COMMIT_TAG"))
        .branch(branch)
        .pull_request(pull_request)
        .pull_request_branch(get_env_var(env, "CI_MERGE_REQUEST_SOURCE_BRANCH_NAME"))
        .job(job)
        .job_url(job_url)
        .build(build)
        .build_url(build_url)
        .is_ci(true)
        .is_pull_request(is_pull_request)
        .get()
}

} // verus!
