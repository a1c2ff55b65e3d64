use fast_release::env_ci::builder::CiEnvBuilder;
use fast_release::env_ci::environment::Environment;
use fast_release::env_ci::services::{git, github, gitlab};
use fast_release::env_ci::util::{env_var_exists, get_env_var};
use fast_release::env_ci::{detect, CiServices};

fn environment(vars: &[(&str, &str)]) -> Environment {
    let mut env = Environment::new();
    for (name, value) in vars {
        env.insert(name.to_string(), value.to_string());
    }
    env
}

fn text(s: &str) -> Option<String> {
    Some(s.to_string())
}

#[test]
fn environment_keeps_the_last_value() {
    let mut env = Environment::new();
    assert_eq!(env.get("A"), None);
    env.insert("A".to_string(), "1".to_string());
    env.insert("B".to_string(), "2".to_string());
    env.insert("A".to_string(), "3".to_string());
    assert_eq!(env.get("A").map(|s| s.as_str()), Some("3"));
    assert_eq!(env.get("B").map(|s| s.as_str()), Some("2"));
    assert_eq!(env.get("C"), None);
}

#[test]
fn empty_variable_does_not_exist() {
    let env = environment(&[("SET", "x"), ("EMPTY", "")]);
    assert!(env_var_exists(&env, "SET"));
    assert!(!env_var_exists(&env, "EMPTY"));
    assert!(!env_var_exists(&env, "UNSET"));
    assert_eq!(get_env_var(&env, "SET"), text("x"));
    assert_eq!(get_env_var(&env, "EMPTY"), None);
    assert_eq!(get_env_var(&env, "UNSET"), None);
}

#[test]
fn builder_starts_empty() {
    let env = CiEnvBuilder::new("Name", CiServices::GitHub).get();
    assert_eq!(env.name, "Name");
    assert_eq!(env.service, CiServices::GitHub);
    assert_eq!(env.slug, None);
    assert_eq!(env.root, None);
    assert_eq!(env.commit, None);
    assert_eq!(env.tag, None);
    assert_eq!(env.branch, None);
    assert_eq!(env.pull_request, None);
    assert_eq!(env.pull_request_branch, None);
    assert_eq!(env.job, None);
    assert_eq!(env.job_url, None);
    assert_eq!(env.build, None);
    assert_eq!(env.build_url, None);
    assert!(!env.is_ci);
    assert!(!env.is_pull_request);
}

#[test]
fn builder_sets_each_field() {
    let env = CiEnvBuilder::new("N", CiServices::Git)
        .slug(text("slug"))
        .root(text("root"))
        .commit(text("commit"))
        .tag(text("tag"))
        .branch(text("branch"))
        .pull_request(text("pr"))
        .pull_request_branch(text("prb"))
        .job(text("job"))
        .job_url(text("job_url"))
        .build(text("build"))
        .build_url(text("build_url"))
        .is_ci(true)
        .is_pull_request(true)
        .get();
    assert_eq!(env.name, "N");
    assert_eq!(env.service, CiServices::Git);
    assert_eq!(env.slug, text("slug"));
    assert_eq!(env.root, text("root"));
    assert_eq!(env.commit, text("commit"));
    assert_eq!(env.tag, text("tag"));
    assert_eq!(env.branch, text("branch"));
    assert_eq!(env.pull_request, text("pr"));
    assert_eq!(env.pull_request_branch, text("prb"));
    assert_eq!(env.job, text("job"));
    assert_eq!(env.job_url, text("job_url"));
    assert_eq!(env.build, text("build"));
    assert_eq!(env.build_url, text("build_url"));
    assert!(env.is_ci);
    assert!(env.is_pull_request);
}

#[test]
fn builder_setter_overwrites_and_leaves_the_rest() {
    let env = CiEnvBuilder::new("N", CiServices::GitLab)
        .tag(text("v1"))
        .branch(text("main"))
        .tag(None)
        .is_ci(true)
        .is_ci(false)
        .get();
    assert_eq!(env.tag, None);
    assert_eq!(env.branch, text("main"));
    assert!(!env.is_ci);
    assert_eq!(env.service, CiServices::GitLab);
}

#[test]
fn service_is_detected_in_order() {
    assert_eq!(detect(&environment(&[])), CiServices::Git);
    assert_eq!(detect(&environment(&[("CI", "true")])), CiServices::Git);
    assert_eq!(detect(&environment(&[("GITLAB_CI", "true")])), CiServices::GitLab);
    assert_eq!(detect(&environment(&[("GITHUB_ACTIONS", "true")])), CiServices::GitHub);
    assert_eq!(
        detect(&environment(&[("GITHUB_ACTIONS", "true"), ("GITLAB_CI", "true")])),
        CiServices::GitHub
    );
    assert_eq!(detect(&environment(&[("GITHUB_ACTIONS", ""), ("GITLAB_CI", "1")])), CiServices::GitLab);
    assert_eq!(detect(&environment(&[("GITHUB_ACTIONS", ""), ("GITLAB_CI", "")])), CiServices::Git);
    assert!(github::detect(&environment(&[("GITHUB_ACTIONS", "true")])));
    assert!(!github::detect(&environment(&[("GITLAB_CI", "true")])));
    assert!(gitlab::detect(&environment(&[("GITLAB_CI", "true")])));
    assert!(!gitlab::detect(&environment(&[("GITLAB_CI", "")])));
}

#[test]
fn plain_git_reports_commit_and_branch() {
    let env = git::get(&environment(&[("CI", "1")]), text("abc123"), text("main"));
    assert_eq!(env.name, "Git");
    assert_eq!(env.service, CiServices::Git);
    assert_eq!(env.commit, text("abc123"));
    assert_eq!(env.branch, text("main"));
    assert!(env.is_ci);
    assert!(!env.is_pull_request);
    assert_eq!(env.slug, None);
    assert_eq!(env.tag, None);
    let env = git::get(&environment(&[("CI", "")]), None, None);
    assert_eq!(env.commit, None);
    assert_eq!(env.branch, None);
    assert!(!env.is_ci);
}

#[test]
fn gitlab_merge_request() {
    let env = gitlab::get(&environment(&[
        ("GITLAB_CI", "true"),
        ("CI_PROJECT_URL", "https://gitlab.com/group/project"),
        ("CI_PROJECT_PATH", "group/project"),
        ("CI_PROJECT_DIR", "/builds/group/project"),
        ("CI_COMMIT_SHA", "deadbeef"),
        ("CI_COMMIT_TAG", "v1.0.0"),
        ("CI_COMMIT_REF_NAME", "feature"),
        ("CI_MERGE_REQUEST_ID", "17"),
        ("CI_MERGE_REQUEST_TARGET_BRANCH_NAME", "main"),
        ("CI_MERGE_REQUEST_SOURCE_BRANCH_NAME", "feature"),
        ("CI_JOB_ID", "42"),
        ("CI_PIPELINE_ID", "7"),
    ]));
    assert_eq!(env.name, "GitLab CI/CD");
    assert_eq!(env.service, CiServices::GitLab);
    assert_eq!(env.slug, text("group/project"));
    assert_eq!(env.root, text("/builds/group/project"));
    assert_eq!(env.commit, text("deadbeef"));
    assert_eq!(env.tag, text("v1.0.0"));
    assert_eq!(env.branch, text("main"));
    assert_eq!(env.pull_request, text("17"));
    assert_eq!(env.pull_request_branch, text("feature"));
    assert_eq!(env.job, text("42"));
    assert_eq!(env.job_url, text("https://gitlab.com/group/project/-/jobs/42"));
    assert_eq!(env.build, text("7"));
    assert_eq!(env.build_url, text("https://gitlab.com/group/project/pipelines/7"));
    assert!(env.is_ci);
    assert!(env.is_pull_request);
}

#[test]
fn gitlab_branch_build() {
    let env = gitlab::get(&environment(&[
        ("CI_COMMIT_REF_NAME", "develop"),
        ("CI_MERGE_REQUEST_TARGET_BRANCH_NAME", "main"),
        ("CI_JOB_ID", "42"),
        ("CI_PIPELINE_ID", "7"),
    ]));
    assert_eq!(env.branch, text("develop"));
    assert_eq!(env.pull_request, None);
    assert_eq!(env.pull_request_branch, None);
    assert_eq!(env.job, text("42"));
    assert_eq!(env.job_url, None);
    assert_eq!(env.build, text("7"));
    assert_eq!(env.build_url, None);
    assert!(env.is_ci);
    assert!(!env.is_pull_request);
}

#[test]
fn gitlab_merge_request_without_target_falls_back() {
    let env = gitlab::get(&environment(&[
        ("CI_MERGE_REQUEST_ID", "17"),
        ("CI_MERGE_REQUEST_TARGET_BRANCH_NAME", ""),
        ("CI_COMMIT_REF_NAME", "feature"),
        ("CI_PROJECT_URL", "https://h/p"),
    ]));
    assert_eq!(env.branch, text("feature"));
    assert!(env.is_pull_request);
    assert_eq!(env.job_url, None);
    assert_eq!(env.build_url, None);
}
