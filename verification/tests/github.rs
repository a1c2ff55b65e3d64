use fast_release::env_ci::environment::Environment;
use fast_release::env_ci::services::github::{
    assemble, event_path, get, get_pull_request_event, number_in, parse_branch, reference, text_in,
    JsonLeaf, PullRequestEvent,
};
use fast_release::env_ci::CiServices;
use fast_release::text::decimal;

fn environment(vars: &[(&str, &str)]) -> Environment {
    let mut env = Environment::new();
    for (name, value) in vars {
        env.insert(name.to_string(), value.to_string());
    }
    env
}

fn text(s: &str) -> Option<String> {
    Some(s.to_string())
}

fn event(ref_val: Option<&str>, id: Option<&str>) -> PullRequestEvent {
    PullRequestEvent { ref_val: ref_val.map(str::to_string), id: id.map(str::to_string) }
}

const EVENT: &str = r#"{
    "action": "opened",
    "number": 3,
    "pull_request": {
        "number": 1347,
        "title": "Amazing new feature",
        "base": { "ref": "refs/heads/main", "sha": "abc" },
        "head": { "ref": "feature", "sha": "def" }
    }
}"#;

#[test]
fn branch_is_the_reference_without_its_heads_prefix() {
    assert_eq!(parse_branch("refs/heads/main"), text("main"));
    assert_eq!(parse_branch("refs/heads/feature/x"), text("feature/x"));
    assert_eq!(parse_branch("main"), text("main"));
    assert_eq!(parse_branch("refs/tags/v1"), text("refs/tags/v1"));
    assert_eq!(parse_branch("refs/pull/12/merge"), text("refs/pull/12/merge"));
    assert_eq!(parse_branch("refs/heads/refs/heads/x"), text("refs/heads/x"));
    assert_eq!(parse_branch("xrefs/heads/main"), text("xrefs/heads/main"));
}

#[test]
fn branch_needs_at_least_one_character() {
    assert_eq!(parse_branch(""), None);
    assert_eq!(parse_branch("refs/heads/"), text("refs/heads/"));
    assert_eq!(parse_branch("a\nb"), None);
    assert_eq!(parse_branch("\n"), None);
}

#[test]
fn decimal_writes_numbers_as_the_standard_library_does() {
    for n in [0u64, 1, 9, 10, 11, 99, 100, 101, 1347, 4294967295, 4294967296, u64::MAX - 1, u64::MAX] {
        assert_eq!(decimal(n), n.to_string());
    }
    for n in 0..2000u64 {
        assert_eq!(decimal(n), n.to_string());
    }
}

#[test]
fn leaves_are_read_by_kind() {
    assert_eq!(text_in(Some(JsonLeaf::Text("x".to_string()))), text("x"));
    assert_eq!(text_in(Some(JsonLeaf::Unsigned(5))), None);
    assert_eq!(text_in(Some(JsonLeaf::Other)), None);
    assert_eq!(text_in(None), None);
    assert_eq!(number_in(Some(JsonLeaf::Unsigned(1347))), text("1347"));
    assert_eq!(number_in(Some(JsonLeaf::Unsigned(0))), text("0"));
    assert_eq!(number_in(Some(JsonLeaf::Text("7".to_string()))), None);
    assert_eq!(number_in(Some(JsonLeaf::Other)), None);
    assert_eq!(number_in(None), None);
}

#[test]
fn event_gives_base_branch_and_number() {
    let e = get_pull_request_event(Some(EVENT));
    assert_eq!(e.ref_val, text("main"));
    assert_eq!(e.id, text("1347"));
}

#[test]
fn event_without_pull_request_gives_nothing() {
    let e = get_pull_request_event(Some(r#"{"ref": "refs/heads/main", "number": 5}"#));
    assert_eq!(e.ref_val, None);
    assert_eq!(e.id, None);
    let e = get_pull_request_event(None);
    assert_eq!(e.ref_val, None);
    assert_eq!(e.id, None);
    let e = get_pull_request_event(Some("not json"));
    assert_eq!(e.ref_val, None);
    assert_eq!(e.id, None);
    let e = get_pull_request_event(Some(""));
    assert_eq!(e.ref_val, None);
    assert_eq!(e.id, None);
}

#[test]
fn event_fields_of_the_wrong_kind_are_passed_over() {
    let e = get_pull_request_event(Some(r#"{"pull_request": {"number": "12", "base": {"ref": 5}}}"#));
    assert_eq!(e.ref_val, None);
    assert_eq!(e.id, None);
    let e = get_pull_request_event(Some(r#"{"pull_request": {"number": -3, "base": "main"}}"#));
    assert_eq!(e.ref_val, None);
    assert_eq!(e.id, None);
    let e = get_pull_request_event(Some(r#"{"pull_request": {"number": 2.5, "base": {"ref": ""}}}"#));
    assert_eq!(e.ref_val, None);
    assert_eq!(e.id, None);
    let e = get_pull_request_event(Some(r#"{"pull_request": {"number": 7}}"#));
    assert_eq!(e.ref_val, None);
    assert_eq!(e.id, text("7"));
    let e = get_pull_request_event(Some(r#"{"pull_request": [{"number": 7}]}"#));
    assert_eq!(e.id, None);
}

#[test]
fn event_path_is_read_from_the_environment() {
    assert_eq!(event_path(&environment(&[("GITHUB_EVENT_PATH", "/tmp/event.json")])), text("/tmp/event.json"));
    assert_eq!(event_path(&environment(&[("GITHUB_EVENT_PATH", "")])), None);
    assert_eq!(event_path(&environment(&[])), None);
}

#[test]
fn reference_prefers_the_base_branch() {
    let env = environment(&[("GITHUB_EVENT_NAME", "pull_request_target"), ("GITHUB_REF", "refs/heads/x")]);
    assert_eq!(reference(&env, &event(Some("main"), Some("5"))), text("main"));
}

#[test]
fn reference_of_a_pull_request_target_is_the_merge_reference() {
    let env = environment(&[("GITHUB_EVENT_NAME", "pull_request_target"), ("GITHUB_REF", "refs/heads/x")]);
    assert_eq!(reference(&env, &event(None, Some("5"))), text("refs/pull/5/merge"));
    assert_eq!(reference(&env, &event(None, None)), text("refs/heads/x"));
}

#[test]
fn reference_falls_back_to_the_variable() {
    let env = environment(&[("GITHUB_EVENT_NAME", "pull_request"), ("GITHUB_REF", "refs/heads/x")]);
    assert_eq!(reference(&env, &event(None, Some("5"))), text("refs/heads/x"));
    let env = environment(&[("GITHUB_REF", "refs/heads/y")]);
    assert_eq!(reference(&env, &event(None, Some("5"))), text("refs/heads/y"));
    let env = environment(&[("GITHUB_EVENT_NAME", "push")]);
    assert_eq!(reference(&env, &event(None, None)), None);
}

#[test]
fn run_is_assembled_from_variables_event_and_branch() {
    let env = environment(&[
        ("GITHUB_ACTIONS", "true"),
        ("GITHUB_EVENT_NAME", "pull_request"),
        ("GITHUB_REPOSITORY", "owner/repo"),
        ("GITHUB_WORKSPACE", "/home/runner/work"),
        ("GITHUB_SHA", "cafe"),
        ("GITHUB_RUN_ID", "99"),
    ]);
    let ci = assemble(&env, event(Some("main"), Some("12")), text("main"));
    assert_eq!(ci.name, "GitHub Actions");
    assert_eq!(ci.service, CiServices::GitHub);
    assert_eq!(ci.slug, text("owner/repo"));
    assert_eq!(ci.root, text("/home/runner/work"));
    assert_eq!(ci.commit, text("cafe"));
    assert_eq!(ci.tag, None);
    assert_eq!(ci.branch, text("main"));
    assert_eq!(ci.pull_request, text("12"));
    assert_eq!(ci.pull_request_branch, text("main"));
    assert_eq!(ci.job, None);
    assert_eq!(ci.job_url, None);
    assert_eq!(ci.build, text("99"));
    assert_eq!(ci.build_url, None);
    assert!(ci.is_ci);
    assert!(ci.is_pull_request);
}

#[test]
fn push_is_no_pull_request() {
    let env = environment(&[("GITHUB_EVENT_NAME", "push")]);
    let ci = assemble(&env, event(None, None), text("main"));
    assert_eq!(ci.branch, text("main"));
    assert_eq!(ci.pull_request, None);
    assert_eq!(ci.pull_request_branch, None);
    assert!(!ci.is_pull_request);
    assert!(ci.is_ci);
    let ci = assemble(&environment(&[]), event(None, Some("3")), None);
    assert_eq!(ci.pull_request, text("3"));
    assert!(!ci.is_pull_request);
}

#[test]
fn pull_request_run_is_described() {
    let env = environment(&[
        ("GITHUB_EVENT_NAME", "pull_request"),
        ("GITHUB_REF", "refs/pull/1347/merge"),
        ("GITHUB_REPOSITORY", "owner/repo"),
        ("GITHUB_SHA", "cafe"),
    ]);
    let ci = get(&env, Some(EVENT));
    assert_eq!(ci.branch, text("main"));
    assert_eq!(ci.pull_request, text("1347"));
    assert_eq!(ci.pull_request_branch, text("main"));
    assert!(ci.is_pull_request);
    assert_eq!(ci.slug, text("owner/repo"));
}

#[test]
fn push_run_is_described() {
    let env = environment(&[("GITHUB_EVENT_NAME", "push"), ("GITHUB_REF", "refs/heads/develop")]);
    let ci = get(&env, None);
    assert_eq!(ci.branch, text("develop"));
    assert_eq!(ci.pull_request, None);
    assert_eq!(ci.pull_request_branch, None);
    assert!(!ci.is_pull_request);
    let ci = get(&env, Some(r#"{"ref": "refs/heads/develop"}"#));
    assert_eq!(ci.branch, text("develop"));
}

#[test]
fn pull_request_target_without_base_uses_the_merge_reference() {
    let env = environment(&[("GITHUB_EVENT_NAME", "pull_request_target"), ("GITHUB_REF", "refs/heads/main")]);
    let ci = get(&env, Some(r#"{"pull_request": {"number": 8}}"#));
    assert_eq!(ci.branch, text("refs/pull/8/merge"));
    assert_eq!(ci.pull_request, text("8"));
    assert_eq!(ci.pull_request_branch, text("refs/pull/8/merge"));
    assert!(ci.is_pull_request);
}
