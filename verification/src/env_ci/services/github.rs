//! GitHub Actions.

use crate::env_ci::builder::CiEnvBuilder;
use crate::env_ci::environment::Environment;
use crate::env_ci::util::{env_var_exists, get_env_var, var};
use crate::env_ci::{CiEnv, CiEnvView, CiServices};
use crate::text::{decimal, decimal_text, same_text, text_of};
use vstd::prelude::*;
use vstd::string::StringExecFns;

verus! {

/// What stands at one place of a JSON document, as far as it is read here: a
/// string, a number that fits an unsigned 64-bit integer, or anything else.
#[derive(Debug)]
pub enum JsonLeaf {
    Text(String),
    Unsigned(u64),
    Other,
}

/// A `JsonLeaf` with its text as a character sequence.
pub enum JsonLeafView {
    Text(Seq<char>),
    Unsigned(u64),
    Other,
}

impl View for JsonLeaf {
    type V = JsonLeafView;

    open spec fn view(&self) -> JsonLeafView {
        match self {
            JsonLeaf::Text(t) => JsonLeafView::Text(t@),
            JsonLeaf::Unsigned(n) => JsonLeafView::Unsigned(*n),
            JsonLeaf::Other => JsonLeafView::Other,
        }
    }
}

/// What a pull-request event says of the request: the branch it is to be
/// merged into, and its number.
#[derive(Debug)]
pub struct PullRequestEvent {
    pub ref_val: Option<String>,
    pub id: Option<String>,
}

/// A `PullRequestEvent` with its texts as character sequences.
pub struct PullRequestEventView {
    pub ref_val: Option<Seq<char>>,
    pub id: Option<Seq<char>>,
}

impl View for PullRequestEvent {
    type V = PullRequestEventView;

    open spec fn view(&self) -> PullRequestEventView {
        PullRequestEventView { ref_val: text_of(self.ref_val), id: text_of(self.id) }
    }
}

/// What the group named `group` of the regular expression `pattern` captures
/// in the first match of `pattern` in `haystack`; nothing where `pattern` is no
/// regular expression, matches nowhere, or has no such group in its match.
pub uninterp spec fn regex_capture(
    pattern: Seq<char>,
    group: Seq<char>,
    haystack: Seq<char>,
) -> Option<Seq<char>>;

/// What the JSON document `document` holds at the place that the JSON pointer
/// `pointer` names; nothing where `document` is no JSON or has no such place.
pub uninterp spec fn json_at(document: Seq<char>, pointer: Seq<char>) -> Option<JsonLeafView>;

/// Compiles `pattern` with `regex::Regex::new`, searches `haystack` with
/// `Regex::captures`, and copies what `Captures::name` gives for `group`. The
/// outcome is a function of the three texts; the contract gives it the name
/// `regex_capture` and claims nothing of what it is.
#[verifier::external_body]
fn capture(pattern: &str, group: &str, haystack: &str) -> (r: Option<String>)
    ensures
        text_of(r) == regex_capture(pattern@, group@, haystack@),
{
    let regex = regex::Regex::new(pattern).ok()?;
    let found = regex.captures(haystack)?.name(group)?;
    Some(found.as_str().to_string())
}

/// Reads `document` with `serde_json::from_str`, looks `pointer` up with
/// `serde_json::Value::pointer`, and copies the value found there. The outcome
/// is a function of the two texts; the contract gives it the name `json_at` and
/// claims nothing of what it is.
#[verifier::external_body]
fn look_up(document: &str, pointer: &str) -> (r: Option<JsonLeaf>)
    ensures
        match r {
            Some(leaf) => json_at(document@, pointer@) == Some(leaf@),
            None => json_at(document@, pointer@) is None,
        },
{
    let value = serde_json::from_str::<serde_json::Value>(document).ok()?;
    Some(match value.pointer(pointer)? {
        serde_json::Value::String(s) => JsonLeaf::Text(s.clone()),
        serde_json::Value::Number(n) => match n.as_u64() {
            Some(u) => JsonLeaf::Unsigned(u),
            None => JsonLeaf::Other,
        },
        _ => JsonLeaf::Other,
    })
}

/// Whether `env` is that of a GitHub Actions run.
pub open spec fn detected(env: Map<Seq<char>, Seq<char>>) -> bool {
    var(env, "GITHUB_ACTIONS"@) is Some
}

/// Whether the build runs under GitHub Actions.
pub fn detect(env: &Environment) -> (r: bool)
    ensures
        r == detected(env@),
{
    env_var_exists(env, "GITHUB_ACTIONS")
}

/// The branch that the git reference `reference` names: the reference without
/// a leading `refs/heads/`, as the pattern for branches captures it.
pub open spec fn branch_named(reference: Seq<char>) -> Option<Seq<char>> {
    regex_capture("^(?:refs\\/heads\\/)?(?P<branch>.+)$"@, "branch"@, reference)
}

/// Reads the name of a branch out of a git reference.
pub fn parse_branch(branch: &str) -> (r: Option<String>)
    ensures
        text_of(r) == branch_named(branch@),
{
    capture("^(?:refs\\/heads\\/)?(?P<branch>.+)$", "branch", branch)
}

/// The file that describes the event which started the run, where one is named.
pub fn event_path(env: &Environment) -> (r: Option<String>)
    ensures
        text_of(r) == var(env@, "GITHUB_EVENT_PATH"@),
{
    get_env_var(env, "GITHUB_EVENT_PATH")
}

/// The text at a place of an event, where a string stands there.
pub open spec fn leaf_text(leaf: Option<JsonLeafView>) -> Option<Seq<char>> {
    match leaf {
        Some(JsonLeafView::Text(t)) => Some(t),
        _ => None,
    }
}

/// The number at a place of an event, in decimal, where a number stands there.
pub open spec fn leaf_number(leaf: Option<JsonLeafView>) -> Option<Seq<char>> {
    match leaf {
        Some(JsonLeafView::Unsigned(n)) => Some(decimal_text(n as nat)),
        _ => None,
    }
}

/// What the event file with the content `content` says of a pull request;
/// nothing of either where no file was read.
pub open spec fn event_of(content: Option<Seq<char>>) -> PullRequestEventView {
    match content {
        Some(document) => PullRequestEventView {
            ref_val: match leaf_text(json_at(document, "/pull_request/base/ref"@)) {
                Some(reference) => branch_named(reference),
                None => None,
            },
            id: leaf_number(json_at(document, "/pull_request/number"@)),
        },
        None => PullRequestEventView { ref_val: None, id: None },
    }
}

/// Picks the text out of what was found at a place of an event.
pub fn text_in(leaf: Option<JsonLeaf>) -> (r: Option<String>)
    ensures
        text_of(r) == leaf_text(
            match leaf {
                Some(l) => Some(l@),
                None => None,
            },
        ),
{
    match leaf {
        Some(JsonLeaf::Text(t)) => Some(t),
        _ => None,
    }
}

/// Writes out the number that was found at a place of an event.
pub fn number_in(leaf: Option<JsonLeaf>) -> (r: Option<String>)
    ensures
        text_of(r) == leaf_number(
            match leaf {
                Some(l) => Some(l@),
                None => None,
            },
        ),
{
    match leaf {
        Some(JsonLeaf::Unsigned(n)) => Some(decimal(n)),
        _ => None,
    }
}

/// Reads what the event file says of a pull request: the branch under
/// `pull_request.base.ref` and the number under `pull_request.number`.
pub fn get_pull_request_event(content: Option<&str>) -> (r: PullRequestEvent)
    ensures
        r@ == event_of(
            match content {
                Some(c) => Some(c@),
                None => None,
            },
        ),
{
    match content {
        Some(document) => {
            let ref_val = match text_in(look_up(document, "/pull_request/base/ref")) {
                Some(reference) => parse_branch(reference.as_str()),
                None => None,
            };
            let id = number_in(look_up(document, "/pull_request/number"));
            PullRequestEvent { ref_val, id }
        },
        None => PullRequestEvent { ref_val: None, id: None },
    }
}

/// Whether the run was started by the event `name`.
pub open spec fn started_by(env: Map<Seq<char>, Seq<char>>, name: Seq<char>) -> bool {
    var(env, "GITHUB_EVENT_NAME"@) == Some(name)
}

/// The git reference that the branch of the run is read from: the event's base
/// branch; else, for a run on the target of a pull request with a known number,
/// the merge reference of that request; else the variable `GITHUB_REF`.
pub open spec fn reference_of(
    env: Map<Seq<char>, Seq<char>>,
    event: PullRequestEventView,
) -> Option<Seq<char>> {
    if event.ref_val is Some {
        event.ref_val
    } else if started_by(env, "pull_request_target"@) && event.id is Some {
        Some("refs/pull/"@ + event.id->0 + "/merge"@)
    } else {
        var(env, "GITHUB_REF"@)
    }
}

/// What is said of a run under GitHub Actions, given the event and the branch
/// that was read from the run's reference.
pub open spec fn assembled(
    env: Map<Seq<char>, Seq<char>>,
    event: PullRequestEventView,
    branch: Option<Seq<char>>,
) -> CiEnvView {
    let is_pull_request = started_by(env, "pull_request"@) || started_by(
        env,
        "pull_request_target"@,
    );
    CiEnvView {
        name: "GitHub Actions"@,
        service: CiServices::GitHub,
        slug: var(env, "GITHUB_REPOSITORY"@),
        root: var(env, "GITHUB_WORKSPACE"@),
        commit: var(env, "GITHUB_SHA"@),
        tag: None,
        branch,
        pull_request: event.id,
        pull_request_branch: if is_pull_request {
            branch
        } else {
            None
        },
        job: None,
        job_url: None,
        build: var(env, "GITHUB_RUN_ID"@),
        build_url: None,
        is_ci: true,
        is_pull_request,
    }
}

/// What is said of a run under GitHub Actions whose event file has the content
/// `content`.
pub open spec fn described(
    env: Map<Seq<char>, Seq<char>>,
    content: Option<Seq<char>>,
) -> CiEnvView {
    let event = event_of(content);
    assembled(
        env,
        event,
        match reference_of(env, event) {
            Some(reference) => branch_named(reference),
            None => None,
        },
    )
}

fn is_started_by(env: &Environment, name: &str) -> (r: bool)
    ensures
        r == started_by(env@, name@),
{
    match get_env_var(env, "GITHUB_EVENT_NAME") {
        Some(event_name) => same_text(event_name.as_str(), name),
        None => false,
    }
}

/// Chooses the git reference that the branch of the run is read from.
pub fn reference(env: &Environment, event: &PullRequestEvent) -> (r: Option<String>)
    ensures
        text_of(r) == reference_of(env@, event@),
{
    if let Some(base) = &event.ref_val {
        return Some(base.clone());
    }
    if is_started_by(env, "pull_request_target") {
        if let Some(id) = &event.id {
            return Some(String::from_str("refs/pull/").concat(id.as_str()).concat("/merge"));
        }
    }
    get_env_var(env, "GITHUB_REF")
}

/// Describes the run from its variables, the event, and the branch that was
/// read from the run's reference.
pub fn assemble(env: &Environment, event: PullRequestEvent, branch: Option<String>) -> (r: CiEnv)
    ensures
        r@ == assembled(env@, event@, text_of(branch)),
{
    let is_pull_request: bool = is_started_by(env, "pull_request") || is_started_by(
        env,
        "pull_request_target",
    );
    let pull_request_branch: Option<String> = if is_pull_request {
        branch.clone()
    } else {
        None
    };

    CiEnvBuilder::new("GitHub Actions", CiServices::GitHub)
        .slug(get_env_var(env, "GITHUB_REPOSITORY"))
        .root(get_env_var(env, "GITHUB_WORKSPACE"))
        .commit(get_env_var(env, "GITHUB_SHA"))
        .branch(branch)
        .pull_request(event.id)
        .pull_request_branch(pull_request_branch)
        .build(get_env_var(env, "GITHUB_RUN_ID"))
        .is_ci(true)
        .is_pull_request(is_pull_request)
        .get()
}

/// Describes the run from its variables and the content of its event file,
/// where one was read.
pub fn get(env: &Environment, event_content: Option<&str>) -> (r: CiEnv)
    ensures
        r@ == described(
            env@,
            match event_content {
                Some(c) => Some(c@),
                None => None,
            },
        ),
{
    let event = get_pull_request_event(event_content);
    let branch = match reference(env, &event) {
        Some(name) => parse_branch(name.as_str()),
        None => None,
    };
    assemble(env, event, branch)
}

} // verus!
