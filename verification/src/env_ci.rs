//! Describing the continuous-integration service that a build runs under, from
//! the variables of its environment.

pub mod builder;
pub mod environment;
pub mod services;
pub mod util;

use crate::env_ci::environment::Environment;
use crate::text::text_of;
use vstd::prelude::*;

verus! {

/// The services that are told apart.
#[derive(Debug, Clone, Copy, PartialEq, Eq, Structural)]
pub enum CiServices {
    Git,
    GitHub,
    GitLab,
}

/// What is known of the build at hand.
#[derive(Debug)]
pub struct CiEnv {
    pub name: String,
    pub service: CiServices,
    pub slug: Option<String>,
    pub root: Option<String>,
    pub commit: Option<String>,
    pub tag: Option<String>,
    pub branch: Option<String>,
    pub pull_request: Option<String>,
    pub pull_request_branch: Option<String>,
    pub job: Option<String>,
    pub job_url: Option<String>,
    pub build: Option<String>,
    pub build_url: Option<String>,
    pub is_ci: bool,
    pub is_pull_request: bool,
}

/// A `CiEnv` with its texts as character sequences.
pub struct CiEnvView {
    pub name: Seq<char>,
    pub service: CiServices,
    pub slug: Option<Seq<char>>,
    pub root: Option<Seq<char>>,
    pub commit: Option<Seq<char>>,
    pub tag: Option<Seq<char>>,
    pub branch: Option<Seq<char>>,
    pub pull_request: Option<Seq<char>>,
    pub pull_request_branch: Option<Seq<char>>,
    pub job: Option<Seq<char>>,
    pub job_url: Option<Seq<char>>,
    pub build: Option<Seq<char>>,
    pub build_url: Option<Seq<char>>,
    pub is_ci: bool,
    pub is_pull_request: bool,
}

impl View for CiEnv {
    type V = CiEnvView;

    open spec fn view(&self) -> CiEnvView {
        CiEnvView {
            name: self.name@,
            service: self.service,
            slug: text_of(self.slug),
            root: text_of(self.root),
            commit: text_of(self.commit),
            tag: text_of(self.tag),
            branch: text_of(self.branch),
            pull_request: text_of(self.pull_request),
            pull_request_branch: text_of(self.pull_request_branch),
            job: text_of(self.job),
            job_url: text_of(self.job_url),
            build: text_of(self.build),
            build_url: text_of(self.build_url),
            is_ci: self.is_ci,
            is_pull_request: self.is_pull_request,
        }
    }
}

/// The service that the variables `env` point to: GitHub where it is
/// detected, else GitLab where that is, else plain git.
pub open spec fn detected(env: Map<Seq<char>, Seq<char>>) -> CiServices {
    if services::github::detected(env) {
        CiServices::GitHub
    } else if services::gitlab::detected(env) {
        CiServices::GitLab
    } else {
        CiServices::Git
    }
}

/// Tells which service the build runs under.
pub fn detect(env: &Environment) -> (service: CiServices)
    ensures
        service == detected(env@),
{
    if services::github::detect(env) {
        return CiServices::GitHub;
    }
    if services::gitlab::detect(env) {
        return CiServices::GitLab;
    }
    CiServices::Git
}

} // verus!
