//! Building a `CiEnv` field by field.

use crate::env_ci::{CiEnv, CiEnvView, CiServices};
use crate::text::text_of;
use vstd::prelude::*;

verus! {

/// A `CiEnv` under construction.
pub struct CiEnvBuilder {
    inner: CiEnv,
}

impl View for CiEnvBuilder {
    type V = CiEnvView;

    closed spec fn view(&self) -> CiEnvView {
        self.inner@
    }
}

impl CiEnvBuilder {
    /// Starts from the service's name and kind, with nothing else known.
    pub fn new(name: &str, service: CiServices) -> (r: Self)
        ensures
            r@ == (CiEnvView {
                name: name@,
                service,
                slug: None,
                root: None,
                commit: None,
                tag: None,
                branch: None,
                pull_request: None,
                pull_request_branch: None,
                job: None,
                job_url: None,
                build: None,
                build_url: None,
                is_ci: false,
                is_pull_request: false,
            }),
    {
        Self {
            inner: CiEnv {
                name: name.to_owned(),
                service,
                slug: None,
                root: None,
                commit: None,
                tag: None,
                branch: None,
                pull_request: None,
                pull_request_branch: None,
                job: None,
                job_url: None,
                build: None,
                build_url: None,
                is_ci: false,
                is_pull_request: false,
            },
        }
    }

    /// Sets the repository, as `owner/name`.
    pub fn slug(self, slug: Option<String>) -> (r: Self)
        ensures
            r@ == (CiEnvView { slug: text_of(slug), ..self@ }),
    {
        let mut builder = self;
        builder.inner.slug = slug;
        builder
    }

    /// Sets the directory of the checkout.
    pub fn root(self, root: Option<String>) -> (r: Self)
        ensures
            r@ == (CiEnvView { root: text_of(root), ..self@ }),
    {
        let mut builder = self;
        builder.inner.root = root;
        builder
    }

    /// Sets the commit that is built.
    pub fn commit(self, commit: Option<String>) -> (r: Self)
        ensures
            r@ == (CiEnvView { commit: text_of(commit), ..self@ }),
    {
        let mut builder = self;
        builder.inner.commit = commit;
        builder
    }

    /// Sets the tag that is built.
    pub fn tag(self, tag: Option<String>) -> (r: Self)
        ensures
            r@ == (CiEnvView { tag: text_of(tag), ..self@ }),
    {
        let mut builder = self;
        builder.inner.tag = tag;
        builder
    }

    /// Sets the branch that is built, or that a pull request is to be merged into.
    pub fn branch(self, branch: Option<String>) -> (r: Self)
        ensures
            r@ == (CiEnvView { branch: text_of(branch), ..self@ }),
    {
        let mut builder = self;
        builder.inner.branch = branch;
        builder
    }

    /// Sets the number of the pull request.
    pub fn pull_request(self, pull_request: Option<String>) -> (r: Self)
        ensures
            r@ == (CiEnvView { pull_request: text_of(pull_request), ..self@ }),
    {
        let mut builder = self;
        builder.inner.pull_request = pull_request;
        builder
    }

    /// Sets the branch that the pull request comes from.
    pub fn pull_request_branch(self, pull_request_branch: Option<String>) -> (r: Self)
        ensures
            r@ == (CiEnvView { pull_request_branch: text_of(pull_request_branch), ..self@ }),
    {
        let mut builder = self;
        builder.inner.pull_request_branch = pull_request_branch;
        builder
    }

    /// Sets the number of the job.
    pub fn job(self, job: Option<String>) -> (r: Self)
        ensures
            r@ == (CiEnvView { job: text_of(job), ..self@ }),
    {
        let mut builder = self;
        builder.inner.job = job;
        builder
    }

    /// Sets the address of the job.
    pub fn job_url(self, job_url: Option<String>) -> (r: Self)
        ensures
            r@ == (CiEnvView { job_url: text_of(job_url), ..self@ }),
    {
        let mut builder = self;
        builder.inner.job_url = job_url;
        builder
    }

    /// Sets the number of the build.
    pub fn build(self, build: Option<String>) -> (r: Self)
        ensures
            r@ == (CiEnvView { build: text_of(build), ..self@ }),
    {
        let mut builder = self;
        builder.inner.build = build;
        builder
    }

    /// Sets the address of the build.
    pub fn build_url(self, build_url: Option<String>) -> (r: Self)
        ensures
            r@ == (CiEnvView { build_url: text_of(build_url), ..self@ }),
    {
        let mut builder = self;
        builder.inner.build_url = build_url;
        builder
    }

    /// Says whether the build runs under a service at all.
    pub fn is_ci(self, is_ci: bool) -> (r: Self)
        ensures
            r@ == (CiEnvView { is_ci, ..self@ }),
    {
        let mut builder = self;
        builder.inner.is_ci = is_ci;
        builder
    }

    /// Says whether the build is that of a pull request.
    pub fn is_pull_request(self, is_pull_request: bool) -> (r: Self)
        ensures
            r@ == (CiEnvView { is_pull_request, ..self@ }),
    {
        let mut builder = self;
        builder.inner.is_pull_request = is_pull_request;
        builder
    }

    /// The finished description.
    pub fn get(self) -> (r: CiEnv)
        ensures
            r@ == self@,
    {
        self.inner
    }
}

} // verus!
