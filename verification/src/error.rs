//! The error that the release tool reports.

use vstd::prelude::*;
use vstd::string::StringExecFns;

verus! {

/// `std::io::Error`, carried along as it is: nothing is known of what it holds.
#[verifier::external_type_specification]
#[verifier::external_body]
pub struct ExIoError(std::io::Error);

/// What went wrong, where, and the input/output error behind it, if any.
pub struct FastReleaseError {
    pub message: String,
    pub category: Option<String>,
    pub error: Option<std::io::Error>,
}

/// A `FastReleaseError` with its texts as character sequences.
pub struct FastReleaseErrorView {
    pub message: Seq<char>,
    pub category: Option<Seq<char>>,
    pub error: Option<std::io::Error>,
}

impl View for FastReleaseError {
    type V = FastReleaseErrorView;

    open spec fn view(&self) -> FastReleaseErrorView {
        FastReleaseErrorView {
            message: self.message@,
            category: match self.category {
                Some(c) => Some(c@),
                None => None,
            },
            error: self.error,
        }
    }
}

/// The text shown for an error: its message, and on a line of its own the
/// description of the error behind it, where there is one.
pub open spec fn rendered(message: Seq<char>, detail: Option<Seq<char>>) -> Seq<char> {
    match detail {
        Some(d) => message + "\n"@ + d,
        None => message,
    }
}

/// Puts a message and the description of the error behind it together.
pub fn render(message: &str, detail: Option<&str>) -> (r: String)
    ensures
        r@ == rendered(
            message@,
            match detail {
                Some(d) => Some(d@),
                None => None,
            },
        ),
{
    match detail {
        Some(d) => message.to_owned().concat("\n").concat(d),
        None => message.to_owned(),
    }
}

/// Formats `error` as `std::fmt::Display` does for `std::io::Error`. The text
/// comes from the operating system, so nothing is claimed of it.
#[verifier::external_body]
fn describe(error: &std::io::Error) -> (r: String) {
    format!("{}", error)
}

impl FastReleaseError {
    /// The text shown for this error.
    pub fn to_text(&self) -> (r: String)
        ensures
            self.error is None ==> r@ == self.message@,
            self.error is Some ==> exists|detail: Seq<char>|
                r@ == rendered(self.message@, Some(detail)),
    {
        match &self.error {
            Some(e) => {
                let detail = describe(e);
                render(self.message.as_str(), Some(detail.as_str()))
            },
            None => render(self.message.as_str(), None),
        }
    }
}

/// A `FastReleaseError` under construction.
pub struct FastReleaseErrorBuilder {
    inner: FastReleaseError,
}

impl View for FastReleaseErrorBuilder {
    type V = FastReleaseErrorView;

    closed spec fn view(&self) -> FastReleaseErrorView {
        self.inner@
    }
}

impl FastReleaseErrorBuilder {
    /// Starts from the message, without category or error behind it.
    pub fn new(message: &str) -> (r: Self)
        ensures
            r@ == (FastReleaseErrorView { message: message@, category: None, error: None }),
    {
        Self { inner: FastReleaseError { message: message.to_owned(), category: None, error: None } }
    }

    /// Names the part of the tool that the error comes from.
    pub fn category(self, category: &str) -> (r: Self)
        ensures
            r@ == (FastReleaseErrorView { category: Some(category@), ..self@ }),
    {
        let mut builder = self;
        builder.inner.category = Some(category.to_owned());
        builder
    }

    /// Attaches the input/output error behind the failure.
    pub fn error(self, error: std::io::Error) -> (r: Self)
        ensures
            r@ == (FastReleaseErrorView { error: Some(error), ..self@ }),
    {
        let mut builder = self;
        builder.inner.error = Some(error);
        builder
    }

    /// The finished error.
    pub fn get(self) -> (r: FastReleaseError)
        ensures
            r@ == self@,
    {
        self.inner
    }
}

} // verus!
