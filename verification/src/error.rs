//! The failures that the service reports.

use vstd::prelude::*;
use vstd::string::StringExecFns;

verus! {

/// Why a request could not be answered.
#[derive(Debug, PartialEq, Eq)]
pub enum GrokSearchError {
    /// A setting that the chosen transport needs is absent; holds its name.
    MissingConfig(&'static str),
    /// The request itself is malformed.
    InvalidParams(String),
    /// Nothing is kept under the given name.
    NotFound(String),
    /// A backend refused or failed.
    Provider(String),
    /// A backend did not answer in time.
    Timeout(String),
    /// A backend's answer could not be read.
    Parse(String),
    /// Signing in failed.
    OAuth(String),
}

/// A failure as plain text.
pub enum ErrorView {
    MissingConfig(Seq<char>),
    InvalidParams(Seq<char>),
    NotFound(Seq<char>),
    Provider(Seq<char>),
    Timeout(Seq<char>),
    Parse(Seq<char>),
    OAuth(Seq<char>),
}

impl View for GrokSearchError {
    type V = ErrorView;

    open spec fn view(&self) -> ErrorView {
        match self {
            GrokSearchError::MissingConfig(name) => ErrorView::MissingConfig(name@),
            GrokSearchError::InvalidParams(detail) => ErrorView::InvalidParams(detail@),
            GrokSearchError::NotFound(detail) => ErrorView::NotFound(detail@),
            GrokSearchError::Provider(detail) => ErrorView::Provider(detail@),
            GrokSearchError::Timeout(detail) => ErrorView::Timeout(detail@),
            GrokSearchError::Parse(detail) => ErrorView::Parse(detail@),
            GrokSearchError::OAuth(detail) => ErrorView::OAuth(detail@),
        }
    }
}

/// What went wrong, as one line of text.
pub open spec fn message_of(error: ErrorView) -> Seq<char> {
    match error {
        ErrorView::MissingConfig(name) => "missing config: "@ + name,
        ErrorView::InvalidParams(detail) => "invalid params: "@ + detail,
        ErrorView::NotFound(detail) => "not found: "@ + detail,
        ErrorView::Provider(detail) => "provider error: "@ + detail,
        ErrorView::Timeout(detail) => "timeout: "@ + detail,
        ErrorView::Parse(detail) => "parse error: "@ + detail,
        ErrorView::OAuth(detail) => "oauth error: "@ + detail,
    }
}

/// A reply that holds a text, as plain values.
pub open spec fn text_reply(reply: Result<String, GrokSearchError>) -> Result<
    Seq<char>,
    ErrorView,
> {
    match reply {
        Ok(text) => Ok(text@),
        Err(error) => Err(error@),
    }
}

impl GrokSearchError {
    /// The error as one line of text.
    pub fn message(&self) -> (text: String)
        ensures
            text@ == message_of(self@),
    {
        match self {
            GrokSearchError::MissingConfig(name) => "missing config: ".to_owned().concat(name),
            GrokSearchError::InvalidParams(detail) => {
                "invalid params: ".to_owned().concat(detail.as_str())
            },
            GrokSearchError::NotFound(detail) => "not found: ".to_owned().concat(detail.as_str()),
            GrokSearchError::Provider(detail) => {
                "provider error: ".to_owned().concat(detail.as_str())
            },
            GrokSearchError::Timeout(detail) => "timeout: ".to_owned().concat(detail.as_str()),
            GrokSearchError::Parse(detail) => "parse error: ".to_owned().concat(detail.as_str()),
            GrokSearchError::OAuth(detail) => "oauth error: ".to_owned().concat(detail.as_str()),
        }
    }
}

} // verus!
