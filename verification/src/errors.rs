//! The failures that a step run can end in.

use crate::text::{append_code_list, append_signed, code_list, signed_decimal};
use vstd::prelude::*;
use vstd::string::*;

verus! {

/// `std::io::Error`, which converts into [`StepError::Unsuccessful`].
#[verifier::external_type_specification]
#[verifier::external_body]
pub struct ExIoError(std::io::Error);

/// Why a step run, or a look at its outcome, failed.
#[derive(Debug)]
pub enum StepError {
    /// The step failed for a reason that is not told apart any further.
    Unsuccessful,
    /// No step is registered under this name.
    StepNotFound(String),
    /// The response carried this status code, which the policy in effect does not
    /// accept; the second field holds the codes that were asked for.
    StatusCodeNotFound(i32, Vec<u16>),
    /// The descriptor could not be turned into a request, or no client could be built.
    RequestBuildError,
    /// Sending the request or reading the response failed; the field says how.
    TransportError(String),
    /// The transport gave up waiting.
    TimeoutError,
    /// No response body has been captured yet.
    NoBodyError,
    /// The captured body is not the structured data that was asked for.
    DecodeError(String),
}

/// A [`StepError`] with its texts and codes as sequences.
pub enum StepErrorView {
    Unsuccessful,
    StepNotFound(Seq<char>),
    StatusCodeNotFound(int, Seq<u16>),
    RequestBuildError,
    TransportError(Seq<char>),
    TimeoutError,
    NoBodyError,
    DecodeError(Seq<char>),
}

impl View for StepError {
    type V = StepErrorView;

    open spec fn view(&self) -> StepErrorView {
        match self {
            StepError::Unsuccessful => StepErrorView::Unsuccessful,
            StepError::StepNotFound(name) => StepErrorView::StepNotFound(name@),
            StepError::StatusCodeNotFound(code, expected) => StepErrorView::StatusCodeNotFound(
                *code as int,
                expected@,
            ),
            StepError::RequestBuildError => StepErrorView::RequestBuildError,
            StepError::TransportError(detail) => StepErrorView::TransportError(detail@),
            StepError::TimeoutError => StepErrorView::TimeoutError,
            StepError::NoBodyError => StepErrorView::NoBodyError,
            StepError::DecodeError(detail) => StepErrorView::DecodeError(detail@),
        }
    }
}

/// The text that describes an error to a reader.
pub open spec fn message_text(e: StepErrorView) -> Seq<char> {
    match e {
        StepErrorView::Unsuccessful => "Step was unsuccessful"@,
        StepErrorView::StepNotFound(name) => "Step not found: "@ + name,
        StepErrorView::StatusCodeNotFound(code, expected) => "Unexpected status code "@
            + signed_decimal(code) + ". Expected one of: "@ + code_list(expected),
        StepErrorView::RequestBuildError => "Unable to build request"@,
        StepErrorView::TransportError(detail) => detail,
        StepErrorView::TimeoutError => "Request timed out"@,
        StepErrorView::NoBodyError => "No body has been set from the request."@,
        StepErrorView::DecodeError(detail) => detail,
    }
}

impl StepError {
    /// The text that describes this error to a reader.
    pub fn message(&self) -> (text: String)
        ensures
            text@ == message_text(self@),
    {
        match self {
            StepError::Unsuccessful => String::from_str("Step was unsuccessful"),
            StepError::StepNotFound(name) => {
                let mut text = String::from_str("Step not found: ");
                text.append(name.as_str());
                text
            },
            StepError::StatusCodeNotFound(code, expected) => {
                let mut text = String::from_str("Unexpected status code ");
                append_signed(&mut text, *code);
                text.append(". Expected one of: ");
                append_code_list(&mut text, expected);
                text
            },
            StepError::RequestBuildError => String::from_str("Unable to build request"),
            StepError::TransportError(detail) => detail.clone(),
            StepError::TimeoutError => String::from_str("Request timed out"),
            StepError::NoBodyError => String::from_str("No body has been set from the request."),
            StepError::DecodeError(detail) => detail.clone(),
        }
    }
}

impl Clone for StepError {
    fn clone(&self) -> (copy: Self)
        ensures
            copy@ == self@,
    {
        match self {
            StepError::Unsuccessful => StepError::Unsuccessful,
            StepError::StepNotFound(name) => StepError::StepNotFound(name.clone()),
            StepError::StatusCodeNotFound(code, expected) => StepError::StatusCodeNotFound(
                *code,
                expected.clone(),
            ),
            StepError::RequestBuildError => StepError::RequestBuildError,
            StepError::TransportError(detail) => StepError::TransportError(detail.clone()),
            StepError::TimeoutError => StepError::TimeoutError,
            StepError::NoBodyError => StepError::NoBodyError,
            StepError::DecodeError(detail) => StepError::DecodeError(detail.clone()),
        }
    }
}

impl From<std::io::Error> for StepError {
    fn from(e: std::io::Error) -> (r: Self) {
        StepError::Unsuccessful
    }
}

impl vstd::std_specs::convert::FromSpecImpl<std::io::Error> for StepError {
    open spec fn obeys_from_spec() -> bool {
        true
    }

    open spec fn from_spec(e: std::io::Error) -> Self {
        StepError::Unsuccessful
    }
}

} // verus!
