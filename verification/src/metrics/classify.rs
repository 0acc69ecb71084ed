//! Classifying a response, or a downstream error, as success or failure.

use http::Response;
use tower_http::classify::{
    ClassifiedResponse, ClassifyResponse, NeverClassifyEos, ServerErrorsAsFailures,
    ServerErrorsFailureClass,
};
use vstd::prelude::*;

verus! {

#[verifier::external_type_specification]
#[verifier::external_body]
#[verifier::reject_recursive_types(T)]
pub struct ExNeverClassifyEos<T>(NeverClassifyEos<T>);

#[verifier::external_type_specification]
#[verifier::external_body]
pub struct ExServerErrorsFailureClass(ServerErrorsFailureClass);

/// The verdict on a response: `K` describes a failure, `C` is the classifier
/// state that is kept until the response stream has ended.
#[derive(Debug)]
pub enum Classification<K, C> {
    /// The response succeeded.
    Success,
    /// The response failed, and how.
    Failure(K),
    /// Only the end of the response stream can tell.
    PendingUntilStreamEnd(C),
}

impl<K, C> Classification<K, C> {
    /// Whether the verdict is in, with nothing left to wait for.
    pub open spec fn is_resolved(self) -> bool {
        !(self is PendingUntilStreamEnd)
    }
}

/// How a response failed under the default policy.
#[derive(Clone, Debug, PartialEq, Eq)]
pub enum FailureClass {
    /// The response carried this server error status.
    StatusCode(u16),
    /// The downstream service returned an error with this description.
    Error(String),
}

impl FailureClass {
    /// The description of the downstream error, where the failure is one.
    pub open spec fn error_text(self) -> Option<Seq<char>> {
        match self {
            FailureClass::Error(text) => Some(text@),
            FailureClass::StatusCode(_) => None,
        }
    }
}

/// The classifier state of the default policy, which never waits for the end
/// of a stream: the type has no values.
pub type NeverPending = NeverClassifyEos<ServerErrorsFailureClass>;

/// The verdict of the default policy on a status: any server error status
/// (500 to 599) is a failure, every other status a success.
pub open spec fn default_verdict(status: u16) -> Classification<FailureClass, NeverPending> {
    if 500 <= status < 600 {
        Classification::Failure(FailureClass::StatusCode(status))
    } else {
        Classification::Success
    }
}

/// `ServerErrorsAsFailures::classify_response` on a response with the given
/// status: a status from 500 to 599 is a failure that carries the status,
/// any other a success, and the end of the stream is never waited for.
/// `Response::builder` takes a status from 100 to 999 only.
#[verifier::external_body]
fn server_errors_as_failures(status: u16) -> (verdict: Classification<FailureClass, NeverPending>)
    requires
        100 <= status < 1000,
    ensures
        verdict == default_verdict(status),
{
    let response = Response::builder().status(status).body(()).unwrap();
    match ServerErrorsAsFailures::new().classify_response(&response) {
        ClassifiedResponse::Ready(Ok(())) => Classification::Success,
        ClassifiedResponse::Ready(Err(ServerErrorsFailureClass::StatusCode(code))) => {
            Classification::Failure(FailureClass::StatusCode(code.as_u16()))
        },
        ClassifiedResponse::Ready(Err(ServerErrorsFailureClass::Error(text))) => {
            Classification::Failure(FailureClass::Error(text))
        },
        ClassifiedResponse::RequiresEos(state) => Classification::PendingUntilStreamEnd(state),
    }
}

/// `ServerErrorsAsFailures::classify_error`: the failure carries the
/// description of the error, letter for letter.
#[verifier::external_body]
fn error_as_failure(description: &str) -> (class: FailureClass)
    ensures
        class.error_text() == Some(description@),
{
    match ServerErrorsAsFailures::new().classify_error(&description.to_string()) {
        ServerErrorsFailureClass::StatusCode(code) => FailureClass::StatusCode(code.as_u16()),
        ServerErrorsFailureClass::Error(text) => FailureClass::Error(text),
    }
}

/// Classifies a response by its status under the default policy, as soon as
/// the status is known. A number that no HTTP status can be (below 100, or
/// above 999) is no server error.
pub fn classify_status(status: u16) -> (verdict: Classification<FailureClass, NeverPending>)
    ensures
        verdict == default_verdict(status),
        verdict.is_resolved(),
{
    if 100 <= status && status < 1000 {
        server_errors_as_failures(status)
    } else {
        Classification::Success
    }
}

/// Classifies an error of the downstream service under the default policy:
/// always a failure, which describes the error.
pub fn classify_error(description: &str) -> (verdict: Classification<FailureClass, NeverPending>)
    ensures
        verdict matches Classification::Failure(class) && class.error_text() == Some(
            description@,
        ),
{
    Classification::Failure(error_as_failure(description))
}

} // verus!
