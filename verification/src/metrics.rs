//! The metrics middleware: what it does to a request before it forwards it.

use self::body_tracker::{BodyTracker, BodyTrackerHandle};
use self::headers::{header_lengths, header_size, saturated, total_length};
use http::header::{HeaderMap, HeaderValue};
use std::time::{Duration, Instant};
use tower_http::classify::{ServerErrorsAsFailures, SharedClassifier};
use vstd::prelude::*;

pub mod body;
pub mod body_tracker;
pub mod classify;
pub mod future;
pub mod headers;

verus! {

#[verifier::external_type_specification]
#[verifier::external_body]
pub struct ExInstant(Instant);

#[verifier::external_type_specification]
#[verifier::external_body]
#[verifier::reject_recursive_types(C)]
pub struct ExSharedClassifier<C>(SharedClassifier<C>);

#[verifier::external_type_specification]
#[verifier::external_body]
pub struct ExServerErrorsAsFailures(ServerErrorsAsFailures);

/// `Instant::now`: the time at which it is called, of which nothing is known
/// beforehand.
#[verifier::external_body]
pub(crate) fn now() -> Instant {
    Instant::now()
}

/// The time that passes from `start` to `end`; none where `end` is the
/// earlier of the two.
pub uninterp spec fn time_between(start: Instant, end: Instant) -> Duration;

/// `Instant::saturating_duration_since`: the time elapsed from `start` to
/// `end`, or a duration of zero where `end` is earlier than `start`.
#[verifier::external_body]
pub(crate) fn elapsed(start: Instant, end: Instant) -> (time: Duration)
    ensures
        time == time_between(start, end),
{
    end.saturating_duration_since(start)
}

/// `SharedClassifier::new` on `ServerErrorsAsFailures::default`: makes, for
/// every request, the classifier of the default policy.
#[verifier::external_body]
fn server_errors_classifier() -> SharedClassifier<ServerErrorsAsFailures> {
    SharedClassifier::new(ServerErrorsAsFailures::default())
}

/// The layer that puts [`Metrics`] around a service.
pub struct MetricsLayer;

impl MetricsLayer {
    /// Puts the metrics middleware, with the default policy, around `inner`.
    pub fn layer<S>(&self, inner: S) -> (service: Metrics<
        S,
        SharedClassifier<ServerErrorsAsFailures>,
    >)
        ensures
            service.inner() == inner,
    {
        Metrics::new(inner)
    }
}

/// The metrics middleware around the service `S`, with `M` to make a
/// classifier for each request.
#[derive(Debug, Clone)]
pub struct Metrics<S, M> {
    pub(crate) inner: S,
    pub(crate) make_classifier: M,
}

/// A request as the middleware forwards it, and what it keeps of it.
pub struct PreparedRequest<B> {
    /// The byte size of the headers of the request.
    pub header_size: usize,
    /// When the request arrived.
    pub start: Instant,
    /// The body of the request, with its counter.
    pub tracker: BodyTracker<B>,
    /// The handle on that counter, which stays with the middleware.
    pub handle: BodyTrackerHandle,
}

impl<S> Metrics<S, SharedClassifier<ServerErrorsAsFailures>> {
    /// The metrics middleware around `inner`, with the default policy:
    /// server errors are failures.
    pub fn new(inner: S) -> (service: Self)
        ensures
            service.inner() == inner,
    {
        Self { inner, make_classifier: server_errors_classifier() }
    }
}

impl<S, M> Metrics<S, M> {
    /// The service that is wrapped.
    pub closed spec fn inner(&self) -> S {
        self.inner
    }

    /// What makes the classifier of a request.
    pub closed spec fn classifier_maker(&self) -> M {
        self.make_classifier
    }

    /// The service that is wrapped, to ask whether it is ready and to call
    /// it.
    pub fn inner_mut(&mut self) -> (inner: &mut S)
        ensures
            *inner == old(self).inner(),
            final(self).inner() == *final(inner),
            final(self).classifier_maker() == old(self).classifier_maker(),
    {
        &mut self.inner
    }

    /// What makes the classifier of a request.
    pub fn make_classifier(&self) -> (maker: &M)
        ensures
            *maker == self.classifier_maker(),
    {
        &self.make_classifier
    }

    /// Prepares a request that arrived at `start` for forwarding: measures
    /// its headers and puts its body under a new counter, of which the
    /// handle is kept.
    pub fn track_request_at<B>(
        &self,
        headers: &HeaderMap<HeaderValue>,
        body: B,
        start: Instant,
    ) -> (request: PreparedRequest<B>)
        ensures
            request.header_size == saturated(total_length(header_lengths(*headers))),
            request.start == start,
            request.tracker.body() == body,
            request.tracker.count() == 0,
            request.tracker.polled() == Seq::<body_tracker::PollEvent>::empty(),
            request.handle.tracks(&request.tracker),
    {
        let header_size = header_size(headers);
        let tracker = BodyTracker::new(body);
        let handle = tracker.handle();
        PreparedRequest { header_size, start, tracker, handle }
    }

    /// Prepares a request for forwarding, with the present time as its
    /// start.
    pub fn track_request<B>(&self, headers: &HeaderMap<HeaderValue>, body: B) -> (request:
        PreparedRequest<B>)
        ensures
            request.header_size == saturated(total_length(header_lengths(*headers))),
            request.tracker.body() == body,
            request.tracker.count() == 0,
            request.tracker.polled() == Seq::<body_tracker::PollEvent>::empty(),
            request.handle.tracks(&request.tracker),
    {
        let start = now();
        self.track_request_at(headers, body, start)
    }
}

} // verus!
