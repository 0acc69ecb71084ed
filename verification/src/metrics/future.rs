//! The completion of an instrumented request: what is done once the
//! downstream service has resolved.

use super::body::ResponseBody;
use super::body_tracker::BodyTrackerHandle;
use super::classify::Classification;
use super::{elapsed, now, time_between};
use std::time::{Duration, Instant};
use vstd::prelude::*;

verus! {

/// How far a completion has come.
#[derive(Clone, Copy, Debug, PartialEq, Eq, Structural)]
pub enum CompletionState {
    /// The downstream service has not resolved.
    Waiting,
    /// The downstream service has resolved; its result is being wrapped.
    Finalizing,
    /// The result has been handed on.
    Done,
}

/// What a completion reports when the downstream service resolves.
pub struct Resolution<C> {
    /// The bytes of the request body that had been polled by then.
    pub request_bytes_read: usize,
    /// The byte size of the headers of the request.
    pub request_header_size: usize,
    /// The classifier that was made for the request.
    pub classifier: C,
    /// When the request started.
    pub start: Instant,
    /// The time from the start of the request to the resolution.
    pub elapsed: Duration,
}

/// A response of the downstream service, as the completion takes it.
pub struct ResolvedResponse<B, K, C> {
    /// The body of the response.
    pub body: B,
    /// The verdict of the classifier on the head of the response.
    pub classification: Classification<K, C>,
}

/// The completion of a request that the metrics middleware has forwarded.
pub struct ResponseFuture<F, C> {
    inner: F,
    classifier: Option<C>,
    request_body_tracker_handle: BodyTrackerHandle,
    request_header_size: usize,
    start: Instant,
    finished: bool,
}

impl<F, C> ResponseFuture<F, C> {
    /// The completion of the downstream service.
    pub closed spec fn inner(&self) -> F {
        self.inner
    }

    /// How far this completion has come.
    pub closed spec fn state(&self) -> CompletionState {
        if self.finished {
            CompletionState::Done
        } else if self.classifier is Some {
            CompletionState::Waiting
        } else {
            CompletionState::Finalizing
        }
    }

    /// The classifier, which is held while the downstream service is
    /// waited for.
    pub closed spec fn classifier(&self) -> Option<C> {
        if self.finished {
            None
        } else {
            self.classifier
        }
    }

    /// The handle on the counter of the request body.
    pub closed spec fn handle(&self) -> BodyTrackerHandle {
        self.request_body_tracker_handle
    }

    /// The byte size of the headers of the request.
    pub closed spec fn request_header_size(&self) -> usize {
        self.request_header_size
    }

    /// When the request started.
    pub closed spec fn start(&self) -> Instant {
        self.start
    }

    /// A classifier is held in the state `Waiting`, and only there.
    pub proof fn lemma_classifier_held_while_waiting(self)
        ensures
            self.classifier() is Some <==> self.state() == CompletionState::Waiting,
    {
    }

    /// Wraps the completion of the downstream service, for a request whose
    /// headers had the size `request_header_size` and which started at
    /// `start`.
    pub fn new(
        inner: F,
        classifier: C,
        handle: BodyTrackerHandle,
        request_header_size: usize,
        start: Instant,
    ) -> (future: Self)
        ensures
            future.inner() == inner,
            future.state() == CompletionState::Waiting,
            future.classifier() == Some(classifier),
            future.handle() == handle,
            future.request_header_size() == request_header_size,
            future.start() == start,
    {
        Self {
            inner,
            classifier: Some(classifier),
            request_body_tracker_handle: handle,
            request_header_size,
            start,
            finished: false,
        }
    }

    /// The completion of the downstream service, to poll it.
    pub fn inner_mut(&mut self) -> (inner: &mut F)
        ensures
            *inner == old(self).inner(),
            final(self).inner() == *final(inner),
            final(self).state() == old(self).state(),
            final(self).classifier() == old(self).classifier(),
            final(self).handle() == old(self).handle(),
            final(self).request_header_size() == old(self).request_header_size(),
            final(self).start() == old(self).start(),
    {
        &mut self.inner
    }

    /// Whether the downstream service is still waited for.
    pub fn is_waiting(&self) -> (waiting: bool)
        ensures
            waiting == (self.state() == CompletionState::Waiting),
    {
        !self.finished && self.classifier.is_some()
    }

    /// The downstream service has resolved at `now`, when the handle on the
    /// request body read `request_bytes_read`: reports that count, the
    /// header size of the request, its start and the time since, and hands
    /// out the classifier.
    pub fn begin_finalizing_at(&mut self, request_bytes_read: usize, now: Instant) -> (resolution:
        Resolution<C>)
        requires
            old(self).state() == CompletionState::Waiting,
        ensures
            resolution.request_bytes_read == request_bytes_read,
            resolution.request_header_size == old(self).request_header_size(),
            old(self).classifier() == Some(resolution.classifier),
            resolution.start == old(self).start(),
            resolution.elapsed == time_between(old(self).start(), now),
            final(self).state() == CompletionState::Finalizing,
            final(self).inner() == old(self).inner(),
            final(self).handle() == old(self).handle(),
            final(self).request_header_size() == old(self).request_header_size(),
            final(self).start() == old(self).start(),
    {
        let classifier = self.classifier.take().unwrap();
        Resolution {
            request_bytes_read,
            request_header_size: self.request_header_size,
            classifier,
            start: self.start,
            elapsed: elapsed(self.start, now),
        }
    }

    /// The downstream service has resolved: reads the counter of the request
    /// body and the clock, and reports as `begin_finalizing_at` does.
    pub fn begin_finalizing(&mut self) -> (resolution: Resolution<C>)
        requires
            old(self).state() == CompletionState::Waiting,
        ensures
            resolution.request_header_size == old(self).request_header_size(),
            old(self).classifier() == Some(resolution.classifier),
            resolution.start == old(self).start(),
            final(self).state() == CompletionState::Finalizing,
            final(self).inner() == old(self).inner(),
            final(self).handle() == old(self).handle(),
            final(self).request_header_size() == old(self).request_header_size(),
            final(self).start() == old(self).start(),
    {
        let request_bytes_read = self.request_body_tracker_handle.read();
        let at = now();
        self.begin_finalizing_at(request_bytes_read, at)
    }

    /// Hands on what the downstream service resolved to, and is then done.
    /// An error is handed on as it is, and no body is made. The body of a
    /// response is wrapped, with the start of the request as its last
    /// activity and with the verdict, or the classifier state, of its
    /// classification.
    pub fn finish<B, K, E, Failure>(
        &mut self,
        downstream: Result<ResolvedResponse<B, K, E>, Failure>,
    ) -> (emitted: Result<ResponseBody<B, E, K>, Failure>)
        ensures
            match downstream {
                Ok(response) => emitted matches Ok(body) && body.wraps(
                    response.body,
                    response.classification,
                    old(self).start(),
                ),
                Err(error) => emitted == Err::<ResponseBody<B, E, K>, Failure>(error),
            },
            final(self).state() == CompletionState::Done,
            final(self).inner() == old(self).inner(),
            final(self).handle() == old(self).handle(),
            final(self).request_header_size() == old(self).request_header_size(),
            final(self).start() == old(self).start(),
    {
        self.classifier = None;
        self.finished = true;
        match downstream {
            Ok(response) => Ok(ResponseBody::new(response.body, response.classification, self.start)),
            Err(error) => Err(error),
        }
    }
}

} // verus!
