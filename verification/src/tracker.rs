//! The plain byte tracking middleware: it puts the body of a request under a
//! counter and gives the handle on it to the request.

use crate::metrics::body_tracker::{BodyTracker, BodyTrackerHandle, PollEvent};
use vstd::prelude::*;

verus! {

/// The layer that puts [`BytesRWTrackerService`] around a service.
pub struct BytesRWTrackerLayer;

impl BytesRWTrackerLayer {
    /// Puts the tracking middleware around `inner`.
    pub fn layer<S>(&self, inner: S) -> (service: BytesRWTrackerService<S>)
        ensures
            service.inner() == inner,
    {
        BytesRWTrackerService::new(inner)
    }
}

/// The tracking middleware around the service `S`.
#[derive(Debug, Clone)]
pub struct BytesRWTrackerService<S> {
    inner: S,
}

impl<S> BytesRWTrackerService<S> {
    /// The service that is wrapped.
    pub closed spec fn inner(&self) -> S {
        self.inner
    }

    /// The tracking middleware around `inner`.
    pub fn new(inner: S) -> (service: Self)
        ensures
            service.inner() == inner,
    {
        Self { inner }
    }

    /// The service that is wrapped, to ask whether it is ready and to call
    /// it.
    pub fn inner_mut(&mut self) -> (inner: &mut S)
        ensures
            *inner == old(self).inner(),
            final(self).inner() == *final(inner),
    {
        &mut self.inner
    }

    /// Puts the body of a request under a new counter. The handle is for the
    /// extensions of the request, where the downstream service finds it.
    pub fn track<B>(&self, body: B) -> (pair: (BodyTracker<B>, BodyTrackerHandle))
        ensures
            pair.0.body() == body,
            pair.0.count() == 0,
            pair.0.polled() == Seq::<PollEvent>::empty(),
            pair.1.tracks(&pair.0),
    {
        let tracker = BodyTracker::new(body);
        let handle = tracker.handle();
        (tracker, handle)
    }
}

} // verus!
