//! The body of an instrumented response: when it was last active, whether it
//! has ended, and the verdict on the response once that is known.

use super::body_tracker::PollEvent;
use super::classify::Classification;
use super::now;
use std::time::Instant;
use vstd::prelude::*;

verus! {

/// Where the classification of a response stands.
enum EndOfStream<C, K> {
    /// The classifier state waits for the end of the stream.
    Pending(C),
    /// The classifier state was handed out; its verdict has not come back.
    Finalizing,
    /// The verdict is in.
    Known(Result<(), K>),
}

/// Response body of the metrics middleware.
///
/// `C` is the classifier state that waits for the end of the stream, `K`
/// describes a failure.
pub struct ResponseBody<B, C, K> {
    inner: B,
    classify_eos: EndOfStream<C, K>,
    start: Instant,
    ended: bool,
}

impl<B, C, K> ResponseBody<B, C, K> {
    /// The stream that is wrapped.
    pub closed spec fn inner(&self) -> B {
        self.inner
    }

    /// The classifier state that still waits for the end of the stream.
    pub closed spec fn pending(&self) -> Option<C> {
        match self.classify_eos {
            EndOfStream::Pending(state) => Some(state),
            _ => None,
        }
    }

    /// The final verdict on the response, once there is one.
    pub closed spec fn verdict(&self) -> Option<Result<(), K>> {
        match self.classify_eos {
            EndOfStream::Known(verdict) => Some(verdict),
            _ => None,
        }
    }

    /// The time of the last activity: the start of the request, until a
    /// chunk has been produced.
    pub closed spec fn start(&self) -> Instant {
        self.start
    }

    /// Whether the stream has signalled its end.
    pub closed spec fn ended(&self) -> bool {
        self.ended
    }

    /// While a classifier state waits, no verdict is known.
    pub proof fn lemma_pending_excludes_verdict(self)
        ensures
            self.pending() is Some ==> self.verdict() is None,
    {
    }

    /// Whether this is the body that wraps `inner`, untouched since: nothing
    /// polled, last active at `start`, with the verdict of `classification`
    /// where that is resolved and its classifier state where it is not.
    pub open spec fn wraps(&self, inner: B, classification: Classification<K, C>, start: Instant) -> bool {
        &&& self.inner() == inner
        &&& self.start() == start
        &&& !self.ended()
        &&& self.pending() == match classification {
            Classification::PendingUntilStreamEnd(state) => Some(state),
            _ => None,
        }
        &&& self.verdict() == match classification {
            Classification::Success => Some(Ok::<(), K>(())),
            Classification::Failure(class) => Some(Err::<(), K>(class)),
            Classification::PendingUntilStreamEnd(_) => None,
        }
    }

    /// Wraps the stream of a response that was classified as `classification`
    /// when its head arrived.
    pub fn new(inner: B, classification: Classification<K, C>, start: Instant) -> (body: Self)
        ensures
            body.wraps(inner, classification, start),
    {
        let classify_eos = match classification {
            Classification::Success => EndOfStream::Known(Ok(())),
            Classification::Failure(class) => EndOfStream::Known(Err(class)),
            Classification::PendingUntilStreamEnd(state) => EndOfStream::Pending(state),
        };
        Self { inner, classify_eos, start, ended: false }
    }

    /// The wrapped stream, to poll it.
    pub fn inner_mut(&mut self) -> (inner: &mut B)
        ensures
            *inner == old(self).inner(),
            final(self).inner() == *final(inner),
            final(self).pending() == old(self).pending(),
            final(self).verdict() == old(self).verdict(),
            final(self).start() == old(self).start(),
            final(self).ended() == old(self).ended(),
    {
        &mut self.inner
    }

    /// The wrapped stream, to ask it for its end and its size.
    pub fn inner_ref(&self) -> (inner: &B)
        ensures
            *inner == self.inner(),
    {
        &self.inner
    }

    /// Whether the stream has signalled its end: it is then not polled again.
    pub fn has_ended(&self) -> (ended: bool)
        ensures
            ended == self.ended(),
    {
        self.ended
    }

    /// The time of the last activity.
    pub fn last_activity(&self) -> (start: Instant)
        ensures
            start == self.start(),
    {
        self.start
    }

    /// The final verdict on the response, once there is one. The same
    /// verdict is given however often this is asked.
    pub fn classification(&self) -> (verdict: Option<&Result<(), K>>)
        ensures
            match verdict {
                Some(known) => self.verdict() == Some(*known),
                None => self.verdict() is None,
            },
    {
        match &self.classify_eos {
            EndOfStream::Known(verdict) => Some(verdict),
            _ => None,
        }
    }

    /// Takes note of one poll of the stream, made at `now`: a chunk makes
    /// `now` the time of the last activity; the end of the stream is
    /// remembered, and the classifier state that waited for it is handed
    /// out, to be asked for its verdict. Nothing else changes.
    pub fn on_data_at(&mut self, event: PollEvent, now: Instant) -> (due: Option<C>)
        ensures
            due == if event is End {
                old(self).pending()
            } else {
                None
            },
            final(self).pending() == if event is End {
                None
            } else {
                old(self).pending()
            },
            final(self).start() == if event is Chunk {
                now
            } else {
                old(self).start()
            },
            final(self).ended() == (old(self).ended() || event is End),
            final(self).verdict() == old(self).verdict(),
            final(self).inner() == old(self).inner(),
    {
        match event {
            PollEvent::Chunk(_) => {
                self.start = now;
                None
            },
            PollEvent::End => {
                self.ended = true;
                self.take_pending()
            },
            _ => None,
        }
    }

    /// Takes note of one poll of the stream, reading the clock where a chunk
    /// was produced.
    pub fn on_data(&mut self, event: PollEvent) -> (due: Option<C>)
        ensures
            due == if event is End {
                old(self).pending()
            } else {
                None
            },
            final(self).pending() == if event is End {
                None
            } else {
                old(self).pending()
            },
            !(event is Chunk) ==> final(self).start() == old(self).start(),
            final(self).ended() == (old(self).ended() || event is End),
            final(self).verdict() == old(self).verdict(),
            final(self).inner() == old(self).inner(),
    {
        let at = match event {
            PollEvent::Chunk(_) => now(),
            _ => self.start,
        };
        self.on_data_at(event, at)
    }

    /// Takes note that the trailers of the stream have been resolved: the
    /// stream has ended, and the classifier state that waited for its end
    /// is handed out, unless the end of the data has had it before.
    pub fn on_trailers(&mut self) -> (due: Option<C>)
        ensures
            due == old(self).pending(),
            final(self).pending() is None,
            final(self).ended(),
            final(self).start() == old(self).start(),
            final(self).verdict() == old(self).verdict(),
            final(self).inner() == old(self).inner(),
    {
        self.ended = true;
        self.take_pending()
    }

    /// Hands out the classifier state that waited for the end of the stream,
    /// if there is one. It is handed out once: afterwards none is held.
    fn take_pending(&mut self) -> (state: Option<C>)
        ensures
            state == old(self).pending(),
            final(self).pending() is None,
            final(self).verdict() == old(self).verdict(),
            final(self).inner() == old(self).inner(),
            final(self).start() == old(self).start(),
            final(self).ended() == old(self).ended(),
    {
        let mut held = EndOfStream::Finalizing;
        std::mem::swap(&mut self.classify_eos, &mut held);
        match held {
            EndOfStream::Pending(state) => Some(state),
            other => {
                self.classify_eos = other;
                None
            },
        }
    }

    /// Records the verdict that the end of the stream gave. It is recorded
    /// where none is known yet and no classifier state is held; a verdict
    /// once known stays.
    pub fn resolve(&mut self, verdict: Result<(), K>)
        ensures
            final(self).verdict() == if old(self).verdict() is None && old(self).pending() is None {
                Some(verdict)
            } else {
                old(self).verdict()
            },
            final(self).pending() == old(self).pending(),
            final(self).inner() == old(self).inner(),
            final(self).start() == old(self).start(),
            final(self).ended() == old(self).ended(),
    {
        if let EndOfStream::Finalizing = &self.classify_eos {
            self.classify_eos = EndOfStream::Known(verdict);
        }
    }
}

} // verus!
