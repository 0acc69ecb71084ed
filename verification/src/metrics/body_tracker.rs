//! Counting the bytes that flow through a body, and reading the count from
//! elsewhere.
//!
//! The counter is shared between one [`BodyTracker`], which alone adds to
//! it, and any number of [`BodyTrackerHandle`]s, which read it. What the
//! counter holds is stated exactly on the side of the tracker, after every
//! poll that it was told of, and so is what a handle reads while the
//! tracker is at hand. A handle alone is no function of what its tracker
//! has counted: of a read without the tracker nothing is stated.

use std::sync::atomic::{AtomicUsize, Ordering};
use std::sync::Arc;
use vstd::arithmetic::div_mod::{lemma_add_mod_noop_right, lemma_mod_bound, lemma_small_mod};
use vstd::prelude::*;

verus! {

/// What one poll of a streaming body produced, reduced to what byte
/// accounting reads of it.
#[derive(Clone, Copy, Debug, PartialEq, Eq, Structural)]
pub enum PollEvent {
    /// The body was not ready.
    Pending,
    /// A chunk was produced; the field is its length in bytes.
    Chunk(usize),
    /// The body produced an error.
    Failed,
    /// The body signalled its end.
    End,
}

impl PollEvent {
    /// The number of bytes that this poll adds to the count: the length of
    /// a chunk, and nothing for any other poll.
    pub open spec fn counted(self) -> nat {
        match self {
            PollEvent::Chunk(len) => len as nat,
            _ => 0,
        }
    }
}

/// The number of bytes that a run of polls adds to the count.
pub open spec fn bytes_counted(events: Seq<PollEvent>) -> nat
    decreases events.len(),
{
    if events.len() == 0 {
        0
    } else {
        bytes_counted(events.drop_last()) + events.last().counted()
    }
}

/// The polls of a body that produces chunks of these lengths, one after the
/// other.
pub open spec fn chunks(lengths: Seq<usize>) -> Seq<PollEvent> {
    Seq::new(lengths.len(), |i: int| PollEvent::Chunk(lengths[i]))
}

/// The sum of these lengths.
pub open spec fn sum(lengths: Seq<usize>) -> nat
    decreases lengths.len(),
{
    if lengths.len() == 0 {
        0
    } else {
        sum(lengths.drop_last()) + lengths.last() as nat
    }
}

/// One more poll adds what it counts for, whatever was polled before.
pub proof fn lemma_poll_adds(events: Seq<PollEvent>, event: PollEvent)
    ensures
        bytes_counted(events.push(event)) == bytes_counted(events) + event.counted(),
{
    assert(events.push(event).drop_last() == events);
}

/// After the first `k` of a run of chunks the count is the sum of their
/// lengths.
pub proof fn lemma_chunks_add_up(lengths: Seq<usize>, k: int)
    requires
        0 <= k <= lengths.len(),
    ensures
        bytes_counted(chunks(lengths).take(k)) == sum(lengths.take(k)),
    decreases k,
{
    if k > 0 {
        lemma_chunks_add_up(lengths, k - 1);
        assert(chunks(lengths).take(k).drop_last() == chunks(lengths).take(k - 1));
        assert(lengths.take(k).drop_last() == lengths.take(k - 1));
    }
}

/// After all the chunks of a run the count is the sum of all the lengths.
pub proof fn lemma_all_chunks_add_up(lengths: Seq<usize>)
    ensures
        bytes_counted(chunks(lengths)) == sum(lengths),
{
    lemma_chunks_add_up(lengths, lengths.len() as int);
    assert(chunks(lengths).take(lengths.len() as int) == chunks(lengths));
    assert(lengths.take(lengths.len() as int) == lengths);
}

/// The count never goes down: after more polls it is at least what it was.
pub proof fn lemma_count_never_decreases(events: Seq<PollEvent>, k: int)
    requires
        0 <= k <= events.len(),
    ensures
        bytes_counted(events.take(k)) <= bytes_counted(events),
    decreases events.len() - k,
{
    if k < events.len() {
        lemma_count_never_decreases(events, k + 1);
        assert(events.take(k + 1).drop_last() == events.take(k));
    } else {
        assert(events.take(k) == events);
    }
}

/// The count does not depend on how the bytes were cut into chunks: two
/// runs of chunks with the same sum of lengths count the same.
pub proof fn lemma_chunking_does_not_matter(one: Seq<usize>, other: Seq<usize>)
    requires
        sum(one) == sum(other),
    ensures
        bytes_counted(chunks(one)) == bytes_counted(chunks(other)),
{
    lemma_all_chunks_add_up(one);
    lemma_all_chunks_add_up(other);
}

/// Polls that produce no chunk add nothing: a body that ends at once, or
/// fails, or is not ready, leaves the count at zero.
pub proof fn lemma_no_chunk_counts_nothing(events: Seq<PollEvent>)
    requires
        forall|i: int| 0 <= i < events.len() ==> !(events[i] is Chunk),
    ensures
        bytes_counted(events) == 0,
    decreases events.len(),
{
    if events.len() > 0 {
        lemma_no_chunk_counts_nothing(events.drop_last());
    }
}

/// A byte count as the counter holds it: a `usize`, which wraps around
/// where the count no longer fits.
pub open spec fn wrapped(bytes: int) -> usize {
    (bytes % (usize::MAX + 1)) as usize
}

/// Wrapping a sum is the same whether or not its first part was wrapped
/// before.
pub proof fn lemma_wrapped_sum(counted: int, more: int)
    requires
        0 <= counted,
        0 <= more,
    ensures
        wrapped(wrapped(counted) + more) == wrapped(counted + more),
        counted <= usize::MAX ==> wrapped(counted) == counted,
{
    let m = usize::MAX + 1;
    lemma_mod_bound(counted, m);
    lemma_mod_bound(counted + more, m);
    lemma_mod_bound(counted % m + more, m);
    lemma_add_mod_noop_right(more, counted, m);
    if counted <= usize::MAX {
        lemma_small_mod(counted as nat, m as nat);
    }
}

/// The counter of the bytes polled from one body, as the one who adds to it
/// holds it. There is one for each tracker, and nothing else adds to the
/// cell in which it keeps its count; handles read that cell.
#[verifier::external_body]
pub struct ByteCounter {
    cell: Arc<AtomicUsize>,
}

/// What the counter holds.
pub uninterp spec fn counter_total(counter: ByteCounter) -> usize;

/// The cell in which the counter keeps its count.
pub uninterp spec fn counter_cell(counter: ByteCounter) -> AtomicUsize;

/// `AtomicUsize::new` with 0, in an `Arc` of its own: a counter that holds 0.
#[verifier::external_body]
fn new_counter() -> (counter: ByteCounter)
    ensures
        counter_total(counter) == 0,
{
    ByteCounter { cell: Arc::new(AtomicUsize::new(0)) }
}

/// `AtomicUsize::fetch_add`: the counter then holds what it held plus
/// `bytes`, wrapping around on overflow, in the cell that it had.
#[verifier::external_body]
fn add_bytes(counter: &mut ByteCounter, bytes: usize)
    ensures
        counter_total(*final(counter)) == wrapped(counter_total(*old(counter)) + bytes),
        counter_cell(*final(counter)) == counter_cell(*old(counter)),
    no_unwind
{
    counter.cell.fetch_add(bytes, Ordering::Relaxed);
}

/// `AtomicUsize::load` by the one who adds to the counter: what the counter
/// holds.
#[verifier::external_body]
fn load_total(counter: &ByteCounter) -> (total: usize)
    ensures
        total == counter_total(*counter),
{
    counter.cell.load(Ordering::Relaxed)
}

/// `AtomicUsize::load` through a pointer to the cell of a counter, while
/// the counter is at hand and so not added to: what the counter holds.
#[verifier::external_body]
fn load_shared(cell: &Arc<AtomicUsize>, counter: &ByteCounter) -> (total: usize)
    requires
        **cell == counter_cell(*counter),
    ensures
        total == counter_total(*counter),
{
    cell.load(Ordering::Relaxed)
}

/// `Arc::clone` on the cell of a counter: the pointer returned refers to
/// that cell.
#[verifier::external_body]
fn reader(counter: &ByteCounter) -> (cell: Arc<AtomicUsize>)
    ensures
        *cell == counter_cell(*counter),
{
    Arc::clone(&counter.cell)
}

/// `Arc::clone` on the cell that a handle reads: the pointer returned refers
/// to the cell that `cell` refers to.
#[verifier::external_body]
fn share(cell: &Arc<AtomicUsize>) -> (shared: Arc<AtomicUsize>)
    ensures
        shared == *cell,
{
    Arc::clone(cell)
}

/// A counter with the polls that it has counted.
struct Ledger {
    counter: ByteCounter,
    polled: Ghost<Seq<PollEvent>>,
}

impl Ledger {
    /// The counter holds the bytes of the polls, wrapped.
    #[verifier::type_invariant]
    spec fn counted(self) -> bool {
        counter_total(self.counter) == wrapped(bytes_counted(self.polled@) as int)
    }
}

/// Counts one poll: the length of a chunk is added to the counter, and the
/// poll is noted.
fn count_poll(counter: &mut ByteCounter, polled: &mut Ghost<Seq<PollEvent>>, event: PollEvent)
    requires
        counter_total(*old(counter)) == wrapped(bytes_counted(old(polled)@) as int),
    ensures
        final(polled)@ == old(polled)@.push(event),
        counter_total(*final(counter)) == wrapped(counter_total(*old(counter)) + event.counted()),
        counter_total(*final(counter)) == wrapped(bytes_counted(final(polled)@) as int),
        counter_cell(*final(counter)) == counter_cell(*old(counter)),
    no_unwind
{
    proof {
        lemma_poll_adds(polled@, event);
        lemma_wrapped_sum(bytes_counted(polled@) as int, event.counted() as int);
    }
    if let PollEvent::Chunk(len) = event {
        add_bytes(counter, len);
    } else {
        proof {
            lemma_wrapped_sum(counter_total(*counter) as int, 0);
        }
    }
    *polled = Ghost(polled@.push(event));
}

/// A body together with the counter of the bytes polled from it.
pub struct BodyTracker<B> {
    read: Ledger,
    body: B,
}

impl<B> BodyTracker<B> {
    /// The body that the tracker holds.
    pub closed spec fn body(&self) -> B {
        self.body
    }

    /// What the counter holds: the bytes that were polled, as a `usize`.
    pub closed spec fn count(&self) -> usize {
        counter_total(self.read.counter)
    }

    /// The cell in which the counter keeps its count.
    pub closed spec fn cell(&self) -> AtomicUsize {
        counter_cell(self.read.counter)
    }

    /// The polls that this tracker was told of, oldest first.
    pub closed spec fn polled(&self) -> Seq<PollEvent> {
        self.read.polled@
    }

    /// The bytes of the chunks among the polls that this tracker was told
    /// of.
    pub open spec fn bytes_added(&self) -> nat {
        bytes_counted(self.polled())
    }

    /// Create a new [`BodyTracker`]
    pub fn new(body: B) -> (tracker: Self)
        ensures
            tracker.body() == body,
            tracker.count() == 0,
            tracker.polled() == Seq::<PollEvent>::empty(),
    {
        proof {
            lemma_wrapped_sum(0, 0);
        }
        Self { read: Ledger { counter: new_counter(), polled: Ghost(Seq::empty()) }, body }
    }

    /// Get a [`BodyTrackerHandle`] that can be used to get the number of bytes polled
    pub fn handle(&self) -> (handle: BodyTrackerHandle)
        ensures
            handle.tracks(self),
    {
        BodyTrackerHandle { read: reader(&self.read.counter) }
    }

    /// The number of bytes polled so far, as the tracker itself reads it
    /// from its counter: the bytes of all the chunks that it was told of.
    pub fn bytes_read(&self) -> (bytes: usize)
        ensures
            bytes == self.count(),
            bytes == wrapped(self.bytes_added() as int),
            self.bytes_added() <= usize::MAX ==> bytes == self.bytes_added(),
    {
        proof {
            use_type_invariant(&self.read);
            lemma_wrapped_sum(self.bytes_added() as int, 0);
        }
        load_total(&self.read.counter)
    }

    /// The body, to poll it.
    pub fn body_mut(&mut self) -> (body: &mut B)
        ensures
            *body == old(self).body(),
            final(self).body() == *final(body),
            final(self).count() == old(self).count(),
            final(self).cell() == old(self).cell(),
            final(self).polled() == old(self).polled(),
    {
        &mut self.body
    }

    /// The body, to ask it for its end and its size.
    pub fn body_ref(&self) -> (body: &B)
        ensures
            *body == self.body(),
    {
        &self.body
    }

    /// Accounts for one poll of the body: the length of a chunk is added to
    /// the counter, and no other poll changes it. The body is not touched.
    pub fn record(&mut self, event: PollEvent)
        ensures
            final(self).count() == wrapped(old(self).count() + event.counted()),
            !(event is Chunk) ==> final(self).count() == old(self).count(),
            final(self).count() == wrapped(final(self).bytes_added() as int),
            final(self).bytes_added() <= usize::MAX ==> final(self).count() == final(self).bytes_added(),
            final(self).polled() == old(self).polled().push(event),
            final(self).bytes_added() == old(self).bytes_added() + event.counted(),
            final(self).cell() == old(self).cell(),
            final(self).body() == old(self).body(),
    {
        proof {
            use_type_invariant(&self.read);
            lemma_poll_adds(self.read.polled@, event);
            lemma_wrapped_sum(bytes_counted(self.read.polled@.push(event)) as int, 0);
            lemma_wrapped_sum(counter_total(self.read.counter) as int, 0);
        }
        count_poll(&mut self.read.counter, &mut self.read.polled, event);
    }
}

/// A handle to a [`BodyTracker`] that can be used to get the number of bytes
/// read and/or written even though the [`BodyTracker`] is consumed by a protocol
/// consumer.
#[derive(Debug)]
pub struct BodyTrackerHandle {
    read: Arc<AtomicUsize>,
}

impl Clone for BodyTrackerHandle {
    /// Another handle on the same counter.
    fn clone(&self) -> (other: Self)
        ensures
            other == *self,
    {
        BodyTrackerHandle { read: share(&self.read) }
    }
}

impl BodyTrackerHandle {
    /// The cell that this handle reads.
    pub closed spec fn cell(&self) -> AtomicUsize {
        *self.read
    }

    /// Whether this handle reads the counter that `tracker` adds to.
    pub open spec fn tracks<B>(&self, tracker: &BodyTracker<B>) -> bool {
        self.cell() == tracker.cell()
    }

    /// Get the number of bytes read (so far).
    ///
    /// This is the read for a caller that does not hold the tracker, which
    /// may be polled elsewhere in the meantime: what comes back is what the
    /// counter held at some moment, and no more is stated of it. With the
    /// tracker at hand, [`read_of`](Self::read_of) is exact.
    pub fn read(&self) -> usize {
        self.read.load(Ordering::Relaxed)
    }

    /// Get the number of bytes read so far, beside the tracker that this
    /// handle is on: what the counter of that tracker holds, which is the
    /// bytes of all the chunks that the tracker was told of.
    pub fn read_of<B>(&self, tracker: &BodyTracker<B>) -> (bytes: usize)
        requires
            self.tracks(tracker),
        ensures
            bytes == tracker.count(),
            bytes == wrapped(tracker.bytes_added() as int),
            tracker.bytes_added() <= usize::MAX ==> bytes == tracker.bytes_added(),
    {
        proof {
            use_type_invariant(&tracker.read);
            lemma_wrapped_sum(tracker.bytes_added() as int, 0);
        }
        load_shared(&self.read, &tracker.read.counter)
    }
}

} // verus!
