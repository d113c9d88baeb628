//! A thread-safe multi-producer, multi-consumer queue with an advisory
//! high-watermark.
//!
//! The transport is crossbeam's `SegQueue`, shared by every handle through an
//! `Arc`. If no maximum length is set the queue is completely non-blocking;
//! if one is set, each push and pop also updates a shared approximate length
//! counter, and producers can report whether the queue looks full.
//!
//! The maximum length is advisory: it is never enforced at push time. A
//! caller that cares is expected to consult `is_full` (usually through the
//! backpressure gate) and decide for itself whether to reject, wait, or push
//! anyway.
//!
//! Because the transport and the counter are shared by all clones of a
//! handle, concurrent activity on other handles can change them at any time.
//! The contracts here therefore speak of what a single handle observes: the
//! history of messages pushed through a producer, and the history of messages
//! received through a consumer. The sequential first-in-first-out semantics
//! of the transport itself is stated and proved over the model in the `fifo`
//! module.

use vstd::prelude::*;

use core::marker::PhantomData;
use core::sync::atomic::AtomicUsize;
use core::sync::atomic::Ordering;
use std::sync::Arc;

use crate::fifo::looks_full;

verus! {

/// Decide a fullness snapshot: whether an observed occupancy has reached a
/// configured watermark. This comparison is the one computation in
/// `is_full`; everything else there is reading the shared counter, whose
/// momentary value no contract can fix.
pub fn reached_watermark(count: usize, max_len: usize) -> (r: bool)
    ensures
        r == looks_full(count as nat, Some(max_len as nat)),
        r == (count >= max_len),
{
    count >= max_len
}

/// Declares crossbeam's `SegQueue` so that its values can stand in fields
/// and signatures. The type is opaque to the verifier; everything known
/// about it comes from the trusted contracts right below.
#[verifier::external_type_specification]
#[verifier::external_body]
#[verifier::reject_recursive_types(T)]
pub struct ExSegQueue<T>(crossbeam::queue::SegQueue<T>);

/// Relies on crossbeam's `SegQueue::new`: creates a fresh, empty, unbounded
/// lock-free queue. Nothing further is claimed: the value is opaque.
pub assume_specification<T>[ crossbeam::queue::SegQueue::<T>::new ]() -> crossbeam::queue::SegQueue<T>;

/// Relies on crossbeam's `SegQueue::push`: appends `value` at the tail of
/// the shared queue. The queue is unbounded, so the push always succeeds and
/// never blocks. The queue is reached through `&self` and is shared with
/// every other handle, so no claim about its contents can be stated here;
/// what a pop later returns is whatever some handle pushed.
pub assume_specification<T>[ crossbeam::queue::SegQueue::<T>::push ](
    q: &crossbeam::queue::SegQueue<T>,
    value: T,
);

/// Relies on crossbeam's `SegQueue::pop`: removes and returns the element at
/// the head of the shared queue, or returns `None` if the queue was observed
/// empty. Never blocks. Which element is at the head depends on concurrent
/// activity of every other handle, so no claim about the returned value can
/// be stated here.
pub assume_specification<T>[ crossbeam::queue::SegQueue::<T>::pop ](
    q: &crossbeam::queue::SegQueue<T>,
) -> Option<T>;

/// The advisory occupancy gauge of a monitored queue: the configured
/// high-watermark together with the shared approximate length counter.
///
/// The counter is updated on push and on successful pop, but independently
/// of the transport's own internal synchronization, so it only approximately
/// reflects recent activity: good enough for capacity estimation, not for
/// precise accounting. Updates are wrapping, so the bookkeeping itself can
/// never panic.
pub struct Gauge {
    max_len: usize,
    count: Arc<AtomicUsize>,
}

impl Gauge {
    /// The configured high-watermark.
    pub closed spec fn watermark(self) -> usize {
        self.max_len
    }

    /// Whether the approximate occupancy has reached the watermark: a
    /// snapshot of the shared counter, decided through `reached_watermark`.
    ///
    /// The counter is shared with every other handle of the queue, so the
    /// snapshot may already be stale and no contract can fix its value;
    /// what can be promised outright is the watermark-zero case, where
    /// every snapshot has reached it.
    pub fn is_full(&self) -> (r: bool)
        ensures
            self.watermark() == 0 ==> r,
    {
        reached_watermark(self.count.load(Ordering::SeqCst), self.max_len)
    }

    /// Note one more message in flight.
    fn bump(&self) {
        let _ = self.count.fetch_add(1, Ordering::SeqCst);
    }
}

impl Clone for Gauge {
    /// Cloning shares the same underlying counter and keeps the watermark.
    fn clone(&self) -> (r: Self)
        ensures
            r.watermark() == self.watermark(),
    {
        Gauge { max_len: self.max_len, count: self.count.clone() }
    }
}

/// The producing end of a queue.
///
/// This structure can be safely cloned and shared amongst threads; clones
/// push into the same underlying queue.
#[verifier::reject_recursive_types(M)]
pub struct Producer<M> {
    queue: Arc<crossbeam::queue::SegQueue<M>>,
    gauge: Option<Gauge>,
    log: Ghost<Seq<M>>,
}

impl<M> Producer<M> {
    /// The watermark this producer was configured with, if the queue is
    /// monitored.
    pub closed spec fn max_len(self) -> Option<usize> {
        match self.gauge {
            Some(g) => Some(g.watermark()),
            None => None,
        }
    }

    /// The messages pushed through this handle, in the order they were
    /// issued. A consumer of the shared queue observes them in this order,
    /// interleaved arbitrarily with pushes from other handles.
    pub closed spec fn sent(self) -> Seq<M> {
        self.log@
    }

    /// Push a message onto the queue.
    ///
    /// This never blocks and never rejects: the maximum length is advisory,
    /// so if you don't check `is_full` the queue can grow indefinitely. On a
    /// monitored queue the shared counter is bumped first, as an independent
    /// bookkeeping step.
    pub fn push(&mut self, msg: M)
        ensures
            final(self).sent() == old(self).sent().push(msg),
            final(self).max_len() == old(self).max_len(),
    {
        let ghost m = msg;
        if let Some(gauge) = &self.gauge {
            gauge.bump();
        }
        self.queue.push(msg);
        self.log = Ghost(self.log@.push(m));
    }

    /// The gauge of this producer's queue, for registration with a
    /// backpressure gate: shares the same counter and keeps the watermark.
    /// `None` if the queue is not monitored.
    pub(crate) fn gauge(&self) -> (r: Option<Gauge>)
        ensures
            r matches Some(g) ==> self.max_len() == Some(g.watermark()),
            r is None <==> self.max_len() is None,
    {
        match &self.gauge {
            Some(g) => Some(g.clone()),
            None => None,
        }
    }

    /// Whether the queue looks full: true iff a watermark is configured and
    /// the shared approximate counter has reached it.
    ///
    /// The counter is shared, so the reading may be stale the moment it is
    /// taken; what can be promised is what holds of every snapshot: an
    /// unmonitored queue never reports full, and a queue with watermark
    /// zero always does.
    pub fn is_full(&self) -> (r: bool)
        ensures
            self.max_len() is None ==> r == false,
            self.max_len() == Some(0usize) ==> r,
    {
        match &self.gauge {
            Some(gauge) => gauge.is_full(),
            None => false,
        }
    }
}

impl<M> Clone for Producer<M> {
    /// Cloning duplicates only the shared-ownership handles, not the queue
    /// contents: the clone pushes into the same queue and shares the same
    /// counter, and starts an issue history of its own.
    fn clone(&self) -> (r: Self)
        ensures
            r.max_len() == self.max_len(),
            r.sent() == Seq::<M>::empty(),
    {
        Producer {
            queue: self.queue.clone(),
            gauge: match &self.gauge {
                Some(g) => Some(g.clone()),
                None => None,
            },
            log: Ghost(Seq::empty()),
        }
    }
}

/// The consuming end of a queue.
///
/// This structure can be safely cloned and shared amongst threads; clones
/// pop from the same underlying queue.
#[verifier::reject_recursive_types(M)]
pub struct Consumer<M> {
    queue: Arc<crossbeam::queue::SegQueue<M>>,
    count: Option<Arc<AtomicUsize>>,
    log: Ghost<Seq<M>>,
}

impl<M> Consumer<M> {
    /// Whether the queue this consumer drains keeps an occupancy counter.
    pub closed spec fn monitored(self) -> bool {
        self.count is Some
    }

    /// The messages received through this handle, in the order they were
    /// popped.
    pub closed spec fn received(self) -> Seq<M> {
        self.log@
    }

    /// Try to pop a message from the queue.
    ///
    /// Returns `None` immediately if the queue was observed empty: that is a
    /// normal outcome, not an error. On a successful pop from a monitored
    /// queue the shared counter is lowered.
    pub fn try_pop(&mut self) -> (r: Option<M>)
        ensures
            r matches Some(m) ==> final(self).received() == old(self).received().push(m),
            r is None ==> final(self).received() == old(self).received(),
            final(self).monitored() == old(self).monitored(),
    {
        match self.queue.pop() {
            Some(msg) => {
                if let Some(count) = &self.count {
                    let _ = count.fetch_sub(1, Ordering::SeqCst);
                }
                let ghost m = msg;
                self.log = Ghost(self.log@.push(m));
                Some(msg)
            },
            None => None,
        }
    }
}

impl<M> Clone for Consumer<M> {
    /// Cloning duplicates only the shared-ownership handles: the clone pops
    /// from the same queue and shares the same counter, and starts a receipt
    /// history of its own.
    fn clone(&self) -> (r: Self)
        ensures
            r.monitored() == self.monitored(),
            r.received() == Seq::<M>::empty(),
    {
        Consumer {
            queue: self.queue.clone(),
            count: match &self.count {
                Some(c) => Some(c.clone()),
                None => None,
            },
            log: Ghost(Seq::empty()),
        }
    }
}

/// Builder for a new queue.
pub struct QueueBuilder<M> {
    max_len: Option<usize>,
    _marker: PhantomData<M>,
}

impl<M> QueueBuilder<M> {
    /// The maximum length configured so far, if any.
    pub closed spec fn configured_max_len(self) -> Option<usize> {
        self.max_len
    }

    /// Create a new queue builder: no maximum length, so the queue will not
    /// be monitored.
    pub fn new() -> (r: Self)
        ensures
            r.configured_max_len() is None,
    {
        QueueBuilder { max_len: None, _marker: PhantomData }
    }

    /// Set a recommended maximum length for this queue.
    pub fn with_max_len(self, max_len: usize) -> (r: Self)
        ensures
            r.configured_max_len() == Some(max_len),
    {
        QueueBuilder { max_len: Some(max_len), _marker: PhantomData }
    }

    /// Convert this builder into a `Producer`, `Consumer` pair over a fresh,
    /// empty queue. Always succeeds. If a maximum length was set, the pair
    /// shares a counter initialized to zero and the producer carries the
    /// watermark.
    pub fn build(self) -> (r: (Producer<M>, Consumer<M>))
        ensures
            r.0.max_len() == self.configured_max_len(),
            r.0.sent() == Seq::<M>::empty(),
            r.1.monitored() == (self.configured_max_len() is Some),
            r.1.received() == Seq::<M>::empty(),
    {
        let queue = Arc::new(crossbeam::queue::SegQueue::<M>::new());

        match self.max_len {
            Some(max_len) => {
                let count = Arc::new(AtomicUsize::new(0));
                let tx = Producer {
                    queue: queue.clone(),
                    gauge: Some(Gauge { max_len, count: count.clone() }),
                    log: Ghost(Seq::empty()),
                };
                let rx = Consumer { queue, count: Some(count), log: Ghost(Seq::empty()) };
                (tx, rx)
            },
            None => {
                let tx = Producer { queue: queue.clone(), gauge: None, log: Ghost(Seq::empty()) };
                let rx = Consumer { queue, count: None, log: Ghost(Seq::empty()) };
                (tx, rx)
            },
        }
    }
}

/// Check whether a queue is full.
///
/// This trait can be used over a number of queues with different message
/// types: the backpressure gate polls it to decide whether new work should
/// be admitted. At that point the caller can ignore the signal, wait for the
/// length to go down, or reject the unit of work.
pub trait IsFull {
    /// Whether this queue can report full at all: one without a configured
    /// watermark cannot.
    spec fn watermarked(&self) -> bool;

    /// Whether the queue is 'full': its approximate occupancy has reached
    /// the configured watermark.
    fn is_full(&self) -> (r: bool)
        ensures
            r ==> self.watermarked(),
    ;
}

impl<M> IsFull for Producer<M> {
    open spec fn watermarked(&self) -> bool {
        self.max_len() is Some
    }

    fn is_full(&self) -> (r: bool)
        ensures
            r ==> self.watermarked(),
    {
        Producer::is_full(self)
    }
}

} // verus!
