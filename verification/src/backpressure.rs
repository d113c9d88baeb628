//! Admission control over worker queues.
//!
//! A `Backpressure` value holds the gauges of any number of queues,
//! registered through a builder-style interface, and condenses their
//! full/not-full signals into a single yes/no decision: before taking on a
//! new unit of work, call `check`; if any registered queue reports full,
//! `check` fails with `Error::QueueIsFull`, and the caller is expected to
//! reject or defer the work (an HTTP layer would translate the failure into
//! a service unavailable response).
//!
//! The queues themselves know nothing about the caller's transport: this
//! module is the policy seam where admission control is composed out of
//! independently defined queues, possibly with different message types.

use vstd::prelude::*;

use crate::errors::Error;
use crate::queue::Gauge;
use crate::queue::Producer;

verus! {

/// The outcome condensed from the full-signals read off the registered
/// queues, in the order they were read: overloaded iff any queue reported
/// full.
pub open spec fn decision(fulls: Seq<bool>) -> Result<(), Error> {
    if exists|i: int| 0 <= i < fulls.len() && fulls[i] {
        Err(Error::QueueIsFull)
    } else {
        Ok(())
    }
}

/// Condense the full-signals read off the registered queues into one
/// outcome: fails with `QueueIsFull` iff at least one queue reported full.
pub fn decide(fulls: &Vec<bool>) -> (r: Result<(), Error>)
    ensures
        r == decision(fulls@),
{
    let mut i: usize = 0;
    while i < fulls.len()
        invariant
            i <= fulls.len(),
            forall|j: int| 0 <= j < i ==> !fulls@[j],
        decreases fulls.len() - i,
    {
        if fulls[i] {
            assert(fulls@[i as int]);
            return Err(Error::QueueIsFull);
        }
        i += 1;
    }
    Ok(())
}

/// One full queue overloads the checker, wherever it stands in the order
/// the signals were read.
pub proof fn lemma_one_full_overloads(fulls: Seq<bool>, i: int)
    requires
        0 <= i < fulls.len(),
        fulls[i],
    ensures
        decision(fulls) == Err::<(), Error>(Error::QueueIsFull),
{
}

/// The outcome does not depend on the order in which the signals were
/// read: two readings with the same signals in any two orders condense to
/// the same answer.
pub proof fn lemma_decision_order_blind(a: Seq<bool>, b: Seq<bool>)
    requires
        a.to_multiset() == b.to_multiset(),
    ensures
        decision(a) == decision(b),
{
    broadcast use vstd::seq_lib::group_to_multiset_ensures;

    assert(a.contains(true) <==> a.to_multiset().count(true) > 0);
    assert(b.contains(true) <==> b.to_multiset().count(true) > 0);
    assert((exists|i: int| 0 <= i < a.len() && a[i]) <==> a.contains(true));
    assert((exists|i: int| 0 <= i < b.len() && b[i]) <==> b.contains(true));
}

/// A checker that holds the gauges of the worker queues to consult before
/// proceeding with a unit of work.
///
/// Queues are registered up front through `add_queue`; after that the
/// checker is only read. If any registered queue fails the check, the work
/// should be rejected with a service-unavailable style answer.
pub struct Backpressure {
    to_check: Vec<Option<Gauge>>,
}

impl Backpressure {
    /// The watermarks of the registered queues, in registration order;
    /// `None` stands for a registered queue that is not monitored and so
    /// can never report full.
    pub closed spec fn watermarks(self) -> Seq<Option<usize>> {
        self.to_check@.map_values(
            |g: Option<Gauge>|
                match g {
                    Some(x) => Some(x.watermark()),
                    None => None,
                },
        )
    }

    /// An empty checker: it always permits.
    pub fn new() -> (r: Self)
        ensures
            r.watermarks() == Seq::<Option<usize>>::empty(),
    {
        let r = Backpressure { to_check: Vec::new() };
        proof {
            assert(r.watermarks() =~= Seq::<Option<usize>>::empty());
        }
        r
    }

    /// Add a queue to check; returns the checker for chaining. The checker
    /// keeps the queue's gauge, so it shares the counter that the queue's
    /// other handles update.
    pub fn add_queue<M>(self, q: Producer<M>) -> (r: Self)
        ensures
            r.watermarks() == self.watermarks().push(q.max_len()),
    {
        let gauge = q.gauge();
        let ghost before = self;
        let mut to_check = self.to_check;
        to_check.push(gauge);
        let r = Backpressure { to_check };
        proof {
            assert(r.watermarks() =~= before.watermarks().push(q.max_len()));
        }
        r
    }

    /// Check every registered queue.
    ///
    /// Reads each queue's full-signal and condenses them into one answer:
    /// `Ok` if no queue reported full, otherwise the `QueueIsFull` error. A
    /// checker with no registered queues always permits, and so does one
    /// whose registered queues are all unmonitored; an overload answer can
    /// only come from a queue with a configured watermark — and a queue
    /// with watermark zero forces one, whatever its counter reads.
    pub fn check(&self) -> (r: Result<(), Error>)
        ensures
            self.watermarks().len() == 0 ==> r is Ok,
            (forall|i: int| 0 <= i < self.watermarks().len() ==> self.watermarks()[i] is None)
                ==> r is Ok,
            r is Err ==> r == Err::<(), Error>(Error::QueueIsFull) && exists|i: int|
                0 <= i < self.watermarks().len() && self.watermarks()[i] is Some,
            (exists|i: int|
                0 <= i < self.watermarks().len() && self.watermarks()[i] == Some(0usize)) ==> r
                is Err,
    {
        let mut fulls: Vec<bool> = Vec::new();
        let mut i: usize = 0;
        while i < self.to_check.len()
            invariant
                i <= self.to_check.len(),
                fulls@.len() == i,
                self.watermarks().len() == self.to_check@.len(),
                forall|j: int| 0 <= j < i ==> (self.watermarks()[j] is None ==> !fulls@[j]),
                forall|j: int| 0 <= j < i ==> (self.watermarks()[j] == Some(0usize) ==> fulls@[j]),
            decreases self.to_check.len() - i,
        {
            let full = match &self.to_check[i] {
                Some(g) => g.is_full(),
                None => false,
            };
            fulls.push(full);
            i += 1;
        }
        decide(&fulls)
    }
}

} // verus!
