//! First-in-first-out semantics of the queue, as a model.
//!
//! The transport behind a producer/consumer pair hands messages over in
//! first-in-first-out order when one producer and one consumer use it in
//! turn; under concurrent handles only the interleaving across producers is
//! unspecified. This module states that sequential semantics exactly: a run
//! of a queue is a sequence of operations (pushes and pop attempts), and the
//! functions below say what has been pushed, what has been popped, and what
//! is still in the queue after any run starting from empty. The lemmas prove
//! the delivery guarantees over every run: no message is lost, none is
//! duplicated, order is kept, and the advisory watermark reports full
//! exactly when occupancy has reached it.

use vstd::prelude::*;

verus! {

/// One operation in the life of a queue: a push of a message, or a pop
/// attempt (which takes the oldest message out, or finds the queue empty).
pub enum QueueOp<M> {
    Push(M),
    Pop,
}

/// The messages pushed during a run, in the order they were issued.
pub open spec fn pushed<M>(ops: Seq<QueueOp<M>>) -> Seq<M>
    decreases ops.len(),
{
    if ops.len() == 0 {
        Seq::empty()
    } else {
        match ops.last() {
            QueueOp::Push(m) => pushed(ops.drop_last()).push(m),
            QueueOp::Pop => pushed(ops.drop_last()),
        }
    }
}

/// The messages still in the queue after a run that starts from an empty
/// queue: pushes append at the tail, successful pops take the head, and a
/// pop on an empty queue changes nothing.
pub open spec fn remaining<M>(ops: Seq<QueueOp<M>>) -> Seq<M>
    decreases ops.len(),
{
    if ops.len() == 0 {
        Seq::empty()
    } else {
        let before = remaining(ops.drop_last());
        match ops.last() {
            QueueOp::Push(m) => before.push(m),
            QueueOp::Pop => if before.len() == 0 {
                before
            } else {
                before.drop_first()
            },
        }
    }
}

/// The messages a consumer has received during a run that starts from an
/// empty queue, in the order they came out.
pub open spec fn popped<M>(ops: Seq<QueueOp<M>>) -> Seq<M>
    decreases ops.len(),
{
    if ops.len() == 0 {
        Seq::empty()
    } else {
        let before = remaining(ops.drop_last());
        let out = popped(ops.drop_last());
        match ops.last() {
            QueueOp::Push(m) => out,
            QueueOp::Pop => if before.len() == 0 {
                out
            } else {
                out.push(before.first())
            },
        }
    }
}

/// Whether a queue of the given occupancy reports full against the given
/// watermark: true iff a watermark is configured and occupancy has reached
/// it. An unmonitored queue never reports full.
pub open spec fn looks_full(occupancy: nat, watermark: Option<nat>) -> bool {
    match watermark {
        Some(w) => occupancy >= w,
        None => false,
    }
}

/// When one sequence is the concatenation of two others, the two parts are
/// its prefix and the rest.
proof fn lemma_concat_parts<M>(a: Seq<M>, b: Seq<M>, c: Seq<M>)
    requires
        a + b == c,
    ensures
        a == c.take(a.len() as int),
        b == c.skip(a.len() as int),
{
    assert(a =~= c.take(a.len() as int));
    assert(b =~= c.skip(a.len() as int));
}

/// The values popped during any run are, in order, exactly the pushed
/// values that are no longer in the queue, and what is still in the queue
/// is the rest: no message is lost, none is duplicated, and first-in goes
/// first-out.
pub proof fn lemma_fifo_order<M>(ops: Seq<QueueOp<M>>)
    ensures
        popped(ops) + remaining(ops) == pushed(ops),
        popped(ops) == pushed(ops).take(popped(ops).len() as int),
        remaining(ops) == pushed(ops).skip(popped(ops).len() as int),
    decreases ops.len(),
{
    if ops.len() == 0 {
        assert(popped(ops) + remaining(ops) =~= pushed(ops));
    } else {
        let prev = ops.drop_last();
        lemma_fifo_order(prev);
        match ops.last() {
            QueueOp::Push(m) => {
                assert(popped(ops) + remaining(ops) =~= (popped(prev) + remaining(prev)).push(
                    m,
                ));
            },
            QueueOp::Pop => {
                if remaining(prev).len() > 0 {
                    assert(popped(ops) + remaining(ops) =~= popped(prev) + remaining(prev));
                }
            },
        }
    }
    lemma_concat_parts(popped(ops), remaining(ops), pushed(ops));
}

/// A run that consists only of pushing the given messages, in order.
pub open spec fn pushes_only<M>(msgs: Seq<M>) -> Seq<QueueOp<M>>
    decreases msgs.len(),
{
    if msgs.len() == 0 {
        Seq::empty()
    } else {
        pushes_only(msgs.drop_last()).push(QueueOp::Push(msgs.last()))
    }
}

/// Pushing a sequence of messages into an empty queue, with no pops, leaves
/// exactly those messages in the queue.
pub proof fn lemma_pushes_only<M>(msgs: Seq<M>)
    ensures
        pushed(pushes_only(msgs)) == msgs,
        remaining(pushes_only(msgs)) == msgs,
        popped(pushes_only(msgs)) == Seq::<M>::empty(),
    decreases msgs.len(),
{
    if msgs.len() == 0 {
        assert(pushed(pushes_only(msgs)) =~= msgs);
        assert(remaining(pushes_only(msgs)) =~= msgs);
    } else {
        lemma_pushes_only(msgs.drop_last());
        assert(pushes_only(msgs).drop_last() =~= pushes_only(msgs.drop_last()));
        assert(pushed(pushes_only(msgs)) =~= msgs);
        assert(remaining(pushes_only(msgs)) =~= msgs);
    }
}

/// After exactly `w` pushes and zero pops, a queue with watermark `w`
/// reports full.
pub proof fn lemma_full_at_watermark<M>(msgs: Seq<M>, w: nat)
    requires
        msgs.len() == w,
    ensures
        looks_full(remaining(pushes_only(msgs)).len(), Some(w)),
{
    lemma_pushes_only(msgs);
}

/// After exactly `w` pushes and then one pop, the pop succeeds — it returns
/// the first message pushed — and the queue with watermark `w` no longer
/// reports full.
pub proof fn lemma_pop_clears_watermark<M>(msgs: Seq<M>, w: nat)
    requires
        msgs.len() == w,
        w >= 1,
    ensures
        popped(pushes_only(msgs).push(QueueOp::Pop)) == Seq::<M>::empty().push(msgs.first()),
        !looks_full(remaining(pushes_only(msgs).push(QueueOp::Pop)).len(), Some(w)),
{
    lemma_pushes_only(msgs);
    let ops = pushes_only(msgs).push(QueueOp::Pop);
    assert(ops.drop_last() =~= pushes_only(msgs));
    assert(remaining(ops) == msgs.drop_first());
}

/// A run that ends with the queue drained dry has delivered every pushed
/// message, in push order — however its pushes and pops were interleaved,
/// and in particular in exactly the total count that was pushed.
pub proof fn lemma_drained_delivers_all<M>(ops: Seq<QueueOp<M>>)
    requires
        remaining(ops).len() == 0,
    ensures
        popped(ops) == pushed(ops),
        popped(ops).len() == pushed(ops).len(),
{
    lemma_fifo_order(ops);
    assert(popped(ops) =~= pushed(ops));
}

} // verus!
