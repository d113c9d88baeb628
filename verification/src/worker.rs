//! A unit of work run in the background.
//!
//! A worker repeatedly pops messages off a queue consumer and runs a
//! caller-supplied unit function over them against a long-lived context:
//! anything that must outlive a single message — a connection, an
//! accumulator — lives in the context, which the worker owns exclusively.
//!
//! The unit function takes the context and one message and returns the
//! evolved context. It must handle its own failures — complete a reply
//! embedded in the message with an error, or note it and move on — because a
//! worker that dies stops all further processing with no supervision or
//! restart; for the same reason its precondition here demands that it
//! accepts every context and message.
//!
//! The dedicated thread that loops over `step` for the life of the process
//! is the caller's to spawn; `step` decides and processes one poll, and
//! `drain` processes a bounded batch until the queue is observed empty.

use vstd::prelude::*;

use core::marker::PhantomData;
use crate::queue::Consumer;

verus! {

/// A trace of the contexts a worker's context passed through while
/// processing `msgs` in order through the unit function `unit`: `ctxs[i]`
/// is the context before message `i`, `ctxs[i + 1]` the one the unit
/// function turned it into, so the trace is one longer than the batch.
pub open spec fn is_processing_trace<C, M, F: Fn(C, M) -> C>(
    unit: F,
    ctxs: Seq<C>,
    msgs: Seq<M>,
) -> bool {
    &&& ctxs.len() == msgs.len() + 1
    &&& forall|i: int|
        0 <= i < msgs.len() ==> call_ensures(unit, (ctxs[i], msgs[i]), ctxs[i + 1])
}

/// What it means for a context to evolve from `c0` to `c1` by processing
/// the messages `msgs`, in order, through the unit function `unit`: some
/// trace of intermediate contexts leads from `c0` to `c1`, each message
/// turning the context into one of the outcomes the unit function admits
/// for it.
pub open spec fn processes<C, M, F: Fn(C, M) -> C>(unit: F, c0: C, msgs: Seq<M>, c1: C) -> bool {
    exists|ctxs: Seq<C>|
        #[trigger] is_processing_trace(unit, ctxs, msgs) && ctxs.first() == c0 && ctxs.last()
            == c1
}

/// Processing no messages leaves the context alone.
pub proof fn lemma_processes_nothing<C, M, F: Fn(C, M) -> C>(unit: F, c0: C)
    ensures
        processes(unit, c0, Seq::<M>::empty(), c0),
{
    let ctxs = Seq::<C>::empty().push(c0);
    assert(is_processing_trace(unit, ctxs, Seq::<M>::empty()));
}

/// Processing one more message after a processed batch extends the batch.
pub proof fn lemma_processes_one_more<C, M, F: Fn(C, M) -> C>(
    unit: F,
    c0: C,
    msgs: Seq<M>,
    c1: C,
    msg: M,
    c2: C,
)
    requires
        processes(unit, c0, msgs, c1),
        call_ensures(unit, (c1, msg), c2),
    ensures
        processes(unit, c0, msgs.push(msg), c2),
{
    let ctxs = choose|ctxs: Seq<C>|
        #[trigger] is_processing_trace(unit, ctxs, msgs) && ctxs.first() == c0 && ctxs.last()
            == c1;
    let w = ctxs.push(c2);
    let s = msgs.push(msg);
    assert(is_processing_trace(unit, w, s)) by {
        assert forall|i: int| 0 <= i < s.len() implies call_ensures(
            unit,
            (w[i], s[i]),
            w[i + 1],
        ) by {
            if i < msgs.len() {
                assert(w[i] == ctxs[i]);
                assert(s[i] == msgs[i]);
                assert(w[i + 1] == ctxs[i + 1]);
            } else {
                assert(w[i] == ctxs.last());
                assert(s[i] == msg);
                assert(w[i + 1] == c2);
            }
        }
    }
    assert(w.first() == c0 && w.last() == c2);
}

/// A background worker.
///
/// This type is generic over the context, the message and the unit
/// function. It owns no data of its own: it is the home of the worker
/// loop's decision logic.
pub struct Worker<C, M, F> {
    _c: PhantomData<C>,
    _m: PhantomData<M>,
    _f: PhantomData<F>,
}

impl<C, M, F> Worker<C, M, F> where F: Fn(C, M) -> C {
    /// One poll of the worker loop: try to pop a message; if one is there,
    /// run the unit function over it and the context.
    ///
    /// Returns the evolved context and whether a message was processed:
    /// when nothing was pending the context comes back untouched, and when
    /// a message came out it is the one appended to the consumer's receipt
    /// history, with the context evolved by exactly that message.
    pub fn step(rx: &mut Consumer<M>, ctx: C, unit: &F) -> (r: (C, bool))
        requires
            forall|c: C, m: M| call_requires(*unit, (c, m)),
        ensures
            !r.1 ==> r.0 == ctx && final(rx).received() == old(rx).received(),
            r.1 ==> final(rx).received() == old(rx).received().push(
                final(rx).received().last(),
            ) && call_ensures(*unit, (ctx, final(rx).received().last()), r.0),
    {
        match rx.try_pop() {
            Some(msg) => (unit(ctx, msg), true),
            None => (ctx, false),
        }
    }

    /// Drain the queue against the context: keep popping and processing
    /// until the queue is observed empty, or until `max_steps` messages
    /// have been processed in this batch.
    ///
    /// Returns the evolved context: the consumer's receipt history has
    /// grown by the batch that was processed, and the context has been
    /// evolved by exactly that batch, in the order it came out of the
    /// queue.
    #[verifier::loop_isolation(false)]
    pub fn drain(rx: &mut Consumer<M>, ctx: C, unit: &F, max_steps: usize) -> (r: C)
        requires
            forall|c: C, m: M| call_requires(*unit, (c, m)),
        ensures
            old(rx).received().is_prefix_of(final(rx).received()),
            final(rx).received().len() - old(rx).received().len() <= max_steps,
            processes(
                *unit,
                ctx,
                final(rx).received().skip(old(rx).received().len() as int),
                r,
            ),
    {
        let ghost c0 = ctx;
        let ghost base = rx.received();
        let mut ctx = ctx;
        let mut steps: usize = 0;
        proof {
            lemma_processes_nothing::<C, M, F>(*unit, c0);
            assert(base.skip(base.len() as int) =~= Seq::<M>::empty());
        }
        while steps < max_steps
            invariant
                forall|c: C, m: M| call_requires(*unit, (c, m)),
                steps <= max_steps,
                base.is_prefix_of(rx.received()),
                rx.received().len() - base.len() == steps,
                processes(*unit, c0, rx.received().skip(base.len() as int), ctx),
            decreases max_steps - steps,
        {
            let ghost before = rx.received();
            let ghost ctx_before = ctx;
            match rx.try_pop() {
                Some(msg) => {
                    ctx = unit(ctx, msg);
                    steps += 1;
                    proof {
                        lemma_processes_one_more(
                            *unit,
                            c0,
                            before.skip(base.len() as int),
                            ctx_before,
                            rx.received().last(),
                            ctx,
                        );
                        assert(rx.received().skip(base.len() as int) =~= before.skip(
                            base.len() as int,
                        ).push(rx.received().last()));
                        assert(base.is_prefix_of(rx.received()));
                    }
                },
                None => {
                    return ctx;
                },
            }
        }
        ctx
    }
}

} // verus!
