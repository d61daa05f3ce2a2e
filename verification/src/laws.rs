//! Ordering and conservation laws of the shared queue.
//!
//! The queue's contract is stated per call; these laws lift it to whole
//! histories. A history is a sequence of operations — pushes (from any
//! number of producers, as their interleaving was linearized by the
//! queue) and non-blocking pops — replayed against the per-call
//! contracts of `Queue::push` and `Queue::try_pop`.

use vstd::prelude::*;
use vstd::seq_lib::lemma_multiset_commutative;
use crate::msg::Message;

verus! {

/// One linearized operation on the shared queue.
pub enum QueueOp {
    /// A producer pushed this message.
    Push(Message),
    /// The consumer called `try_pop`; on an empty queue it observes
    /// nothing.
    Pop,
}

/// The messages a history pushes, in their linearized order.
pub open spec fn pushed(ops: Seq<QueueOp>) -> Seq<Message>
    decreases ops.len(),
{
    if ops.len() == 0 {
        Seq::empty()
    } else {
        match ops[0] {
            QueueOp::Push(m) => seq![m] + pushed(ops.drop_first()),
            QueueOp::Pop => pushed(ops.drop_first()),
        }
    }
}

/// Replay a history against a queue holding `q`, exactly as the
/// contracts of `Queue::push` and `Queue::try_pop` describe each step.
/// Yields the queue left behind and the messages the pops observed, in
/// observation order.
pub open spec fn run_queue(q: Seq<Message>, ops: Seq<QueueOp>) -> (Seq<Message>, Seq<Message>)
    decreases ops.len(),
{
    if ops.len() == 0 {
        (q, Seq::empty())
    } else {
        match ops[0] {
            QueueOp::Push(m) => run_queue(q.push(m), ops.drop_first()),
            QueueOp::Pop => {
                if q.len() == 0 {
                    run_queue(q, ops.drop_first())
                } else {
                    let rest = run_queue(q.drop_first(), ops.drop_first());
                    (rest.0, seq![q[0]] + rest.1)
                }
            },
        }
    }
}

/// The queue left behind by a history.
pub open spec fn remaining(q: Seq<Message>, ops: Seq<QueueOp>) -> Seq<Message> {
    run_queue(q, ops).0
}

/// The messages a history's pops observed, in observation order.
pub open spec fn popped(q: Seq<Message>, ops: Seq<QueueOp>) -> Seq<Message> {
    run_queue(q, ops).1
}

/// Global FIFO conservation: replaying any history against a queue
/// holding `q` observes, followed by what is left queued, exactly `q`
/// followed by the pushes in their linearized order. Nothing is lost,
/// nothing is duplicated, and nothing is reordered.
pub proof fn lemma_fifo_conservation(q: Seq<Message>, ops: Seq<QueueOp>)
    ensures
        popped(q, ops) + remaining(q, ops) == q + pushed(ops),
    decreases ops.len(),
{
    if ops.len() == 0 {
        assert(popped(q, ops) + remaining(q, ops) =~= q + pushed(ops));
    } else {
        let rest = ops.drop_first();
        match ops[0] {
            QueueOp::Push(m) => {
                lemma_fifo_conservation(q.push(m), rest);
                assert(q.push(m) =~= q + seq![m]);
                assert((q + seq![m]) + pushed(rest) =~= q + (seq![m] + pushed(rest)));
            },
            QueueOp::Pop => {
                if q.len() == 0 {
                    lemma_fifo_conservation(q, rest);
                } else {
                    lemma_fifo_conservation(q.drop_first(), rest);
                    assert((seq![q[0]] + popped(q.drop_first(), rest)) + remaining(
                        q.drop_first(),
                        rest,
                    ) =~= seq![q[0]] + (popped(q.drop_first(), rest) + remaining(
                        q.drop_first(),
                        rest,
                    )));
                    assert(seq![q[0]] + (q.drop_first() + pushed(rest)) =~= q + pushed(rest));
                }
            },
        }
    }
}

/// No loss, no duplication: over any history starting from an empty
/// queue, the multiset of messages the pops observed plus the multiset
/// still queued is exactly the multiset of messages pushed. When the
/// history drains the queue, the observed messages are exactly the
/// pushed messages, in their pushed order.
pub proof fn lemma_no_loss_no_duplication(ops: Seq<QueueOp>)
    ensures
        popped(Seq::empty(), ops).to_multiset().add(remaining(Seq::empty(), ops).to_multiset())
            == pushed(ops).to_multiset(),
        remaining(Seq::empty(), ops).len() == 0 ==> popped(Seq::empty(), ops) == pushed(ops),
{
    let e = Seq::<Message>::empty();
    lemma_fifo_conservation(e, ops);
    lemma_multiset_commutative(popped(e, ops), remaining(e, ops));
    assert(e + pushed(ops) =~= pushed(ops));
    assert((popped(e, ops) + remaining(e, ops)).to_multiset() == pushed(ops).to_multiset());
    if remaining(e, ops).len() == 0 {
        assert(popped(e, ops) + remaining(e, ops) =~= popped(e, ops));
    }
}

/// The history in which each of these messages is pushed once, in order.
pub open spec fn pushes_of(ms: Seq<Message>) -> Seq<QueueOp> {
    ms.map_values(|m: Message| QueueOp::Push(m))
}

/// A history of `n` consecutive pops.
pub open spec fn pops(n: nat) -> Seq<QueueOp> {
    Seq::new(n, |i: int| QueueOp::Pop)
}

/// Replaying one history after another is replaying their
/// concatenation: the second starts from the queue the first left, and
/// the observations concatenate.
pub proof fn lemma_run_queue_append(q: Seq<Message>, a: Seq<QueueOp>, b: Seq<QueueOp>)
    ensures
        remaining(q, a + b) == remaining(remaining(q, a), b),
        popped(q, a + b) == popped(q, a) + popped(remaining(q, a), b),
    decreases a.len(),
{
    if a.len() == 0 {
        assert(a + b =~= b);
        assert(popped(q, a) + popped(q, b) =~= popped(q, b));
    } else {
        assert((a + b).drop_first() =~= a.drop_first() + b);
        assert((a + b)[0] == a[0]);
        match a[0] {
            QueueOp::Push(m) => {
                lemma_run_queue_append(q.push(m), a.drop_first(), b);
            },
            QueueOp::Pop => {
                if q.len() == 0 {
                    lemma_run_queue_append(q, a.drop_first(), b);
                } else {
                    lemma_run_queue_append(q.drop_first(), a.drop_first(), b);
                    let qd = q.drop_first();
                    let ad = a.drop_first();
                    assert((seq![q[0]] + popped(qd, ad)) + popped(remaining(qd, ad), b)
                        =~= seq![q[0]] + (popped(qd, ad) + popped(remaining(qd, ad), b)));
                }
            },
        }
    }
}

/// Pushing a batch of messages pops nothing and appends them in order.
proof fn lemma_push_phase(q: Seq<Message>, ms: Seq<Message>)
    ensures
        remaining(q, pushes_of(ms)) == q + ms,
        popped(q, pushes_of(ms)) == Seq::<Message>::empty(),
    decreases ms.len(),
{
    if ms.len() == 0 {
        assert(remaining(q, pushes_of(ms)) =~= q + ms);
    } else {
        assert(pushes_of(ms).drop_first() =~= pushes_of(ms.drop_first()));
        lemma_push_phase(q.push(ms[0]), ms.drop_first());
        assert(q.push(ms[0]) + ms.drop_first() =~= q + ms);
    }
}

/// Popping as many times as the queue is long drains it, observing
/// every message in queue order.
proof fn lemma_pop_phase(q: Seq<Message>)
    ensures
        remaining(q, pops(q.len())) == Seq::<Message>::empty(),
        popped(q, pops(q.len())) == q,
    decreases q.len(),
{
    if q.len() == 0 {
        assert(remaining(q, pops(0)) =~= Seq::<Message>::empty());
    } else {
        assert(pops(q.len()).drop_first() =~= pops(q.drop_first().len()));
        lemma_pop_phase(q.drop_first());
        assert(seq![q[0]] + q.drop_first() =~= q);
    }
}

/// Wakeup coalescing strands nothing: however many wakeup signals for
/// these pushes were coalesced into one, a loop that re-polls on that
/// one signal and drains with as many pops as messages were pushed
/// observes every pushed message, in order, and leaves the queue empty.
pub proof fn lemma_coalesced_wakeup_drains(ms: Seq<Message>)
    ensures
        remaining(Seq::empty(), pushes_of(ms) + pops(ms.len())) == Seq::<Message>::empty(),
        popped(Seq::empty(), pushes_of(ms) + pops(ms.len())) == ms,
{
    let e = Seq::<Message>::empty();
    lemma_run_queue_append(e, pushes_of(ms), pops(ms.len()));
    lemma_push_phase(e, ms);
    assert(e + ms =~= ms);
    lemma_pop_phase(ms);
    assert(popped(e, pushes_of(ms)) + ms =~= ms);
}

/// The messages of one producer, in the order they stand in `s`.
pub open spec fn of_producer(s: Seq<Message>, token: u64) -> Seq<Message> {
    s.filter(|m: Message| m.token == token)
}

/// Per-producer FIFO: over any history starting from an empty queue,
/// the messages of one producer are observed by the pops in the same
/// relative order that producer pushed them — the observed subsequence
/// is a prefix of the pushed subsequence.
pub proof fn lemma_per_producer_fifo(ops: Seq<QueueOp>, token: u64)
    ensures
        of_producer(popped(Seq::empty(), ops), token).is_prefix_of(
            of_producer(pushed(ops), token),
        ),
{
    let e = Seq::<Message>::empty();
    lemma_fifo_conservation(e, ops);
    assert(e + pushed(ops) =~= pushed(ops));
    let obs = popped(e, ops);
    let left = remaining(e, ops);
    assert(obs + left == pushed(ops));
    Seq::<Message>::filter_distributes_over_add(obs, left, |m: Message| m.token == token);
    assert(of_producer(obs, token) + of_producer(left, token) == of_producer(pushed(ops), token));
    let a = of_producer(obs, token);
    let b = of_producer(left, token);
    assert((a + b).subrange(0, a.len() as int) =~= a);
}

} // verus!
