//! The shared message queue, the per-loop wakeup notifier, and the
//! producer-facing handle that couples the two: every push enqueues the
//! message and fans a wakeup out to every registered notifier.

use vstd::prelude::*;
use crate::msg::Message;

verus! {

/// Declares crossbeam's unbounded FIFO queue so that it can stand in
/// fields and signatures; values of it are opaque to the verifier.
#[verifier::external_type_specification]
#[verifier::external_body]
#[verifier::reject_recursive_types(T)]
pub struct ExSegQueue<T>(crossbeam::queue::SegQueue<T>);

/// The messages such a queue holds, oldest first.
pub uninterp spec fn seg_queue_elems(q: crossbeam::queue::SegQueue<Message>) -> Seq<Message>;

/// Relies on crossbeam's `SegQueue::new`: creates an empty queue.
#[verifier::external_body]
fn seg_queue_new() -> (q: crossbeam::queue::SegQueue<Message>)
    ensures
        seg_queue_elems(q) == Seq::<Message>::empty(),
{
    crossbeam::queue::SegQueue::new()
}

/// Relies on crossbeam's `SegQueue::push`: appends the element at the
/// tail; it never blocks and never fails.
#[verifier::external_body]
fn seg_queue_push(q: &mut crossbeam::queue::SegQueue<Message>, m: Message)
    ensures
        seg_queue_elems(*final(q)) == seg_queue_elems(*old(q)).push(m),
{
    q.push(m)
}

/// Relies on crossbeam's `SegQueue::pop`: removes and returns the element
/// at the head, or returns nothing when the queue is empty; it never
/// blocks.
#[verifier::external_body]
fn seg_queue_pop(q: &mut crossbeam::queue::SegQueue<Message>) -> (r: Option<Message>)
    ensures
        seg_queue_elems(*old(q)).len() == 0 ==> ({
            &&& r is None
            &&& seg_queue_elems(*final(q)) == seg_queue_elems(*old(q))
        }),
        seg_queue_elems(*old(q)).len() > 0 ==> ({
            &&& r == Some(seg_queue_elems(*old(q))[0])
            &&& seg_queue_elems(*final(q)) == seg_queue_elems(*old(q)).drop_first()
        }),
{
    q.pop()
}

/// A FIFO container of messages, shared by all producers and the one
/// consumer loop. Messages come back out in the exact order they went in,
/// with no loss and no duplication.
pub struct Queue {
    inner: crossbeam::queue::SegQueue<Message>,
}

impl View for Queue {
    type V = Seq<Message>;

    closed spec fn view(&self) -> Seq<Message> {
        seg_queue_elems(self.inner)
    }
}

impl Queue {
    /// Create an empty queue.
    pub fn new() -> (q: Queue)
        ensures
            q@ == Seq::<Message>::empty(),
    {
        Queue { inner: seg_queue_new() }
    }

    /// Enqueue a message at the tail. Never blocks, never fails.
    pub fn push(&mut self, m: Message)
        ensures
            final(self)@ == old(self)@.push(m),
    {
        seg_queue_push(&mut self.inner, m)
    }

    /// Dequeue the oldest message, or return nothing when the queue is
    /// empty. Never blocks either way.
    pub fn try_pop(&mut self) -> (r: Option<Message>)
        ensures
            old(self)@.len() == 0 ==> r is None && final(self)@ == old(self)@,
            old(self)@.len() > 0 ==> ({
                &&& r == Some(old(self)@[0])
                &&& final(self)@ == old(self)@.drop_first()
            }),
    {
        seg_queue_pop(&mut self.inner)
    }

    /// The number of queued messages.
    pub fn len(&self) -> (n: usize)
        ensures
            n == self@.len(),
    {
        let n = seg_queue_len(&self.inner);
        n
    }
}

/// Relies on crossbeam's `SegQueue::len`: the number of elements held.
#[verifier::external_body]
fn seg_queue_len(q: &crossbeam::queue::SegQueue<Message>) -> (n: usize)
    ensures
        n == seg_queue_elems(*q).len(),
{
    q.len()
}

/// A wakeup token bound to exactly one event loop. Signalling it marks
/// that loop for a prompt re-poll; signalling an already-signalled
/// notifier before the signal is consumed coalesces into one wakeup.
#[derive(Clone, Copy, Debug)]
pub struct Notifier {
    /// Names the event loop this token belongs to.
    pub loop_id: u64,
    /// Whether a wakeup has been signalled and not yet consumed.
    pub pending: bool,
}

impl Notifier {
    /// A fresh token for the given loop, with no wakeup pending.
    pub fn new(loop_id: u64) -> (n: Notifier)
        ensures
            n.loop_id == loop_id,
            !n.pending,
    {
        Notifier { loop_id, pending: false }
    }

    /// Signal a wakeup. Coalescing: the token is pending afterwards no
    /// matter how many signals arrived before it is consumed.
    pub fn wakeup(&mut self)
        ensures
            final(self).loop_id == old(self).loop_id,
            final(self).pending,
    {
        self.pending = true;
    }

    /// Consume the pending wakeup, if any, and report whether one had
    /// arrived. The loop must re-poll its queue whenever this is true.
    pub fn consume(&mut self) -> (was: bool)
        ensures
            was == old(self).pending,
            final(self).loop_id == old(self).loop_id,
            !final(self).pending,
    {
        let was = self.pending;
        self.pending = false;
        was
    }
}

/// The producer-facing handle: the shared queue together with the wakeup
/// notifiers of every loop listening on it. Every push enqueues the
/// message and attempts a wakeup on every notifier registered at the time
/// of the push.
pub struct Handle {
    pub queue: Queue,
    pub notifiers: Vec<Notifier>,
}

impl Handle {
    /// Create a new handle over the given queue, with no listeners.
    pub fn new(queue: Queue) -> (h: Handle)
        ensures
            h.queue@ == queue@,
            h.notifiers@ == Seq::<Notifier>::empty(),
    {
        Handle { queue, notifiers: Vec::new() }
    }

    /// Register a loop's wakeup token as a listener on this handle's
    /// queue. Pushes from before the registration are not retroactively
    /// signalled.
    pub fn add_listener(&mut self, notifier: Notifier)
        ensures
            final(self).queue@ == old(self).queue@,
            final(self).notifiers@ == old(self).notifiers@.push(notifier),
    {
        self.notifiers.push(notifier);
    }

    /// Enqueue a message and signal every registered notifier. Never
    /// blocks and never fails.
    pub fn push(&mut self, msg: Message)
        ensures
            final(self).queue@ == old(self).queue@.push(msg),
            final(self).notifiers@.len() == old(self).notifiers@.len(),
            forall|i: int| 0 <= i < old(self).notifiers@.len() ==> {
                &&& (#[trigger] final(self).notifiers@[i]).loop_id == old(self).notifiers@[i].loop_id
                &&& final(self).notifiers@[i].pending
            },
    {
        self.queue.push(msg);
        let n = self.notifiers.len();
        let mut i: usize = 0;
        while i < n
            invariant
                n == self.notifiers@.len(),
                i <= n,
                self.queue@ == old(self).queue@.push(msg),
                self.notifiers@.len() == old(self).notifiers@.len(),
                forall|j: int| 0 <= j < n ==> (#[trigger] self.notifiers@[j]).loop_id
                    == old(self).notifiers@[j].loop_id,
                forall|j: int| 0 <= j < i ==> (#[trigger] self.notifiers@[j]).pending,
            decreases n - i,
        {
            let mut notifier = self.notifiers[i];
            notifier.wakeup();
            self.notifiers.set(i, notifier);
            i += 1;
        }
    }

    /// Dequeue the oldest message without blocking, or return nothing
    /// when the queue is empty.
    pub fn pop(&mut self) -> (r: Option<Message>)
        ensures
            final(self).notifiers@ == old(self).notifiers@,
            old(self).queue@.len() == 0 ==> r is None && final(self).queue@ == old(self).queue@,
            old(self).queue@.len() > 0 ==> ({
                &&& r == Some(old(self).queue@[0])
                &&& final(self).queue@ == old(self).queue@.drop_first()
            }),
    {
        self.queue.try_pop()
    }
}

} // verus!
