//! Two-lane FIFO of pending work: a high lane and a normal lane.
//!
//! Callers that share one queue between tasks hold it behind a lock; every
//! operation here is a short, non-blocking list manipulation.
use std::collections::VecDeque;
use vstd::prelude::*;
use vstd::seq_lib::lemma_multiset_commutative;

verus! {

/// The lane a work item is queued on.
#[derive(Debug, Clone, Copy, PartialEq, Eq, Structural)]
pub enum Priority {
    High,
    Normal,
}

/// Point-in-time lengths of the two lanes.
#[derive(Debug, Clone, Copy, Default, PartialEq, Eq, Structural)]
pub struct QueueSnapshot {
    pub high_priority: usize,
    pub normal_priority: usize,
}

/// Pending items of the two lanes, each in arrival order.
pub struct MessageQueue<T> {
    high: VecDeque<T>,
    normal: VecDeque<T>,
}

/// The abstract state of a queue: the high lane and the normal lane.
pub struct Lanes<T> {
    pub high: Seq<T>,
    pub normal: Seq<T>,
}

impl<T> View for MessageQueue<T> {
    type V = Lanes<T>;

    closed spec fn view(&self) -> Lanes<T> {
        Lanes { high: self.high@, normal: self.normal@ }
    }
}

/// The lanes after `value` is appended to the lane of `priority`.
pub open spec fn pushed<T>(q: Lanes<T>, priority: Priority, value: T) -> Lanes<T> {
    match priority {
        Priority::High => Lanes { high: q.high.push(value), normal: q.normal },
        Priority::Normal => Lanes { high: q.high, normal: q.normal.push(value) },
    }
}

/// What a drain hands out: the high lane, then the normal lane.
pub open spec fn drained<T>(q: Lanes<T>) -> Seq<T> {
    q.high + q.normal
}

pub open spec fn empty_lanes<T>() -> Lanes<T> {
    Lanes { high: Seq::empty(), normal: Seq::empty() }
}

/// One operation on a shared queue, as some caller performed it.
pub enum QueueOp<T> {
    Push(Priority, T),
    Drain,
}

/// The lanes after `ops`, a sequence of pushes, starting from `q`.
pub open spec fn push_all<T>(q: Lanes<T>, ops: Seq<(Priority, T)>) -> Lanes<T>
    decreases ops.len(),
{
    if ops.len() == 0 {
        q
    } else {
        pushed(push_all(q, ops.drop_last()), ops.last().0, ops.last().1)
    }
}

/// The items of `ops` that went to lane `lane`, in push order.
pub open spec fn lane_items<T>(ops: Seq<(Priority, T)>, lane: Priority) -> Seq<T>
    decreases ops.len(),
{
    if ops.len() == 0 {
        Seq::empty()
    } else if ops.last().0 == lane {
        lane_items(ops.drop_last(), lane).push(ops.last().1)
    } else {
        lane_items(ops.drop_last(), lane)
    }
}

/// Runs `ops` on an empty queue: the lanes at the end, and everything that
/// the drains among `ops` handed out, in order.
pub open spec fn run_ops<T>(ops: Seq<QueueOp<T>>) -> (Lanes<T>, Seq<T>)
    decreases ops.len(),
{
    if ops.len() == 0 {
        (empty_lanes(), Seq::empty())
    } else {
        let (q, out) = run_ops(ops.drop_last());
        match ops.last() {
            QueueOp::Push(p, v) => (pushed(q, p, v), out),
            QueueOp::Drain => (empty_lanes(), out + drained(q)),
        }
    }
}

/// Every item pushed by `ops`, in the order of the pushes.
pub open spec fn pushed_items<T>(ops: Seq<QueueOp<T>>) -> Seq<T>
    decreases ops.len(),
{
    if ops.len() == 0 {
        Seq::empty()
    } else {
        match ops.last() {
            QueueOp::Push(_, v) => pushed_items(ops.drop_last()).push(v),
            QueueOp::Drain => pushed_items(ops.drop_last()),
        }
    }
}

/// Pushing any sequence of items onto an empty queue and then draining it
/// once hands out all high-lane items in push order followed by all
/// normal-lane items in push order, and leaves the queue empty.
pub proof fn lemma_drain_order<T>(ops: Seq<(Priority, T)>)
    ensures
        drained(push_all(empty_lanes(), ops)) == lane_items(ops, Priority::High) + lane_items(
            ops,
            Priority::Normal,
        ),
        push_all(empty_lanes::<T>(), ops).high == lane_items(ops, Priority::High),
        push_all(empty_lanes::<T>(), ops).normal == lane_items(ops, Priority::Normal),
    decreases ops.len(),
{
    if ops.len() > 0 {
        lemma_drain_order(ops.drop_last());
    }
}

/// However the pushes and drains of many callers interleave, each pushed
/// item comes out exactly once: what all drains handed out, together with
/// what is still queued, is the multiset of pushed items. In particular a
/// final drain brings the total handed out to the number of pushes.
pub proof fn lemma_no_loss_no_duplication<T>(ops: Seq<QueueOp<T>>)
    ensures
        (run_ops(ops).1 + drained(run_ops(ops).0)).to_multiset() == pushed_items(ops).to_multiset(),
        run_ops(ops).1.len() + drained(run_ops(ops).0).len() == pushed_items(ops).len(),
        ops.len() > 0 && ops.last() is Drain ==> run_ops(ops).1.to_multiset()
            == pushed_items(ops).to_multiset() && run_ops(ops).1.len() == pushed_items(ops).len(),
    decreases ops.len(),
{
    broadcast use vstd::seq_lib::group_to_multiset_ensures;

    if ops.len() > 0 {
        let prev = ops.drop_last();
        lemma_no_loss_no_duplication(prev);
        let (q, out) = run_ops(prev);
        lemma_multiset_commutative(out, drained(q));
        match ops.last() {
            QueueOp::Push(p, v) => {
                let q2 = pushed(q, p, v);
                lemma_multiset_commutative(out, drained(q2));
                lemma_multiset_commutative(q.high, q.normal);
                lemma_multiset_commutative(q2.high, q2.normal);
                assert(pushed_items(ops) == pushed_items(prev).push(v));
                assert(drained(q2).to_multiset() =~= drained(q).to_multiset().insert(v));
            },
            QueueOp::Drain => {
                let e = empty_lanes::<T>();
                assert(drained(e) =~= Seq::<T>::empty());
                assert(out + drained(q) + drained(e) =~= out + drained(q));
            },
        }
    }
}

impl<T> MessageQueue<T> {
    pub fn new() -> (r: Self)
        ensures
            r@ == empty_lanes::<T>(),
    {
        MessageQueue { high: VecDeque::new(), normal: VecDeque::new() }
    }

    /// Appends `value` to the tail of the lane chosen by `priority`.
    pub fn push(&mut self, priority: Priority, value: T)
        ensures
            final(self)@ == pushed(old(self)@, priority, value),
    {
        match priority {
            Priority::High => self.high.push_back(value),
            Priority::Normal => self.normal.push_back(value),
        }
    }

    /// Removes every queued item: the high lane first, then the normal lane,
    /// each in arrival order. The queue is empty afterwards.
    pub fn drain_ordered(&mut self) -> (r: Vec<T>)
        ensures
            r@ == drained(old(self)@),
            final(self)@ == empty_lanes::<T>(),
    {
        let mut out: Vec<T> = Vec::new();
        while self.high.len() > 0
            invariant
                out@ + self.high@ == old(self)@.high,
                self.normal@ == old(self)@.normal,
            decreases self.high@.len(),
        {
            let ghost before = self.high@;
            match self.high.pop_front() {
                Some(v) => {
                    out.push(v);
                    assert(out@ + self.high@ =~= old(self)@.high) by {
                        assert(before =~= seq![v] + self.high@);
                    }
                },
                None => {},
            }
        }
        while self.normal.len() > 0
            invariant
                out@ + self.normal@ == old(self)@.high + old(self)@.normal,
                self.high@ == Seq::<T>::empty(),
            decreases self.normal@.len(),
        {
            let ghost before = self.normal@;
            match self.normal.pop_front() {
                Some(v) => {
                    out.push(v);
                    assert(out@ + self.normal@ =~= old(self)@.high + old(self)@.normal) by {
                        assert(before =~= seq![v] + self.normal@);
                    }
                },
                None => {},
            }
        }
        assert(out@ =~= old(self)@.high + old(self)@.normal);
        assert(self.normal@ =~= Seq::<T>::empty());
        out
    }

    /// Current lane lengths; nothing is removed.
    pub fn snapshot(&self) -> (r: QueueSnapshot)
        ensures
            r.high_priority == self@.high.len(),
            r.normal_priority == self@.normal.len(),
    {
        QueueSnapshot { high_priority: self.high.len(), normal_priority: self.normal.len() }
    }
}

} // verus!
