//! The ordered buffer of encrypted records waiting to be flushed.

use crate::record::Payload;
use std::collections::VecDeque;
use vstd::arithmetic::div_mod::lemma_div_plus_one;
use vstd::prelude::*;

verus! {

/// How many of `len` queued records a drain of up to `n` removes.
pub open spec fn drain_count(len: nat, n: nat) -> nat {
    if n < len { n } else { len }
}

/// The records that a drain of up to `n` returns from queue contents `q`: the oldest ones.
pub open spec fn drained<A>(q: Seq<A>, n: nat) -> Seq<A> {
    q.take(drain_count(q.len(), n) as int)
}

/// The queue contents left after a drain of up to `n` from `q`.
pub open spec fn remaining<A>(q: Seq<A>, n: nat) -> Seq<A> {
    q.skip(drain_count(q.len(), n) as int)
}

/// The groups that draining `q` in drains of up to `k` returns, one drain
/// after another until the queue is empty.
pub open spec fn batches<A>(q: Seq<A>, k: nat) -> Seq<Seq<A>>
    decreases q.len(),
{
    if q.len() == 0 || k == 0 {
        seq![]
    } else {
        seq![drained(q, k)] + batches(remaining(q, k), k)
    }
}

/// Draining records pushed in order, in drains of up to `k` until the queue is
/// empty, returns every record once and in push order, in ceil(n/k) groups:
/// every group but the last holds exactly `k`, the last between 1 and `k`.
pub proof fn lemma_drain_in_batches<A>(q: Seq<A>, k: nat)
    requires
        k > 0,
    ensures
        batches(q, k).flatten() == q,
        batches(q, k).len() == (q.len() + k - 1) / (k as int),
        forall|i: int| 0 <= i < batches(q, k).len() - 1 ==> (#[trigger] batches(q, k)[i]).len() == k,
        q.len() > 0 ==> 1 <= batches(q, k).last().len() <= k,
    decreases q.len(),
{
    if q.len() == 0 {
        assert(batches(q, k).flatten() =~= q);
        assert((k - 1) / (k as int) == 0) by (nonlinear_arith)
            requires k > 0;
    } else {
        let rest = remaining(q, k);
        lemma_drain_in_batches(rest, k);
        let bs = batches(q, k);
        assert(bs.first() == drained(q, k));
        assert(bs.drop_first() =~= batches(rest, k));
        assert(drained(q, k) + rest =~= q);
        if q.len() <= k {
            assert(rest.len() == 0);
            assert((q.len() + k - 1) / (k as int) == 1) by (nonlinear_arith)
                requires 0 < q.len() <= k;
        } else {
            lemma_div_plus_one(rest.len() + k - 1, k as int);
        }
        assert forall|i: int| 0 <= i < bs.len() - 1 implies (#[trigger] bs[i]).len() == k by {
            if i > 0 {
                assert(bs[i] == batches(rest, k)[i - 1]);
            }
        }
    }
}

/// A FIFO queue of encrypted records.
pub struct BatchQueue {
    items: VecDeque<Payload>,
}

impl View for BatchQueue {
    type V = Seq<Payload>;

    closed spec fn view(&self) -> Seq<Payload> {
        self.items@
    }
}

impl BatchQueue {
    /// An empty queue.
    pub fn new() -> (r: BatchQueue)
        ensures
            r@ == Seq::<Payload>::empty(),
    {
        BatchQueue { items: VecDeque::new() }
    }

    /// Appends a record at the back.
    pub fn push(&mut self, record: Payload)
        ensures
            final(self)@ == old(self)@.push(record),
    {
        self.items.push_back(record);
    }

    /// Number of records waiting.
    pub fn len(&self) -> (r: usize)
        ensures
            r == self@.len(),
    {
        self.items.len()
    }

    /// Whether no record is waiting.
    pub fn is_empty(&self) -> (r: bool)
        ensures
            r == (self@.len() == 0),
    {
        self.items.len() == 0
    }

    /// Removes and returns the oldest records, at most `n` of them, oldest first.
    pub fn drain_up_to(&mut self, n: usize) -> (r: Vec<Payload>)
        ensures
            r@ == drained(old(self)@, n as nat),
            final(self)@ == remaining(old(self)@, n as nat),
    {
        let mut out: Vec<Payload> = Vec::new();
        while out.len() < n && self.items.len() > 0
            invariant
                out@.len() <= n,
                out@.len() <= old(self)@.len(),
                out@ == old(self)@.take(out@.len() as int),
                self@ == old(self)@.skip(out@.len() as int),
            decreases self@.len(),
        {
            match self.items.pop_front() {
                Some(item) => {
                    out.push(item);
                },
                None => {},
            }
            assert(out@ =~= old(self)@.take(out@.len() as int));
            assert(self@ =~= old(self)@.skip(out@.len() as int));
        }
        out
    }
}

} // verus!
