//! A fixed-capacity history of samples that evicts its oldest entry on overflow.
use std::collections::VecDeque;
use vstd::prelude::*;

verus! {

/// The last `cap` elements of `s` (all of `s` when it is not longer than `cap`).
pub open spec fn keep_last(s: Seq<u32>, cap: nat) -> Seq<u32> {
    if s.len() > cap {
        s.subrange(s.len() - cap, s.len() as int)
    } else {
        s
    }
}

/// The most recent `min(n, s.len())` elements of the oldest-first sequence `s`,
/// newest first.
pub open spec fn newest_first(s: Seq<u32>, n: nat) -> Seq<u32> {
    let k = if n < s.len() {
        n
    } else {
        s.len()
    };
    Seq::new(k, |i: int| s[s.len() - 1 - i])
}

/// What a ring of capacity `cap` holds, oldest first, after the pushes `xs`
/// (in order) into an empty ring.
pub open spec fn ring_after(cap: nat, xs: Seq<u32>) -> Seq<u32>
    decreases xs.len(),
{
    if xs.len() == 0 {
        Seq::empty()
    } else {
        keep_last(ring_after(cap, xs.drop_last()).push(xs.last()), cap)
    }
}

/// After any sequence of pushes into an empty ring of capacity `cap`, the ring
/// holds exactly the last `min(cap, xs.len())` pushed samples, oldest first; in
/// particular it never holds more than `cap`.
pub proof fn lemma_pushes_keep_last(cap: nat, xs: Seq<u32>)
    ensures
        ring_after(cap, xs) == keep_last(xs, cap),
        ring_after(cap, xs).len() <= cap,
    decreases xs.len(),
{
    if xs.len() > 0 {
        let p = xs.drop_last();
        lemma_pushes_keep_last(cap, p);
        let r = keep_last(p, cap).push(xs.last());
        if p.len() >= cap {
            assert(keep_last(r, cap) =~= keep_last(xs, cap));
        } else {
            assert(r =~= xs);
        }
    }
}

/// Once a ring is full, a push evicts exactly its oldest entry and appends the
/// new sample at the tail.
pub proof fn lemma_full_push_evicts_oldest(s: Seq<u32>, cap: nat, x: u32)
    requires
        s.len() == cap,
        cap > 0,
    ensures
        keep_last(s.push(x), cap) == s.drop_first().push(x),
        keep_last(s.push(x), cap).len() == cap,
{
    assert(keep_last(s.push(x), cap) =~= s.drop_first().push(x));
}

/// History reads return the pushed samples in reverse push order: entry `i`
/// of `history(n)` is the `i`-th most recent push, and there are
/// `min(n, cap, pushes)` entries.
pub proof fn lemma_history_reverses_pushes(cap: nat, xs: Seq<u32>, n: nat)
    ensures
        newest_first(ring_after(cap, xs), n).len() == vstd::math::min(
            vstd::math::min(n as int, cap as int),
            xs.len() as int,
        ),
        forall|i: int|
            0 <= i < newest_first(ring_after(cap, xs), n).len() ==> newest_first(
                ring_after(cap, xs),
                n,
            )[i] == xs[xs.len() - 1 - i],
{
    lemma_pushes_keep_last(cap, xs);
}

/// Before any push, a history read of any length is empty.
pub proof fn lemma_empty_history(cap: nat, n: nat)
    ensures
        newest_first(ring_after(cap, Seq::empty()), n) == Seq::<u32>::empty(),
{
    assert(newest_first(ring_after(cap, Seq::empty()), n) =~= Seq::<u32>::empty());
}

/// After `k < cap` pushes, a history read of `n >= k` samples returns all `k`.
pub proof fn lemma_underfilled_history(cap: nat, xs: Seq<u32>, n: nat)
    requires
        xs.len() < cap,
        n >= xs.len(),
    ensures
        newest_first(ring_after(cap, xs), n).len() == xs.len(),
{
    lemma_pushes_keep_last(cap, xs);
}

/// Ordered buffer of at most `capacity` samples, oldest first.
pub struct HistoryRing {
    buf: VecDeque<u32>,
    capacity: usize,
}

impl View for HistoryRing {
    type V = Seq<u32>;

    closed spec fn view(&self) -> Seq<u32> {
        self.buf@
    }
}

impl HistoryRing {
    /// The fixed maximum number of samples the ring holds.
    pub closed spec fn cap(&self) -> nat {
        self.capacity as nat
    }

    /// The ring never holds more than its capacity.
    pub closed spec fn wf(&self) -> bool {
        self.buf@.len() <= self.capacity
    }

    /// A well-formed ring holds at most `cap()` samples.
    pub proof fn lemma_bounded(&self)
        requires
            self.wf(),
        ensures
            self@.len() <= self.cap(),
    {
    }

    /// An empty ring holding at most `capacity` samples.
    pub fn new(capacity: usize) -> (r: HistoryRing)
        ensures
            r.wf(),
            r@ == Seq::<u32>::empty(),
            r.cap() == capacity,
    {
        HistoryRing { buf: VecDeque::new(), capacity }
    }

    pub fn capacity(&self) -> (r: usize)
        ensures
            r == self.cap(),
    {
        self.capacity
    }

    pub fn len(&self) -> (r: usize)
        requires
            self.wf(),
        ensures
            r == self@.len(),
    {
        self.buf.len()
    }

    /// Appends `sample` at the tail, first evicting the oldest entry when the
    /// ring is full.
    pub fn push(&mut self, sample: u32)
        requires
            old(self).wf(),
        ensures
            final(self).wf(),
            final(self).cap() == old(self).cap(),
            final(self)@ == keep_last(old(self)@.push(sample), old(self).cap()),
            final(self)@.len() <= final(self).cap(),
            old(self)@.len() == old(self).cap() && old(self).cap() > 0 ==> final(self)@
                == old(self)@.drop_first().push(sample),
            old(self)@.len() < old(self).cap() ==> final(self)@ == old(self)@.push(sample),
    {
        if self.capacity == 0 {
            assert(keep_last(self@.push(sample), 0) =~= Seq::<u32>::empty());
            return ;
        }
        if self.buf.len() >= self.capacity {
            self.buf.pop_front();
        }
        self.buf.push_back(sample);
        assert(final(self)@ =~= keep_last(old(self)@.push(sample), old(self).cap()));
    }

    /// The most recent `min(n, len)` samples, newest first; the ring is unchanged.
    pub fn snapshot_tail(&self, n: usize) -> (r: Vec<u32>)
        requires
            self.wf(),
        ensures
            r@ == newest_first(self@, n as nat),
    {
        let len = self.buf.len();
        let k: usize = if n < len {
            n
        } else {
            len
        };
        let mut r: Vec<u32> = Vec::new();
        let mut i: usize = 0;
        while i < k
            invariant
                len == self@.len(),
                k <= len,
                i <= k,
                r@ =~= Seq::new(i as nat, |j: int| self@[len - 1 - j]),
            decreases k - i,
        {
            r.push(self.buf[len - 1 - i]);
            i += 1;
        }
        r
    }

    /// All samples, oldest first.
    pub fn to_vec(&self) -> (r: Vec<u32>)
        requires
            self.wf(),
        ensures
            r@ == self@,
    {
        let mut r: Vec<u32> = Vec::new();
        let mut i: usize = 0;
        while i < self.buf.len()
            invariant
                self.wf(),
                i <= self@.len(),
                r@ =~= self@.take(i as int),
            decreases self@.len() - i,
        {
            r.push(self.buf[i]);
            i += 1;
        }
        assert(self@.take(self@.len() as int) =~= self@);
        r
    }
}

} // verus!
