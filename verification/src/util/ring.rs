//! Simple audio ring buffer (host-managed, single producer / single consumer).

use vstd::prelude::*;
use std::collections::VecDeque;

verus! {

/// Thin wrapper around VecDeque with `push_many`/`pop_many`.
pub struct AudioRing {
    inner: VecDeque<i16>,
    cap: usize,
}

/// The buffered samples after `samples` are pushed one by one onto `buf`
/// with soft cap `cap`: before each push, a ring holding exactly `cap`
/// samples drops its oldest.
pub open spec fn pushed_all(buf: Seq<i16>, cap: nat, samples: Seq<i16>) -> Seq<i16>
    decreases samples.len(),
{
    if samples.len() == 0 {
        buf
    } else {
        let b = if buf.len() == cap && buf.len() > 0 { buf.subrange(1, buf.len() as int) } else { buf };
        pushed_all(b.push(samples[0]), cap, samples.subrange(1, samples.len() as int))
    }
}

impl AudioRing {
    /// The buffered samples, oldest first.
    pub closed spec fn samples(&self) -> Seq<i16> {
        self.inner@
    }

    /// The soft cap.
    pub closed spec fn capacity(&self) -> nat {
        self.cap as nat
    }

    /// New ring with a soft cap (excess samples are dropped oldest-first).
    pub fn with_capacity(cap: usize) -> (r: Self)
        ensures
            r.samples() == Seq::<i16>::empty(),
            r.capacity() == cap,
    {
        AudioRing { inner: VecDeque::with_capacity(cap), cap }
    }

    /// Push a batch of samples, dropping oldest if the ring overflows.
    pub fn push_many(&mut self, samples: &[i16])
        ensures
            final(self).samples() == pushed_all(old(self).samples(), old(self).capacity(), samples@),
            final(self).capacity() == old(self).capacity(),
    {
        let mut i: usize = 0;
        assert(samples@.subrange(0, samples@.len() as int) =~= samples@);
        while i < samples.len()
            invariant
                i <= samples@.len(),
                self.cap == old(self).cap,
                pushed_all(self.inner@, self.cap as nat, samples@.subrange(i as int, samples@.len() as int))
                    == pushed_all(old(self).inner@, old(self).cap as nat, samples@),
            decreases samples@.len() - i,
        {
            let ghost rest = samples@.subrange(i as int, samples@.len() as int);
            assert(rest.subrange(1, rest.len() as int) =~= samples@.subrange(i + 1, samples@.len() as int));
            if self.inner.len() == self.cap {
                self.inner.pop_front();
            }
            self.inner.push_back(samples[i]);
            i += 1;
        }
        assert(samples@.subrange(samples@.len() as int, samples@.len() as int) =~= Seq::<i16>::empty());
    }

    /// Pop up to `n` samples into `out`, returning how many were written.
    pub fn pop_many(&mut self, out: &mut [i16]) -> (n: usize)
        ensures
            n == (if old(out)@.len() < old(self).samples().len() { old(out)@.len() } else { old(self).samples().len() }),
            final(out)@ == old(self).samples().subrange(0, n as int) + old(out)@.subrange(n as int, old(out)@.len() as int),
            final(self).samples() == old(self).samples().subrange(n as int, old(self).samples().len() as int),
            final(self).capacity() == old(self).capacity(),
    {
        let n = if out.len() < self.inner.len() { out.len() } else { self.inner.len() };
        let mut i: usize = 0;
        while i < n
            invariant
                i <= n,
                n <= old(out)@.len(),
                n <= old(self).inner@.len(),
                out@.len() == old(out)@.len(),
                self.cap == old(self).cap,
                self.inner@ == old(self).inner@.subrange(i as int, old(self).inner@.len() as int),
                forall|j: int| 0 <= j < i ==> #[trigger] out@[j] == old(self).inner@[j],
                forall|j: int| n <= j < out@.len() ==> #[trigger] out@[j] == old(out)@[j],
            decreases n - i,
        {
            let v = self.inner.pop_front();
            match v {
                Some(x) => {
                    out[i] = x;
                },
                None => {},
            }
            i += 1;
        }
        assert(out@ =~= old(self).inner@.subrange(0, n as int) + old(out)@.subrange(n as int, old(out)@.len() as int));
        n
    }

    /// Current samples buffered.
    pub fn len(&self) -> (r: usize)
        ensures
            r == self.samples().len(),
    {
        self.inner.len()
    }

    /// Empty?
    pub fn is_empty(&self) -> (r: bool)
        ensures
            r == (self.samples().len() == 0),
    {
        self.inner.len() == 0
    }
}

/// With a cap of at least one sample, the ring holds the most recent
/// samples: after a push it holds the last `cap` samples (or all, if fewer)
/// of what it held followed by what was pushed, oldest first.
pub proof fn law_ring_keeps_newest(buf: Seq<i16>, cap: nat, samples: Seq<i16>)
    requires
        cap >= 1,
        buf.len() <= cap,
    ensures
        ({
            let all = buf + samples;
            let keep = if all.len() < cap { all.len() } else { cap };
            pushed_all(buf, cap, samples) == all.subrange(all.len() - keep, all.len() as int)
        }),
    decreases samples.len(),
{
    let all = buf + samples;
    if samples.len() == 0 {
        assert(all =~= buf);
        assert(all.subrange(0, all.len() as int) =~= all);
    } else {
        let b = if buf.len() == cap && buf.len() > 0 { buf.subrange(1, buf.len() as int) } else { buf };
        let rest = samples.subrange(1, samples.len() as int);
        law_ring_keeps_newest(b.push(samples[0]), cap, rest);
        let all2 = b.push(samples[0]) + rest;
        let keep = if all.len() < cap { all.len() } else { cap };
        let keep2 = if all2.len() < cap { all2.len() } else { cap };
        if buf.len() == cap {
            assert(all2 =~= all.subrange(1, all.len() as int));
        } else {
            assert(all2 =~= all);
        }
        assert(all2.subrange(all2.len() - keep2, all2.len() as int) =~= all.subrange(all.len() - keep, all.len() as int));
    }
}

} // verus!
