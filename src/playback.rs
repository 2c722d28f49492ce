//! The playback gate: a small bounded queue of received samples, and the
//! fill of each output buffer from it, or with silence while the speakers
//! are off.

use vstd::prelude::*;

verus! {

/// The newest `cap` samples of `s` (all of them when there are fewer).
pub open spec fn keep_latest<T>(s: Seq<T>, cap: nat) -> Seq<T> {
    if s.len() > cap {
        s.subrange(s.len() - cap, s.len() as int)
    } else {
        s
    }
}

/// What one output buffer of length `n` holds: the first queued samples,
/// then silence once the queue runs out; silence throughout while the
/// speakers are off.
pub open spec fn output_fill<T>(queued: Seq<T>, n: nat, silence: T, active: bool) -> Seq<T> {
    Seq::new(n, |i: int| if active && i < queued.len() { queued[i] } else { silence })
}

/// How many queued samples one fill of length `n` consumes.
pub open spec fn consumed<T>(queued: Seq<T>, n: nat, active: bool) -> nat {
    if !active {
        0
    } else if queued.len() < n {
        queued.len()
    } else {
        n
    }
}

/// While the speakers are off, a fill writes silence to every sample and
/// consumes nothing, so every buffer of a disabled interval, however long,
/// is silent and the queue stays as it was.
pub proof fn lemma_disabled_output_is_silent<T>(queued: Seq<T>, n: nat, silence: T)
    ensures
        output_fill(queued, n, silence, false) == Seq::new(n, |i: int| silence),
        consumed(queued, n, false) == 0,
        queued.subrange(consumed(queued, n, false) as int, queued.len() as int) == queued,
{
    assert(output_fill(queued, n, silence, false) =~= Seq::new(n, |i: int| silence));
    assert(queued.subrange(0, queued.len() as int) =~= queued);
}

/// Received samples waiting to be played, at most `capacity` of them; when
/// more arrive the oldest are dropped.
pub struct PlaybackQueue<T> {
    samples: Vec<T>,
    capacity: usize,
}

impl<T> View for PlaybackQueue<T> {
    type V = Seq<T>;

    closed spec fn view(&self) -> Seq<T> {
        self.samples@
    }
}

impl<T: Copy> PlaybackQueue<T> {
    pub closed spec fn spec_capacity(&self) -> nat {
        self.capacity as nat
    }

    pub open spec fn wf(&self) -> bool {
        &&& self.spec_capacity() > 0
        &&& self@.len() <= self.spec_capacity()
    }

    /// An empty queue that holds at most `capacity` samples.
    pub fn new(capacity: usize) -> (r: Self)
        requires
            capacity > 0,
        ensures
            r.wf(),
            r@.len() == 0,
            r.spec_capacity() == capacity,
    {
        PlaybackQueue { samples: Vec::new(), capacity }
    }

    pub fn capacity(&self) -> (r: usize)
        ensures
            r == self.spec_capacity(),
    {
        self.capacity
    }

    pub fn len(&self) -> (r: usize)
        ensures
            r == self@.len(),
    {
        self.samples.len()
    }

    /// Appends a received block, then keeps only the newest `capacity`
    /// samples, dropping the late ones.
    pub fn push_frame(&mut self, frame: &[T])
        requires
            old(self).wf(),
        ensures
            final(self).wf(),
            final(self).spec_capacity() == old(self).spec_capacity(),
            final(self)@ == keep_latest(old(self)@ + frame@, old(self).spec_capacity()),
    {
        let ghost all = self@ + frame@;
        let cap = self.capacity;
        let n = frame.len();
        let len = self.samples.len();
        // The oldest samples to drop: `len + n - cap`, when that is positive.
        let skip_old: usize = if n >= cap {
            len
        } else if len > cap - n {
            len - (cap - n)
        } else {
            0
        };
        let skip_new: usize = if n > cap {
            n - cap
        } else {
            0
        };
        let mut kept: Vec<T> = Vec::new();
        let mut i: usize = skip_old;
        while i < len
            invariant
                len == self.samples@.len(),
                skip_old <= i <= len,
                kept@ == self.samples@.subrange(skip_old as int, i as int),
            decreases len - i,
        {
            kept.push(self.samples[i]);
            i = i + 1;
        }
        let mut j: usize = skip_new;
        while j < n
            invariant
                n == frame@.len(),
                len == self.samples@.len(),
                skip_new <= j <= n,
                kept@ == self.samples@.subrange(skip_old as int, len as int) + frame@.subrange(
                    skip_new as int,
                    j as int,
                ),
            decreases n - j,
        {
            kept.push(frame[j]);
            j = j + 1;
        }
        assert(kept@ =~= keep_latest(all, cap as nat));
        self.samples = kept;
    }

    /// Fills one output buffer. While the speakers are off every sample
    /// written is `silence` and the queue is left as it is; while they are
    /// on the buffer takes the oldest queued samples, then `silence` once
    /// the queue runs out, and what was played leaves the queue.
    pub fn fill_output(&mut self, data: &mut [T], silence: T, active: bool)
        requires
            old(self).wf(),
        ensures
            final(self).wf(),
            final(self).spec_capacity() == old(self).spec_capacity(),
            final(data)@ == output_fill(old(self)@, old(data)@.len(), silence, active),
            final(self)@ == old(self)@.subrange(
                consumed(old(self)@, old(data)@.len(), active) as int,
                old(self)@.len() as int,
            ),
            !active ==> forall|i: int| 0 <= i < final(data)@.len() ==> final(data)@[i] == silence,
    {
        let n = data.len();
        let len = self.samples.len();
        let used: usize = if !active {
            0
        } else if len < n {
            len
        } else {
            n
        };
        let mut i: usize = 0;
        while i < n
            invariant
                n == data@.len(),
                len == self.samples@.len(),
                used == consumed(self.samples@, n as nat, active),
                used <= len,
                i <= n,
                forall|k: int|
                    0 <= k < i ==> data@[k] == output_fill(self.samples@, n as nat, silence, active)[k],
            decreases n - i,
        {
            if i < used {
                data[i] = self.samples[i];
            } else {
                data[i] = silence;
            }
            i = i + 1;
        }
        assert(data@ =~= output_fill(self.samples@, n as nat, silence, active));
        let mut rest: Vec<T> = Vec::new();
        let mut j: usize = used;
        while j < len
            invariant
                len == self.samples@.len(),
                used <= j <= len,
                rest@ == self.samples@.subrange(used as int, j as int),
            decreases len - j,
        {
            rest.push(self.samples[j]);
            j = j + 1;
        }
        self.samples = rest;
    }
}

} // verus!
