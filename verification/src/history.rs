//! The per-region history buffer: an append-only sequence of state
//! vectors, pre-filled with padding so that delayed lookups made before
//! the delay horizon has elapsed read a configured "repeating-before"
//! value instead of running off the front of the trajectory.

use vstd::prelude::*;
use crate::fixed::div_tz;
use crate::state::StateVector;

verus! {

/// Ceiling division for a non-negative dividend and positive divisor.
pub open spec fn ceil_div(a: int, b: int) -> int {
    if a % b == 0 {
        a / b
    } else {
        a / b + 1
    }
}

/// How many whole steps of size `h` fit into the delay horizon `delay`
/// (both fixed-point): the step distance of a delayed lookup.
pub open spec fn delay_steps(delay: int, h: int) -> int {
    div_tz(delay, h)
}

/// Number of padding entries a buffer needs for the delay horizon
/// `delay` at step size `h`: one more than the rounded-up step count,
/// so a delayed lookup can never leave the buffer.
pub open spec fn pad_len(delay: int, h: int) -> int {
    ceil_div(delay, h) + 1
}

/// The value a delayed lookup yields on a trajectory `s`: the entry
/// `ds` steps behind the newest one.  The newest entry itself
/// (`ds == 0`) and distances beyond the front are failures.
pub open spec fn delayed_spec(s: Seq<StateVector>, ds: int) -> Option<StateVector> {
    if 1 <= ds && ds <= s.len() - 1 {
        Some(s[s.len() - 1 - ds])
    } else {
        None
    }
}

/// An append-only trajectory of state vectors for one region, whose
/// first `padding` entries all hold the repeating-before value.
pub struct HistoryBuffer {
    entries: Vec<StateVector>,
    padding: usize,
    before: StateVector,
}

impl View for HistoryBuffer {
    type V = Seq<StateVector>;

    closed spec fn view(&self) -> Seq<StateVector> {
        self.entries@
    }
}

impl HistoryBuffer {
    /// Number of leading padding entries.
    pub closed spec fn padding_spec(&self) -> int {
        self.padding as int
    }

    /// The repeating-before value the padding was filled with.
    pub closed spec fn before_spec(&self) -> StateVector {
        self.before
    }

    /// Well-formedness: there is at least one entry beyond the padding,
    /// and every padding entry holds the repeating-before value.
    pub open spec fn wf(&self) -> bool {
        &&& 0 <= self.padding_spec() < self@.len()
        &&& forall|i: int| 0 <= i < self.padding_spec() ==> self@[i] == self.before_spec()
    }

    /// Builds a buffer holding `pad_len(delay, h)` copies of `before`
    /// followed by `initial`.  Fails exactly when the horizon or step
    /// size is meaningless (`delay < 0` or `h <= 0`) or the padded
    /// length cannot be addressed on this machine.
    pub fn new(before: StateVector, initial: StateVector, delay: i64, h: i64) -> (r: Option<
        HistoryBuffer,
    >)
        ensures
            r is Some <==> delay >= 0 && h > 0 && pad_len(delay as int, h as int) + 1
                <= usize::MAX,
            r matches Some(hb) ==> {
                &&& hb.wf()
                &&& hb.padding_spec() == pad_len(delay as int, h as int)
                &&& hb.before_spec() == before
                &&& hb@.len() == pad_len(delay as int, h as int) + 1
                &&& hb@.last() == initial
            },
    {
        if delay < 0 || h <= 0 {
            return None;
        }
        let du: u64 = delay as u64;
        let hu: u64 = h as u64;
        let q: u64 = du / hu;
        let rem: u64 = du % hu;
        let pad: u64 = q + (if rem == 0 { 0 } else { 1 }) + 1;
        assert(pad == pad_len(delay as int, h as int));
        if pad > usize::MAX as u64 - 1 {
            return None;
        }
        let pad_count: usize = pad as usize;
        let mut entries: Vec<StateVector> = Vec::new();
        let mut i: usize = 0;
        while i < pad_count
            invariant
                i <= pad_count,
                entries@.len() == i,
                forall|j: int| 0 <= j < i ==> entries@[j] == before,
            decreases pad_count - i,
        {
            entries.push(before);
            i = i + 1;
        }
        entries.push(initial);
        Some(HistoryBuffer { entries, padding: pad_count, before })
    }

    /// Appends one finalized step.
    pub fn push(&mut self, v: StateVector)
        requires
            old(self).wf(),
        ensures
            final(self).wf(),
            final(self)@ == old(self)@.push(v),
            final(self).padding_spec() == old(self).padding_spec(),
            final(self).before_spec() == old(self).before_spec(),
    {
        self.entries.push(v);
    }

    /// Number of entries, padding included.
    pub fn len(&self) -> (n: usize)
        ensures
            n == self@.len(),
    {
        self.entries.len()
    }

    /// Number of leading padding entries.
    pub fn padding_len(&self) -> (n: usize)
        ensures
            n == self.padding_spec(),
    {
        self.padding
    }

    /// The repeating-before value.
    pub fn repeating_before(&self) -> (r: StateVector)
        ensures
            r == self.before_spec(),
    {
        self.before
    }

    /// The newest finalized entry.
    pub fn current(&self) -> (r: StateVector)
        requires
            self@.len() >= 1,
        ensures
            r == self@.last(),
    {
        self.entries[self.entries.len() - 1]
    }

    /// The entry `ds` steps behind the newest one, as [`delayed_spec`].
    pub fn delayed(&self, ds: u64) -> (r: Option<StateVector>)
        ensures
            r == delayed_spec(self@, ds as int),
    {
        if ds < 1 {
            return None;
        }
        if ds >= self.entries.len() as u64 {
            return None;
        }
        let idx: usize = self.entries.len() - 1 - (ds as usize);
        Some(self.entries[idx])
    }

    /// Hands the trajectory out with the padding stripped.
    pub fn into_trimmed(self) -> (r: Vec<StateVector>)
        requires
            self.wf(),
        ensures
            r@ == self@.subrange(self.padding_spec(), self@.len() as int),
    {
        let mut out: Vec<StateVector> = Vec::new();
        let mut i: usize = self.padding;
        while i < self.entries.len()
            invariant
                self.padding <= i <= self.entries@.len(),
                out@ == self.entries@.subrange(self.padding as int, i as int),
            decreases self.entries@.len() - i,
        {
            out.push(self.entries[i]);
            assert(out@ == self.entries@.subrange(self.padding as int, i + 1));
            i = i + 1;
        }
        out
    }
}

/// A delayed lookup made strictly before the delay horizon has elapsed
/// — fewer finalized steps than the lookup distance — lands inside the
/// padding: it yields exactly the repeating-before value, never an
/// out-of-range read.
pub proof fn lemma_delayed_reads_padding(hb: HistoryBuffer, ds: int)
    requires
        hb.wf(),
        1 <= ds <= hb.padding_spec(),
        hb@.len() - 1 - hb.padding_spec() < ds,
    ensures
        delayed_spec(hb@, ds) == Some(hb.before_spec()),
{
    assert(hb@.len() - 1 - ds < hb.padding_spec());
}

/// The floor step count of a delayed lookup never exceeds the rounded-up
/// step count the padding was sized with, so a buffer's padding always
/// covers its own delay horizon.
pub proof fn lemma_delay_steps_le_pad(delay: int, h: int)
    requires
        delay >= 0,
        h > 0,
    ensures
        delay_steps(delay, h) <= pad_len(delay, h) - 1,
{
}

/// On a buffer padded for its own delay horizon, a delayed lookup at
/// that horizon's step distance is always answered: by construction it
/// can never run off the front of the trajectory.
pub proof fn lemma_delayed_lookup_in_range(hb: HistoryBuffer, delay: int, h: int)
    requires
        hb.wf(),
        delay >= 0,
        h > 0,
        hb.padding_spec() == pad_len(delay, h),
        1 <= delay_steps(delay, h),
    ensures
        delayed_spec(hb@, delay_steps(delay, h)) is Some,
{
    lemma_delay_steps_le_pad(delay, h);
}

} // verus!
