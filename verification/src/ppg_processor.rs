//! Streaming detrending filter for assembled samples.
//!
//! The filter keeps a sliding window of the most recent
//! [`VALUES_BUFFER_LENGTH`] samples. While the window is still warming up it
//! returns `0`; once full, each new sample yields the signed difference
//! between that sample's ambient-corrected value and the arithmetic mean of
//! the whole current window. Subtracting the window mean removes the slowly
//! varying baseline and leaves the pulsatile part of the signal.

use vstd::arithmetic::div_mod::{lemma_div_by_multiple, lemma_div_is_ordered};
use vstd::prelude::*;

use crate::hrs3300::RawSample;

verus! {

/// Number of samples in a full window.
pub const VALUES_BUFFER_LENGTH: usize = 100;

/// Sum of the ambient-corrected values of a window of samples.
pub open spec fn sum_sums(s: Seq<RawSample>) -> int
    decreases s.len(),
{
    if s.len() == 0 {
        0
    } else {
        sum_sums(s.drop_last()) + s.last().spec_sum()
    }
}

/// The sum of a window is at least zero and at most the number of samples
/// times the largest possible ambient-corrected value.
proof fn lemma_sum_sums_bounds(s: Seq<RawSample>)
    ensures
        0 <= sum_sums(s) <= s.len() * 0xFFFF_FFFF,
    decreases s.len(),
{
    if s.len() > 0 {
        lemma_sum_sums_bounds(s.drop_last());
    }
}

/// A window of samples whose ambient-corrected values are all `v` sums to
/// the window length times `v`.
proof fn lemma_sum_sums_constant(s: Seq<RawSample>, v: u32)
    requires
        forall|i: int| 0 <= i < s.len() ==> #[trigger] s[i].spec_sum() == v,
    ensures
        sum_sums(s) == s.len() * v,
    decreases s.len(),
{
    if s.len() > 0 {
        lemma_sum_sums_constant(s.drop_last(), v);
        assert((s.len() - 1) * v + v == s.len() * v) by (nonlinear_arith);
    }
}

/// Steady-state cancellation: once the window is full, a sample whose
/// ambient-corrected value equals that of every sample already in the
/// window yields a delta of zero. Feeding a constant signal after warm-up
/// therefore returns `0` on every call.
pub proof fn lemma_steady_state(s: Seq<RawSample>, value: RawSample)
    requires
        s.len() == VALUES_BUFFER_LENGTH,
        forall|i: int| 0 <= i < s.len() ==> #[trigger] s[i].spec_sum() == value.spec_sum(),
    ensures
        value.spec_sum() - sum_sums(s) / (VALUES_BUFFER_LENGTH as int) == 0,
{
    lemma_sum_sums_constant(s, value.spec_sum());
    lemma_div_by_multiple(value.spec_sum() as int, VALUES_BUFFER_LENGTH as int);
}

/// A fixed-size sliding-window detrender.
///
/// The buffer always holds the most recent `min(VALUES_BUFFER_LENGTH,
/// samples seen)` samples in arrival order; once full it slides, dropping
/// the oldest sample for each new one. The filter is created once, mutated
/// once per consumed sample, and never shrinks.
pub struct PpgFilter {
    pub values_buffer: Vec<RawSample>,
    pub cursor: usize,
}

impl PpgFilter {
    /// The samples currently in the window, oldest first.
    pub open spec fn window(self) -> Seq<RawSample> {
        self.values_buffer@
    }

    /// The buffer never exceeds the window length, and the fill counter
    /// tracks how many samples it holds.
    pub open spec fn wf(self) -> bool {
        self.values_buffer@.len() <= VALUES_BUFFER_LENGTH && self.cursor
            == self.values_buffer@.len()
    }

    /// An empty filter, still warming up.
    pub fn new() -> (r: Self)
        ensures
            r.wf(),
            r.window().len() == 0,
    {
        PpgFilter { values_buffer: Vec::new(), cursor: 0 }
    }

    /// Feeds one sample and returns the detrended value: `0` while the
    /// window is warming up, and the sample's ambient-corrected value minus
    /// the mean over the entire current window from the call that fills the
    /// window onward. The mean is the integer quotient of the window sum by
    /// the window length.
    pub fn consume_value(&mut self, value: RawSample) -> (r: i64)
        requires
            old(self).wf(),
        ensures
            final(self).wf(),
            old(self).window().len() < VALUES_BUFFER_LENGTH ==> final(self).window() == old(
                self,
            ).window().push(value),
            old(self).window().len() == VALUES_BUFFER_LENGTH ==> final(self).window() == old(
                self,
            ).window().skip(1).push(value),
            final(self).window().len() == VALUES_BUFFER_LENGTH ==> r == value.spec_sum()
                - sum_sums(final(self).window()) / (VALUES_BUFFER_LENGTH as int),
            final(self).window().len() < VALUES_BUFFER_LENGTH ==> r == 0,
    {
        if self.values_buffer.len() >= VALUES_BUFFER_LENGTH {
            self.values_buffer.remove(0);
            proof {
                assert(self.values_buffer@ =~= old(self).window().skip(1));
            }
        }
        self.values_buffer.push(value);
        self.cursor = self.values_buffer.len();

        if self.values_buffer.len() == VALUES_BUFFER_LENGTH {
            proof {
                lemma_sum_sums_bounds(self.values_buffer@);
            }
            let avg = self.get_avg();
            value.get_sum() as i64 - avg
        } else {
            0
        }
    }

    /// The arithmetic mean (integer quotient) of the ambient-corrected
    /// values over the current window.
    pub fn get_avg(&self) -> (r: i64)
        requires
            self.wf(),
            self.window().len() > 0,
        ensures
            r == sum_sums(self.window()) / (self.window().len() as int),
            0 <= r <= 0xFFFF_FFFF,
    {
        let n = self.values_buffer.len();
        let mut total: u64 = 0;
        let mut i: usize = 0;
        while i < n
            invariant
                i <= n,
                n == self.values_buffer@.len(),
                n <= VALUES_BUFFER_LENGTH,
                total == sum_sums(self.values_buffer@.take(i as int)),
                total <= i * 0xFFFF_FFFF,
            decreases n - i,
        {
            let s = self.values_buffer[i].get_sum();
            proof {
                assert(self.values_buffer@.take(i + 1).drop_last() =~= self.values_buffer@.take(
                    i as int,
                ));
            }
            total = total + s as u64;
            i = i + 1;
        }
        proof {
            assert(self.values_buffer@.take(n as int) =~= self.values_buffer@);
            lemma_sum_sums_bounds(self.values_buffer@);
            lemma_div_is_ordered(total as int, n * 0xFFFF_FFFF, n as int);
            lemma_div_by_multiple(0xFFFF_FFFF, n as int);
        }
        (total / (n as u64)) as i64
    }
}

} // verus!
