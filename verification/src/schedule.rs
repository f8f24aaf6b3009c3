//! The probe-size schedule shared by both probers.
//!
//! A probe attempts sizes `START_SIZE`, `START_SIZE + INCREMENT`, ... and
//! stops, reporting success, once the next candidate would exceed
//! `MAX_SIZE`.  The schedule is the same for the file-read prober and the
//! allocation prober.

use vstd::prelude::*;

use crate::INCREMENT;
use crate::MAX_SIZE;
use crate::START_SIZE;

verus! {

/// Byte size attempted at (zero-based) step `k` of the schedule.
pub open spec fn attempt_size(k: int) -> int {
    START_SIZE + k * INCREMENT
}

/// Number of schedule steps: candidate sizes are attempted while they do
/// not exceed the ceiling, so this counts the sizes up to and including
/// the last one at most `MAX_SIZE`.
pub open spec fn attempt_count() -> int {
    (MAX_SIZE - START_SIZE) as int / INCREMENT as int + 1
}

/// Monotonic progression law: attempted sizes strictly grow along the
/// schedule, by exactly one increment per step.
pub proof fn lemma_attempt_sizes_monotonic(i: int, j: int)
    requires
        0 <= i < j,
    ensures
        attempt_size(i) < attempt_size(j),
        attempt_size(i + 1) == attempt_size(i) + INCREMENT,
{
}

/// Ceiling law: every scheduled size is at most the ceiling, and the size
/// right after the last scheduled one is the first to exceed it.
pub proof fn lemma_ceiling_inclusive(k: int)
    requires
        0 <= k < attempt_count(),
    ensures
        attempt_size(k) <= MAX_SIZE,
        attempt_size(attempt_count()) > MAX_SIZE,
{
}

/// The probe-size counter a prober runs through: it starts at
/// `START_SIZE` and grows by `INCREMENT` after each successful attempt.
pub struct ProbeSchedule {
    size: u64,
}

impl ProbeSchedule {
    /// Candidate byte size of the current attempt.
    pub closed spec fn size(&self) -> int {
        self.size as int
    }

    /// A fresh schedule, positioned on the first candidate size.
    pub fn new() -> (s: Self)
        ensures
            s.size() == START_SIZE,
    {
        ProbeSchedule { size: START_SIZE }
    }

    /// Candidate byte size of the current attempt.
    pub fn current_size(&self) -> (n: u64)
        ensures
            n == self.size(),
    {
        self.size
    }

    /// True once the candidate size has passed the ceiling, which ends the
    /// probe as a success.
    pub fn ceiling_reached(&self) -> (b: bool)
        ensures
            b == (self.size() > MAX_SIZE),
    {
        self.size > MAX_SIZE
    }

    /// Moves to the next candidate size, after a successful attempt.
    pub fn advance(&mut self)
        requires
            old(self).size() <= MAX_SIZE,
        ensures
            final(self).size() == old(self).size() + INCREMENT,
    {
        self.size = self.size + INCREMENT;
    }
}

} // verus!
