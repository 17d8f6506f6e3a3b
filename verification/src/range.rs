//! Half-open intervals over 64-bit addresses.

use vstd::prelude::*;

verus! {

/// A range of memory: the half-open interval `[min, max)`.
///
/// Ranges compare equal iff both endpoints match, and order first by `min`,
/// then by `max`. A range may be degenerate (`max < min`); its length then
/// saturates to zero rather than underflowing.
#[derive(Debug, Copy, Clone, Eq, PartialEq, Ord, PartialOrd, Structural)]
pub struct MRange {
    /// The start
    pub min: u64,
    /// The end
    pub max: u64,
}

impl MRange {
    pub(crate) fn new(start: u64, end: u64) -> (r: Self)
        ensures
            r.min == start,
            r.max == end,
    {
        Self { min: start, max: end }
    }

    /// The length of this range: `max - min`, saturating at zero.
    pub open spec fn spec_len(self) -> u64 {
        if self.min <= self.max {
            (self.max - self.min) as u64
        } else {
            0
        }
    }

    /// Return the length of this range
    pub fn len(&self) -> (r: u64)
        ensures
            r == self.spec_len(),
            self.max < self.min ==> r == 0,
    {
        self.max.saturating_sub(self.min)
    }

    /// Whether an address falls within the half-open interval.
    pub open spec fn spec_contains(self, addr: u64) -> bool {
        self.min <= addr < self.max
    }

    /// Whether an address falls within this range.
    pub fn contains(&self, addr: u64) -> (r: bool)
        ensures
            r == self.spec_contains(addr),
    {
        self.min <= addr && addr < self.max
    }

    /// Whether this range and `other` share at least one address: the probe
    /// operation for overlap queries against a range collection.
    pub fn overlaps(&self, other: &MRange) -> (r: bool)
        ensures
            r == exists|addr: u64| #[trigger]
                self.spec_contains(addr) && other.spec_contains(addr),
    {
        let r = self.min < other.max && other.min < self.max && self.min < self.max && other.min
            < other.max;
        proof {
            if r {
                let lo = if self.min >= other.min {
                    self.min
                } else {
                    other.min
                };
                assert(self.spec_contains(lo) && other.spec_contains(lo));
            }
        }
        r
    }
}

impl From<(u64, u64)> for MRange {
    fn from(range: (u64, u64)) -> (r: Self) {
        Self::new(range.0, range.1)
    }
}

impl vstd::std_specs::convert::FromSpecImpl<(u64, u64)> for MRange {
    open spec fn obeys_from_spec() -> bool {
        true
    }

    open spec fn from_spec(range: (u64, u64)) -> Self {
        MRange { min: range.0, max: range.1 }
    }
}

} // verus!
