//! A half-open index interval over a box sequence.

use vstd::prelude::*;

verus! {

/// A half-open interval `[begin, begin + length)` of indices into a box
/// sequence. The interval is meaningful only relative to one specific box
/// sequence snapshot; it becomes stale the instant that sequence is
/// regenerated.
#[derive(Clone, Copy, PartialEq, Eq, Structural, Debug)]
pub struct IndexRange {
    /// Index of the first box of the interval.
    pub begin: usize,
    /// Number of boxes in the interval (possibly zero).
    pub length: usize,
}

impl IndexRange {
    /// True when the interval's one-past-the-end index fits the machine word.
    pub open spec fn wf(self) -> bool {
        self.begin + self.length <= usize::MAX
    }

    /// One-past-the-end index of the interval, as a mathematical integer.
    pub open spec fn spec_end(self) -> int {
        self.begin + self.length
    }

    /// Builds the interval `[begin, begin + length)`.
    pub fn new(begin: usize, length: usize) -> (r: IndexRange)
        requires
            begin + length <= usize::MAX,
        ensures
            r == (IndexRange { begin, length }),
    {
        IndexRange { begin, length }
    }

    /// Index of the first box of the interval.
    pub fn begin(&self) -> (r: usize)
        ensures
            r == self.begin,
    {
        self.begin
    }

    /// Number of boxes in the interval.
    pub fn length(&self) -> (r: usize)
        ensures
            r == self.length,
    {
        self.length
    }

    /// One-past-the-end index of the interval.
    pub fn end(&self) -> (r: usize)
        requires
            self.wf(),
        ensures
            r == self.spec_end(),
    {
        self.begin + self.length
    }
}

} // verus!
