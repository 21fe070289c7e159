//! Half-open integer ranges from which positions and speeds are drawn.

use vstd::prelude::*;
use crate::chance::random_between;

verus! {

/// The range `low <= v < high`.
#[derive(Clone, Copy, Debug, PartialEq, Eq)]
pub struct Span {
    pub low: i64,
    pub high: i64,
}

impl Span {
    /// A span is well formed when it holds at least one value.
    pub open spec fn wf(&self) -> bool {
        self.low < self.high
    }

    /// Whether `v` lies in the span.
    pub open spec fn contains(&self, v: int) -> bool {
        self.low <= v < self.high
    }

    /// The span `low <= v < high`, or `None` where that range is empty.
    pub fn new(low: i64, high: i64) -> (r: Option<Span>)
        ensures
            r == (if low < high { Some((Span { low, high })) } else { None }),
    {
        if low < high {
            Some(Span { low, high })
        } else {
            None
        }
    }

    /// Whether `v` lies in the span.
    pub fn holds(&self, v: i64) -> (b: bool)
        ensures
            b == self.contains(v as int),
    {
        self.low <= v && v < self.high
    }

    /// A value of the span, chosen at random. Nothing is promised of which.
    pub fn draw(&self) -> (v: i64)
        requires
            self.wf(),
        ensures
            self.contains(v as int),
    {
        random_between(self.low, self.high)
    }
}

} // verus!
