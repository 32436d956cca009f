use vstd::prelude::*;

verus! {

/// A half-open byte-offset interval `[start, end)` locating a node in source text.
#[derive(Debug, PartialEq, Eq, Structural, Clone, Copy)]
pub struct SrcSpan {
    pub start: u32,
    pub end: u32,
}

impl SrcSpan {
    /// Whether the byte offset `x` lies inside the span.
    pub open spec fn contains_spec(self, x: int) -> bool {
        self.start <= x < self.end
    }

    /// Whether `other` lies entirely within this span.
    pub open spec fn covers(self, other: SrcSpan) -> bool {
        self.start <= other.start && other.end <= self.end
    }

    pub fn new(start: u32, end: u32) -> (r: SrcSpan)
        ensures
            r.start == start,
            r.end == end,
    {
        SrcSpan { start, end }
    }

    pub fn contains(&self, byte_index: u32) -> (r: bool)
        ensures
            r == self.contains_spec(byte_index as int),
    {
        byte_index >= self.start && byte_index < self.end
    }
}

impl Default for SrcSpan {
    fn default() -> (r: SrcSpan)
        ensures
            r.start == 0,
            r.end == 0,
    {
        SrcSpan { start: 0, end: 0 }
    }
}

/// Anything that knows where it stands in the source.
pub trait HasLocation {
    fn location(&self) -> SrcSpan;
}

} // verus!
