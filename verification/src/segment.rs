//! Layout segments. A segment carries the page it sits on and an opaque
//! body (geometry and type fields, passed through from the layout model
//! untouched); only the page number is ever read or rewritten here.

use vstd::prelude::*;

verus! {

/// One layout element of the analysed document.
#[derive(Clone, Debug, PartialEq, Eq)]
pub struct Segment {
    /// Before aggregation: the page within the segment's batch (0-based).
    /// After aggregation: the page within the whole document.
    pub page_number: u32,
    /// The rest of the model's output for this element, opaque to the
    /// pipeline and preserved verbatim.
    pub body: String,
}

impl Segment {
    /// The same segment moved `off` pages later.
    pub open spec fn spec_offset(self, off: int) -> Segment {
        Segment { page_number: (self.page_number + off) as u32, body: self.body }
    }

    /// Moves the segment `off` pages later, preserving its body.
    pub fn with_offset(&self, off: u32) -> (r: Segment)
        requires
            self.page_number + off <= u32::MAX,
        ensures
            r == self.spec_offset(off as int),
    {
        Segment { page_number: self.page_number + off, body: self.body.clone() }
    }
}

/// A whole batch of segments moved `off` pages later.
pub open spec fn offset_batch(b: Seq<Segment>, off: int) -> Seq<Segment> {
    b.map_values(|s: Segment| s.spec_offset(off))
}

} // verus!
