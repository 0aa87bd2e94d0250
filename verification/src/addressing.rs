//! Address ranges on a 16-bit bus.

use vstd::prelude::*;

verus! {

/// An inclusive range `[start, end]` of 16-bit bus addresses.
///
/// A range is only valid when `start <= end`; constructing an inverted range
/// is a caller error and is ruled out by `new`'s precondition.
pub struct AddressRange {
    pub start: u16,
    pub end: u16,
}

impl AddressRange {
    /// Does this range contain the address `a`?
    pub open spec fn spec_contains(self, a: u16) -> bool {
        self.start <= a <= self.end
    }

    /// A well-formed range runs upward.
    pub open spec fn wf(self) -> bool {
        self.start <= self.end
    }

    pub fn new(start: u16, end: u16) -> (r: AddressRange)
        requires
            start <= end,
        ensures
            r.start == start,
            r.end == end,
            r.wf(),
    {
        AddressRange { start, end }
    }
}

} // verus!
