use vstd::prelude::*;
use vstd::std_specs::convert::FromSpecImpl;
use std::ops::Range;
use crate::registers::BitSize;

verus! {

/// A range of addresses with both ends included. A range whose end lies
/// below its start holds no address.
#[derive(Copy, Clone, Debug, PartialEq, Eq, Structural)]
pub struct AddressRange {
    pub start: BitSize,
    pub end: BitSize,
}

impl AddressRange {
    /// Whether the range holds at least one address.
    pub open spec fn well_formed(self) -> bool {
        self.start <= self.end
    }

    /// Whether `addr` lies in the range.
    pub open spec fn contains(self, addr: int) -> bool {
        self.start <= addr <= self.end
    }

    /// The page that holds the first address of the range.
    pub open spec fn first_page(self) -> int {
        self.start as int / 4096
    }

    /// The page that holds the last address of the range.
    pub open spec fn last_page(self) -> int {
        self.end as int / 4096
    }

    /// Whether some address of the range lies in page `page`.
    pub open spec fn covers_page(self, page: int) -> bool {
        self.well_formed() && self.first_page() <= page <= self.last_page()
    }

    /// The range `a..=a`.
    pub fn single(a: BitSize) -> (r: AddressRange)
        ensures
            r == (AddressRange { start: a, end: a }),
    {
        AddressRange { start: a, end: a }
    }

    /// The range `start..end`, its end excluded: `start..=end-1`, with the
    /// subtraction stopping at zero.
    pub fn exclusive(start: BitSize, end: BitSize) -> (r: AddressRange)
        ensures
            r.start == start,
            r.end as int == if end == 0 { 0int } else { end - 1 },
    {
        AddressRange { start, end: if end == 0 { 0 } else { end - 1 } }
    }

    /// The range `start..=end`.
    pub fn inclusive(start: BitSize, end: BitSize) -> (r: AddressRange)
        ensures
            r == (AddressRange { start, end }),
    {
        AddressRange { start, end }
    }

    /// The range `..end`: `0..=end-1`, with the subtraction stopping at zero.
    pub fn up_to(end: BitSize) -> (r: AddressRange)
        ensures
            r.start == 0,
            r.end as int == if end == 0 { 0int } else { end - 1 },
    {
        AddressRange { start: 0, end: if end == 0 { 0 } else { end - 1 } }
    }

    /// The range `..=end`.
    pub fn up_to_inclusive(end: BitSize) -> (r: AddressRange)
        ensures
            r == (AddressRange { start: 0, end }),
    {
        AddressRange { start: 0, end }
    }

    /// The range `start..`, up to the last address.
    pub fn starting_at(start: BitSize) -> (r: AddressRange)
        ensures
            r == (AddressRange { start, end: BitSize::MAX }),
    {
        AddressRange { start, end: BitSize::MAX }
    }

    /// The range `..`: every address.
    pub fn full() -> (r: AddressRange)
        ensures
            r == (AddressRange { start: 0, end: BitSize::MAX }),
    {
        AddressRange { start: 0, end: BitSize::MAX }
    }
}

impl From<BitSize> for AddressRange {
    fn from(value: BitSize) -> (r: AddressRange) {
        AddressRange::single(value)
    }
}

impl FromSpecImpl<BitSize> for AddressRange {
    open spec fn obeys_from_spec() -> bool {
        true
    }

    open spec fn from_spec(value: BitSize) -> AddressRange {
        AddressRange { start: value, end: value }
    }
}

impl From<Range<BitSize>> for AddressRange {
    fn from(value: Range<BitSize>) -> (r: AddressRange) {
        AddressRange::exclusive(value.start, value.end)
    }
}

impl FromSpecImpl<Range<BitSize>> for AddressRange {
    open spec fn obeys_from_spec() -> bool {
        true
    }

    open spec fn from_spec(value: Range<BitSize>) -> AddressRange {
        AddressRange {
            start: value.start,
            end: if value.end == 0 { 0u32 } else { (value.end - 1) as u32 },
        }
    }
}

} // verus!
