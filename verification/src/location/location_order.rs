//! Source locations are ordered by their byte offsets alone.
use vstd::prelude::*;
use core::cmp::Ordering;
use vstd::std_specs::cmp::PartialOrdSpecImpl;
use crate::location::source_location::SourceLocation;

verus! {

/// Locations compare by offset: the one nearer the start of the text is less.
impl PartialOrd for SourceLocation {
    fn partial_cmp(&self, other: &Self) -> (r: Option<Ordering>) {
        if self.offset() < other.offset() {
            Some(Ordering::Less)
        } else if self.offset() > other.offset() {
            Some(Ordering::Greater)
        } else {
            Some(Ordering::Equal)
        }
    }
}

impl PartialOrdSpecImpl for SourceLocation {
    open spec fn obeys_partial_cmp_spec() -> bool {
        true
    }

    open spec fn partial_cmp_spec(&self, other: &Self) -> Option<Ordering> {
        if self.spec_offset() < other.spec_offset() {
            Some(Ordering::Less)
        } else if self.spec_offset() > other.spec_offset() {
            Some(Ordering::Greater)
        } else {
            Some(Ordering::Equal)
        }
    }
}

} // verus!
