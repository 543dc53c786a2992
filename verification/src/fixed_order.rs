//! Ordering and absolute value of fixed-point numbers.

use crate::fixed::Fixed;
use crate::util::Abs;
use std::cmp::Ordering;
use vstd::prelude::*;
use vstd::std_specs::cmp::PartialOrdSpecImpl;

verus! {

impl PartialOrd for Fixed {
    /// Fixed-point numbers are ordered as their raw counts are.
    fn partial_cmp(&self, other: &Fixed) -> (r: Option<Ordering>) {
        if self.raw < other.raw {
            Some(Ordering::Less)
        } else if self.raw > other.raw {
            Some(Ordering::Greater)
        } else {
            Some(Ordering::Equal)
        }
    }
}

impl PartialOrdSpecImpl for Fixed {
    open spec fn obeys_partial_cmp_spec() -> bool {
        true
    }

    open spec fn partial_cmp_spec(&self, other: &Fixed) -> Option<Ordering> {
        if self.raw < other.raw {
            Some(Ordering::Less)
        } else if self.raw > other.raw {
            Some(Ordering::Greater)
        } else {
            Some(Ordering::Equal)
        }
    }
}

impl Abs for Fixed {
    /// The magnitude is clamped, so it exists for every number.
    open spec fn abs_defined(self) -> bool {
        true
    }

    open spec fn abs_spec(self) -> Fixed {
        self.spec_magnitude()
    }

    fn abs(self) -> (r: Fixed) {
        self.magnitude()
    }
}

} // verus!
