//! The order of prices: by their ticks.

use core::cmp::Ordering;
use vstd::prelude::*;
use crate::market_data::Price;

verus! {

impl PartialOrd for Price {
    /// Compares two prices by their ticks; any two prices compare.
    fn partial_cmp(&self, other: &Price) -> (r: Option<Ordering>) {
        let mine: i64 = self.value();
        let theirs: i64 = other.value();
        if mine < theirs {
            Some(Ordering::Less)
        } else if mine > theirs {
            Some(Ordering::Greater)
        } else {
            Some(Ordering::Equal)
        }
    }
}

impl vstd::std_specs::cmp::PartialOrdSpecImpl for Price {
    open spec fn obeys_partial_cmp_spec() -> bool {
        true
    }

    open spec fn partial_cmp_spec(&self, other: &Price) -> Option<Ordering> {
        if self@ < other@ {
            Some(Ordering::Less)
        } else if self@ > other@ {
            Some(Ordering::Greater)
        } else {
            Some(Ordering::Equal)
        }
    }
}

} // verus!
