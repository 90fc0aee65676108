//! Ordering of quantities (scale-strict).

use vstd::prelude::*;
use vstd::std_specs::cmp::PartialOrdSpec;
use crate::quantity::Quantity;

verus! {

impl<T: PartialOrd, Brand> vstd::std_specs::cmp::PartialOrdSpecImpl for Quantity<T, Brand> {
    open spec fn obeys_partial_cmp_spec() -> bool {
        T::obeys_partial_cmp_spec()
    }

    open spec fn partial_cmp_spec(&self, other: &Self) -> Option<core::cmp::Ordering> {
        if self.scale == other.scale && self.dimension == other.dimension {
            self.unsafe_value.partial_cmp_spec(&other.unsafe_value)
        } else {
            None
        }
    }
}

/// Quantities of the same scale and dimension are ordered as their raw values;
/// quantities whose units differ are not comparable.
impl<T: PartialOrd, Brand> PartialOrd for Quantity<T, Brand> {
    fn partial_cmp(&self, other: &Self) -> (r: Option<core::cmp::Ordering>)
        ensures
            !(self.scale == other.scale && self.dimension == other.dimension) ==> r is None,
            (self.scale == other.scale && self.dimension == other.dimension) ==> call_ensures(
                T::partial_cmp,
                (&self.unsafe_value, &other.unsafe_value),
                r,
            ),
    {
        if self.scale == other.scale && self.dimension == other.dimension {
            self.unsafe_value.partial_cmp(&other.unsafe_value)
        } else {
            None
        }
    }
}

} // verus!
