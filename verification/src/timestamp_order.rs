use vstd::prelude::*;

use core::cmp::Ordering;
use vstd::std_specs::cmp::PartialOrdIs;
use vstd::std_specs::cmp::PartialOrdSpecImpl;

use crate::ids::Timestamp;

verus! {

/// Timestamps are ordered by their milliseconds.
impl PartialOrd for Timestamp {
    fn partial_cmp(&self, other: &Self) -> (r: Option<Ordering>) {
        if self.0 < other.0 {
            Some(Ordering::Less)
        } else if self.0 > other.0 {
            Some(Ordering::Greater)
        } else {
            Some(Ordering::Equal)
        }
    }
}

impl PartialOrdSpecImpl for Timestamp {
    open spec fn obeys_partial_cmp_spec() -> bool {
        true
    }

    open spec fn partial_cmp_spec(&self, other: &Self) -> Option<Ordering> {
        if self.0 < other.0 {
            Some(Ordering::Less)
        } else if self.0 > other.0 {
            Some(Ordering::Greater)
        } else {
            Some(Ordering::Equal)
        }
    }
}

/// Timestamps compare exactly as the milliseconds they are made from: one is earlier than
/// another exactly when its milliseconds are fewer, and two are equal exactly when their
/// milliseconds are.
pub proof fn law_timestamps_order_as_their_milliseconds(a: i64, b: i64)
    ensures
        Timestamp(a).is_lt(&Timestamp(b)) <==> a < b,
        Timestamp(a).is_le(&Timestamp(b)) <==> a <= b,
        (Timestamp(a) == Timestamp(b)) <==> a == b,
{
}

} // verus!
