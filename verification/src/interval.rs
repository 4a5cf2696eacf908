//! The sampling granularity a chart is drawn at.

use vstd::prelude::*;

verus! {

/// Sampling granularity of the requested data. Compared by value; every
/// consumer handles all three variants.
#[derive(Clone, Copy, PartialEq, Eq, Structural, Debug)]
pub enum Interval {
    Day,
    Hour,
    Minute,
}

} // verus!
