//! Closed millisecond time intervals and ordered collections of them.

use vstd::prelude::*;

verus! {

/// A closed time interval in milliseconds since the epoch: start, then end.
/// The ordering of the two ends is not checked here; the `Props` builder is
/// the only place that makes the pairs it owns.
#[derive(Clone, Copy, PartialEq, Eq, Structural, Debug)]
pub struct Bounds(pub i64, pub i64);

/// An ordered collection of `Bounds`, insertion order preserved. May be
/// empty, meaning no range has been chosen yet.
pub struct BoundsSet {
    items: Vec<Bounds>,
}

impl View for BoundsSet {
    type V = Seq<Bounds>;

    closed spec fn view(&self) -> Seq<Bounds> {
        self.items@
    }
}

impl BoundsSet {
    /// Makes a set from the given intervals, kept in their order.
    pub fn new(items: Vec<Bounds>) -> (r: BoundsSet)
        ensures
            r@ == items@,
    {
        BoundsSet { items }
    }

    /// How many intervals the set holds.
    pub fn len(&self) -> (r: usize)
        ensures
            r == self@.len(),
    {
        self.items.len()
    }

    /// The interval at the given place.
    pub fn get(&self, i: usize) -> (r: Bounds)
        requires
            i < self@.len(),
        ensures
            r == self@[i as int],
    {
        self.items[i]
    }
}

} // verus!
