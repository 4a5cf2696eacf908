//! The canonical, validated time-range descriptor exchanged between panels.
//!
//! A `Props` carries two calendar dates, two times of day, a sampling
//! interval, a derived single-interval bounds set, and a fixed result-size
//! limit. `Props::build` is the only way to make one, so the bounds can never
//! drift out of step with the dates and times they are derived from.

use vstd::prelude::*;

use crate::bounds::{Bounds, BoundsSet};
use crate::interval::Interval;
use crate::times::{combine_ms, instant_ms, EpochDate, TimeOfDay};

verus! {

/// The fixed cap on the number of results a request may return.
pub const DEFAULT_LIMIT: usize = 1000;

/// A validated time-range request: the dates and times that bound it, the
/// sampling interval, the derived bounds, and the result-size limit.
pub struct Props {
    date_start: EpochDate,
    date_end: EpochDate,
    time_start: TimeOfDay,
    time_end: TimeOfDay,
    interval: Interval,
    bounds: BoundsSet,
    limit: usize,
}

impl Props {
    /// The date the range starts on.
    pub closed spec fn spec_date_start(self) -> EpochDate {
        self.date_start
    }

    /// The date the range ends on.
    pub closed spec fn spec_date_end(self) -> EpochDate {
        self.date_end
    }

    /// The time of day the range starts at.
    pub closed spec fn spec_time_start(self) -> TimeOfDay {
        self.time_start
    }

    /// The time of day the range ends at.
    pub closed spec fn spec_time_end(self) -> TimeOfDay {
        self.time_end
    }

    /// The sampling interval.
    pub closed spec fn spec_interval(self) -> Interval {
        self.interval
    }

    /// The derived bounds.
    pub closed spec fn spec_bounds(self) -> Seq<Bounds> {
        self.bounds@
    }

    /// The result-size limit.
    pub closed spec fn spec_limit(self) -> int {
        self.limit as int
    }

    /// The instant, in milliseconds since the epoch, the range starts at.
    pub open spec fn spec_start_ms(self) -> int {
        instant_ms(self.spec_date_start(), self.spec_time_start())
    }

    /// The instant, in milliseconds since the epoch, the range ends at.
    pub open spec fn spec_end_ms(self) -> int {
        instant_ms(self.spec_date_end(), self.spec_time_end())
    }

    /// The bounds are always the one interval spanning start to end, and the
    /// limit is always the fixed default.
    #[verifier::type_invariant]
    pub open spec fn inv(self) -> bool {
        &&& self.spec_bounds().len() == 1
        &&& self.spec_bounds()[0].0 == self.spec_start_ms()
        &&& self.spec_bounds()[0].1 == self.spec_end_ms()
        &&& self.spec_limit() == DEFAULT_LIMIT
    }

    /// The only way to make a `Props`: takes the raw field values and
    /// recomputes the derived bounds as the single interval from the combined
    /// start instant to the combined end instant.
    pub fn build(
        date_start: EpochDate,
        date_end: EpochDate,
        time_start: TimeOfDay,
        time_end: TimeOfDay,
        interval: Interval,
    ) -> (p: Props)
        ensures
            p.spec_date_start() == date_start,
            p.spec_date_end() == date_end,
            p.spec_time_start() == time_start,
            p.spec_time_end() == time_end,
            p.spec_interval() == interval,
            p.spec_limit() == DEFAULT_LIMIT,
            p.spec_bounds().len() == 1,
            p.spec_bounds()[0].0 == instant_ms(date_start, time_start),
            p.spec_bounds()[0].1 == instant_ms(date_end, time_end),
    {
        let start_ms = combine_ms(date_start, time_start);
        let end_ms = combine_ms(date_end, time_end);
        let mut items: Vec<Bounds> = Vec::new();
        items.push(Bounds(start_ms, end_ms));
        Props {
            date_start,
            date_end,
            time_start,
            time_end,
            interval,
            bounds: BoundsSet::new(items),
            limit: DEFAULT_LIMIT,
        }
    }

    /// True iff the combined start instant is strictly before the combined
    /// end instant; an empty range is as invalid as a reversed one.
    pub fn is_valid(&self) -> (r: bool)
        ensures
            r <==> self.spec_start_ms() < self.spec_end_ms(),
    {
        let start_ms = combine_ms(self.date_start, self.time_start);
        let end_ms = combine_ms(self.date_end, self.time_end);
        start_ms < end_ms
    }

    /// The date the range starts on.
    pub fn date_start(&self) -> (r: EpochDate)
        ensures
            r == self.spec_date_start(),
    {
        self.date_start
    }

    /// The date the range ends on.
    pub fn date_end(&self) -> (r: EpochDate)
        ensures
            r == self.spec_date_end(),
    {
        self.date_end
    }

    /// The time of day the range starts at.
    pub fn time_start(&self) -> (r: TimeOfDay)
        ensures
            r == self.spec_time_start(),
    {
        self.time_start
    }

    /// The time of day the range ends at.
    pub fn time_end(&self) -> (r: TimeOfDay)
        ensures
            r == self.spec_time_end(),
    {
        self.time_end
    }

    /// The sampling interval.
    pub fn interval(&self) -> (r: Interval)
        ensures
            r == self.spec_interval(),
    {
        self.interval
    }

    /// The derived bounds.
    pub fn bounds(&self) -> (r: &BoundsSet)
        ensures
            r@ == self.spec_bounds(),
    {
        &self.bounds
    }

    /// The result-size limit.
    pub fn limit(&self) -> (r: usize)
        ensures
            r == self.spec_limit(),
    {
        self.limit
    }

    /// The instant the range starts at, in milliseconds since the epoch.
    pub fn start_time_ms(&self) -> (r: i64)
        ensures
            r == self.spec_start_ms(),
    {
        combine_ms(self.date_start, self.time_start)
    }

    /// The instant the range ends at, in milliseconds since the epoch.
    pub fn end_time_ms(&self) -> (r: i64)
        ensures
            r == self.spec_end_ms(),
    {
        combine_ms(self.date_end, self.time_end)
    }
}

/// Law: two `Props` that agree on their dates and times of day name the same
/// start and end instants. Unpacking a `Props` into field state and re-parsing
/// those fields therefore reproduces its range exactly.
pub proof fn lemma_same_fields_same_instants(p: Props, q: Props)
    requires
        q.spec_date_start() == p.spec_date_start(),
        q.spec_date_end() == p.spec_date_end(),
        q.spec_time_start() == p.spec_time_start(),
        q.spec_time_end() == p.spec_time_end(),
    ensures
        q.spec_start_ms() == p.spec_start_ms(),
        q.spec_end_ms() == p.spec_end_ms(),
{
}

/// Law: a `Props` whose dates are in order and whose times of day are strictly
/// in order describes a valid range, whatever its interval.
pub proof fn lemma_ordered_fields_give_valid_props(p: Props)
    requires
        p.spec_time_start().inv(),
        p.spec_time_end().inv(),
        p.spec_date_start().spec_days() <= p.spec_date_end().spec_days(),
        p.spec_time_start().ms_of_day() < p.spec_time_end().ms_of_day(),
    ensures
        p.spec_start_ms() < p.spec_end_ms(),
{
    crate::times::lemma_ordered_fields_order_instants(
        p.spec_date_start(),
        p.spec_date_end(),
        p.spec_time_start(),
        p.spec_time_end(),
    );
}

} // verus!
