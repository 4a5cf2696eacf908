//! Calendar dates, times of day, and the millisecond instants they name.
//!
//! A date is held as a count of whole days since the Unix epoch, a time of day
//! as hour, minute and second. Combining a date with a time of day gives an
//! absolute instant in milliseconds since the epoch, the unit every range in
//! this crate is measured in.

use vstd::prelude::*;

verus! {

/// Milliseconds in one civil day.
pub const MS_PER_DAY: i64 = 86_400_000;

/// Largest day count, in either direction from the epoch, that a date may
/// hold. It keeps every combined instant well inside `i64` milliseconds.
pub const MAX_ABS_EPOCH_DAYS: i64 = 100_000_000;

/// A calendar date, as a count of whole days since 1970-01-01 (UTC).
/// Day counts are ordered exactly as the calendar dates they stand for.
#[derive(Clone, Copy, PartialEq, Eq, Structural, Debug)]
pub struct EpochDate {
    days: i64,
}

impl EpochDate {
    /// The day count the date stands for.
    pub closed spec fn spec_days(self) -> int {
        self.days as int
    }

    /// Every date lies in the range that keeps instants inside `i64`.
    #[verifier::type_invariant]
    pub open spec fn inv(self) -> bool {
        -MAX_ABS_EPOCH_DAYS <= self.spec_days() <= MAX_ABS_EPOCH_DAYS
    }

    /// Makes a date from a day count; refuses one whose instants would not
    /// fit in `i64` milliseconds.
    pub fn new(days: i64) -> (r: Option<EpochDate>)
        ensures
            r is Some <==> -MAX_ABS_EPOCH_DAYS <= days <= MAX_ABS_EPOCH_DAYS,
            r matches Some(d) ==> d.spec_days() == days,
    {
        if -MAX_ABS_EPOCH_DAYS <= days && days <= MAX_ABS_EPOCH_DAYS {
            Some(EpochDate { days })
        } else {
            None
        }
    }

    /// The day count.
    pub fn days(&self) -> (r: i64)
        ensures
            r == self.spec_days(),
    {
        self.days
    }
}

/// A time of day with second precision.
#[derive(Clone, Copy, PartialEq, Eq, Structural, Debug)]
pub struct TimeOfDay {
    hour: u32,
    minute: u32,
    second: u32,
}

impl TimeOfDay {
    /// The hour, `0 ..= 23`.
    pub closed spec fn spec_hour(self) -> int {
        self.hour as int
    }

    /// The minute, `0 ..= 59`.
    pub closed spec fn spec_minute(self) -> int {
        self.minute as int
    }

    /// The second, `0 ..= 59`.
    pub closed spec fn spec_second(self) -> int {
        self.second as int
    }

    /// Every time of day lies within one civil day.
    #[verifier::type_invariant]
    pub open spec fn inv(self) -> bool {
        &&& 0 <= self.spec_hour() < 24
        &&& 0 <= self.spec_minute() < 60
        &&& 0 <= self.spec_second() < 60
    }

    /// The time as milliseconds from midnight.
    pub open spec fn ms_of_day(self) -> int {
        (self.spec_hour() * 3600 + self.spec_minute() * 60 + self.spec_second()) * 1000
    }

    /// Makes a time of day; refuses components outside the clock.
    pub fn new(hour: u32, minute: u32, second: u32) -> (r: Option<TimeOfDay>)
        ensures
            r is Some <==> (hour < 24 && minute < 60 && second < 60),
            r matches Some(t) ==> t.spec_hour() == hour && t.spec_minute() == minute
                && t.spec_second() == second,
    {
        if hour < 24 && minute < 60 && second < 60 {
            Some(TimeOfDay { hour, minute, second })
        } else {
            None
        }
    }

    /// The hour.
    pub fn hour(&self) -> (r: u32)
        ensures
            r == self.spec_hour(),
    {
        self.hour
    }

    /// The minute.
    pub fn minute(&self) -> (r: u32)
        ensures
            r == self.spec_minute(),
    {
        self.minute
    }

    /// The second.
    pub fn second(&self) -> (r: u32)
        ensures
            r == self.spec_second(),
    {
        self.second
    }

    /// The time as milliseconds from midnight.
    pub fn millis_of_day(&self) -> (r: i64)
        ensures
            r == self.ms_of_day(),
    {
        ((self.hour as i64) * 3600 + (self.minute as i64) * 60 + (self.second as i64)) * 1000
    }
}

/// The absolute instant, in milliseconds since the epoch, that a date names
/// together with a time of day.
pub open spec fn instant_ms(d: EpochDate, t: TimeOfDay) -> int {
    d.spec_days() * MS_PER_DAY + t.ms_of_day()
}

/// Computes the instant a date and a time of day name.
pub fn combine_ms(d: EpochDate, t: TimeOfDay) -> (r: i64)
    ensures
        r == instant_ms(d, t),
{
    proof {
        use_type_invariant(&d);
        use_type_invariant(&t);
    }
    d.days * MS_PER_DAY + t.millis_of_day()
}

/// Law: moving to a no-earlier date and a strictly later time of day moves the
/// combined instant strictly forward. In particular, fields with ordered dates
/// and strictly ordered times always make a valid range.
pub proof fn lemma_ordered_fields_order_instants(
    d1: EpochDate,
    d2: EpochDate,
    t1: TimeOfDay,
    t2: TimeOfDay,
)
    requires
        t1.inv(),
        t2.inv(),
        d1.spec_days() <= d2.spec_days(),
        t1.ms_of_day() < t2.ms_of_day(),
    ensures
        instant_ms(d1, t1) < instant_ms(d2, t2),
{
}

} // verus!
