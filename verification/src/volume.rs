//! Turns a raw time series into chart-ready volume bars.
//!
//! Each sample becomes one bar centred between its open and close instants,
//! nine tenths as wide as their distance, and as tall as its volume. Bar
//! geometry is kept in tenths of a millisecond so that the midpoint and the
//! nine-tenths width stay exact integers; a renderer divides by ten.

use vstd::prelude::*;

verus! {

/// Largest magnitude an instant of a sample may have, in milliseconds.
/// It keeps the scaled bar geometry inside `i64`.
pub const MAX_ABS_SAMPLE_MS: i64 = 400_000_000_000_000_000;

/// One raw sample: the instants it opens and closes at, in milliseconds since
/// the epoch (either order is tolerated), and its non-negative volume.
#[derive(Clone, Copy, PartialEq, Eq, Structural, Debug)]
pub struct Sample {
    t_open: i64,
    t_close: i64,
    volume: u64,
}

impl Sample {
    /// The instant the sample opens at.
    pub closed spec fn spec_t_open(self) -> int {
        self.t_open as int
    }

    /// The instant the sample closes at.
    pub closed spec fn spec_t_close(self) -> int {
        self.t_close as int
    }

    /// The traded volume.
    pub closed spec fn spec_volume(self) -> u64 {
        self.volume
    }

    /// Both instants lie in the range that keeps bar geometry inside `i64`.
    #[verifier::type_invariant]
    pub open spec fn inv(self) -> bool {
        &&& -MAX_ABS_SAMPLE_MS <= self.spec_t_open() <= MAX_ABS_SAMPLE_MS
        &&& -MAX_ABS_SAMPLE_MS <= self.spec_t_close() <= MAX_ABS_SAMPLE_MS
    }

    /// Makes a sample; refuses instants whose bar geometry would not fit.
    pub fn new(t_open: i64, t_close: i64, volume: u64) -> (r: Option<Sample>)
        ensures
            r is Some <==> (-MAX_ABS_SAMPLE_MS <= t_open <= MAX_ABS_SAMPLE_MS
                && -MAX_ABS_SAMPLE_MS <= t_close <= MAX_ABS_SAMPLE_MS),
            r matches Some(s) ==> s.spec_t_open() == t_open && s.spec_t_close() == t_close
                && s.spec_volume() == volume,
    {
        if -MAX_ABS_SAMPLE_MS <= t_open && t_open <= MAX_ABS_SAMPLE_MS
            && -MAX_ABS_SAMPLE_MS <= t_close && t_close <= MAX_ABS_SAMPLE_MS {
            Some(Sample { t_open, t_close, volume })
        } else {
            None
        }
    }

    /// The instant the sample opens at.
    pub fn t_open(&self) -> (r: i64)
        ensures
            r == self.spec_t_open(),
    {
        self.t_open
    }

    /// The instant the sample closes at.
    pub fn t_close(&self) -> (r: i64)
        ensures
            r == self.spec_t_close(),
    {
        self.t_close
    }

    /// The traded volume.
    pub fn volume(&self) -> (r: u64)
        ensures
            r == self.spec_volume(),
    {
        self.volume
    }
}

/// An ordered time series of samples.
pub struct Data {
    pub vals: Vec<Sample>,
}

impl View for Data {
    type V = Seq<Sample>;

    open spec fn view(&self) -> Seq<Sample> {
        self.vals@
    }
}

/// The largest volume among the samples; zero when there are none.
pub open spec fn spec_max_vol(s: Seq<Sample>) -> nat
    decreases s.len(),
{
    if s.len() == 0 {
        0
    } else {
        let rest = spec_max_vol(s.drop_last());
        if s.last().spec_volume() >= rest {
            s.last().spec_volume() as nat
        } else {
            rest
        }
    }
}

impl Data {
    /// An empty time series.
    pub fn new() -> (r: Data)
        ensures
            r@ == Seq::<Sample>::empty(),
    {
        Data { vals: Vec::new() }
    }

    /// The largest volume among the samples, used for axis scaling; zero for
    /// an empty series.
    pub fn max_vol(&self) -> (r: u64)
        ensures
            r == spec_max_vol(self@),
    {
        let mut m: u64 = 0;
        let mut i: usize = 0;
        while i < self.vals.len()
            invariant
                i <= self@.len(),
                m == spec_max_vol(self@.take(i as int)),
            decreases self@.len() - i,
        {
            let v = self.vals[i].volume();
            if v > m {
                m = v;
            }
            proof {
                assert(self@.take(i + 1).drop_last() =~= self@.take(i as int));
                assert(self@.take(i + 1).last() == self@[i as int]);
            }
            i = i + 1;
        }
        proof {
            assert(self@.take(self@.len() as int) =~= self@);
        }
        m
    }
}

impl Default for Data {
    /// An empty time series.
    fn default() -> (r: Data)
        ensures
            r@ == Seq::<Sample>::empty(),
    {
        Data::new()
    }
}

/// One rendering primitive, derived from one sample. `position_x10` is ten
/// times the bar's centre on the time axis and `width_x10` ten times its
/// width, so both are exact; `height` is the sample's volume. The width keeps
/// the sign of open minus close rather than clamping it.
#[derive(Clone, Copy, PartialEq, Eq, Structural, Debug)]
pub struct Bar {
    pub position_x10: i64,
    pub width_x10: i64,
    pub height: u64,
}

/// What one sample turns into: centred on the midpoint of its two instants,
/// nine tenths of their signed distance wide, its volume tall.
pub open spec fn bar_matches_sample(b: Bar, s: Sample) -> bool {
    &&& b.position_x10 == (s.spec_t_open() + s.spec_t_close()) * 5
    &&& b.width_x10 == (s.spec_t_open() - s.spec_t_close()) * 9
    &&& b.height == s.spec_volume()
}

/// The volume chart widget state: the owned time series, the bar list derived
/// from it, and whether the chart is interactive.
pub struct Volume {
    data: Data,
    val: Vec<Bar>,
    enabled: bool,
}

impl Volume {
    /// The owned samples.
    pub closed spec fn spec_samples(self) -> Seq<Sample> {
        self.data@
    }

    /// The derived bars.
    pub closed spec fn spec_bars(self) -> Seq<Bar> {
        self.val@
    }

    /// Whether the chart is interactive.
    pub closed spec fn spec_enabled(self) -> bool {
        self.enabled
    }

    /// A widget with no data yet, enabled.
    pub fn new() -> (r: Volume)
        ensures
            r.spec_samples() == Seq::<Sample>::empty(),
            r.spec_bars() == Seq::<Bar>::empty(),
            r.spec_enabled(),
    {
        Volume { data: Data::new(), val: Vec::new(), enabled: true }
    }

    /// Replaces the owned series and recomputes every bar from it. Total: an
    /// empty series gives an empty bar list.
    pub fn set_data(&mut self, data: Data)
        ensures
            final(self).spec_samples() == data@,
            final(self).spec_enabled() == old(self).spec_enabled(),
            final(self).spec_bars().len() == data@.len(),
            forall|i: int|
                0 <= i < data@.len() ==> bar_matches_sample(
                    final(self).spec_bars()[i],
                    data@[i],
                ),
    {
        let mut val: Vec<Bar> = Vec::new();
        let mut i: usize = 0;
        while i < data.vals.len()
            invariant
                i <= data@.len(),
                val@.len() == i,
                forall|j: int| 0 <= j < i ==> bar_matches_sample(val@[j], data@[j]),
            decreases data@.len() - i,
        {
            let s = data.vals[i];
            proof {
                use_type_invariant(&s);
            }
            val.push(
                Bar {
                    position_x10: (s.t_open + s.t_close) * 5,
                    width_x10: (s.t_open - s.t_close) * 9,
                    height: s.volume,
                },
            );
            i = i + 1;
        }
        self.data = data;
        self.val = val;
    }

    /// Toggles whether the chart is interactive; the data and bars stay as
    /// they are.
    pub fn set_enabled(&mut self, enabled: bool)
        ensures
            final(self).spec_enabled() == enabled,
            final(self).spec_samples() == old(self).spec_samples(),
            final(self).spec_bars() == old(self).spec_bars(),
    {
        self.enabled = enabled;
    }

    /// The owned samples.
    pub fn data(&self) -> (r: &Data)
        ensures
            r@ == self.spec_samples(),
    {
        &self.data
    }

    /// The derived bars, in sample order.
    pub fn bars(&self) -> (r: &Vec<Bar>)
        ensures
            r@ == self.spec_bars(),
    {
        &self.val
    }

    /// Whether the chart is interactive.
    pub fn is_enabled(&self) -> (r: bool)
        ensures
            r == self.spec_enabled(),
    {
        self.enabled
    }
}

impl Default for Volume {
    /// A widget with no data yet, enabled.
    fn default() -> (r: Volume)
        ensures
            r.spec_samples() == Seq::<Sample>::empty(),
            r.spec_bars() == Seq::<Bar>::empty(),
            r.spec_enabled(),
    {
        Volume::new()
    }
}

/// The text chrono renders for a UTC second in the fixed
/// `%Y-%m-%d %H:%M:%S` layout.
pub uninterp spec fn utc_datetime_text(secs: int) -> Seq<char>;

/// Last second of year 9999, the top of the range the formatter accepts.
pub const MAX_FORMAT_SECS: i64 = 253_402_300_799;

/// Relies on chrono's `DateTime::<Utc>::from_timestamp` and its strftime
/// formatting: for an in-range second both are pure functions of the argument,
/// UTC only, with no locale dependence.
#[verifier::external_body]
fn render_utc_secs(secs: i64) -> (r: String)
    requires
        0 <= secs <= MAX_FORMAT_SECS,
    ensures
        r@ == utc_datetime_text(secs as int),
{
    match chrono::DateTime::<chrono::Utc>::from_timestamp(secs, 0) {
        Some(dt) => dt.format("%Y-%m-%d %H:%M:%S").to_string(),
        None => String::new(),
    }
}

/// Renders a millisecond timestamp as a UTC date and time in the fixed
/// `YYYY-MM-DD HH:MM:SS` layout, the sub-second remainder truncated. A pure
/// function of its input: equal timestamps always render as equal text.
pub fn format_ts(ts_ms: i64) -> (r: String)
    requires
        0 <= ts_ms <= MAX_FORMAT_SECS * 1000 + 999,
    ensures
        r@ == utc_datetime_text(ts_ms as int / 1000),
{
    let secs: i64 = ts_ms / 1000;
    render_utc_secs(secs)
}

} // verus!
