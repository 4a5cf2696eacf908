//! The controller that keeps the editable time-range fields in step with the
//! rest of the application.
//!
//! Once per render tick it polls an inbound symbol channel and an inbound
//! `Props` channel, symbol first, each with a short bounded timeout. On the
//! user's show or export action it parses the current field values into a
//! `Props`, validates it, and only a valid one is ever sent outbound; the
//! `valid` flag is reset at the top of every action, so a stale error never
//! outlives the attempt that caused it.

use vstd::prelude::*;

use crate::channel::{recv_brief, send_value};
use crate::interval::Interval;
use crate::props::Props;
use crate::times::{instant_ms, EpochDate, TimeOfDay};
use crossbeam::channel::{Receiver, Sender};

verus! {

/// The controller's field state, as contracts see it.
pub struct ChooserView {
    pub symbol: Seq<char>,
    pub date_start: EpochDate,
    pub date_end: EpochDate,
    pub time_start: TimeOfDay,
    pub time_end: TimeOfDay,
    pub interval: Interval,
    pub valid: bool,
    pub visible: bool,
}

/// The time-range window: the displayed symbol, the editable date, time and
/// interval fields, the validity flag the rendering layer shows, and the four
/// channels that tie the window to the other panels.
pub struct TimeRangeChooser {
    symbol: String,
    time_start: TimeOfDay,
    time_end: TimeOfDay,
    valid: bool,
    visible: bool,
    date_start: EpochDate,
    date_end: EpochDate,
    interval: Interval,
    symbol_sub: Receiver<String>,
    props_sub: Receiver<Props>,
    props_pub: Sender<Props>,
    export_pub: Sender<Props>,
}

impl View for TimeRangeChooser {
    type V = ChooserView;

    closed spec fn view(&self) -> ChooserView {
        ChooserView {
            symbol: self.symbol@,
            date_start: self.date_start,
            date_end: self.date_end,
            time_start: self.time_start,
            time_end: self.time_end,
            interval: self.interval,
            valid: self.valid,
            visible: self.visible,
        }
    }
}

impl TimeRangeChooser {
    /// Wires a controller to its channels and seeds the editable fields from
    /// the given `Props`; the symbol starts empty and the state valid.
    pub fn new(
        visible: bool,
        symbol_sub: Receiver<String>,
        props_pub: Sender<Props>,
        props_sub: Receiver<Props>,
        export_pub: Sender<Props>,
        props: Props,
    ) -> (r: TimeRangeChooser)
        ensures
            r@.symbol == Seq::<char>::empty(),
            r@.date_start == props.spec_date_start(),
            r@.date_end == props.spec_date_end(),
            r@.time_start == props.spec_time_start(),
            r@.time_end == props.spec_time_end(),
            r@.interval == props.spec_interval(),
            r@.valid,
            r@.visible == visible,
    {
        TimeRangeChooser {
            symbol: String::new(),
            time_start: props.time_start(),
            time_end: props.time_end(),
            valid: true,
            visible,
            date_start: props.date_start(),
            date_end: props.date_end(),
            interval: props.interval(),
            symbol_sub,
            props_sub,
            props_pub,
            export_pub,
        }
    }

    /// Builds a `Props` from raw field values. Returns none iff either time
    /// input could not be parsed — a local parse failure, distinct from
    /// validity, which is checked afterwards by `Props::is_valid`.
    pub fn parse_props(
        time_start_opt: Option<TimeOfDay>,
        time_end_opt: Option<TimeOfDay>,
        date_start: EpochDate,
        date_end: EpochDate,
        interval: Interval,
    ) -> (r: Option<Props>)
        ensures
            r is Some <==> (time_start_opt is Some && time_end_opt is Some),
            r matches Some(p) ==> {
                &&& p.spec_date_start() == date_start
                &&& p.spec_date_end() == date_end
                &&& p.spec_time_start() == time_start_opt.unwrap()
                &&& p.spec_time_end() == time_end_opt.unwrap()
                &&& p.spec_interval() == interval
            },
    {
        let time_start: TimeOfDay;
        match time_start_opt {
            Some(time) => {
                time_start = time;
            },
            None => {
                return None;
            },
        }
        let time_end: TimeOfDay;
        match time_end_opt {
            Some(time) => {
                time_end = time;
            },
            None => {
                return None;
            },
        }
        Some(Props::build(date_start, date_end, time_start, time_end, interval))
    }

    /// Takes over the dates and times of a received `Props`. The symbol, the
    /// interval and the flags stay as they are; unpacking the same `Props`
    /// twice leaves the same state as unpacking it once.
    pub fn unpack_props(&mut self, p: &Props)
        ensures
            final(self)@ == (ChooserView {
                date_start: p.spec_date_start(),
                date_end: p.spec_date_end(),
                time_start: p.spec_time_start(),
                time_end: p.spec_time_end(),
                ..old(self)@
            }),
    {
        self.date_start = p.date_start();
        self.date_end = p.date_end();
        self.time_start = p.time_start();
        self.time_end = p.time_end();
    }

    /// Takes over a received trading symbol; nothing else moves.
    pub fn apply_symbol(&mut self, symbol: String)
        ensures
            final(self)@ == (ChooserView { symbol: symbol@, ..old(self)@ }),
    {
        self.symbol = symbol;
    }

    /// One render tick: polls the symbol channel, then the props channel, so
    /// a props update sees the latest symbol. A received symbol replaces the
    /// displayed one; received props are unpacked into the fields. The
    /// interval and both flags are left alone whatever arrives.
    pub fn tick(&mut self)
        ensures
            final(self)@.interval == old(self)@.interval,
            final(self)@.valid == old(self)@.valid,
            final(self)@.visible == old(self)@.visible,
    {
        let got_symbol = recv_brief(&self.symbol_sub);
        match got_symbol {
            Some(symbol) => {
                self.apply_symbol(symbol);
            },
            None => {},
        }
        let got_props = recv_brief(&self.props_sub);
        match got_props {
            Some(props) => {
                self.unpack_props(&props);
            },
            None => {},
        }
    }

    /// The show action: resets `valid`, parses the given time inputs with the
    /// current dates and interval, and sends the result on the show channel
    /// iff it parsed and is valid. A send failure is not an error of the
    /// state: the message is dropped and `valid` stays true. Returns whether
    /// a message was delivered.
    pub fn on_show(&mut self, time_start_opt: Option<TimeOfDay>, time_end_opt: Option<TimeOfDay>) -> (sent: bool)
        ensures
            final(self)@ == (ChooserView { valid: final(self)@.valid, ..old(self)@ }),
            final(self)@.valid <==> (time_start_opt is Some && time_end_opt is Some
                && instant_ms(old(self)@.date_start, time_start_opt.unwrap())
                    < instant_ms(old(self)@.date_end, time_end_opt.unwrap())),
            sent ==> final(self)@.valid,
    {
        self.valid = true;
        let parsed = Self::parse_props(
            time_start_opt,
            time_end_opt,
            self.date_start,
            self.date_end,
            self.interval,
        );
        match parsed {
            Some(props) => {
                if props.is_valid() {
                    send_value(&self.props_pub, props)
                } else {
                    self.valid = false;
                    false
                }
            },
            None => {
                self.valid = false;
                false
            },
        }
    }

    /// The export action: the same parse and validation as `on_show`, routed
    /// to the export channel.
    pub fn on_export(&mut self, time_start_opt: Option<TimeOfDay>, time_end_opt: Option<TimeOfDay>) -> (sent: bool)
        ensures
            final(self)@ == (ChooserView { valid: final(self)@.valid, ..old(self)@ }),
            final(self)@.valid <==> (time_start_opt is Some && time_end_opt is Some
                && instant_ms(old(self)@.date_start, time_start_opt.unwrap())
                    < instant_ms(old(self)@.date_end, time_end_opt.unwrap())),
            sent ==> final(self)@.valid,
    {
        self.valid = true;
        let parsed = Self::parse_props(
            time_start_opt,
            time_end_opt,
            self.date_start,
            self.date_end,
            self.interval,
        );
        match parsed {
            Some(props) => {
                if props.is_valid() {
                    send_value(&self.export_pub, props)
                } else {
                    self.valid = false;
                    false
                }
            },
            None => {
                self.valid = false;
                false
            },
        }
    }

    /// Flips whether the window is visible; nothing else moves.
    pub fn toggle_visible(&mut self)
        ensures
            final(self)@ == (ChooserView { visible: !old(self)@.visible, ..old(self)@ }),
    {
        self.visible = !self.visible;
    }

    /// Picks the interval the next parse will use; nothing else moves.
    pub fn set_interval(&mut self, interval: Interval)
        ensures
            final(self)@ == (ChooserView { interval: interval, ..old(self)@ }),
    {
        self.interval = interval;
    }

    /// Moves the start date; nothing else moves.
    pub fn set_date_start(&mut self, date: EpochDate)
        ensures
            final(self)@ == (ChooserView { date_start: date, ..old(self)@ }),
    {
        self.date_start = date;
    }

    /// Moves the end date; nothing else moves.
    pub fn set_date_end(&mut self, date: EpochDate)
        ensures
            final(self)@ == (ChooserView { date_end: date, ..old(self)@ }),
    {
        self.date_end = date;
    }

    /// The displayed symbol.
    pub fn symbol(&self) -> (r: &String)
        ensures
            r@ == self@.symbol,
    {
        &self.symbol
    }

    /// The start date field.
    pub fn date_start(&self) -> (r: EpochDate)
        ensures
            r == self@.date_start,
    {
        self.date_start
    }

    /// The end date field.
    pub fn date_end(&self) -> (r: EpochDate)
        ensures
            r == self@.date_end,
    {
        self.date_end
    }

    /// The start time field.
    pub fn time_start(&self) -> (r: TimeOfDay)
        ensures
            r == self@.time_start,
    {
        self.time_start
    }

    /// The end time field.
    pub fn time_end(&self) -> (r: TimeOfDay)
        ensures
            r == self@.time_end,
    {
        self.time_end
    }

    /// The interval field.
    pub fn interval(&self) -> (r: Interval)
        ensures
            r == self@.interval,
    {
        self.interval
    }

    /// Whether the last action's fields were valid.
    pub fn valid(&self) -> (r: bool)
        ensures
            r == self@.valid,
    {
        self.valid
    }

    /// Whether the window is visible.
    pub fn visible(&self) -> (r: bool)
        ensures
            r == self@.visible,
    {
        self.visible
    }
}

} // verus!
