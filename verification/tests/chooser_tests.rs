use crossbeam::channel::unbounded;
use netstrat::interval::Interval;
use netstrat::props::Props;
use netstrat::time_range_chooser::TimeRangeChooser;
use netstrat::times::{EpochDate, TimeOfDay};

fn date(days: i64) -> EpochDate {
    EpochDate::new(days).expect("day count in range")
}

fn time(h: u32, m: u32, s: u32) -> TimeOfDay {
    TimeOfDay::new(h, m, s).expect("time components in range")
}

fn props(d1: i64, t1: (u32, u32, u32), d2: i64, t2: (u32, u32, u32), i: Interval) -> Props {
    TimeRangeChooser::parse_props(
        Some(time(t1.0, t1.1, t1.2)),
        Some(time(t2.0, t2.1, t2.2)),
        date(d1),
        date(d2),
        i,
    )
    .expect("both times present")
}

struct Wiring {
    chooser: TimeRangeChooser,
    symbol_tx: crossbeam::channel::Sender<String>,
    props_tx: crossbeam::channel::Sender<Props>,
    show_rx: crossbeam::channel::Receiver<Props>,
    export_rx: crossbeam::channel::Receiver<Props>,
}

fn wire(initial: Props) -> Wiring {
    let (symbol_tx, symbol_rx) = unbounded::<String>();
    let (props_tx, props_rx) = unbounded::<Props>();
    let (show_tx, show_rx) = unbounded::<Props>();
    let (export_tx, export_rx) = unbounded::<Props>();
    let chooser = TimeRangeChooser::new(true, symbol_rx, show_tx, props_rx, export_tx, initial);
    Wiring { chooser, symbol_tx, props_tx, show_rx, export_rx }
}

#[test]
fn new_seeds_fields_from_the_initial_props() {
    let w = wire(props(10, (9, 30, 0), 20, (17, 0, 0), Interval::Hour));
    assert_eq!(w.chooser.symbol().as_str(), "");
    assert!(w.chooser.valid());
    assert!(w.chooser.visible());
    assert_eq!(w.chooser.date_start().days(), 10);
    assert_eq!(w.chooser.date_end().days(), 20);
    assert_eq!(w.chooser.time_start(), time(9, 30, 0));
    assert_eq!(w.chooser.time_end(), time(17, 0, 0));
    assert_eq!(w.chooser.interval(), Interval::Hour);
}

#[test]
fn tick_applies_symbol_then_props() {
    let mut w = wire(props(0, (0, 0, 0), 1, (0, 0, 0), Interval::Day));
    w.symbol_tx.send("ETHUSDT".to_string()).unwrap();
    w.props_tx
        .send(props(100, (8, 15, 30), 200, (18, 45, 5), Interval::Minute))
        .unwrap();
    w.chooser.tick();
    assert_eq!(w.chooser.symbol().as_str(), "ETHUSDT");
    assert_eq!(w.chooser.date_start().days(), 100);
    assert_eq!(w.chooser.date_end().days(), 200);
    assert_eq!(w.chooser.time_start(), time(8, 15, 30));
    assert_eq!(w.chooser.time_end(), time(18, 45, 5));
    // The received props do not touch the interval field.
    assert_eq!(w.chooser.interval(), Interval::Day);
    assert!(w.chooser.valid());
    assert!(w.chooser.visible());
}

#[test]
fn tick_with_nothing_pending_changes_nothing() {
    let mut w = wire(props(5, (1, 2, 3), 6, (4, 5, 6), Interval::Hour));
    w.chooser.tick();
    assert_eq!(w.chooser.symbol().as_str(), "");
    assert_eq!(w.chooser.date_start().days(), 5);
    assert_eq!(w.chooser.date_end().days(), 6);
    assert_eq!(w.chooser.time_start(), time(1, 2, 3));
    assert_eq!(w.chooser.time_end(), time(4, 5, 6));
}

#[test]
fn unpack_props_is_idempotent() {
    let mut w = wire(props(0, (0, 0, 0), 1, (0, 0, 0), Interval::Day));
    let p = props(30, (6, 0, 0), 40, (21, 30, 0), Interval::Hour);
    w.chooser.unpack_props(&p);
    let first = (
        w.chooser.date_start(),
        w.chooser.date_end(),
        w.chooser.time_start(),
        w.chooser.time_end(),
    );
    w.chooser.unpack_props(&p);
    let second = (
        w.chooser.date_start(),
        w.chooser.date_end(),
        w.chooser.time_start(),
        w.chooser.time_end(),
    );
    assert_eq!(first, second);
}

#[test]
fn unpack_then_reparse_reproduces_the_instants() {
    let mut w = wire(props(0, (0, 0, 0), 1, (0, 0, 0), Interval::Day));
    let p = props(123, (7, 45, 10), 456, (22, 5, 59), Interval::Minute);
    let (start, end) = (p.start_time_ms(), p.end_time_ms());
    w.chooser.unpack_props(&p);
    let again = TimeRangeChooser::parse_props(
        Some(w.chooser.time_start()),
        Some(w.chooser.time_end()),
        w.chooser.date_start(),
        w.chooser.date_end(),
        w.chooser.interval(),
    )
    .expect("both times present");
    assert_eq!(again.start_time_ms(), start);
    assert_eq!(again.end_time_ms(), end);
}

#[test]
fn show_sends_a_valid_props_and_keeps_valid_set() {
    let mut w = wire(props(10, (9, 0, 0), 10, (17, 0, 0), Interval::Hour));
    let sent = w.chooser.on_show(Some(time(9, 0, 0)), Some(time(17, 0, 0)));
    assert!(sent);
    assert!(w.chooser.valid());
    let shown = w.show_rx.try_recv().expect("a props message was published");
    assert_eq!(shown.date_start().days(), 10);
    assert_eq!(shown.time_start(), time(9, 0, 0));
    assert_eq!(shown.time_end(), time(17, 0, 0));
    assert!(shown.is_valid());
    assert!(w.export_rx.try_recv().is_err());
}

#[test]
fn show_with_unparsed_time_sets_valid_false_and_sends_nothing() {
    let mut w = wire(props(10, (9, 0, 0), 10, (17, 0, 0), Interval::Hour));
    let sent = w.chooser.on_show(None, Some(time(17, 0, 0)));
    assert!(!sent);
    assert!(!w.chooser.valid());
    assert!(w.show_rx.try_recv().is_err());
}

#[test]
fn show_with_reversed_range_sets_valid_false_and_sends_nothing() {
    let mut w = wire(props(10, (9, 0, 0), 10, (17, 0, 0), Interval::Hour));
    let sent = w.chooser.on_show(Some(time(17, 0, 0)), Some(time(9, 0, 0)));
    assert!(!sent);
    assert!(!w.chooser.valid());
    assert!(w.show_rx.try_recv().is_err());
}

#[test]
fn show_with_equal_instants_sets_valid_false() {
    let mut w = wire(props(10, (9, 0, 0), 10, (17, 0, 0), Interval::Hour));
    let sent = w.chooser.on_show(Some(time(9, 0, 0)), Some(time(9, 0, 0)));
    assert!(!sent);
    assert!(!w.chooser.valid());
}

#[test]
fn a_good_action_clears_a_stale_error_flag() {
    let mut w = wire(props(10, (9, 0, 0), 10, (17, 0, 0), Interval::Hour));
    assert!(!w.chooser.on_show(None, None));
    assert!(!w.chooser.valid());
    assert!(w.chooser.on_show(Some(time(9, 0, 0)), Some(time(17, 0, 0))));
    assert!(w.chooser.valid());
}

#[test]
fn export_goes_to_the_export_channel_only() {
    let mut w = wire(props(10, (9, 0, 0), 11, (17, 0, 0), Interval::Day));
    let sent = w.chooser.on_export(Some(time(9, 0, 0)), Some(time(17, 0, 0)));
    assert!(sent);
    assert!(w.chooser.valid());
    let exported = w.export_rx.try_recv().expect("a props message was exported");
    assert_eq!(exported.date_end().days(), 11);
    assert!(w.show_rx.try_recv().is_err());
}

#[test]
fn a_dropped_receiver_loses_the_message_but_not_validity() {
    let mut w = wire(props(10, (9, 0, 0), 10, (17, 0, 0), Interval::Hour));
    drop(w.show_rx);
    let sent = w.chooser.on_show(Some(time(9, 0, 0)), Some(time(17, 0, 0)));
    assert!(!sent);
    assert!(w.chooser.valid());
}

#[test]
fn toggle_and_setters_move_only_their_field() {
    let mut w = wire(props(10, (9, 0, 0), 10, (17, 0, 0), Interval::Hour));
    w.chooser.toggle_visible();
    assert!(!w.chooser.visible());
    w.chooser.toggle_visible();
    assert!(w.chooser.visible());
    w.chooser.set_interval(Interval::Minute);
    assert_eq!(w.chooser.interval(), Interval::Minute);
    w.chooser.set_date_start(date(-5));
    w.chooser.set_date_end(date(5));
    assert_eq!(w.chooser.date_start().days(), -5);
    assert_eq!(w.chooser.date_end().days(), 5);
    assert_eq!(w.chooser.time_start(), time(9, 0, 0));
}
