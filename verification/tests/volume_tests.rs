use netstrat::volume::{format_ts, Data, Sample, Volume};

fn sample(t_open: i64, t_close: i64, volume: u64) -> Sample {
    Sample::new(t_open, t_close, volume).expect("instants in range")
}

#[test]
fn empty_series_gives_empty_bars_and_zero_max_vol() {
    let mut v = Volume::new();
    v.set_data(Data::new());
    assert!(v.bars().is_empty());
    assert_eq!(v.data().max_vol(), 0);
}

#[test]
fn one_sample_maps_to_the_documented_bar() {
    let mut v = Volume::new();
    v.set_data(Data { vals: vec![sample(1000, 2000, 50)] });
    assert_eq!(v.bars().len(), 1);
    let bar = v.bars()[0];
    assert_eq!(bar.position_x10, 15000);
    assert_eq!(bar.width_x10, -9000);
    assert_eq!(bar.height, 50);
    assert_eq!(bar.position_x10 as f64 / 10.0, 1500.0);
    assert_eq!(bar.width_x10 as f64 / 10.0, -900.0);
}

#[test]
fn width_keeps_its_sign_when_open_is_after_close() {
    let mut v = Volume::new();
    v.set_data(Data { vals: vec![sample(2000, 1000, 7)] });
    assert_eq!(v.bars()[0].width_x10, 9000);
    assert_eq!(v.bars()[0].position_x10, 15000);
}

#[test]
fn bars_follow_sample_order() {
    let mut v = Volume::new();
    v.set_data(Data {
        vals: vec![sample(0, 60_000, 3), sample(60_000, 120_000, 9), sample(120_000, 180_000, 1)],
    });
    assert_eq!(v.bars().len(), 3);
    assert_eq!(v.bars()[0].height, 3);
    assert_eq!(v.bars()[1].height, 9);
    assert_eq!(v.bars()[2].height, 1);
    assert_eq!(v.bars()[1].position_x10, (60_000 + 120_000) * 5);
    assert_eq!(v.bars()[1].width_x10, (60_000i64 - 120_000) * 9);
}

#[test]
fn replacing_the_data_recomputes_every_bar() {
    let mut v = Volume::new();
    v.set_data(Data { vals: vec![sample(1000, 2000, 50)] });
    v.set_data(Data { vals: vec![sample(5000, 3000, 8), sample(0, 1000, 2)] });
    assert_eq!(v.bars().len(), 2);
    assert_eq!(v.bars()[0].position_x10, 40_000);
    assert_eq!(v.bars()[0].width_x10, 18_000);
    assert_eq!(v.bars()[0].height, 8);
    assert_eq!(v.data().max_vol(), 8);
}

#[test]
fn max_vol_is_the_largest_volume() {
    let data = Data { vals: vec![sample(0, 1, 4), sample(1, 2, 11), sample(2, 3, 6)] };
    assert_eq!(data.max_vol(), 11);
}

#[test]
fn set_enabled_leaves_data_and_bars_alone() {
    let mut v = Volume::new();
    assert!(v.is_enabled());
    v.set_data(Data { vals: vec![sample(1000, 2000, 50)] });
    v.set_enabled(false);
    assert!(!v.is_enabled());
    assert_eq!(v.bars().len(), 1);
    assert_eq!(v.data().max_vol(), 50);
    v.set_enabled(true);
    assert!(v.is_enabled());
}

#[test]
fn default_volume_is_empty_and_enabled() {
    let v = Volume::default();
    assert!(v.bars().is_empty());
    assert!(v.is_enabled());
    assert_eq!(v.data().max_vol(), 0);
}

#[test]
fn out_of_range_sample_is_refused() {
    assert!(Sample::new(400_000_000_000_000_001, 0, 1).is_none());
    assert!(Sample::new(0, -400_000_000_000_000_001, 1).is_none());
    assert!(Sample::new(400_000_000_000_000_000, -400_000_000_000_000_000, 1).is_some());
}

#[test]
fn format_ts_renders_a_fixed_utc_string() {
    assert_eq!(format_ts(1_700_000_000_000), "2023-11-14 22:13:20");
}

#[test]
fn format_ts_is_stable_across_calls() {
    let a = format_ts(1_700_000_000_000);
    let b = format_ts(1_700_000_000_000);
    assert_eq!(a, b);
}

#[test]
fn format_ts_truncates_the_subsecond_remainder() {
    assert_eq!(format_ts(1_700_000_000_999), format_ts(1_700_000_000_000));
    assert_eq!(format_ts(999), "1970-01-01 00:00:00");
    assert_eq!(format_ts(0), "1970-01-01 00:00:00");
}
