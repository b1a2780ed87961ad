use axum_api::models::sensor::SensorLog;
use axum_api::services::sensor_service::{
    history_window, history_window_of_day, stabilize_latest_reading, EARLIEST_INSTANT_NANOS,
    FIRST_DAY, LAST_DAY,
};

const NOW: i128 = 1_780_000_000_123_456_789;
const SEC: i128 = 1_000_000_000;

fn reading(id: i64, age_seconds: i128, panel_left: Option<i32>, online: bool) -> SensorLog {
    SensorLog {
        id,
        timestamp_slot: NOW - age_seconds * SEC,
        lux_l: None,
        lux_ml: None,
        lux_mr: None,
        lux_r: None,
        lux_panel_left: panel_left,
        lux_panel_right: None,
        voltage: None,
        current: None,
        power: None,
        is_online: online,
    }
}

#[test]
fn test_stabilize_latest_reading_transient_null_retains_recent_value() {
    let now = NOW;
    let latest_heartbeat = reading(2, 0, None, false);
    let recent_sensor = reading(1, 30, Some(202), true);

    let latest = stabilize_latest_reading(vec![latest_heartbeat, recent_sensor], now)
        .expect("latest reading should exist");

    assert_eq!(latest.id, 2);
    assert_eq!(latest.lux_panel_left, Some(202));
    assert!(latest.is_online);
}

#[test]
fn test_stabilize_latest_reading_expired_value_returns_null_and_offline() {
    let now = NOW;
    let latest_heartbeat = reading(2, 0, None, false);
    let expired_sensor = reading(1, 61, Some(202), true);

    let latest = stabilize_latest_reading(vec![latest_heartbeat, expired_sensor], now)
        .expect("latest reading should exist");

    assert_eq!(latest.lux_panel_left, None);
    assert!(!latest.is_online);
}

#[test]
fn no_rows_no_reading() {
    assert_eq!(stabilize_latest_reading(vec![], NOW), None);
}

#[test]
fn window_boundary_is_inclusive() {
    let edge = reading(1, 60, Some(7), true);
    let latest = stabilize_latest_reading(vec![edge], NOW).unwrap();
    assert_eq!(latest.lux_panel_left, Some(7));
    assert!(latest.is_online);
    let past = SensorLog { timestamp_slot: NOW - 60 * SEC - 1, ..edge };
    let latest = stabilize_latest_reading(vec![past], NOW).unwrap();
    assert_eq!(latest.lux_panel_left, None);
    assert!(!latest.is_online);
    assert_eq!(latest.timestamp_slot, NOW - 60 * SEC - 1);
}

#[test]
fn each_column_takes_its_own_newest_value() {
    let mut older = reading(1, 20, Some(100), true);
    older.voltage = Some(12.5f32.to_bits());
    older.lux_l = Some(5);
    let mut newer = reading(2, 10, None, true);
    newer.lux_l = Some(6);
    let heartbeat = reading(3, 0, None, false);
    let latest = stabilize_latest_reading(vec![older, heartbeat, newer], NOW).unwrap();
    assert_eq!(latest.id, 3);
    assert_eq!(latest.timestamp_slot, NOW);
    assert_eq!(latest.lux_l, Some(6));
    assert_eq!(latest.lux_panel_left, Some(100));
    assert_eq!(latest.voltage.map(f32::from_bits), Some(12.5));
    assert_eq!(latest.current, None);
    assert!(latest.is_online);
}

#[test]
fn same_timestamp_larger_id_is_newer() {
    let a = reading(5, 10, Some(1), true);
    let b = reading(9, 10, Some(2), true);
    let latest = stabilize_latest_reading(vec![a, b], NOW).unwrap();
    assert_eq!(latest.id, 9);
    assert_eq!(latest.lux_panel_left, Some(2));
    let latest = stabilize_latest_reading(vec![b, a], NOW).unwrap();
    assert_eq!(latest.id, 9);
    assert_eq!(latest.lux_panel_left, Some(2));
}

#[test]
fn heartbeats_alone_are_offline() {
    let latest =
        stabilize_latest_reading(vec![reading(1, 5, None, false), reading(2, 0, None, false)], NOW)
            .unwrap();
    assert!(!latest.is_online);
    assert_eq!(latest.id, 2);
}

#[test]
fn history_window_of_a_date() {
    // 2026-07-05 is 20639 days after 1970-01-01.
    let (start, end) = history_window("2026-07-05").unwrap().unwrap();
    assert_eq!(start, 20_639 * 86_400 * SEC);
    assert_eq!(end, start + 86_400 * SEC);
    let (start, _) = history_window("1970-01-01").unwrap().unwrap();
    assert_eq!(start, 0);
    let (start, _) = history_window("1969-12-31").unwrap().unwrap();
    assert_eq!(start, -86_400 * SEC);
}

#[test]
fn history_window_rejects_bad_dates() {
    let err = history_window("2026-13-01").unwrap().unwrap_err();
    assert_eq!(err.status_code(), 400);
    assert_eq!(err.message(), "Invalid date format: '2026-13-01'. Expected YYYY-MM-DD");
    assert!(history_window("yesterday").unwrap().is_err());
    assert!(history_window("").unwrap().is_err());
}

#[test]
fn history_window_of_the_latest_date_is_none() {
    assert_eq!(LAST_DAY, 95_745_399);
    assert!(history_window("+262142-12-31").is_none());
    assert!(history_window("+262142-12-30").unwrap().is_ok());
}

#[test]
fn a_new_heartbeat_keeps_the_shown_values() {
    let mut sensor = reading(1, 30, Some(202), true);
    sensor.power = Some(18.75f32.to_bits());
    let before = stabilize_latest_reading(vec![sensor], NOW).unwrap();
    let after = stabilize_latest_reading(vec![sensor, reading(2, 0, None, false)], NOW).unwrap();
    assert_eq!(after.id, 2);
    assert_eq!(after.lux_panel_left, before.lux_panel_left);
    assert_eq!(after.power, before.power);
    assert_eq!(after.is_online, before.is_online);
}

#[test]
fn row_order_does_not_matter() {
    let a = reading(1, 50, Some(1), true);
    let mut b = reading(2, 20, None, false);
    b.lux_r = Some(4);
    let c = reading(3, 5, Some(3), false);
    let first = stabilize_latest_reading(vec![a, b, c], NOW);
    assert_eq!(first, stabilize_latest_reading(vec![c, a, b], NOW));
    assert_eq!(first, stabilize_latest_reading(vec![b, c, a], NOW));
    let r = first.unwrap();
    assert_eq!((r.id, r.lux_panel_left, r.lux_r, r.is_online), (3, Some(3), Some(4), true));
}

#[test]
fn everything_expired_is_offline_and_null() {
    let mut old = reading(7, 120, Some(9), true);
    old.lux_l = Some(1);
    old.voltage = Some(1.0f32.to_bits());
    let r = stabilize_latest_reading(vec![old], NOW).unwrap();
    assert_eq!(r.id, 7);
    assert_eq!((r.lux_l, r.lux_panel_left, r.voltage), (None, None, None));
    assert!(!r.is_online);
}

#[test]
fn calendar_range_constants() {
    assert_eq!(FIRST_DAY, -95_746_129);
    assert_eq!(EARLIEST_INSTANT_NANOS, (FIRST_DAY as i128 - 719_163) * 86_400 * SEC);
    let (start, _) = history_window("-262143-01-01").unwrap().unwrap();
    assert_eq!(start, EARLIEST_INSTANT_NANOS);
}

#[test]
fn history_window_of_a_parsed_day() {
    let (start, end) = history_window_of_day("1970-01-02", Some(719_164)).unwrap().unwrap();
    assert_eq!((start, end), (86_400 * SEC, 2 * 86_400 * SEC));
    assert!(history_window_of_day("x", Some(LAST_DAY)).is_none());
    let err = history_window_of_day("x", None).unwrap().unwrap_err();
    assert_eq!(err.message(), "Invalid date format: 'x'. Expected YYYY-MM-DD");
}

#[test]
fn empty_rows_at_any_instant() {
    assert_eq!(stabilize_latest_reading(vec![], EARLIEST_INSTANT_NANOS), None);
    assert_eq!(stabilize_latest_reading(vec![], i128::MIN), None);
}
