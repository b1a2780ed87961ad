use axum_api::schemas::sensor::SensorPayload;
use axum_api::services::heartbeat::{
    should_insert_heartbeat, BufferRead, Phase, Scheduler, SchedulerAction, SchedulerEvent, StoredRow,
};

#[test]
fn test_should_insert_heartbeat_sensor_insert_suppresses_heartbeat() {
    assert!(!should_insert_heartbeat(1));
}

#[test]
fn test_should_insert_heartbeat_empty_buffer_requires_heartbeat() {
    assert!(should_insert_heartbeat(0));
}

fn payload() -> SensorPayload {
    SensorPayload {
        lux_panel_left: Some(202),
        lux_panel_right: None,
        lux_l: Some(10),
        lux_ml: Some(20),
        lux_mr: Some(30),
        lux_r: Some(40),
        voltage: Some(12.5f32.to_bits()),
        current: None,
        power: None,
    }
}

#[test]
fn stored_reading_suppresses_heartbeat() {
    let mut m = Scheduler::new(true);
    assert_eq!(m.step(SchedulerEvent::Tick), SchedulerAction::TakeLatest);
    assert_eq!(
        m.step(SchedulerEvent::Taken(BufferRead::Latest(payload()))),
        SchedulerAction::StoreReading(payload())
    );
    assert_eq!(m.step(SchedulerEvent::ReadingStored(true)), SchedulerAction::CancelStaleCommands);
    assert_eq!(m.phase, Phase::CancellingStale { row: StoredRow::Reading });
    assert_eq!(m.step(SchedulerEvent::StaleCancelled), SchedulerAction::Wait);
    assert_eq!(m.phase, Phase::Idle);
}

#[test]
fn empty_buffer_stores_heartbeat() {
    let mut m = Scheduler::new(true);
    assert_eq!(m.step(SchedulerEvent::Tick), SchedulerAction::TakeLatest);
    assert_eq!(m.step(SchedulerEvent::Taken(BufferRead::Empty)), SchedulerAction::StoreHeartbeat);
    assert_eq!(m.step(SchedulerEvent::HeartbeatStored(true)), SchedulerAction::CancelStaleCommands);
    assert_eq!(m.phase, Phase::CancellingStale { row: StoredRow::Heartbeat });
}

#[test]
fn malformed_entry_stores_heartbeat() {
    let mut m = Scheduler::new(true);
    m.step(SchedulerEvent::Tick);
    assert_eq!(m.step(SchedulerEvent::Taken(BufferRead::Malformed)), SchedulerAction::StoreHeartbeat);
}

#[test]
fn redis_failure_stores_heartbeat() {
    let mut m = Scheduler::new(true);
    m.step(SchedulerEvent::Tick);
    assert_eq!(m.step(SchedulerEvent::Taken(BufferRead::Failed)), SchedulerAction::StoreHeartbeat);
}

#[test]
fn failed_reading_insert_falls_back_to_heartbeat() {
    let mut m = Scheduler::new(true);
    m.step(SchedulerEvent::Tick);
    m.step(SchedulerEvent::Taken(BufferRead::Latest(payload())));
    assert_eq!(m.step(SchedulerEvent::ReadingStored(false)), SchedulerAction::StoreHeartbeat);
    assert_eq!(m.step(SchedulerEvent::HeartbeatStored(false)), SchedulerAction::CancelStaleCommands);
    assert_eq!(m.phase, Phase::CancellingStale { row: StoredRow::Nothing });
}

#[test]
fn without_redis_every_tick_stores_heartbeat() {
    let mut m = Scheduler::new(false);
    assert_eq!(m.step(SchedulerEvent::Tick), SchedulerAction::StoreHeartbeat);
}

#[test]
fn shutdown_flushes_and_stops() {
    let mut m = Scheduler::new(true);
    assert_eq!(m.step(SchedulerEvent::ShutdownRequested), SchedulerAction::TakeLatest);
    assert_eq!(
        m.step(SchedulerEvent::Taken(BufferRead::Latest(payload()))),
        SchedulerAction::StoreReading(payload())
    );
    assert_eq!(m.step(SchedulerEvent::ReadingStored(true)), SchedulerAction::Stop);
    assert_eq!(m.phase, Phase::Stopped);
    assert_eq!(m.step(SchedulerEvent::Tick), SchedulerAction::Wait);
    assert_eq!(m.phase, Phase::Stopped);
}

#[test]
fn shutdown_without_redis_stops_at_once() {
    let mut m = Scheduler::new(false);
    assert_eq!(m.step(SchedulerEvent::ShutdownRequested), SchedulerAction::Stop);
}

#[test]
fn unexpected_event_is_ignored() {
    let mut m = Scheduler::new(true);
    assert_eq!(m.step(SchedulerEvent::StaleCancelled), SchedulerAction::Wait);
    assert_eq!(m.phase, Phase::Idle);
}
