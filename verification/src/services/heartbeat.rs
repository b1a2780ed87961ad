//! Decisions of the background scheduler. Every five seconds the runner feeds it
//! a `Tick`; it answers with the outside work to do next (read the newest buffered
//! reading, store a row, cancel stale commands) and is fed each result in turn.
//! On shutdown it flushes the buffer one last time and stops.
use vstd::prelude::*;

use crate::schemas::sensor::SensorPayload;

verus! {

/// A scheduler interval that stored no sensor reading must store a heartbeat.
pub fn should_insert_heartbeat(flushed_rows: usize) -> (r: bool)
    ensures
        r <==> flushed_rows == 0,
{
    flushed_rows == 0
}

/// What one interval stored in `sensor_logs`.
#[derive(Clone, Copy, Debug, PartialEq, Eq)]
pub enum StoredRow {
    /// The newest ESP32 reading.
    Reading,
    /// An all-`NULL` offline row.
    Heartbeat,
    /// Nothing: the heartbeat insert failed too.
    Nothing,
}

/// Where the scheduler is.
#[derive(Clone, Copy, Debug, PartialEq, Eq)]
pub enum Phase {
    /// Waiting for the next interval or for shutdown.
    Idle,
    /// Waiting for the newest buffered reading.
    TakingLatest,
    /// Waiting for the reading's row to be stored.
    StoringReading,
    /// Waiting for the heartbeat row to be stored.
    StoringHeartbeat,
    /// Waiting for stale commands to be cancelled; the interval stored `row`.
    CancellingStale { row: StoredRow },
    /// Shutting down: waiting for the newest buffered reading.
    FinalTaking,
    /// Shutting down: waiting for the reading's row to be stored.
    FinalStoring,
    /// Stopped for good.
    Stopped,
}

/// The scheduler's state; `buffer_enabled` tells whether Redis is available.
#[derive(Clone, Copy, Debug, PartialEq, Eq)]
pub struct Scheduler {
    pub buffer_enabled: bool,
    pub phase: Phase,
}

/// What taking the newest buffered reading gave.
#[derive(Clone, Copy, Debug, PartialEq, Eq)]
pub enum BufferRead {
    /// The buffer was empty.
    Empty,
    /// The newest entry was not a valid payload (it was consumed and is skipped).
    Malformed,
    /// The newest payload; the older ones of the interval were discarded.
    Latest(SensorPayload),
    /// Redis failed.
    Failed,
}

/// What the runner reports back.
#[derive(Clone, Copy, Debug, PartialEq, Eq)]
pub enum SchedulerEvent {
    Tick,
    Taken(BufferRead),
    /// Whether the reading's row was inserted.
    ReadingStored(bool),
    /// Whether the heartbeat row was inserted.
    HeartbeatStored(bool),
    StaleCancelled,
    ShutdownRequested,
}

/// The outside work that the runner performs next.
#[derive(Clone, Copy, Debug, PartialEq, Eq)]
pub enum SchedulerAction {
    /// Nothing: wait for the next event.
    Wait,
    /// Atomically take the newest buffered reading and clear the buffer.
    TakeLatest,
    /// Insert one online row holding this payload.
    StoreReading(SensorPayload),
    /// Insert one all-`NULL` offline row.
    StoreHeartbeat,
    /// Mark pending commands older than ten minutes as cancelled.
    CancelStaleCommands,
    /// Leave the loop.
    Stop,
}

/// The scheduler's transition: next state and next action for a state and an event.
/// Events that the state does not wait for leave it unchanged.
pub open spec fn next(m: Scheduler, e: SchedulerEvent) -> (Scheduler, SchedulerAction) {
    let go = |p: Phase| Scheduler { phase: p, ..m };
    match (m.phase, e) {
        (Phase::Idle, SchedulerEvent::Tick) => if m.buffer_enabled {
            (go(Phase::TakingLatest), SchedulerAction::TakeLatest)
        } else {
            (go(Phase::StoringHeartbeat), SchedulerAction::StoreHeartbeat)
        },
        (Phase::Idle, SchedulerEvent::ShutdownRequested) => if m.buffer_enabled {
            (go(Phase::FinalTaking), SchedulerAction::TakeLatest)
        } else {
            (go(Phase::Stopped), SchedulerAction::Stop)
        },
        (Phase::TakingLatest, SchedulerEvent::Taken(read)) => match read {
            BufferRead::Latest(p) => (go(Phase::StoringReading), SchedulerAction::StoreReading(p)),
            _ => (go(Phase::StoringHeartbeat), SchedulerAction::StoreHeartbeat),
        },
        (Phase::StoringReading, SchedulerEvent::ReadingStored(ok)) => if ok {
            (
                go(Phase::CancellingStale { row: StoredRow::Reading }),
                SchedulerAction::CancelStaleCommands,
            )
        } else {
            (go(Phase::StoringHeartbeat), SchedulerAction::StoreHeartbeat)
        },
        (Phase::StoringHeartbeat, SchedulerEvent::HeartbeatStored(ok)) => (
            go(
                Phase::CancellingStale {
                    row: if ok {
                        StoredRow::Heartbeat
                    } else {
                        StoredRow::Nothing
                    },
                },
            ),
            SchedulerAction::CancelStaleCommands,
        ),
        (Phase::CancellingStale { .. }, SchedulerEvent::StaleCancelled) => (
            go(Phase::Idle),
            SchedulerAction::Wait,
        ),
        (Phase::FinalTaking, SchedulerEvent::Taken(read)) => match read {
            BufferRead::Latest(p) => (go(Phase::FinalStoring), SchedulerAction::StoreReading(p)),
            _ => (go(Phase::Stopped), SchedulerAction::Stop),
        },
        (Phase::FinalStoring, SchedulerEvent::ReadingStored(_)) => (
            go(Phase::Stopped),
            SchedulerAction::Stop,
        ),
        _ => (m, SchedulerAction::Wait),
    }
}

impl Scheduler {
    /// A scheduler waiting for its first interval.
    pub fn new(buffer_enabled: bool) -> (m: Scheduler)
        ensures
            m == (Scheduler { buffer_enabled, phase: Phase::Idle }),
    {
        Scheduler { buffer_enabled, phase: Phase::Idle }
    }

    /// Take an event; return the outside work to do next.
    pub fn step(&mut self, e: SchedulerEvent) -> (a: SchedulerAction)
        ensures
            (*final(self), a) == next(*old(self), e),
    {
        match (self.phase, e) {
            (Phase::Idle, SchedulerEvent::Tick) => {
                if self.buffer_enabled {
                    self.phase = Phase::TakingLatest;
                    SchedulerAction::TakeLatest
                } else {
                    self.phase = Phase::StoringHeartbeat;
                    SchedulerAction::StoreHeartbeat
                }
            },
            (Phase::Idle, SchedulerEvent::ShutdownRequested) => {
                if self.buffer_enabled {
                    self.phase = Phase::FinalTaking;
                    SchedulerAction::TakeLatest
                } else {
                    self.phase = Phase::Stopped;
                    SchedulerAction::Stop
                }
            },
            (Phase::TakingLatest, SchedulerEvent::Taken(read)) => {
                match read {
                    BufferRead::Latest(p) => {
                        self.phase = Phase::StoringReading;
                        SchedulerAction::StoreReading(p)
                    },
                    _ => {
                        self.phase = Phase::StoringHeartbeat;
                        SchedulerAction::StoreHeartbeat
                    },
                }
            },
            (Phase::StoringReading, SchedulerEvent::ReadingStored(ok)) => {
                let flushed_rows: usize = if ok {
                    1
                } else {
                    0
                };
                if should_insert_heartbeat(flushed_rows) {
                    self.phase = Phase::StoringHeartbeat;
                    SchedulerAction::StoreHeartbeat
                } else {
                    self.phase = Phase::CancellingStale { row: StoredRow::Reading };
                    SchedulerAction::CancelStaleCommands
                }
            },
            (Phase::StoringHeartbeat, SchedulerEvent::HeartbeatStored(ok)) => {
                let row = if ok {
                    StoredRow::Heartbeat
                } else {
                    StoredRow::Nothing
                };
                self.phase = Phase::CancellingStale { row };
                SchedulerAction::CancelStaleCommands
            },
            (Phase::CancellingStale { .. }, SchedulerEvent::StaleCancelled) => {
                self.phase = Phase::Idle;
                SchedulerAction::Wait
            },
            (Phase::FinalTaking, SchedulerEvent::Taken(read)) => {
                match read {
                    BufferRead::Latest(p) => {
                        self.phase = Phase::FinalStoring;
                        SchedulerAction::StoreReading(p)
                    },
                    _ => {
                        self.phase = Phase::Stopped;
                        SchedulerAction::Stop
                    },
                }
            },
            (Phase::FinalStoring, SchedulerEvent::ReadingStored(_)) => {
                self.phase = Phase::Stopped;
                SchedulerAction::Stop
            },
            _ => SchedulerAction::Wait,
        }
    }
}


/// The event with which the runner answers an action, given what the outside work
/// of this interval returns.
pub open spec fn answer(
    a: SchedulerAction,
    read: BufferRead,
    reading_ok: bool,
    heartbeat_ok: bool,
) -> SchedulerEvent {
    match a {
        SchedulerAction::TakeLatest => SchedulerEvent::Taken(read),
        SchedulerAction::StoreReading(_) => SchedulerEvent::ReadingStored(reading_ok),
        SchedulerAction::StoreHeartbeat => SchedulerEvent::HeartbeatStored(heartbeat_ok),
        SchedulerAction::CancelStaleCommands => SchedulerEvent::StaleCancelled,
        _ => SchedulerEvent::Tick,
    }
}

/// Run the scheduler from `m` on event `e`, answering each action as `answer` says,
/// until it waits or stops (at most `fuel` steps); the final state and the actions.
pub open spec fn drive(
    m: Scheduler,
    e: SchedulerEvent,
    read: BufferRead,
    reading_ok: bool,
    heartbeat_ok: bool,
    fuel: nat,
) -> (Scheduler, Seq<SchedulerAction>)
    decreases fuel,
{
    if fuel == 0 {
        (m, seq![])
    } else {
        let (m2, a) = next(m, e);
        if a is Wait || a is Stop {
            (m2, seq![a])
        } else {
            let (m3, rest) = drive(
                m2,
                answer(a, read, reading_ok, heartbeat_ok),
                read,
                reading_ok,
                heartbeat_ok,
                (fuel - 1) as nat,
            );
            (m3, seq![a] + rest)
        }
    }
}

/// The outside work of one interval: take the newest buffered reading when Redis
/// is available; store it when there is one; store a heartbeat when no reading was
/// stored; cancel stale commands.
pub open spec fn interval_actions(
    buffer_enabled: bool,
    read: BufferRead,
    reading_ok: bool,
) -> Seq<SchedulerAction> {
    if !buffer_enabled {
        seq![SchedulerAction::StoreHeartbeat, SchedulerAction::CancelStaleCommands, SchedulerAction::Wait]
    } else {
        match read {
            BufferRead::Latest(p) => if reading_ok {
                seq![
                    SchedulerAction::TakeLatest,
                    SchedulerAction::StoreReading(p),
                    SchedulerAction::CancelStaleCommands,
                    SchedulerAction::Wait,
                ]
            } else {
                seq![
                    SchedulerAction::TakeLatest,
                    SchedulerAction::StoreReading(p),
                    SchedulerAction::StoreHeartbeat,
                    SchedulerAction::CancelStaleCommands,
                    SchedulerAction::Wait,
                ]
            },
            _ => seq![
                SchedulerAction::TakeLatest,
                SchedulerAction::StoreHeartbeat,
                SchedulerAction::CancelStaleCommands,
                SchedulerAction::Wait,
            ],
        }
    }
}

/// Every interval writes exactly one sensor-log row: the newest ESP32 reading
/// when one was buffered and stored, an offline heartbeat otherwise, never both;
/// stale commands are cancelled once; the scheduler is then idle again.
pub proof fn law_one_row_per_interval(
    buffer_enabled: bool,
    read: BufferRead,
    reading_ok: bool,
    heartbeat_ok: bool,
)
    ensures
        ({
            let idle = Scheduler { buffer_enabled, phase: Phase::Idle };
            let (m, acts) = drive(idle, SchedulerEvent::Tick, read, reading_ok, heartbeat_ok, 5);
            let reading_stored = buffer_enabled && read is Latest && reading_ok;
            &&& m == idle
            &&& acts == interval_actions(buffer_enabled, read, reading_ok)
            &&& (acts.contains(SchedulerAction::StoreHeartbeat) <==> !reading_stored)
            &&& acts.contains(SchedulerAction::CancelStaleCommands)
        }),
{
    reveal_with_fuel(drive, 6);
    let idle = Scheduler { buffer_enabled, phase: Phase::Idle };
    let acts = interval_actions(buffer_enabled, read, reading_ok);
    let d = drive(idle, SchedulerEvent::Tick, read, reading_ok, heartbeat_ok, 5);
    let reading_stored = buffer_enabled && read is Latest && reading_ok;
    assert(d.1 =~= acts);
    if reading_stored {
        assert(acts[2] == SchedulerAction::CancelStaleCommands);
        assert forall|i: int| 0 <= i < acts.len() implies acts[i] != SchedulerAction::StoreHeartbeat by {}
    } else if buffer_enabled && read is Latest {
        assert(acts[2] == SchedulerAction::StoreHeartbeat);
        assert(acts[3] == SchedulerAction::CancelStaleCommands);
    } else if buffer_enabled {
        assert(acts[1] == SchedulerAction::StoreHeartbeat);
        assert(acts[2] == SchedulerAction::CancelStaleCommands);
    } else {
        assert(acts[0] == SchedulerAction::StoreHeartbeat);
        assert(acts[1] == SchedulerAction::CancelStaleCommands);
    }
}

/// On shutdown the scheduler flushes the newest buffered reading (when Redis is
/// available), writes no heartbeat, and stops; once stopped it ignores every event.
pub proof fn law_shutdown_flushes_then_stops(
    buffer_enabled: bool,
    read: BufferRead,
    reading_ok: bool,
    e: SchedulerEvent,
)
    ensures
        ({
            let idle = Scheduler { buffer_enabled, phase: Phase::Idle };
            let (m, acts) = drive(
                idle,
                SchedulerEvent::ShutdownRequested,
                read,
                reading_ok,
                false,
                3,
            );
            &&& m.phase == Phase::Stopped
            &&& acts.last() == SchedulerAction::Stop
            &&& !acts.contains(SchedulerAction::StoreHeartbeat)
            &&& (buffer_enabled ==> (read matches BufferRead::Latest(p) ==> acts.contains(
                SchedulerAction::StoreReading(p),
            )))
            &&& next(m, e) == (m, SchedulerAction::Wait)
        }),
{
    reveal_with_fuel(drive, 4);
    let idle = Scheduler { buffer_enabled, phase: Phase::Idle };
    let (m, acts) = drive(idle, SchedulerEvent::ShutdownRequested, read, reading_ok, false, 3);
    if buffer_enabled {
        if let BufferRead::Latest(p) = read {
            assert(acts[1] == SchedulerAction::StoreReading(p));
        }
    }
    assert forall|i: int| 0 <= i < acts.len() implies acts[i] != SchedulerAction::StoreHeartbeat by {}
}

} // verus!
