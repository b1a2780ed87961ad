//! Decisions of the sensor endpoints. POST /sensors/reading buffers the ESP32's
//! reading in Redis when Redis is available, and falls back to inserting it into
//! the database directly, so that readings are not rejected while Redis is down.
use vstd::prelude::*;

use crate::clock::{today_text, utc_date_text, LATEST_UTC_SECS};
use crate::error::AppError;
use crate::models::sensor::SensorLog;
use crate::schemas::sensor::{
    HistoryQuery, SensorHistoryResponse, SensorInsertedResponse, SensorPayload,
};

verus! {

/// Where a submitted reading is.
#[derive(Clone, Copy, Debug, PartialEq, Eq)]
pub enum SubmissionStep {
    Buffering,
    Inserting,
    Finished,
}

/// A reading being stored.
#[derive(Clone, Copy, Debug, PartialEq, Eq)]
pub struct Submission {
    pub payload: SensorPayload,
    pub step: SubmissionStep,
}

/// How a submission is answered.
pub enum SubmissionReply {
    /// 201: the reading waits in the Redis buffer.
    Buffered,
    /// 201: the reading was inserted into the database.
    Inserted,
    /// The database insert failed.
    Failed(AppError),
}

/// The outside work that a submission asks for next.
pub enum SubmissionAction {
    Wait,
    /// Push the payload onto the Redis buffer.
    Buffer(SensorPayload),
    /// Insert the payload into `sensor_logs`.
    InsertDirect(SensorPayload),
    /// Answer the ESP32; the submission is over.
    Reply(SubmissionReply),
}

/// The results that the runner feeds back.
pub enum SubmissionEvent {
    /// Whether the payload was pushed onto the buffer.
    Buffered(bool),
    Inserted(Result<(), AppError>),
}

/// A submission's transition: next state and action for an event.
pub open spec fn next_submission(m: Submission, e: SubmissionEvent) -> (Submission, SubmissionAction) {
    match (m.step, e) {
        (SubmissionStep::Buffering, SubmissionEvent::Buffered(ok)) => if ok {
            (
                Submission { step: SubmissionStep::Finished, ..m },
                SubmissionAction::Reply(SubmissionReply::Buffered),
            )
        } else {
            (
                Submission { step: SubmissionStep::Inserting, ..m },
                SubmissionAction::InsertDirect(m.payload),
            )
        },
        (SubmissionStep::Inserting, SubmissionEvent::Inserted(r)) => (
            Submission { step: SubmissionStep::Finished, ..m },
            SubmissionAction::Reply(
                match r {
                    Ok(()) => SubmissionReply::Inserted,
                    Err(e) => SubmissionReply::Failed(e),
                },
            ),
        ),
        _ => (m, SubmissionAction::Wait),
    }
}

impl Submission {
    /// Start storing a reading: buffer it when Redis is available, insert it otherwise.
    pub fn start(payload: SensorPayload, buffer_enabled: bool) -> (r: (Submission, SubmissionAction))
        ensures
            r.0.payload == payload,
            if buffer_enabled {
                r.0.step == SubmissionStep::Buffering && r.1 == SubmissionAction::Buffer(payload)
            } else {
                r.0.step == SubmissionStep::Inserting && r.1 == SubmissionAction::InsertDirect(payload)
            },
    {
        if buffer_enabled {
            (Submission { payload, step: SubmissionStep::Buffering }, SubmissionAction::Buffer(payload))
        } else {
            (
                Submission { payload, step: SubmissionStep::Inserting },
                SubmissionAction::InsertDirect(payload),
            )
        }
    }

    /// Take a result; return the next action.
    pub fn step(&mut self, e: SubmissionEvent) -> (a: SubmissionAction)
        ensures
            (*final(self), a) == next_submission(*old(self), e),
    {
        match (self.step, e) {
            (SubmissionStep::Buffering, SubmissionEvent::Buffered(ok)) => {
                if ok {
                    self.step = SubmissionStep::Finished;
                    SubmissionAction::Reply(SubmissionReply::Buffered)
                } else {
                    self.step = SubmissionStep::Inserting;
                    SubmissionAction::InsertDirect(self.payload)
                }
            },
            (SubmissionStep::Inserting, SubmissionEvent::Inserted(r)) => {
                self.step = SubmissionStep::Finished;
                match r {
                    Ok(()) => SubmissionAction::Reply(SubmissionReply::Inserted),
                    Err(e) => SubmissionAction::Reply(SubmissionReply::Failed(e)),
                }
            },
            _ => SubmissionAction::Wait,
        }
    }
}

/// The actions of a submission, given whether buffering worked and what the
/// database insert returned: the reading is stored exactly once, in the buffer when
/// it is available and works, in the database otherwise; only a failed database
/// insert is answered with an error.
pub open spec fn submission_protocol(
    payload: SensorPayload,
    buffer_enabled: bool,
    buffered: bool,
    inserted: Result<(), AppError>,
) -> Seq<SubmissionAction> {
    let direct = seq![
        SubmissionAction::InsertDirect(payload),
        SubmissionAction::Reply(
            match inserted {
                Ok(()) => SubmissionReply::Inserted,
                Err(e) => SubmissionReply::Failed(e),
            },
        ),
    ];
    if !buffer_enabled {
        direct
    } else if buffered {
        seq![SubmissionAction::Buffer(payload), SubmissionAction::Reply(SubmissionReply::Buffered)]
    } else {
        seq![SubmissionAction::Buffer(payload)] + direct
    }
}

/// A submission follows the submission protocol: a reading is never rejected while
/// the buffer or the database takes it, and it is never stored twice.
pub proof fn law_submission_protocol(
    payload: SensorPayload,
    buffer_enabled: bool,
    buffered: bool,
    inserted: Result<(), AppError>,
)
    ensures
        ({
            let m0 = Submission {
                payload,
                step: if buffer_enabled {
                    SubmissionStep::Buffering
                } else {
                    SubmissionStep::Inserting
                },
            };
            let (m1, a1) = next_submission(
                m0,
                if buffer_enabled {
                    SubmissionEvent::Buffered(buffered)
                } else {
                    SubmissionEvent::Inserted(inserted)
                },
            );
            let first = if buffer_enabled {
                SubmissionAction::Buffer(payload)
            } else {
                SubmissionAction::InsertDirect(payload)
            };
            let acts = if a1 is InsertDirect {
                seq![first, a1, next_submission(m1, SubmissionEvent::Inserted(inserted)).1]
            } else {
                seq![first, a1]
            };
            &&& acts == submission_protocol(payload, buffer_enabled, buffered, inserted)
            &&& (acts.last() is Reply && acts.last()->Reply_0 is Failed) <==> ((!buffer_enabled
                || !buffered) && inserted is Err)
        }),
{
}

impl SubmissionReply {
    /// The response body of a successful submission; the error of a failed one.
    pub fn into_response(self) -> (r: Result<SensorInsertedResponse, AppError>)
        ensures
            match self {
                SubmissionReply::Buffered => r matches Ok(b) && b.success && b.message@
                    == "Buffered in Redis"@,
                SubmissionReply::Inserted => r matches Ok(b) && b.success && b.message@
                    == "Inserted directly to DB"@,
                SubmissionReply::Failed(e) => r == Err::<SensorInsertedResponse, AppError>(e),
            },
    {
        match self {
            SubmissionReply::Buffered => Ok(
                SensorInsertedResponse { success: true, message: String::from_str("Buffered in Redis") },
            ),
            SubmissionReply::Inserted => Ok(
                SensorInsertedResponse {
                    success: true,
                    message: String::from_str("Inserted directly to DB"),
                },
            ),
            SubmissionReply::Failed(e) => Err(e),
        }
    }
}

/// The date a history query asks for: its `date`, today's UTC date when absent.
pub fn history_date(q: &HistoryQuery) -> (d: String)
    ensures
        match q.date {
            Some(date) => d@ == date@,
            None => exists|secs: int| 0 <= secs <= LATEST_UTC_SECS && d@ == #[trigger] utc_date_text(secs),
        },
{
    match &q.date {
        Some(date) => date.clone(),
        None => today_text(),
    }
}

/// How many history rows a query asks for: its `limit`, 1000 when absent.
pub fn history_limit(q: &HistoryQuery) -> (n: i64)
    ensures
        n == match q.limit {
            Some(l) => l,
            None => 1000,
        },
{
    match q.limit {
        Some(l) => l,
        None => 1000,
    }
}

/// The response to GET /sensors/history: the rows, the date and their number.
pub fn history_response(readings: Vec<SensorLog>, date: String) -> (r: SensorHistoryResponse)
    ensures
        r.readings == readings,
        r.date == date,
        r.count == readings.len(),
{
    let count = readings.len();
    SensorHistoryResponse { readings, date, count }
}

} // verus!
