use axum_api::error::AppError;
use axum_api::handlers::sensor_handler::{
    history_date, history_limit, history_response, Submission, SubmissionAction, SubmissionEvent, SubmissionReply,
    SubmissionStep,
};
use axum_api::schemas::sensor::{HistoryQuery, SensorPayload};

fn payload() -> SensorPayload {
    SensorPayload {
        lux_panel_left: Some(202),
        lux_panel_right: None,
        lux_l: None,
        lux_ml: None,
        lux_mr: None,
        lux_r: None,
        voltage: None,
        current: None,
        power: None,
    }
}

fn reply(a: SubmissionAction) -> SubmissionReply {
    match a {
        SubmissionAction::Reply(r) => r,
        _ => panic!("expected a reply"),
    }
}

#[test]
fn buffered_when_redis_works() {
    let (mut s, a) = Submission::start(payload(), true);
    assert!(matches!(a, SubmissionAction::Buffer(p) if p == payload()));
    let body = reply(s.step(SubmissionEvent::Buffered(true))).into_response().unwrap();
    assert!(body.success);
    assert_eq!(body.message, "Buffered in Redis");
    assert_eq!(s.step, SubmissionStep::Finished);
}

#[test]
fn falls_back_to_the_database() {
    let (mut s, _) = Submission::start(payload(), true);
    assert!(matches!(s.step(SubmissionEvent::Buffered(false)), SubmissionAction::InsertDirect(_)));
    let body = reply(s.step(SubmissionEvent::Inserted(Ok(())))).into_response().unwrap();
    assert_eq!(body.message, "Inserted directly to DB");
}

#[test]
fn without_redis_inserts_directly() {
    let (mut s, a) = Submission::start(payload(), false);
    assert!(matches!(a, SubmissionAction::InsertDirect(_)));
    let r = reply(s.step(SubmissionEvent::Inserted(Err(AppError::Internal("boom".into())))));
    assert_eq!(r.into_response().unwrap_err(), AppError::Internal("boom".into()));
}

#[test]
fn history_defaults() {
    assert_eq!(history_limit(&HistoryQuery { date: None, limit: None }), 1000);
    assert_eq!(history_limit(&HistoryQuery { date: Some("2026-07-05".into()), limit: Some(5) }), 5);
    let r = history_response(vec![], "2026-07-05".into());
    assert_eq!((r.count, r.date.as_str()), (0, "2026-07-05"));
}

#[test]
fn history_date_defaults_to_today() {
    let given = HistoryQuery { date: Some("2026-07-05".into()), limit: None };
    assert_eq!(history_date(&given), "2026-07-05");
    let today = history_date(&HistoryQuery { date: None, limit: None });
    assert_eq!(today.len(), 10);
    assert!(today.starts_with("20"));
    assert_eq!(&today[4..5], "-");
    assert_eq!(&today[7..8], "-");
}
