use axum_api::error::AppError;
use axum_api::handlers::command_handler::{
    command_history_limit, command_list_response, command_response, command_update_outcome,
};
use axum_api::models::command::ActiveCommand;
use axum_api::schemas::command::CommandHistoryQuery;

fn command(id: i64) -> ActiveCommand {
    ActiveCommand {
        id,
        created_at: 5,
        completed_at: Some(9),
        function_name: "balance".into(),
        from_user: "dashboard".into(),
        target_type: "light_bias".into(),
        target_value: None,
        target_left_ratio: Some(0.5f32.to_bits()),
        target_right_ratio: Some(0.5f32.to_bits()),
        tolerance: 0.1f32.to_bits(),
        lux_left: Some(10),
        lux_right: None,
        status: 1,
    }
}

#[test]
fn created_command_response() {
    let r = command_response(&command(3));
    assert_eq!((r.id, r.created_at, r.status), (3, 5, 1));
}

#[test]
fn update_outcome_found() {
    let r = command_update_outcome(3, Some(command(3))).unwrap();
    assert_eq!((r.id, r.status, r.completed_at), (3, 1, Some(9)));
}

#[test]
fn update_outcome_not_found() {
    match command_update_outcome(-42, None) {
        Err(e @ AppError::NotFound(_)) => {
            assert_eq!(e.status_code(), 404);
            assert_eq!(e.message(), "Command with id -42 not found");
        }
        _ => panic!("expected 404"),
    }
}

#[test]
fn history_limit_defaults_to_fifty() {
    let q = CommandHistoryQuery { limit: None, offset: None, status: None, from_user: None };
    assert_eq!(command_history_limit(&q), 50);
    let q = CommandHistoryQuery { limit: Some(3), offset: Some(1), status: None, from_user: None };
    assert_eq!(command_history_limit(&q), 3);
}

#[test]
fn list_counts_commands() {
    let r = command_list_response(vec![command(1), command(2)]);
    assert_eq!(r.count, 2);
    assert_eq!(r.commands[1].id, 2);
}
