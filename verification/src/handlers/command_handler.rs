//! What the command endpoints compute around their database queries.
use vstd::prelude::*;

use crate::error::AppError;
use crate::models::command::ActiveCommand;
use crate::schemas::command::{
    CommandHistoryQuery, CommandListResponse, CommandResponse, UpdateCommandResponse,
};
use crate::text::{decimal_text, push_decimal};

verus! {

/// The response to POST /commands: the inserted row's id, creation time and status.
pub fn command_response(row: &ActiveCommand) -> (r: CommandResponse)
    ensures
        r.id == row.id,
        r.created_at == row.created_at,
        r.status == row.status,
{
    CommandResponse { id: row.id, created_at: row.created_at, status: row.status }
}

/// The message for an unknown command id.
pub open spec fn command_not_found_message(id: i64) -> Seq<char> {
    "Command with id "@ + decimal_text(id as int) + " not found"@
}

/// The answer to PATCH /commands/{id}/response, given the row that the update
/// returned: its id, status and completion time, or 404 when no row has that id.
pub fn command_update_outcome(command_id: i64, row: Option<ActiveCommand>) -> (r: Result<
    UpdateCommandResponse,
    AppError,
>)
    ensures
        match row {
            Some(c) => r matches Ok(u) && u.id == c.id && u.status == c.status && u.completed_at
                == c.completed_at,
            None => r matches Err(AppError::NotFound(m)) && m@ == command_not_found_message(command_id),
        },
{
    match row {
        Some(c) => Ok(UpdateCommandResponse { id: c.id, status: c.status, completed_at: c.completed_at }),
        None => {
            let mut msg = String::from_str("Command with id ");
            push_decimal(&mut msg, command_id);
            msg.append(" not found");
            Err(AppError::NotFound(msg))
        },
    }
}

/// How many commands GET /commands/history returns: its `limit`, 50 when absent.
pub fn command_history_limit(q: &CommandHistoryQuery) -> (n: i64)
    ensures
        n == match q.limit {
            Some(l) => l,
            None => 50,
        },
{
    match q.limit {
        Some(l) => l,
        None => 50,
    }
}

/// A list response: the commands and their number.
pub fn command_list_response(commands: Vec<ActiveCommand>) -> (r: CommandListResponse)
    ensures
        r.commands == commands,
        r.count == commands.len(),
{
    let count = commands.len();
    CommandListResponse { commands, count }
}

} // verus!
