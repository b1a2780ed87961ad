use vstd::prelude::*;

use crate::models::command::ActiveCommand;

verus! {

/// POST /commands request body (`f32` values as their bit patterns).
#[derive(Debug)]
pub struct CreateCommandRequest {
    /// `dashboard` or `ML_AI`.
    pub from_user: String,
    /// `error` or `light_bias`.
    pub target_type: String,
    pub target_value: Option<u32>,
    pub target_left_ratio: Option<u32>,
    pub target_right_ratio: Option<u32>,
    pub tolerance: u32,
}

/// Response to POST /commands.
#[derive(Debug)]
pub struct CommandResponse {
    pub id: i64,
    pub created_at: i128,
    pub status: i16,
}

/// PATCH /commands/{id}/response request body.
#[derive(Debug)]
pub struct UpdateCommandRequest {
    pub status: Option<i16>,
    pub lux_left: Option<i32>,
    pub lux_right: Option<i32>,
}

/// Response to PATCH /commands/{id}/response.
#[derive(Debug)]
pub struct UpdateCommandResponse {
    pub id: i64,
    pub status: i16,
    pub completed_at: Option<i128>,
}

/// GET /commands/history query string.
#[derive(Debug)]
pub struct CommandHistoryQuery {
    pub limit: Option<i64>,
    pub offset: Option<i64>,
    pub status: Option<i16>,
    pub from_user: Option<String>,
}

/// A list of commands and its length.
#[derive(Debug)]
pub struct CommandListResponse {
    pub commands: Vec<ActiveCommand>,
    pub count: usize,
}

/// At most one command.
#[derive(Debug)]
pub struct CommandSingleResponse {
    pub command: Option<ActiveCommand>,
}

} // verus!
