use vstd::prelude::*;

use crate::models::sensor::SensorLog;

verus! {

/// POST /sensors/reading: the payload that the ESP32 sends.
/// `voltage`, `current` and `power` hold the IEEE-754 bit patterns of the `f32` readings.
#[derive(Clone, Copy, Debug, PartialEq, Eq)]
pub struct SensorPayload {
    pub lux_panel_left: Option<i32>,
    pub lux_panel_right: Option<i32>,
    pub lux_l: Option<i32>,
    pub lux_ml: Option<i32>,
    pub lux_mr: Option<i32>,
    pub lux_r: Option<i32>,
    pub voltage: Option<u32>,
    pub current: Option<u32>,
    pub power: Option<u32>,
}

/// Response to POST /sensors/reading.
#[derive(Debug)]
pub struct SensorInsertedResponse {
    pub success: bool,
    pub message: String,
}

/// GET /sensors/history query string.
#[derive(Debug)]
pub struct HistoryQuery {
    pub date: Option<String>,
    pub limit: Option<i64>,
}

/// Response to GET /sensors/history.
#[derive(Debug)]
pub struct SensorHistoryResponse {
    pub readings: Vec<SensorLog>,
    pub date: String,
    pub count: usize,
}

/// Response to GET /sensors/latest.
#[derive(Debug)]
pub struct SensorLatestResponse {
    pub reading: Option<SensorLog>,
}

} // verus!
