//! TTL presets (seconds): every Redis write expires, which keeps memory bounded.
use vstd::prelude::*;

verus! {

/// Rate-limit keys: a one-minute window.
pub const SHORT: u64 = 60;

/// Sensor write-buffer: five minutes, enough to survive a brief database outage
/// and to drain by itself when the flusher is not running.
pub const SENSOR_BUFFER: u64 = 300;

} // verus!
