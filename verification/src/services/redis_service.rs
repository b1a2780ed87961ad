use vstd::prelude::*;

pub mod ttl;

verus! {

/// Redis list key used as the sensor write-buffer.
pub const SENSOR_BUFFER_KEY: &'static str = "sensor:buffer";

/// Index of the newest buffered reading: readings are pushed with LPUSH,
/// so the newest one is at the head of the list.
pub fn latest_buffer_index() -> (i: i64)
    ensures
        i == 0,
{
    0
}

} // verus!
