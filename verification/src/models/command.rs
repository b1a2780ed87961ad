use vstd::prelude::*;

verus! {

/// A row of the `active_commands` table.
///
/// Instants are nanoseconds since the Unix epoch (UTC). `target_value`,
/// `target_left_ratio`, `target_right_ratio` and `tolerance` hold the IEEE-754 bit
/// patterns of the `f32` values: the library only carries them.
#[derive(Debug)]
pub struct ActiveCommand {
    pub id: i64,
    pub created_at: i128,
    pub completed_at: Option<i128>,
    pub function_name: String,
    pub from_user: String,
    pub target_type: String,
    pub target_value: Option<u32>,
    pub target_left_ratio: Option<u32>,
    pub target_right_ratio: Option<u32>,
    pub tolerance: u32,
    pub lux_left: Option<i32>,
    pub lux_right: Option<i32>,
    pub status: i16,
}

} // verus!
