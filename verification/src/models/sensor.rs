use vstd::prelude::*;

verus! {

/// One row of the `sensor_logs` table.
///
/// `timestamp_slot` is the row's instant in nanoseconds since the Unix epoch (UTC).
/// `voltage`, `current` and `power` hold the IEEE-754 bit patterns of the `f32`
/// readings: the library only carries them, it never computes with them.
#[derive(Clone, Copy, Debug, PartialEq, Eq)]
pub struct SensorLog {
    pub id: i64,
    pub timestamp_slot: i128,
    pub lux_l: Option<i32>,
    pub lux_ml: Option<i32>,
    pub lux_mr: Option<i32>,
    pub lux_r: Option<i32>,
    pub lux_panel_left: Option<i32>,
    pub lux_panel_right: Option<i32>,
    pub voltage: Option<u32>,
    pub current: Option<u32>,
    pub power: Option<u32>,
    pub is_online: bool,
}

/// Single-row table for the latest sensor reading (id = 0 always).
#[derive(Clone, Copy, Debug, PartialEq, Eq)]
pub struct SensorCurrentReading {
    pub id: i32,
    pub timestamp_slot: i128,
    pub lux_l: Option<i32>,
    pub lux_ml: Option<i32>,
    pub lux_mr: Option<i32>,
    pub lux_r: Option<i32>,
    pub lux_panel_left: Option<i32>,
    pub lux_panel_right: Option<i32>,
    pub voltage: Option<u32>,
    pub current: Option<u32>,
    pub power: Option<u32>,
    pub is_online: bool,
}

/// The nine sensor columns of a log row.
#[derive(Clone, Copy, Debug, PartialEq, Eq)]
pub enum SensorField {
    LuxL,
    LuxMl,
    LuxMr,
    LuxR,
    LuxPanelLeft,
    LuxPanelRight,
    Voltage,
    Current,
    Power,
}

/// Whether the row holds a (non-`NULL`) value in the given column.
pub open spec fn has_value(r: SensorLog, f: SensorField) -> bool {
    match f {
        SensorField::LuxL => r.lux_l is Some,
        SensorField::LuxMl => r.lux_ml is Some,
        SensorField::LuxMr => r.lux_mr is Some,
        SensorField::LuxR => r.lux_r is Some,
        SensorField::LuxPanelLeft => r.lux_panel_left is Some,
        SensorField::LuxPanelRight => r.lux_panel_right is Some,
        SensorField::Voltage => r.voltage is Some,
        SensorField::Current => r.current is Some,
        SensorField::Power => r.power is Some,
    }
}

/// The value of a column of a row, as an integer (the bit pattern for the
/// floating-point columns); `None` for `NULL`.
pub open spec fn column_value(r: SensorLog, f: SensorField) -> Option<int> {
    match f {
        SensorField::LuxL => match r.lux_l { Some(v) => Some(v as int), None => None },
        SensorField::LuxMl => match r.lux_ml { Some(v) => Some(v as int), None => None },
        SensorField::LuxMr => match r.lux_mr { Some(v) => Some(v as int), None => None },
        SensorField::LuxR => match r.lux_r { Some(v) => Some(v as int), None => None },
        SensorField::LuxPanelLeft => match r.lux_panel_left { Some(v) => Some(v as int), None => None },
        SensorField::LuxPanelRight => match r.lux_panel_right { Some(v) => Some(v as int), None => None },
        SensorField::Voltage => match r.voltage { Some(v) => Some(v as int), None => None },
        SensorField::Current => match r.current { Some(v) => Some(v as int), None => None },
        SensorField::Power => match r.power { Some(v) => Some(v as int), None => None },
    }
}

/// A heartbeat row: every sensor column `NULL` and not online.
pub open spec fn is_heartbeat(r: SensorLog) -> bool {
    &&& forall|f: SensorField| !#[trigger] has_value(r, f)
    &&& !r.is_online
}

impl SensorLog {
    /// Whether this row holds a value in the given column.
    pub fn has(&self, f: SensorField) -> (b: bool)
        ensures
            b == has_value(*self, f),
    {
        match f {
            SensorField::LuxL => self.lux_l.is_some(),
            SensorField::LuxMl => self.lux_ml.is_some(),
            SensorField::LuxMr => self.lux_mr.is_some(),
            SensorField::LuxR => self.lux_r.is_some(),
            SensorField::LuxPanelLeft => self.lux_panel_left.is_some(),
            SensorField::LuxPanelRight => self.lux_panel_right.is_some(),
            SensorField::Voltage => self.voltage.is_some(),
            SensorField::Current => self.current.is_some(),
            SensorField::Power => self.power.is_some(),
        }
    }
}

} // verus!
