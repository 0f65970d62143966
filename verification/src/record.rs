//! The fixed-shape snapshot record produced once per successful tick.

use vstd::prelude::*;

verus! {

/// One telemetry snapshot: the fixed field set the bridge publishes on every
/// successful tick. Numeric fields carry the 64-bit pattern of the double the
/// store reported; the core routes them through untouched and never reads
/// them as quantities. The unix time is deliberately carried as text, opaque
/// to this core. A record is built in one piece — extraction fully defaults
/// what is missing or mistyped — and handed to the sink whole.
#[derive(Clone, Debug)]
pub struct TelemetryRecord {
    pub flywheel_rpm: u64,
    pub flywheel_temp: u64,
    pub left_pos: u64,
    pub right_pos: u64,
    pub rotation_2d: u64,
    pub left_front_voltage: u64,
    pub left_back_voltage: u64,
    pub right_front_voltage: u64,
    pub right_back_voltage: u64,
    pub gyro_turn_rate: u64,
    pub x_speed: u64,
    pub z_rotation: u64,
    pub compressor_current: u64,
    pub compressor_enabled: bool,
    pub forward_solenoid: bool,
    pub reverse_solenoid: bool,
    pub intake_alive: bool,
    pub intake_power: u64,
    pub intake_state: bool,
    pub unix_time: String,
}

/// Mathematical image of a [`TelemetryRecord`]: the text field is abstracted
/// to its character sequence, the other fields are plain values already.
#[verifier::ext_equal]
pub struct TelemetryRecordView {
    pub flywheel_rpm: u64,
    pub flywheel_temp: u64,
    pub left_pos: u64,
    pub right_pos: u64,
    pub rotation_2d: u64,
    pub left_front_voltage: u64,
    pub left_back_voltage: u64,
    pub right_front_voltage: u64,
    pub right_back_voltage: u64,
    pub gyro_turn_rate: u64,
    pub x_speed: u64,
    pub z_rotation: u64,
    pub compressor_current: u64,
    pub compressor_enabled: bool,
    pub forward_solenoid: bool,
    pub reverse_solenoid: bool,
    pub intake_alive: bool,
    pub intake_power: u64,
    pub intake_state: bool,
    pub unix_time: Seq<char>,
}

impl View for TelemetryRecord {
    type V = TelemetryRecordView;

    open spec fn view(&self) -> TelemetryRecordView {
        TelemetryRecordView {
            flywheel_rpm: self.flywheel_rpm,
            flywheel_temp: self.flywheel_temp,
            left_pos: self.left_pos,
            right_pos: self.right_pos,
            rotation_2d: self.rotation_2d,
            left_front_voltage: self.left_front_voltage,
            left_back_voltage: self.left_back_voltage,
            right_front_voltage: self.right_front_voltage,
            right_back_voltage: self.right_back_voltage,
            gyro_turn_rate: self.gyro_turn_rate,
            x_speed: self.x_speed,
            z_rotation: self.z_rotation,
            compressor_current: self.compressor_current,
            compressor_enabled: self.compressor_enabled,
            forward_solenoid: self.forward_solenoid,
            reverse_solenoid: self.reverse_solenoid,
            intake_alive: self.intake_alive,
            intake_power: self.intake_power,
            intake_state: self.intake_state,
            unix_time: self.unix_time@,
        }
    }
}

impl TelemetryRecordView {
    /// The all-defaults record: false for booleans, the zero pattern for
    /// numbers, empty text. Extraction degrades to this when the store offers
    /// nothing usable.
    pub open spec fn defaults() -> TelemetryRecordView {
        TelemetryRecordView {
            flywheel_rpm: 0,
            flywheel_temp: 0,
            left_pos: 0,
            right_pos: 0,
            rotation_2d: 0,
            left_front_voltage: 0,
            left_back_voltage: 0,
            right_front_voltage: 0,
            right_back_voltage: 0,
            gyro_turn_rate: 0,
            x_speed: 0,
            z_rotation: 0,
            compressor_current: 0,
            compressor_enabled: false,
            forward_solenoid: false,
            reverse_solenoid: false,
            intake_alive: false,
            intake_power: 0,
            intake_state: false,
            unix_time: Seq::<char>::empty(),
        }
    }
}

impl Default for TelemetryRecord {
    /// The all-defaults record, field for field what extraction yields from a
    /// snapshot with no usable entry.
    fn default() -> (r: TelemetryRecord)
        ensures
            r@ == TelemetryRecordView::defaults(),
    {
        let r = TelemetryRecord {
            flywheel_rpm: 0,
            flywheel_temp: 0,
            left_pos: 0,
            right_pos: 0,
            rotation_2d: 0,
            left_front_voltage: 0,
            left_back_voltage: 0,
            right_front_voltage: 0,
            right_back_voltage: 0,
            gyro_turn_rate: 0,
            x_speed: 0,
            z_rotation: 0,
            compressor_current: 0,
            compressor_enabled: false,
            forward_solenoid: false,
            reverse_solenoid: false,
            intake_alive: false,
            intake_power: 0,
            intake_state: false,
            unix_time: String::new(),
        };
        proof {
            assert(r@ =~= TelemetryRecordView::defaults());
        }
        r
    }
}

} // verus!
