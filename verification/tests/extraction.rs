use telemetry_bridge::extract::{extract, table_prefix};
use telemetry_bridge::record::TelemetryRecord;
use telemetry_bridge::value::Value;
use telemetry_bridge::view::KeyValueView;

fn assert_all_defaults(r: &TelemetryRecord) {
    assert_eq!(f64::from_bits(r.flywheel_rpm), 0.0);
    assert_eq!(f64::from_bits(r.flywheel_temp), 0.0);
    assert_eq!(f64::from_bits(r.left_pos), 0.0);
    assert_eq!(f64::from_bits(r.right_pos), 0.0);
    assert_eq!(f64::from_bits(r.rotation_2d), 0.0);
    assert_eq!(f64::from_bits(r.left_front_voltage), 0.0);
    assert_eq!(f64::from_bits(r.left_back_voltage), 0.0);
    assert_eq!(f64::from_bits(r.right_front_voltage), 0.0);
    assert_eq!(f64::from_bits(r.right_back_voltage), 0.0);
    assert_eq!(f64::from_bits(r.gyro_turn_rate), 0.0);
    assert_eq!(f64::from_bits(r.x_speed), 0.0);
    assert_eq!(f64::from_bits(r.z_rotation), 0.0);
    assert_eq!(f64::from_bits(r.compressor_current), 0.0);
    assert!(!r.compressor_enabled);
    assert!(!r.forward_solenoid);
    assert!(!r.reverse_solenoid);
    assert!(!r.intake_alive);
    assert_eq!(f64::from_bits(r.intake_power), 0.0);
    assert!(!r.intake_state);
    assert_eq!(r.unix_time, "");
}

#[test]
fn empty_view_extracts_all_defaults() {
    let view = KeyValueView::new();
    let r = extract(&view, table_prefix());
    assert_all_defaults(&r);
}

#[test]
fn keys_outside_namespace_extract_all_defaults() {
    let mut view = KeyValueView::new();
    view.put("/other/flywheel_rpm".to_owned(), Value::Number(4500.0f64.to_bits()));
    view.put("/misc/compressor_enabled".to_owned(), Value::Bool(true));
    view.put("/data2/unix_time".to_owned(), Value::Text("123".to_owned()));
    let r = extract(&view, table_prefix());
    assert_all_defaults(&r);
}

#[test]
fn bare_field_name_without_prefix_is_never_matched() {
    let mut view = KeyValueView::new();
    view.put("flywheel_rpm".to_owned(), Value::Number(4500.0f64.to_bits()));
    view.put("compressor_enabled".to_owned(), Value::Bool(true));
    view.put("unix_time".to_owned(), Value::Text("1690000000".to_owned()));
    let r = extract(&view, table_prefix());
    assert_all_defaults(&r);
}

#[test]
fn mismatched_kind_defaults_that_field_only() {
    let mut view = KeyValueView::new();
    // Wrong kinds under the right keys: each such field takes its default.
    view.put("/data/flywheel_rpm".to_owned(), Value::Bool(true));
    view.put("/data/compressor_enabled".to_owned(), Value::Number(1.0f64.to_bits()));
    view.put("/data/unix_time".to_owned(), Value::Number(1690000000.0f64.to_bits()));
    // A correctly typed neighbour is unaffected.
    view.put("/data/flywheel_temp".to_owned(), Value::Number(88.5f64.to_bits()));
    let r = extract(&view, table_prefix());
    assert_eq!(f64::from_bits(r.flywheel_rpm), 0.0);
    assert!(!r.compressor_enabled);
    assert_eq!(r.unix_time, "");
    assert_eq!(f64::from_bits(r.flywheel_temp), 88.5);
}

#[test]
fn fully_populated_view_round_trips_every_field() {
    let mut view = KeyValueView::new();
    view.put("/data/flywheel_rpm".to_owned(), Value::Number(4500.0f64.to_bits()));
    view.put("/data/flywheel_temp".to_owned(), Value::Number(71.25f64.to_bits()));
    view.put("/data/left_pos".to_owned(), Value::Number(1.5f64.to_bits()));
    view.put("/data/right_pos".to_owned(), Value::Number((-1.5f64).to_bits()));
    view.put("/data/rotation_2d".to_owned(), Value::Number(180.0f64.to_bits()));
    view.put("/data/left_front_voltage".to_owned(), Value::Number(11.9f64.to_bits()));
    view.put("/data/left_back_voltage".to_owned(), Value::Number(11.8f64.to_bits()));
    view.put("/data/right_front_voltage".to_owned(), Value::Number(12.1f64.to_bits()));
    view.put("/data/right_back_voltage".to_owned(), Value::Number(12.2f64.to_bits()));
    view.put("/data/gyro_turn_rate".to_owned(), Value::Number(0.25f64.to_bits()));
    view.put("/data/x_speed".to_owned(), Value::Number(3.5f64.to_bits()));
    view.put("/data/z_rotation".to_owned(), Value::Number((-0.5f64).to_bits()));
    view.put("/data/compressor_current".to_owned(), Value::Number(6.75f64.to_bits()));
    view.put("/data/compressor_enabled".to_owned(), Value::Bool(true));
    view.put("/data/forward_solenoid".to_owned(), Value::Bool(false));
    view.put("/data/reverse_solenoid".to_owned(), Value::Bool(true));
    view.put("/data/intake_alive".to_owned(), Value::Bool(true));
    view.put("/data/intake_power".to_owned(), Value::Number(0.8f64.to_bits()));
    view.put("/data/intake_state".to_owned(), Value::Bool(false));
    view.put("/data/unix_time".to_owned(), Value::Text("1690000000".to_owned()));
    let r = extract(&view, table_prefix());
    assert_eq!(f64::from_bits(r.flywheel_rpm), 4500.0);
    assert_eq!(f64::from_bits(r.flywheel_temp), 71.25);
    assert_eq!(f64::from_bits(r.left_pos), 1.5);
    assert_eq!(f64::from_bits(r.right_pos), -1.5);
    assert_eq!(f64::from_bits(r.rotation_2d), 180.0);
    assert_eq!(f64::from_bits(r.left_front_voltage), 11.9);
    assert_eq!(f64::from_bits(r.left_back_voltage), 11.8);
    assert_eq!(f64::from_bits(r.right_front_voltage), 12.1);
    assert_eq!(f64::from_bits(r.right_back_voltage), 12.2);
    assert_eq!(f64::from_bits(r.gyro_turn_rate), 0.25);
    assert_eq!(f64::from_bits(r.x_speed), 3.5);
    assert_eq!(f64::from_bits(r.z_rotation), -0.5);
    assert_eq!(f64::from_bits(r.compressor_current), 6.75);
    assert!(r.compressor_enabled);
    assert!(!r.forward_solenoid);
    assert!(r.reverse_solenoid);
    assert!(r.intake_alive);
    assert_eq!(f64::from_bits(r.intake_power), 0.8);
    assert!(!r.intake_state);
    assert_eq!(r.unix_time, "1690000000");
}

#[test]
fn three_entry_view_extracts_those_and_defaults_the_rest() {
    let mut view = KeyValueView::new();
    view.put("/data/flywheel_rpm".to_owned(), Value::Number(4500.0f64.to_bits()));
    view.put("/data/compressor_enabled".to_owned(), Value::Bool(true));
    view.put("/data/unix_time".to_owned(), Value::Text("1690000000".to_owned()));
    let r = extract(&view, "/data/");
    assert_eq!(f64::from_bits(r.flywheel_rpm), 4500.0);
    assert!(r.compressor_enabled);
    assert_eq!(r.unix_time, "1690000000");
    // Every other field keeps its default.
    assert_eq!(f64::from_bits(r.flywheel_temp), 0.0);
    assert_eq!(f64::from_bits(r.left_pos), 0.0);
    assert_eq!(f64::from_bits(r.right_pos), 0.0);
    assert_eq!(f64::from_bits(r.rotation_2d), 0.0);
    assert_eq!(f64::from_bits(r.left_front_voltage), 0.0);
    assert_eq!(f64::from_bits(r.left_back_voltage), 0.0);
    assert_eq!(f64::from_bits(r.right_front_voltage), 0.0);
    assert_eq!(f64::from_bits(r.right_back_voltage), 0.0);
    assert_eq!(f64::from_bits(r.gyro_turn_rate), 0.0);
    assert_eq!(f64::from_bits(r.x_speed), 0.0);
    assert_eq!(f64::from_bits(r.z_rotation), 0.0);
    assert_eq!(f64::from_bits(r.compressor_current), 0.0);
    assert!(!r.forward_solenoid);
    assert!(!r.reverse_solenoid);
    assert!(!r.intake_alive);
    assert_eq!(f64::from_bits(r.intake_power), 0.0);
    assert!(!r.intake_state);
}

#[test]
fn later_entry_for_same_key_wins() {
    let mut view = KeyValueView::new();
    view.put("/data/flywheel_rpm".to_owned(), Value::Number(1.0f64.to_bits()));
    view.put("/data/flywheel_rpm".to_owned(), Value::Number(2.0f64.to_bits()));
    let r = extract(&view, table_prefix());
    assert_eq!(f64::from_bits(r.flywheel_rpm), 2.0);
}

#[test]
fn default_record_is_all_defaults() {
    let r = TelemetryRecord::default();
    assert_all_defaults(&r);
}

#[test]
fn get_returns_last_value_or_nothing() {
    let mut view = KeyValueView::new();
    view.put("/data/intake_alive".to_owned(), Value::Bool(false));
    view.put("/data/intake_alive".to_owned(), Value::Bool(true));
    match view.get(&"/data/intake_alive".to_owned()) {
        Some(Value::Bool(b)) => assert!(*b),
        _ => panic!("expected the boolean written last"),
    }
    assert!(view.get(&"/data/missing".to_owned()).is_none());
}
