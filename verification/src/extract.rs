//! Key-namespace extraction: from an untyped snapshot to the fixed record.

use vstd::prelude::*;
use vstd::string::StringExecFns;
use crate::record::{TelemetryRecord, TelemetryRecordView};
use crate::value::{Value, ValueView};
use crate::view::KeyValueView;

verus! {

/// The fixed namespace that scopes which keys of the remote store are
/// eligible for extraction; a field named `n` is looked up under the fully
/// qualified key `prefix + n`.
pub open spec fn spec_table_prefix() -> Seq<char> {
    "/data/"@
}

/// Executable form of [`spec_table_prefix`].
pub fn table_prefix() -> (r: &'static str)
    ensures
        r@ == spec_table_prefix(),
{
    "/data/"
}

/// The numeric payload a snapshot holds at `key`: the zero pattern when the
/// key is absent or holds another kind.
pub open spec fn number_at(m: Map<Seq<char>, ValueView>, key: Seq<char>) -> u64 {
    if m.contains_key(key) {
        match m[key] {
            ValueView::Number(n) => n,
            _ => 0,
        }
    } else {
        0
    }
}

/// The boolean a snapshot holds at `key`: false when the key is absent or
/// holds another kind.
pub open spec fn bool_at(m: Map<Seq<char>, ValueView>, key: Seq<char>) -> bool {
    if m.contains_key(key) {
        match m[key] {
            ValueView::Bool(b) => b,
            _ => false,
        }
    } else {
        false
    }
}

/// The text a snapshot holds at `key`: empty when the key is absent or holds
/// another kind.
pub open spec fn text_at(m: Map<Seq<char>, ValueView>, key: Seq<char>) -> Seq<char> {
    if m.contains_key(key) {
        match m[key] {
            ValueView::Text(s) => s,
            _ => Seq::<char>::empty(),
        }
    } else {
        Seq::<char>::empty()
    }
}

/// The record that extraction owes on a given snapshot: per field, the value
/// under the field's qualified key, coerced to the field's kind or defaulted.
pub open spec fn spec_extract(m: Map<Seq<char>, ValueView>, prefix: Seq<char>) -> TelemetryRecordView {
    TelemetryRecordView {
        flywheel_rpm: number_at(m, prefix + "flywheel_rpm"@),
        flywheel_temp: number_at(m, prefix + "flywheel_temp"@),
        left_pos: number_at(m, prefix + "left_pos"@),
        right_pos: number_at(m, prefix + "right_pos"@),
        rotation_2d: number_at(m, prefix + "rotation_2d"@),
        left_front_voltage: number_at(m, prefix + "left_front_voltage"@),
        left_back_voltage: number_at(m, prefix + "left_back_voltage"@),
        right_front_voltage: number_at(m, prefix + "right_front_voltage"@),
        right_back_voltage: number_at(m, prefix + "right_back_voltage"@),
        gyro_turn_rate: number_at(m, prefix + "gyro_turn_rate"@),
        x_speed: number_at(m, prefix + "x_speed"@),
        z_rotation: number_at(m, prefix + "z_rotation"@),
        compressor_current: number_at(m, prefix + "compressor_current"@),
        compressor_enabled: bool_at(m, prefix + "compressor_enabled"@),
        forward_solenoid: bool_at(m, prefix + "forward_solenoid"@),
        reverse_solenoid: bool_at(m, prefix + "reverse_solenoid"@),
        intake_alive: bool_at(m, prefix + "intake_alive"@),
        intake_power: number_at(m, prefix + "intake_power"@),
        intake_state: bool_at(m, prefix + "intake_state"@),
        unix_time: text_at(m, prefix + "unix_time"@),
    }
}

/// Looks the qualified key `prefix + name` up and coerces to a number,
/// defaulting on absence or kind mismatch.
fn lookup_number(view: &KeyValueView, prefix: &str, name: &str) -> (r: u64)
    ensures
        r == number_at(view@, prefix@ + name@),
{
    let key: String = prefix.to_owned().concat(name);
    match view.get(&key) {
        Some(Value::Number(n)) => *n,
        Some(_) => 0,
        None => 0,
    }
}

/// Looks the qualified key `prefix + name` up and coerces to a boolean,
/// defaulting on absence or kind mismatch.
fn lookup_bool(view: &KeyValueView, prefix: &str, name: &str) -> (r: bool)
    ensures
        r == bool_at(view@, prefix@ + name@),
{
    let key: String = prefix.to_owned().concat(name);
    match view.get(&key) {
        Some(Value::Bool(b)) => *b,
        Some(_) => false,
        None => false,
    }
}

/// Looks the qualified key `prefix + name` up and coerces to text,
/// defaulting on absence or kind mismatch.
fn lookup_text(view: &KeyValueView, prefix: &str, name: &str) -> (r: String)
    ensures
        r@ == text_at(view@, prefix@ + name@),
{
    let key: String = prefix.to_owned().concat(name);
    match view.get(&key) {
        Some(Value::Text(s)) => s.clone(),
        Some(_) => String::new(),
        None => String::new(),
    }
}

/// Turns one snapshot into the fixed-shape record. Total: for each field, the
/// value under `prefix + field_name` is used when present with the field's
/// kind, and the field's default stands in otherwise, so a store that is
/// offline, stale or partially populated degrades to defaulted fields rather
/// than an error.
pub fn extract(view: &KeyValueView, prefix: &str) -> (r: TelemetryRecord)
    ensures
        r@ == spec_extract(view@, prefix@),
{
    let r = TelemetryRecord {
        flywheel_rpm: lookup_number(view, prefix, "flywheel_rpm"),
        flywheel_temp: lookup_number(view, prefix, "flywheel_temp"),
        left_pos: lookup_number(view, prefix, "left_pos"),
        right_pos: lookup_number(view, prefix, "right_pos"),
        rotation_2d: lookup_number(view, prefix, "rotation_2d"),
        left_front_voltage: lookup_number(view, prefix, "left_front_voltage"),
        left_back_voltage: lookup_number(view, prefix, "left_back_voltage"),
        right_front_voltage: lookup_number(view, prefix, "right_front_voltage"),
        right_back_voltage: lookup_number(view, prefix, "right_back_voltage"),
        gyro_turn_rate: lookup_number(view, prefix, "gyro_turn_rate"),
        x_speed: lookup_number(view, prefix, "x_speed"),
        z_rotation: lookup_number(view, prefix, "z_rotation"),
        compressor_current: lookup_number(view, prefix, "compressor_current"),
        compressor_enabled: lookup_bool(view, prefix, "compressor_enabled"),
        forward_solenoid: lookup_bool(view, prefix, "forward_solenoid"),
        reverse_solenoid: lookup_bool(view, prefix, "reverse_solenoid"),
        intake_alive: lookup_bool(view, prefix, "intake_alive"),
        intake_power: lookup_number(view, prefix, "intake_power"),
        intake_state: lookup_bool(view, prefix, "intake_state"),
        unix_time: lookup_text(view, prefix, "unix_time"),
    };
    proof {
        assert(r@ =~= spec_extract(view@, prefix@));
    }
    r
}

/// Whether `key` lies under the namespace `prefix`.
pub open spec fn has_prefix(key: Seq<char>, prefix: Seq<char>) -> bool {
    prefix.len() <= key.len() && key.take(prefix.len() as int) == prefix
}

/// Every qualified field key lies under its own namespace.
pub proof fn lemma_concat_has_prefix(prefix: Seq<char>, name: Seq<char>)
    ensures
        has_prefix(prefix + name, prefix),
{
    assert((prefix + name).take(prefix.len() as int) =~= prefix);
}

/// Law: on a snapshot that holds no key at all under the namespace prefix,
/// extraction returns exactly the all-defaults record.
pub proof fn lemma_extract_empty_namespace_defaults(m: Map<Seq<char>, ValueView>, prefix: Seq<char>)
    requires
        forall|k: Seq<char>| #[trigger] m.contains_key(k) ==> !has_prefix(k, prefix),
    ensures
        spec_extract(m, prefix) == TelemetryRecordView::defaults(),
{
    assert forall|name: Seq<char>| !(#[trigger] m.contains_key(prefix + name)) by {
        lemma_concat_has_prefix(prefix, name);
    }
    assert(spec_extract(m, prefix) =~= TelemetryRecordView::defaults());
}

/// Whether two snapshots hold the same thing at `key`: both lack it, or both
/// hold the same value under it.
pub open spec fn agree_at(
    m1: Map<Seq<char>, ValueView>,
    m2: Map<Seq<char>, ValueView>,
    key: Seq<char>,
) -> bool {
    &&& m1.contains_key(key) == m2.contains_key(key)
    &&& (m1.contains_key(key) ==> m1[key] == m2[key])
}

/// Law: each output field depends on the snapshot only at its own qualified
/// key — two snapshots that agree there extract the same field, whatever else
/// differs between them.
pub proof fn lemma_field_isolation(
    m1: Map<Seq<char>, ValueView>,
    m2: Map<Seq<char>, ValueView>,
    prefix: Seq<char>,
)
    ensures
        agree_at(m1, m2, prefix + "flywheel_rpm"@)
            ==> spec_extract(m1, prefix).flywheel_rpm == spec_extract(m2, prefix).flywheel_rpm,
        agree_at(m1, m2, prefix + "flywheel_temp"@)
            ==> spec_extract(m1, prefix).flywheel_temp == spec_extract(m2, prefix).flywheel_temp,
        agree_at(m1, m2, prefix + "left_pos"@)
            ==> spec_extract(m1, prefix).left_pos == spec_extract(m2, prefix).left_pos,
        agree_at(m1, m2, prefix + "right_pos"@)
            ==> spec_extract(m1, prefix).right_pos == spec_extract(m2, prefix).right_pos,
        agree_at(m1, m2, prefix + "rotation_2d"@)
            ==> spec_extract(m1, prefix).rotation_2d == spec_extract(m2, prefix).rotation_2d,
        agree_at(m1, m2, prefix + "left_front_voltage"@)
            ==> spec_extract(m1, prefix).left_front_voltage == spec_extract(m2, prefix).left_front_voltage,
        agree_at(m1, m2, prefix + "left_back_voltage"@)
            ==> spec_extract(m1, prefix).left_back_voltage == spec_extract(m2, prefix).left_back_voltage,
        agree_at(m1, m2, prefix + "right_front_voltage"@)
            ==> spec_extract(m1, prefix).right_front_voltage == spec_extract(m2, prefix).right_front_voltage,
        agree_at(m1, m2, prefix + "right_back_voltage"@)
            ==> spec_extract(m1, prefix).right_back_voltage == spec_extract(m2, prefix).right_back_voltage,
        agree_at(m1, m2, prefix + "gyro_turn_rate"@)
            ==> spec_extract(m1, prefix).gyro_turn_rate == spec_extract(m2, prefix).gyro_turn_rate,
        agree_at(m1, m2, prefix + "x_speed"@)
            ==> spec_extract(m1, prefix).x_speed == spec_extract(m2, prefix).x_speed,
        agree_at(m1, m2, prefix + "z_rotation"@)
            ==> spec_extract(m1, prefix).z_rotation == spec_extract(m2, prefix).z_rotation,
        agree_at(m1, m2, prefix + "compressor_current"@)
            ==> spec_extract(m1, prefix).compressor_current == spec_extract(m2, prefix).compressor_current,
        agree_at(m1, m2, prefix + "compressor_enabled"@)
            ==> spec_extract(m1, prefix).compressor_enabled == spec_extract(m2, prefix).compressor_enabled,
        agree_at(m1, m2, prefix + "forward_solenoid"@)
            ==> spec_extract(m1, prefix).forward_solenoid == spec_extract(m2, prefix).forward_solenoid,
        agree_at(m1, m2, prefix + "reverse_solenoid"@)
            ==> spec_extract(m1, prefix).reverse_solenoid == spec_extract(m2, prefix).reverse_solenoid,
        agree_at(m1, m2, prefix + "intake_alive"@)
            ==> spec_extract(m1, prefix).intake_alive == spec_extract(m2, prefix).intake_alive,
        agree_at(m1, m2, prefix + "intake_power"@)
            ==> spec_extract(m1, prefix).intake_power == spec_extract(m2, prefix).intake_power,
        agree_at(m1, m2, prefix + "intake_state"@)
            ==> spec_extract(m1, prefix).intake_state == spec_extract(m2, prefix).intake_state,
        agree_at(m1, m2, prefix + "unix_time"@)
            ==> spec_extract(m1, prefix).unix_time == spec_extract(m2, prefix).unix_time,
{
}

/// Law: a present key whose value has the wrong kind yields that kind's
/// default, exactly as an absent key does.
pub proof fn lemma_mismatch_takes_default(m: Map<Seq<char>, ValueView>, key: Seq<char>)
    ensures
        m.contains_key(key) && !(m[key] is Number) ==> number_at(m, key) == 0,
        m.contains_key(key) && !(m[key] is Bool) ==> bool_at(m, key) == false,
        m.contains_key(key) && !(m[key] is Text) ==> text_at(m, key) == Seq::<char>::empty(),
{
}

/// Law: on a snapshot where every field's qualified key is present with the
/// field's kind, extraction reproduces every stored value exactly.
pub proof fn lemma_round_trip(m: Map<Seq<char>, ValueView>, prefix: Seq<char>)
    requires
        m.contains_key(prefix + "flywheel_rpm"@) && m[prefix + "flywheel_rpm"@] is Number,
        m.contains_key(prefix + "flywheel_temp"@) && m[prefix + "flywheel_temp"@] is Number,
        m.contains_key(prefix + "left_pos"@) && m[prefix + "left_pos"@] is Number,
        m.contains_key(prefix + "right_pos"@) && m[prefix + "right_pos"@] is Number,
        m.contains_key(prefix + "rotation_2d"@) && m[prefix + "rotation_2d"@] is Number,
        m.contains_key(prefix + "left_front_voltage"@) && m[prefix + "left_front_voltage"@] is Number,
        m.contains_key(prefix + "left_back_voltage"@) && m[prefix + "left_back_voltage"@] is Number,
        m.contains_key(prefix + "right_front_voltage"@) && m[prefix + "right_front_voltage"@] is Number,
        m.contains_key(prefix + "right_back_voltage"@) && m[prefix + "right_back_voltage"@] is Number,
        m.contains_key(prefix + "gyro_turn_rate"@) && m[prefix + "gyro_turn_rate"@] is Number,
        m.contains_key(prefix + "x_speed"@) && m[prefix + "x_speed"@] is Number,
        m.contains_key(prefix + "z_rotation"@) && m[prefix + "z_rotation"@] is Number,
        m.contains_key(prefix + "compressor_current"@) && m[prefix + "compressor_current"@] is Number,
        m.contains_key(prefix + "compressor_enabled"@) && m[prefix + "compressor_enabled"@] is Bool,
        m.contains_key(prefix + "forward_solenoid"@) && m[prefix + "forward_solenoid"@] is Bool,
        m.contains_key(prefix + "reverse_solenoid"@) && m[prefix + "reverse_solenoid"@] is Bool,
        m.contains_key(prefix + "intake_alive"@) && m[prefix + "intake_alive"@] is Bool,
        m.contains_key(prefix + "intake_power"@) && m[prefix + "intake_power"@] is Number,
        m.contains_key(prefix + "intake_state"@) && m[prefix + "intake_state"@] is Bool,
        m.contains_key(prefix + "unix_time"@) && m[prefix + "unix_time"@] is Text,
    ensures
        ValueView::Number(spec_extract(m, prefix).flywheel_rpm) == m[prefix + "flywheel_rpm"@],
        ValueView::Number(spec_extract(m, prefix).flywheel_temp) == m[prefix + "flywheel_temp"@],
        ValueView::Number(spec_extract(m, prefix).left_pos) == m[prefix + "left_pos"@],
        ValueView::Number(spec_extract(m, prefix).right_pos) == m[prefix + "right_pos"@],
        ValueView::Number(spec_extract(m, prefix).rotation_2d) == m[prefix + "rotation_2d"@],
        ValueView::Number(spec_extract(m, prefix).left_front_voltage) == m[prefix + "left_front_voltage"@],
        ValueView::Number(spec_extract(m, prefix).left_back_voltage) == m[prefix + "left_back_voltage"@],
        ValueView::Number(spec_extract(m, prefix).right_front_voltage) == m[prefix + "right_front_voltage"@],
        ValueView::Number(spec_extract(m, prefix).right_back_voltage) == m[prefix + "right_back_voltage"@],
        ValueView::Number(spec_extract(m, prefix).gyro_turn_rate) == m[prefix + "gyro_turn_rate"@],
        ValueView::Number(spec_extract(m, prefix).x_speed) == m[prefix + "x_speed"@],
        ValueView::Number(spec_extract(m, prefix).z_rotation) == m[prefix + "z_rotation"@],
        ValueView::Number(spec_extract(m, prefix).compressor_current) == m[prefix + "compressor_current"@],
        ValueView::Bool(spec_extract(m, prefix).compressor_enabled) == m[prefix + "compressor_enabled"@],
        ValueView::Bool(spec_extract(m, prefix).forward_solenoid) == m[prefix + "forward_solenoid"@],
        ValueView::Bool(spec_extract(m, prefix).reverse_solenoid) == m[prefix + "reverse_solenoid"@],
        ValueView::Bool(spec_extract(m, prefix).intake_alive) == m[prefix + "intake_alive"@],
        ValueView::Number(spec_extract(m, prefix).intake_power) == m[prefix + "intake_power"@],
        ValueView::Bool(spec_extract(m, prefix).intake_state) == m[prefix + "intake_state"@],
        ValueView::Text(spec_extract(m, prefix).unix_time) == m[prefix + "unix_time"@],
{
}

/// Law: the namespace prefix is strictly respected. Adding an entry under a
/// key that does not carry the prefix — in particular a bare field name —
/// leaves the extracted record unchanged.
pub proof fn lemma_unprefixed_key_ignored(
    m: Map<Seq<char>, ValueView>,
    prefix: Seq<char>,
    key: Seq<char>,
    v: ValueView,
)
    requires
        !has_prefix(key, prefix),
    ensures
        spec_extract(m.insert(key, v), prefix) == spec_extract(m, prefix),
{
    assert forall|name: Seq<char>| prefix + name != key by {
        lemma_concat_has_prefix(prefix, name);
    }
    assert(spec_extract(m.insert(key, v), prefix) =~= spec_extract(m, prefix));
}

} // verus!
