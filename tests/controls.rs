use bevy_orbit_camera::controls::{pointer_gate, roll_direction, zoom_gate, PointerGate, ZoomGate};

#[test]
fn pointer_gate_applies_without_trigger() {
    assert_eq!(pointer_gate(true, true, None), PointerGate::Apply);
}

#[test]
fn pointer_gate_applies_with_held_trigger() {
    assert_eq!(pointer_gate(true, true, Some(true)), PointerGate::Apply);
}

#[test]
fn pointer_gate_discards_with_released_trigger() {
    assert_eq!(pointer_gate(true, true, Some(false)), PointerGate::Discard);
}

#[test]
fn pointer_gate_discards_when_disabled() {
    assert_eq!(pointer_gate(false, true, None), PointerGate::Discard);
    assert_eq!(pointer_gate(true, false, Some(true)), PointerGate::Discard);
}

#[test]
fn zoom_gate_eases_with_released_trigger() {
    assert_eq!(zoom_gate(true, true, Some(false)), ZoomGate::Ease);
}

#[test]
fn zoom_gate_applies() {
    assert_eq!(zoom_gate(true, true, None), ZoomGate::Apply);
    assert_eq!(zoom_gate(true, true, Some(true)), ZoomGate::Apply);
}

#[test]
fn zoom_gate_discards_when_disabled() {
    assert_eq!(zoom_gate(false, true, Some(true)), ZoomGate::Discard);
    assert_eq!(zoom_gate(true, false, None), ZoomGate::Discard);
}

#[test]
fn roll_direction_single_keys() {
    assert_eq!(roll_direction(true, true, Some((true, false))), 1);
    assert_eq!(roll_direction(true, true, Some((false, true))), -1);
}

#[test]
fn roll_direction_both_keys_cancel() {
    assert_eq!(roll_direction(true, true, Some((true, true))), 0);
    assert_eq!(roll_direction(true, true, Some((false, false))), 0);
}

#[test]
fn roll_direction_without_keys_or_disabled() {
    assert_eq!(roll_direction(true, true, None), 0);
    assert_eq!(roll_direction(false, true, Some((true, false))), 0);
    assert_eq!(roll_direction(true, false, Some((false, true))), 0);
}
