use vstd::prelude::*;

verus! {

/// What a pointer-driven control (rotation, pan) does with a frame's motion.
#[derive(Clone, Copy, Debug, PartialEq, Eq, Structural)]
pub enum PointerGate {
    /// Drain the frame's motion events and change nothing.
    Discard,
    /// Read the motion events and apply them.
    Apply,
}

/// What the zoom control does with a frame's scroll input.
#[derive(Clone, Copy, Debug, PartialEq, Eq, Structural)]
pub enum ZoomGate {
    /// Drain the scroll events and change nothing.
    Discard,
    /// Drain the scroll events, then apply a neutral factor of one, so that a
    /// smoothed zoom keeps easing toward its target.
    Ease,
    /// Read the scroll events and apply them.
    Apply,
}

/// A trigger lets input through when none is configured (`None`), or when the
/// configured button or key is held (`Some(true)`).
pub open spec fn trigger_allows(trigger: Option<bool>) -> bool {
    match trigger {
        Some(held) => held,
        None => true,
    }
}

pub open spec fn pointer_gate_spec(enable: bool, enable_feature: bool, trigger: Option<bool>) -> PointerGate {
    if enable && enable_feature && trigger_allows(trigger) {
        PointerGate::Apply
    } else {
        PointerGate::Discard
    }
}

pub open spec fn zoom_gate_spec(enable: bool, enable_zoom: bool, trigger: Option<bool>) -> ZoomGate {
    if !(enable && enable_zoom) {
        ZoomGate::Discard
    } else if trigger_allows(trigger) {
        ZoomGate::Apply
    } else {
        ZoomGate::Ease
    }
}

/// Held roll keys give a turn direction: +1 for the first alone, -1 for the
/// second alone, 0 for both or neither.
pub open spec fn roll_direction_spec(enable: bool, enable_roll: bool, keys: Option<(bool, bool)>) -> int {
    if enable && enable_roll {
        match keys {
            Some((first, second)) => (if first { 1int } else { 0int }) - (if second { 1int } else { 0int }),
            None => 0,
        }
    } else {
        0
    }
}

/// Gate of the rotation and pan controls, from the master switch, the
/// control's own switch and the state of its trigger button (`None` when no
/// trigger is configured).
pub fn pointer_gate(enable: bool, enable_feature: bool, trigger: Option<bool>) -> (r: PointerGate)
    ensures
        r == pointer_gate_spec(enable, enable_feature, trigger),
{
    if !enable || !enable_feature {
        return PointerGate::Discard;
    }
    match trigger {
        Some(held) => {
            if held {
                PointerGate::Apply
            } else {
                PointerGate::Discard
            }
        },
        None => PointerGate::Apply,
    }
}

/// Gate of the zoom control, from the master switch, the zoom switch and the
/// state of its trigger key (`None` when no trigger is configured).
pub fn zoom_gate(enable: bool, enable_zoom: bool, trigger: Option<bool>) -> (r: ZoomGate)
    ensures
        r == zoom_gate_spec(enable, enable_zoom, trigger),
{
    if !enable || !enable_zoom {
        return ZoomGate::Discard;
    }
    match trigger {
        Some(held) => {
            if held {
                ZoomGate::Apply
            } else {
                ZoomGate::Ease
            }
        },
        None => ZoomGate::Apply,
    }
}

/// Direction of this frame's roll, from the switches and the held state of
/// the configured key pair (`None` when no pair is configured). The roll
/// angle is this direction times the roll speed and the frame time.
pub fn roll_direction(enable: bool, enable_roll: bool, keys: Option<(bool, bool)>) -> (r: i8)
    ensures
        r as int == roll_direction_spec(enable, enable_roll, keys),
        -1 <= r <= 1,
{
    if !enable || !enable_roll {
        return 0;
    }
    match keys {
        Some((first, second)) => {
            let mut direction: i8 = 0;
            if first {
                direction = direction + 1;
            }
            if second {
                direction = direction - 1;
            }
            direction
        },
        None => 0,
    }
}

/// With both roll keys held the two directions cancel.
pub proof fn lemma_roll_keys_cancel(enable: bool, enable_roll: bool)
    ensures
        roll_direction_spec(enable, enable_roll, Some((true, true))) == 0,
{
}

/// A disabled control never applies input, whatever its trigger's state.
pub proof fn lemma_disabled_controls_discard(
    enable: bool,
    enable_feature: bool,
    trigger: Option<bool>,
    keys: Option<(bool, bool)>,
)
    requires
        !(enable && enable_feature),
    ensures
        pointer_gate_spec(enable, enable_feature, trigger) == PointerGate::Discard,
        zoom_gate_spec(enable, enable_feature, trigger) == ZoomGate::Discard,
        roll_direction_spec(enable, enable_feature, keys) == 0,
{
}

} // verus!
