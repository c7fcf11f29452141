use vstd::prelude::*;
use crate::projection::ProjectionKind;

verus! {

/// An axis of the camera's own (rotated) frame.
#[derive(Clone, Copy, Debug, PartialEq, Eq, Structural)]
pub enum LocalAxis {
    X,
    Y,
    Z,
}

/// Which pending rotation delta a rotation step turns by.
#[derive(Clone, Copy, Debug, PartialEq, Eq, Structural)]
pub enum AngleSource {
    /// The pending pitch, negated.
    NegatedPitch,
    Yaw,
    Roll,
}

/// How far behind the focus the camera is placed.
#[derive(Clone, Copy, Debug, PartialEq, Eq, Structural)]
pub enum DistanceSource {
    /// The orbit radius.
    Radius,
    /// Halfway between the near and far planes of an orthographic projection.
    MidPlane,
}

/// One step of a camera update.
#[derive(Clone, Copy, Debug, PartialEq, Eq, Structural)]
pub enum ResolveStep {
    /// Write the orbit radius into the orthographic projection's scale.
    SyncOrthographicScale,
    /// Move the focus by the pending pan, expressed in the current orientation.
    PanFocus,
    /// Recompose the orientation from yaw, clamped pitch and damped roll.
    RotateLocked,
    /// Turn the orientation about one of its own axes.
    RotateAboutLocal { axis: LocalAxis, angle: AngleSource },
    /// Set every pending delta to zero.
    ResetPending,
    /// Put the camera at the given distance behind the focus.
    PlaceCamera { distance: DistanceSource },
}

pub open spec fn distance_source_spec(kind: ProjectionKind) -> DistanceSource {
    match kind {
        ProjectionKind::Perspective => DistanceSource::Radius,
        ProjectionKind::Orthographic => DistanceSource::MidPlane,
    }
}

/// The orientation update: one locked recomposition, or pitch, yaw and roll
/// about the local X, Y and Z axes in that order.
pub open spec fn rotation_steps(lock_up_axis: bool) -> Seq<ResolveStep> {
    if lock_up_axis {
        seq![ResolveStep::RotateLocked]
    } else {
        seq![
            ResolveStep::RotateAboutLocal { axis: LocalAxis::X, angle: AngleSource::NegatedPitch },
            ResolveStep::RotateAboutLocal { axis: LocalAxis::Y, angle: AngleSource::Yaw },
            ResolveStep::RotateAboutLocal { axis: LocalAxis::Z, angle: AngleSource::Roll },
        ]
    }
}

/// The full update: scale sync (orthographic only), pan, rotation, reset, placement.
pub open spec fn resolve_sequence(kind: ProjectionKind, lock_up_axis: bool) -> Seq<ResolveStep> {
    let head = if kind == ProjectionKind::Orthographic {
        seq![ResolveStep::SyncOrthographicScale, ResolveStep::PanFocus]
    } else {
        seq![ResolveStep::PanFocus]
    };
    head + rotation_steps(lock_up_axis) + seq![
        ResolveStep::ResetPending,
        ResolveStep::PlaceCamera { distance: distance_source_spec(kind) },
    ]
}

pub open spec fn is_rotation(s: ResolveStep) -> bool {
    s is RotateLocked || s is RotateAboutLocal
}

/// Where the camera sits behind its focus for a projection kind.
pub fn distance_source(kind: ProjectionKind) -> (r: DistanceSource)
    ensures
        r == distance_source_spec(kind),
{
    match kind {
        ProjectionKind::Perspective => DistanceSource::Radius,
        ProjectionKind::Orthographic => DistanceSource::MidPlane,
    }
}

/// The steps of one camera update, in the order they must be carried out.
pub fn resolve_steps(kind: ProjectionKind, lock_up_axis: bool) -> (r: Vec<ResolveStep>)
    ensures
        r@ == resolve_sequence(kind, lock_up_axis),
{
    let mut steps: Vec<ResolveStep> = Vec::new();
    if kind == ProjectionKind::Orthographic {
        steps.push(ResolveStep::SyncOrthographicScale);
    }
    steps.push(ResolveStep::PanFocus);
    if lock_up_axis {
        steps.push(ResolveStep::RotateLocked);
    } else {
        steps.push(ResolveStep::RotateAboutLocal { axis: LocalAxis::X, angle: AngleSource::NegatedPitch });
        steps.push(ResolveStep::RotateAboutLocal { axis: LocalAxis::Y, angle: AngleSource::Yaw });
        steps.push(ResolveStep::RotateAboutLocal { axis: LocalAxis::Z, angle: AngleSource::Roll });
    }
    steps.push(ResolveStep::ResetPending);
    steps.push(ResolveStep::PlaceCamera { distance: distance_source(kind) });
    assert(steps@ =~= resolve_sequence(kind, lock_up_axis));
    steps
}

/// Every camera update pans before it rotates, rotates before it clears the
/// pending deltas, and clears them before it places the camera, which is its
/// last step; each of these happens exactly once, and the projection scale is
/// synced first, for an orthographic projection only.
pub proof fn lemma_resolve_order(kind: ProjectionKind, lock_up_axis: bool)
    ensures
        ({
            let s = resolve_sequence(kind, lock_up_axis);
            let n = s.len() as int;
            &&& n >= 4
            &&& s[n - 1] == ResolveStep::PlaceCamera { distance: distance_source_spec(kind) }
            &&& s[n - 2] == ResolveStep::ResetPending
            &&& forall|i: int, j: int|
                0 <= i < n && 0 <= j < n && s[i] == ResolveStep::PanFocus && is_rotation(s[j]) ==> i < j
            &&& forall|i: int| 0 <= i < n && is_rotation(s[i]) ==> i < n - 2
            &&& forall|i: int| 0 <= i < n - 2 ==> !(s[i] is ResetPending) && !(s[i] is PlaceCamera)
            &&& forall|i: int, j: int|
                0 <= i < n && 0 <= j < n && s[i] == ResolveStep::PanFocus && s[j] == ResolveStep::PanFocus ==> i == j
            &&& (exists|i: int| 0 <= i < n && s[i] == ResolveStep::PanFocus)
            &&& (exists|i: int| 0 <= i < n && is_rotation(s[i]))
            &&& (exists|i: int| 0 <= i < n && s[i] == ResolveStep::SyncOrthographicScale)
                <==> kind == ProjectionKind::Orthographic
            &&& kind == ProjectionKind::Orthographic ==> s[0] == ResolveStep::SyncOrthographicScale
        }),
{
    let s = resolve_sequence(kind, lock_up_axis);
    let k: int = if kind == ProjectionKind::Orthographic { 1 } else { 0 };
    assert(s[k] == ResolveStep::PanFocus);
    assert(is_rotation(s[k + 1]));
    if kind == ProjectionKind::Orthographic {
        assert(s[0] == ResolveStep::SyncOrthographicScale);
    }
}

} // verus!
