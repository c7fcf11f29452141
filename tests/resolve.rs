use bevy_orbit_camera::projection::ProjectionKind;
use bevy_orbit_camera::resolve::{
    distance_source, resolve_steps, AngleSource, DistanceSource, LocalAxis, ResolveStep,
};

#[test]
fn perspective_free_update_steps() {
    assert_eq!(
        resolve_steps(ProjectionKind::Perspective, false),
        vec![
            ResolveStep::PanFocus,
            ResolveStep::RotateAboutLocal { axis: LocalAxis::X, angle: AngleSource::NegatedPitch },
            ResolveStep::RotateAboutLocal { axis: LocalAxis::Y, angle: AngleSource::Yaw },
            ResolveStep::RotateAboutLocal { axis: LocalAxis::Z, angle: AngleSource::Roll },
            ResolveStep::ResetPending,
            ResolveStep::PlaceCamera { distance: DistanceSource::Radius },
        ]
    );
}

#[test]
fn orthographic_locked_update_steps() {
    assert_eq!(
        resolve_steps(ProjectionKind::Orthographic, true),
        vec![
            ResolveStep::SyncOrthographicScale,
            ResolveStep::PanFocus,
            ResolveStep::RotateLocked,
            ResolveStep::ResetPending,
            ResolveStep::PlaceCamera { distance: DistanceSource::MidPlane },
        ]
    );
}

#[test]
fn perspective_locked_update_steps() {
    assert_eq!(
        resolve_steps(ProjectionKind::Perspective, true),
        vec![
            ResolveStep::PanFocus,
            ResolveStep::RotateLocked,
            ResolveStep::ResetPending,
            ResolveStep::PlaceCamera { distance: DistanceSource::Radius },
        ]
    );
}

#[test]
fn orthographic_free_update_syncs_scale_first() {
    let steps = resolve_steps(ProjectionKind::Orthographic, false);
    assert_eq!(steps.len(), 7);
    assert_eq!(steps[0], ResolveStep::SyncOrthographicScale);
    assert_eq!(steps[1], ResolveStep::PanFocus);
    assert_eq!(steps[5], ResolveStep::ResetPending);
    assert_eq!(steps[6], ResolveStep::PlaceCamera { distance: DistanceSource::MidPlane });
}

#[test]
fn distance_source_by_projection() {
    assert_eq!(distance_source(ProjectionKind::Perspective), DistanceSource::Radius);
    assert_eq!(distance_source(ProjectionKind::Orthographic), DistanceSource::MidPlane);
}
