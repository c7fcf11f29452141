use vstd::prelude::*;

verus! {

/// The two kinds of camera projection the camera can render with.
#[derive(Clone, Copy, Debug, PartialEq, Eq, Structural)]
pub enum ProjectionKind {
    Perspective,
    Orthographic,
}

/// Size in physical pixels of the area a camera renders to.
#[derive(Clone, Copy, Debug, PartialEq, Eq, Structural)]
pub struct ViewportSize {
    pub width: u32,
    pub height: u32,
}

/// How pointer motion in pixels is turned into a pan distance in world units.
#[derive(Clone, Copy, Debug, PartialEq, Eq, Structural)]
pub enum PanScaleRule {
    /// `radius * fov * (aspect_ratio, 1) / viewport`
    RadiusFieldOfView { viewport: ViewportSize },
    /// `(area_width, area_height) / viewport`
    VisibleArea { viewport: ViewportSize },
}

/// A viewport can be divided by when it is known and neither side is zero.
pub open spec fn is_usable(size: Option<ViewportSize>) -> bool {
    match size {
        Some(v) => v.width > 0 && v.height > 0,
        None => false,
    }
}

/// The viewport, kept only where a pixel ratio can be taken over it.
pub fn usable_viewport(size: Option<ViewportSize>) -> (r: Option<ViewportSize>)
    ensures
        r == (if is_usable(size) { size } else { None }),
{
    match size {
        Some(v) => {
            if v.width > 0 && v.height > 0 {
                Some(v)
            } else {
                None
            }
        },
        None => None,
    }
}

/// The shorter side of a usable viewport, by which rotation input is normalised.
pub fn shorter_side(size: Option<ViewportSize>) -> (r: Option<u32>)
    ensures
        is_usable(size) ==> r == Some(
            if size->0.width <= size->0.height {
                size->0.width
            } else {
                size->0.height
            },
        ),
        !is_usable(size) ==> r is None,
{
    match usable_viewport(size) {
        Some(v) => {
            if v.width <= v.height {
                Some(v.width)
            } else {
                Some(v.height)
            }
        },
        None => None,
    }
}

/// The pan scaling rule that applies to a projection kind.
pub open spec fn pan_scale_rule_spec(kind: ProjectionKind, viewport: ViewportSize) -> PanScaleRule {
    match kind {
        ProjectionKind::Perspective => PanScaleRule::RadiusFieldOfView { viewport },
        ProjectionKind::Orthographic => PanScaleRule::VisibleArea { viewport },
    }
}

/// Selects how to scale pan input: no rule when the viewport is unknown or
/// has a zero side, so that the frame's pan is skipped.
pub fn pan_scale_rule(kind: ProjectionKind, size: Option<ViewportSize>) -> (r: Option<PanScaleRule>)
    ensures
        is_usable(size) ==> r == Some(pan_scale_rule_spec(kind, size->0)),
        !is_usable(size) ==> r is None,
{
    match usable_viewport(size) {
        Some(viewport) => match kind {
            ProjectionKind::Perspective => Some(PanScaleRule::RadiusFieldOfView { viewport }),
            ProjectionKind::Orthographic => Some(PanScaleRule::VisibleArea { viewport }),
        },
        None => None,
    }
}

} // verus!
