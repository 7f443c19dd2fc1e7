use vstd::prelude::*;

verus! {

/// The kinds of surface that a face of a model can lie on.
#[derive(Clone, Copy, Debug, PartialEq, Eq, Structural)]
pub enum SurfaceKind {
    Cylinder,
    Plane,
    Cone,
    BSpline,
    NURBS,
    Sphere,
    Torus,
    LinearExtrusion,
}

/// Number of Steiner points along each axis of the parameter-space grid
/// that is added to a surface before triangulation.
pub open spec fn spec_steiner_points_per_axis(kind: SurfaceKind) -> nat {
    match kind {
        SurfaceKind::Sphere => 6,
        SurfaceKind::Torus => 32,
        _ => 0,
    }
}

/// Whether a 2D parameter point can be raised back onto the surface.
pub open spec fn spec_raise_supported(kind: SurfaceKind) -> bool {
    match kind {
        SurfaceKind::Sphere | SurfaceKind::BSpline | SurfaceKind::NURBS | SurfaceKind::Torus => true,
        _ => false,
    }
}

/// Whether lowered points are stretched along v by the control net's aspect ratio.
pub open spec fn spec_scales_by_aspect_ratio(kind: SurfaceKind) -> bool {
    match kind {
        SurfaceKind::BSpline | SurfaceKind::NURBS => true,
        _ => false,
    }
}

pub fn steiner_points_per_axis(kind: SurfaceKind) -> (n: usize)
    ensures
        n == spec_steiner_points_per_axis(kind),
        kind == SurfaceKind::Sphere ==> n == 6,
        kind == SurfaceKind::Torus ==> n == 32,
        n > 0 ==> (kind == SurfaceKind::Sphere || kind == SurfaceKind::Torus),
{
    match kind {
        SurfaceKind::Sphere => 6,
        SurfaceKind::Torus => 32,
        _ => 0,
    }
}

pub fn raise_supported(kind: SurfaceKind) -> (b: bool)
    ensures
        b == spec_raise_supported(kind),
        b <==> (kind == SurfaceKind::Sphere || kind == SurfaceKind::Torus || kind
            == SurfaceKind::BSpline || kind == SurfaceKind::NURBS),
{
    match kind {
        SurfaceKind::Sphere | SurfaceKind::BSpline | SurfaceKind::NURBS | SurfaceKind::Torus => true,
        _ => false,
    }
}

pub fn scales_by_aspect_ratio(kind: SurfaceKind) -> (b: bool)
    ensures
        b == spec_scales_by_aspect_ratio(kind),
        b <==> (kind == SurfaceKind::BSpline || kind == SurfaceKind::NURBS),
{
    match kind {
        SurfaceKind::BSpline | SurfaceKind::NURBS => true,
        _ => false,
    }
}

/// Only spheres and tori receive Steiner points: 6 per axis on a sphere,
/// 32 per axis on a torus, and none on any other kind of surface.
pub proof fn lemma_steiner_points_only_on_spheres_and_tori(kind: SurfaceKind)
    ensures
        kind == SurfaceKind::Sphere ==> spec_steiner_points_per_axis(kind) == 6,
        kind == SurfaceKind::Torus ==> spec_steiner_points_per_axis(kind) == 32,
        kind != SurfaceKind::Sphere && kind != SurfaceKind::Torus ==> spec_steiner_points_per_axis(kind)
            == 0,
{
}

/// A parameter point can be raised back into 3D exactly on spheres, tori
/// and spline (B-spline or NURBS) surfaces.
pub proof fn lemma_raise_supported_kinds(kind: SurfaceKind)
    ensures
        spec_raise_supported(kind) <==> (kind == SurfaceKind::Sphere || kind == SurfaceKind::Torus
            || kind == SurfaceKind::BSpline || kind == SurfaceKind::NURBS),
{
}

/// Exactly the spline surfaces (B-spline or NURBS) stretch their lowered
/// points by the aspect ratio of their control net.
pub proof fn lemma_aspect_ratio_kinds(kind: SurfaceKind)
    ensures
        spec_scales_by_aspect_ratio(kind) <==> (kind == SurfaceKind::BSpline || kind
            == SurfaceKind::NURBS),
{
}

/// Every kind of surface that receives Steiner points can raise them back
/// into 3D, so adding Steiner points never reaches an unsupported raise.
pub proof fn lemma_steiner_kinds_can_raise(kind: SurfaceKind)
    ensures
        spec_steiner_points_per_axis(kind) > 0 ==> spec_raise_supported(kind),
{
}

} // verus!
