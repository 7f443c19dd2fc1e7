use triangulate::kind::{raise_supported, scales_by_aspect_ratio, steiner_points_per_axis, SurfaceKind};
use triangulate::newton::{NewtonAction, NewtonSearch, NewtonTests, MAX_NEWTON_STEPS};
use triangulate::sampling::{sample_plan, SAMPLES_PER_SPAN};
use triangulate::steiner::steiner_grid;

const ALL_KINDS: [SurfaceKind; 8] = [
    SurfaceKind::Cylinder,
    SurfaceKind::Plane,
    SurfaceKind::Cone,
    SurfaceKind::BSpline,
    SurfaceKind::NURBS,
    SurfaceKind::Sphere,
    SurfaceKind::Torus,
    SurfaceKind::LinearExtrusion,
];

#[test]
fn steiner_counts_per_kind() {
    assert_eq!(steiner_points_per_axis(SurfaceKind::Sphere), 6);
    assert_eq!(steiner_points_per_axis(SurfaceKind::Torus), 32);
    assert_eq!(steiner_points_per_axis(SurfaceKind::Plane), 0);
    assert_eq!(steiner_points_per_axis(SurfaceKind::Cylinder), 0);
    assert_eq!(steiner_points_per_axis(SurfaceKind::BSpline), 0);
}

#[test]
fn raise_support_per_kind() {
    assert!(raise_supported(SurfaceKind::Sphere));
    assert!(raise_supported(SurfaceKind::Torus));
    assert!(raise_supported(SurfaceKind::BSpline));
    assert!(raise_supported(SurfaceKind::NURBS));
    assert!(!raise_supported(SurfaceKind::Plane));
    assert!(!raise_supported(SurfaceKind::Cone));
    assert!(!raise_supported(SurfaceKind::Cylinder));
    assert!(!raise_supported(SurfaceKind::LinearExtrusion));
}

#[test]
fn aspect_ratio_only_for_splines() {
    for kind in ALL_KINDS {
        let expected = matches!(kind, SurfaceKind::BSpline | SurfaceKind::NURBS);
        assert_eq!(scales_by_aspect_ratio(kind), expected);
    }
}

#[test]
fn steiner_kinds_can_raise() {
    for kind in ALL_KINDS {
        if steiner_points_per_axis(kind) > 0 {
            assert!(raise_supported(kind));
        }
    }
}

#[test]
fn sphere_grid_is_row_major() {
    let g = steiner_grid(SurfaceKind::Sphere);
    assert_eq!(g.len(), 36);
    assert_eq!(g[0], (0, 0));
    assert_eq!(g[5], (0, 5));
    assert_eq!(g[6], (1, 0));
    assert_eq!(g[1 * 6 + 1], (1, 1));
    assert_eq!(g[35], (5, 5));
}

#[test]
fn torus_grid_layout() {
    let g = steiner_grid(SurfaceKind::Torus);
    assert_eq!(g.len(), 32 * 32);
    for x in 0..32 {
        for y in 0..32 {
            assert_eq!(g[x * 32 + y], (x, y));
        }
    }
    // every fraction (i + 1) / (n + 1) lies strictly inside (0, 1)
    assert!(g.iter().all(|&(x, y)| x + 1 < 33 && y + 1 < 33));
}

#[test]
fn plane_has_no_grid() {
    assert!(steiner_grid(SurfaceKind::Plane).is_empty());
    assert!(steiner_grid(SurfaceKind::LinearExtrusion).is_empty());
}

#[test]
fn sample_plan_skips_repeated_knots() {
    let plan = sample_plan(&[true, false, true]);
    assert_eq!(plan.len(), 2 * SAMPLES_PER_SPAN);
    assert_eq!(plan[0], (0, 0));
    assert_eq!(plan[7], (0, 7));
    assert_eq!(plan[8], (2, 0));
    assert_eq!(plan[15], (2, 7));
}

#[test]
fn sample_plan_empty_cases() {
    assert!(sample_plan(&[]).is_empty());
    assert!(sample_plan(&[false, false]).is_empty());
}

#[test]
fn sample_plan_is_ordered_and_complete() {
    let spans = [false, true, true, false, true];
    let plan = sample_plan(&spans);
    assert_eq!(plan.len(), 3 * SAMPLES_PER_SPAN);
    for w in plan.windows(2) {
        assert!(w[0] < w[1]);
    }
    for (i, &open) in spans.iter().enumerate() {
        for j in 0..SAMPLES_PER_SPAN {
            assert_eq!(plan.contains(&(i, j)), open);
        }
    }
}

fn tests(residual_small: bool, denominator_tiny: bool, step_small: bool) -> NewtonTests {
    NewtonTests { residual_small, denominator_tiny, step_small }
}

#[test]
fn newton_residual_test_comes_first() {
    let mut s = NewtonSearch::new();
    assert_eq!(s.decide(tests(true, true, true)), NewtonAction::KeepCurrent);
    assert_eq!(s.decide(tests(true, false, false)), NewtonAction::KeepCurrent);
    assert_eq!(s.decide(tests(false, true, true)), NewtonAction::KeepCurrent);
    assert_eq!(s.decide(tests(false, false, true)), NewtonAction::AcceptNext);
    assert!(!s.exhausted());
}

#[test]
fn newton_search_stops_after_budget() {
    let mut s = NewtonSearch::new();
    let mut steps = 0;
    while !s.exhausted() {
        assert_eq!(s.decide(tests(false, false, false)), NewtonAction::Step);
        steps += 1;
    }
    assert_eq!(steps, MAX_NEWTON_STEPS);
    assert_eq!(steps, 64);
}
