//! Path approximation: increment selection and lattice sampling.

use brep::approx::{BoundaryOnCurve, PathApproxParams};
use brep::geometry::Circle2;
use brep::math::{Point1, Point2, Scalar, Tolerance, Vector2};

fn unit_circle() -> Circle2 {
    Circle2 {
        center: Point2 { u: Scalar { micros: 0 }, v: Scalar { micros: 0 } },
        a: Vector2 { u: Scalar { micros: 1_000_000 }, v: Scalar { micros: 0 } },
        b: Vector2 { u: Scalar { micros: 0 }, v: Scalar { micros: 1_000_000 } },
    }
}

fn tol(micros: i64) -> Tolerance {
    Tolerance::from_scalar(Scalar::from_micros(micros)).unwrap()
}

fn boundary(a: i64, b: i64) -> BoundaryOnCurve {
    BoundaryOnCurve {
        start: Point1 { t: Scalar { micros: a } },
        end: Point1 { t: Scalar { micros: b } },
    }
}

const TAU: i64 = 6_283_185;

#[test]
fn increment_for_circle() {
    let circle = unit_circle();

    let params = PathApproxParams::for_circle(&circle, tol(500_000));
    assert_eq!(params.vertex_count(), 3);
    assert_eq!(params.increment().micros, (TAU + 2) / 3);

    let params = PathApproxParams::for_circle(&circle, tol(100_000));
    assert_eq!(params.vertex_count(), 7);
    assert_eq!(params.increment().micros, (TAU + 6) / 7);

    let params = PathApproxParams::for_circle(&circle, tol(10_000));
    assert_eq!(params.vertex_count(), 23);
    assert_eq!(params.increment().micros, (TAU + 22) / 23);
}

#[test]
fn points_for_circle() {
    // radius and tolerance such that a full circle takes 4 vertices: the
    // lowest count that covers all the edge cases
    let circle = unit_circle();
    let params = PathApproxParams::for_circle(&circle, tol(375_000));
    assert_eq!(params.vertex_count(), 4);

    // every sample is an exact multiple of the increment
    let inc = params.increment().micros;
    let l1 = inc * 1;
    let l2 = inc * 2;
    let l3 = inc * 3;

    let values = |b: BoundaryOnCurve| -> Vec<i64> {
        params.points(b).iter().map(|p| p.t.micros).collect()
    };

    // empty range
    assert_eq!(values(boundary(0, 0)), Vec::<i64>::new());

    // ranges that contain all generated points
    assert_eq!(values(boundary(0, TAU)), vec![l1, l2, l3]);
    assert_eq!(values(boundary(1_000_000, TAU)), vec![l1, l2, l3]);
    assert_eq!(values(boundary(0, TAU - 1_000_000)), vec![l1, l2, l3]);

    // ranges that cut off the first or last increment
    assert_eq!(values(boundary(2_000_000, TAU)), vec![l2, l3]);
    assert_eq!(values(boundary(0, TAU - 2_000_000)), vec![l1, l2]);

    // and everything again, in reverse
    assert_eq!(values(boundary(TAU, 0)), vec![l3, l2, l1]);
    assert_eq!(values(boundary(TAU, 1_000_000)), vec![l3, l2, l1]);
    assert_eq!(values(boundary(TAU - 1_000_000, 0)), vec![l3, l2, l1]);
    assert_eq!(values(boundary(TAU, 2_000_000)), vec![l3, l2]);
    assert_eq!(values(boundary(TAU - 2_000_000, 0)), vec![l2, l1]);
}

#[test]
fn overlapping_ranges_share_one_lattice() {
    let circle = unit_circle();
    let params = PathApproxParams::for_circle(&circle, tol(375_000));

    // two overlapping ranges: every sample of the narrower range appears,
    // bit-identical, in the wider one
    let wide: Vec<i64> = params.points(boundary(0, TAU)).iter().map(|p| p.t.micros).collect();
    let narrow: Vec<i64> =
        params.points(boundary(2_000_000, TAU)).iter().map(|p| p.t.micros).collect();
    for v in &narrow {
        assert!(wide.contains(v));
    }

    // and twice the same range gives bit-identical output
    let again: Vec<i64> = params.points(boundary(0, TAU)).iter().map(|p| p.t.micros).collect();
    assert_eq!(wide, again);
}

#[test]
fn boundary_ends_never_emitted() {
    let circle = unit_circle();
    let params = PathApproxParams::for_circle(&circle, tol(375_000));
    let inc = params.increment().micros;

    // a boundary end one micro below the first lattice point: the lattice
    // point right next to the end is still emitted, and differs from it
    let pts = params.points(boundary(inc - 1, TAU));
    assert_eq!(pts[0].t.micros, inc);
    for p in pts.iter() {
        assert_ne!(p.t.micros, inc - 1);
        assert_ne!(p.t.micros, TAU);
    }

    // ends exactly on lattice points are excluded
    let pts = params.points(boundary(2 * inc, TAU));
    for p in pts.iter() {
        assert_ne!(p.t.micros, 2 * inc);
        assert_ne!(p.t.micros, TAU);
    }

    // and every emitted value is an exact multiple of the increment
    for p in params.points(boundary(0, TAU)).iter() {
        assert_eq!(p.t.micros % inc, 0);
    }
}

#[test]
fn reversed_boundary_reverses_samples() {
    let circle = unit_circle();
    let params = PathApproxParams::for_circle(&circle, tol(100_000));

    let forward: Vec<i64> =
        params.points(boundary(100, 5_000_000)).iter().map(|p| p.t.micros).collect();
    let mut backward: Vec<i64> =
        params.points(boundary(5_000_000, 100)).iter().map(|p| p.t.micros).collect();
    backward.reverse();
    assert_eq!(forward, backward);
}

#[test]
fn tolerance_rejects_non_positive() {
    assert!(Tolerance::from_scalar(Scalar::from_micros(0)).is_err());
    assert!(Tolerance::from_scalar(Scalar::from_micros(-5)).is_err());
    assert!(Tolerance::from_scalar(Scalar::from_micros(1)).is_ok());
}

#[test]
fn line_paths_have_empty_approximation() {
    let (path, coords) = brep::geometry::SurfacePath::line_from_points(
        Point2 { u: Scalar { micros: 0 }, v: Scalar { micros: 0 } },
        Point2 { u: Scalar { micros: 1_000_000 }, v: Scalar { micros: 0 } },
    );
    assert_eq!(coords[0].t.micros, 0);
    assert_eq!(coords[1].t.micros, 1_000_000);
    let samples = path.approx_with_cache(boundary(0, 1_000_000), tol(1_000_000));
    assert!(samples.is_empty());
}

#[test]
fn circle_approximation_pairs_parameters_with_positions() {
    let circle = unit_circle();
    let pairs = brep::approx::approx_circle(&circle, boundary(0, TAU), tol(375_000));
    assert_eq!(pairs.len(), 3);
    // the quarter-turn sample lands (up to the micro lattice) on (0, 1)
    let (t, p) = pairs[0];
    assert_eq!(t.t.micros, (TAU + 3) / 4);
    assert!(p.u.micros.abs() < 2_000);
    assert!((p.v.micros - 1_000_000).abs() < 2_000);
}

#[test]
fn scalar_signs_are_total() {
    assert_eq!(Scalar::from_micros(-3).sign(), brep::math::Sign::Negative);
    assert_eq!(Scalar::zero().sign(), brep::math::Sign::Zero);
    assert_eq!(Scalar::one().sign(), brep::math::Sign::Positive);
}
