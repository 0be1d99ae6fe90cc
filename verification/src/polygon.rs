//! The true polygon of a face: the exterior loop minus the hole loops, with
//! an exact point-containment test.
//!
//! The test is an even-odd ray crossing count, evaluated in exact integer
//! arithmetic on coordinates scaled by three, so a triangle's centroid (a
//! third of a coordinate sum) can be tested without division. The executable
//! code returns exactly the spec-level count's parity, so filtering is
//! deterministic.

use vstd::prelude::*;

use crate::math::Point2;

verus! {

/// The triangulation modules accept coordinates up to this bound (micros).
pub const POLY_COORD_LIMIT: i64 = 0x800_0000;

/// A coordinate a polygon loop may hold.
pub open spec fn poly_coord_ok(x: int) -> bool {
    -POLY_COORD_LIMIT <= x <= POLY_COORD_LIMIT
}

/// Every coordinate of the loop is within the triangulation bound.
pub open spec fn poly_loop_ok(l: Seq<Point2>) -> bool {
    forall|i: int|
        0 <= i < l.len() ==> poly_coord_ok((#[trigger] l[i]).u.micros as int) && poly_coord_ok(
            l[i].v.micros as int,
        )
}

/// Whether the edge from `u` to `v` (coordinates scaled by three) crosses the
/// rightward ray from the scaled point `(px, py)`.
pub open spec fn edge_crosses(u: Point2, v: Point2, px: int, py: int) -> bool {
    let ux = 3 * u.u.micros;
    let uy = 3 * u.v.micros;
    let vx = 3 * v.u.micros;
    let vy = 3 * v.v.micros;
    &&& ((uy > py) != (vy > py))
    &&& if vy > uy {
        (px - ux) * (vy - uy) < (vx - ux) * (py - uy)
    } else {
        (px - ux) * (vy - uy) > (vx - ux) * (py - uy)
    }
}

/// How many of the loop's first `k` edges cross the rightward ray from the
/// scaled point. Edge `i` runs from vertex `i` to vertex `i + 1`, wrapping at
/// the end.
pub open spec fn crossings_upto(l: Seq<Point2>, px: int, py: int, k: int) -> nat
    decreases k,
{
    if k <= 0 {
        0
    } else {
        crossings_upto(l, px, py, k - 1) + if edge_crosses(
            l[k - 1],
            l[if k == l.len() {
                0
            } else {
                k
            }],
            px,
            py,
        ) {
            1nat
        } else {
            0nat
        }
    }
}

/// Whether the scaled point lies inside the loop: an odd crossing count.
pub open spec fn point_in_loop(l: Seq<Point2>, px: int, py: int) -> bool {
    crossings_upto(l, px, py, l.len() as int) % 2 == 1
}

/// Count the loop's ray crossings.
#[verifier::loop_isolation(false)]
fn count_crossings(l: &Vec<Point2>, px: i64, py: i64) -> (r: u64)
    requires
        poly_loop_ok(l@),
        -0x4000_0000i64 <= px <= 0x4000_0000i64,
        -0x4000_0000i64 <= py <= 0x4000_0000i64,
        l@.len() < 0x1_0000_0000,
    ensures
        r == crossings_upto(l@, px as int, py as int, l@.len() as int),
{
    let mut count: u64 = 0;
    let mut k: usize = 0;
    while k < l.len()
        invariant
            0 <= k <= l@.len(),
            count == crossings_upto(l@, px as int, py as int, k as int),
            count <= k,
        decreases l@.len() - k,
    {
        let u = l[k];
        let v = if k + 1 == l.len() {
            l[0]
        } else {
            l[k + 1]
        };
        let ux = 3 * u.u.micros;
        let uy = 3 * u.v.micros;
        let vx = 3 * v.u.micros;
        let vy = 3 * v.v.micros;
        let dxu = px - ux;
        let dyv = vy - uy;
        let dxv = vx - ux;
        let dyu = py - uy;
        proof {
            assert(-0x4000_0000_0000_0000 <= (dxu as int) * (dyv as int)
                && (dxu as int) * (dyv as int) <= 0x4000_0000_0000_0000
                && -0x4000_0000_0000_0000 <= (dxv as int) * (dyu as int)
                && (dxv as int) * (dyu as int) <= 0x4000_0000_0000_0000) by (nonlinear_arith)
                requires
                    -0x8000_0000 <= dxu as int <= 0x8000_0000,
                    -0x8000_0000 <= dyv as int <= 0x8000_0000,
                    -0x8000_0000 <= dxv as int <= 0x8000_0000,
                    -0x8000_0000 <= dyu as int <= 0x8000_0000,
            {}
        }
        let crosses = if (uy > py) != (vy > py) {
            let lhs = (dxu as i128) * (dyv as i128);
            let rhs = (dxv as i128) * (dyu as i128);
            if vy > uy {
                lhs < rhs
            } else {
                lhs > rhs
            }
        } else {
            false
        };
        if crosses {
            count = count + 1;
        }
        k = k + 1;
    }
    count
}

/// A face as a polygon: the exterior loop and the hole loops, in
/// surface-local coordinates.
pub struct Polygon {
    /// The loop that bounds the polygon on the outside.
    pub exterior: Vec<Point2>,
    /// The loops that bound holes inside it.
    pub interiors: Vec<Vec<Point2>>,
}

impl Polygon {
    /// Every loop coordinate is within the triangulation bound, and the loops
    /// are small enough to count over.
    pub open spec fn wf(&self) -> bool {
        &&& poly_loop_ok(self.exterior@)
        &&& self.exterior@.len() < 0x1_0000_0000
        &&& self.interiors@.len() < 0x1_0000_0000
        &&& forall|h: int|
            0 <= h < self.interiors@.len() ==> poly_loop_ok((#[trigger] self.interiors@[h])@)
                && self.interiors@[h]@.len() < 0x1_0000_0000
    }

    /// Whether the scaled point lies strictly in the true polygon: inside the
    /// exterior and outside every hole.
    pub open spec fn spec_contains_scaled_point(&self, px: int, py: int) -> bool {
        &&& point_in_loop(self.exterior@, px, py)
        &&& forall|h: int|
            0 <= h < self.interiors@.len() ==> !point_in_loop((#[trigger] self.interiors@[h])@, px, py)
    }

    /// Test a scaled point against the true polygon.
    #[verifier::loop_isolation(false)]
    pub fn contains_scaled_point(&self, px: i64, py: i64) -> (r: bool)
        requires
            self.wf(),
            -0x4000_0000i64 <= px <= 0x4000_0000i64,
            -0x4000_0000i64 <= py <= 0x4000_0000i64,
        ensures
            r == self.spec_contains_scaled_point(px as int, py as int),
    {
        let c = count_crossings(&self.exterior, px, py);
        if c % 2 != 1 {
            return false;
        }
        let mut h: usize = 0;
        while h < self.interiors.len()
            invariant
                0 <= h <= self.interiors@.len(),
                forall|q: int|
                    0 <= q < h ==> !point_in_loop((#[trigger] self.interiors@[q])@, px as int, py as int),
            decreases self.interiors@.len() - h,
        {
            let hc = count_crossings(&self.interiors[h], px, py);
            if hc % 2 == 1 {
                return false;
            }
            h = h + 1;
        }
        true
    }

    /// Whether a triangle belongs to the polygon: its centroid (tested at
    /// three times the scale, so the division by three never happens) lies
    /// strictly inside the exterior and outside every hole.
    pub fn contains_triangle(&self, a: Point2, b: Point2, c: Point2) -> (r: bool)
        requires
            self.wf(),
            poly_coord_ok(a.u.micros as int) && poly_coord_ok(a.v.micros as int),
            poly_coord_ok(b.u.micros as int) && poly_coord_ok(b.v.micros as int),
            poly_coord_ok(c.u.micros as int) && poly_coord_ok(c.v.micros as int),
        ensures
            r == self.spec_contains_scaled_point(
                a.u.micros + b.u.micros + c.u.micros,
                a.v.micros + b.v.micros + c.v.micros,
            ),
    {
        let px = a.u.micros + b.u.micros + c.u.micros;
        let py = a.v.micros + b.v.micros + c.v.micros;
        self.contains_scaled_point(px, py)
    }
}

} // verus!
