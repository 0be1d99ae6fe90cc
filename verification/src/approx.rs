//! Deterministic path approximation.
//!
//! A path is infinite, so a boundary selects the range to approximate; the
//! points inside that range are returned, the boundary's own endpoints never.
//!
//! For a fixed path and tolerance there is one infinite lattice of valid
//! sample parameters, `{ k * tau / n : k integer }` for a single vertex count
//! `n`, and every call samples from that lattice alone. The boundary only
//! controls which lattice points are computed and in which order they are
//! returned, so approximations of different ranges of one path always fit
//! together. These guarantees are stated as proved laws at the end of this
//! module.

use vstd::prelude::*;
use vstd::arithmetic::div_mod::{
    lemma_fundamental_div_mod, lemma_fundamental_div_mod_converse_div, lemma_mod_bound,
};
use vstd::arithmetic::mul::lemma_mul_inequality;
use vstd::math::{max, min};

use crate::geometry::{Circle2, Circle3, GlobalPath, SurfacePath};
use crate::math::{Point1, Point2, Point3, Scalar, Tolerance, PI_MICROS, TAU_MICROS};
use crate::trig::{ceil_div, cos_micros, floor_div, isqrt, spec_ceil_div, spec_cos};


verus! {

/// The largest vertex count the tolerance search returns; increments below a
/// handful of micro-radians are finer than the fixed-point lattice itself.
pub const MAX_VERTEX_COUNT: u64 = 100_000;

/// The largest boundary coordinate (in micros) the sampler accepts; forced by
/// the machine word the lattice arithmetic runs in.
pub const BOUNDARY_LIMIT: i64 = 0x1000_0000_0000_0000;

/// A directed range on a curve: the traversal runs from `start` to `end`.
/// The two ends may come in either order; the order encodes direction.
#[derive(Clone, Copy, Debug, PartialEq, Eq, Structural)]
pub struct BoundaryOnCurve {
    /// Where the traversal starts.
    pub start: Point1,
    /// Where the traversal ends.
    pub end: Point1,
}

/// The width of one lattice increment for `n` vertices per turn: `tau / n`
/// micro-radians, rounded up so that `n` increments cover the full turn.
/// Every sample parameter is an exact integer multiple of this width.
pub open spec fn spec_increment(n: int) -> int {
    spec_ceil_div(TAU_MICROS as int, n)
}

/// A positive vertex count gives an increment between one micro-radian and a
/// full turn.
pub proof fn lemma_increment_positive(n: int)
    requires
        1 <= n,
    ensures
        1 <= spec_increment(n) <= TAU_MICROS as int,
{
    let t = TAU_MICROS as int;
    crate::trig::lemma_floor_div_bounds(-t, n);
    lemma_fundamental_div_mod(-t, n);
    lemma_mod_bound(-t, n);
    let q = (-t) / n;
    let m = (-t) % n;
    if q >= 0 {
        assert(n * q >= 0) by (nonlinear_arith)
            requires
                n >= 1,
                q >= 0,
        {}
        assert(false);
    }
}

/// The parameter of the lattice point with index `k`: exactly `k` increments.
pub open spec fn lattice_value(n: int, k: int) -> int {
    k * spec_increment(n)
}

/// The first lattice index whose parameter lies strictly above `x` micros,
/// on the lattice with increment `inc`.
pub open spec fn lo_index(inc: int, x: int) -> int {
    x / inc + 1
}

/// The last lattice index whose parameter lies strictly below `x` micros.
pub open spec fn hi_index(inc: int, x: int) -> int {
    spec_ceil_div(x, inc) - 1
}

/// The lattice indices a boundary from `a` to `b` (micros) selects, in
/// traversal order: ascending when `a <= b`, descending otherwise, and never
/// including an index whose parameter lands on either end.
pub open spec fn sample_indices(n: int, a: int, b: int) -> Seq<int> {
    let inc = spec_increment(n);
    let lo = lo_index(inc, min(a, b));
    let hi = hi_index(inc, max(a, b));
    if lo > hi {
        Seq::empty()
    } else if a <= b {
        Seq::new((hi + 1 - lo) as nat, |i: int| lo + i)
    } else {
        Seq::new((hi + 1 - lo) as nat, |i: int| hi - i)
    }
}

/// The curve points a boundary from `a` to `b` selects: the lattice values of
/// `sample_indices`, in the same order.
pub open spec fn sample_points(n: int, a: int, b: int) -> Seq<Point1> {
    Seq::new(
        sample_indices(n, a, b).len(),
        |i: int|
            Point1 {
                t: Scalar { micros: lattice_value(n, sample_indices(n, a, b)[i]) as i64 },
            },
    )
}

/// Whether `r` is the integer square root of `v`.
pub open spec fn is_isqrt(r: int, v: int) -> bool {
    0 <= r && r * r <= v && v < (r + 1) * (r + 1)
}

/// The integer square root of `v`.
pub open spec fn spec_isqrt(v: int) -> int {
    choose|r: int| is_isqrt(r, v)
}

/// Two integer square roots of one value are equal.
pub proof fn lemma_isqrt_unique(v: int, r1: int, r2: int)
    requires
        is_isqrt(r1, v),
        is_isqrt(r2, v),
    ensures
        r1 == r2,
{
    assert(r1 == r2) by (nonlinear_arith)
        requires
            0 <= r1,
            0 <= r2,
            r1 * r1 <= v,
            v < (r1 + 1) * (r1 + 1),
            r2 * r2 <= v,
            v < (r2 + 1) * (r2 + 1),
    {}
}

/// The squared radius of a surface circle, in micros squared.
pub open spec fn mag2_circle2(c: Circle2) -> int {
    c.a.u.micros * c.a.u.micros + c.a.v.micros * c.a.v.micros
}

/// The squared radius of a global circle, in micros squared.
pub open spec fn mag2_circle3(c: Circle3) -> int {
    c.a.x.micros * c.a.x.micros + c.a.y.micros * c.a.y.micros + c.a.z.micros * c.a.z.micros
}

/// A surface circle the approximator accepts: radius vector small enough for
/// exact arithmetic and not degenerate.
pub open spec fn circle2_approx_ok(c: Circle2) -> bool {
    &&& -1_000_000_000 <= c.a.u.micros <= 1_000_000_000
    &&& -1_000_000_000 <= c.a.v.micros <= 1_000_000_000
    &&& mag2_circle2(c) >= 1
}

/// A global circle the approximator accepts.
pub open spec fn circle3_approx_ok(c: Circle3) -> bool {
    &&& -1_000_000_000 <= c.a.x.micros <= 1_000_000_000
    &&& -1_000_000_000 <= c.a.y.micros <= 1_000_000_000
    &&& -1_000_000_000 <= c.a.z.micros <= 1_000_000_000
    &&& mag2_circle3(c) >= 1
}

/// Whether `n` increments per turn keep a circle of radius `r` micros within
/// `t` micros of its chords, judged by the kernel's cosine.
pub open spec fn deviation_ok(r: int, t: int, k: int) -> bool {
    r * (1_000_000 - spec_cos((PI_MICROS as int) / k)) <= t * 1_000_000
}

/// The smallest vertex count from `k` up that meets the tolerance, or the
/// cap.
pub open spec fn first_ok(r: int, t: int, k: int) -> int
    decreases MAX_VERTEX_COUNT as int - k,
{
    if k < 4 || k >= MAX_VERTEX_COUNT as int {
        MAX_VERTEX_COUNT as int
    } else if deviation_ok(r, t, k) {
        k
    } else {
        first_ok(r, t, k + 1)
    }
}

/// The vertex count for a circle of radius `r` micros under tolerance `t`
/// micros: never below three, and otherwise the smallest count whose chord
/// deviation stays within the tolerance.
///
/// A tolerance of at least half the radius always yields the floor of three;
/// this case is decided exactly, so the tie `t == r / 2` picks three.
pub open spec fn spec_vertex_count(r: int, t: int) -> int {
    if 2 * t >= r {
        3
    } else {
        first_ok(r, t, 4)
    }
}

/// Parameters of an approximation of one circle under one tolerance: the
/// number of vertices a full turn is divided into, which fixes the sample
/// lattice once and for all.
pub struct PathApproxParams {
    n: u64,
}

impl PathApproxParams {
    /// The vertex count is always in the supported range.
    #[verifier::type_invariant]
    pub closed spec fn wf(self) -> bool {
        3 <= self.n <= MAX_VERTEX_COUNT
    }

    /// The vertex count, for contracts.
    pub closed spec fn spec_n(&self) -> u64 {
        self.n
    }

    /// The vertex count of a full turn.
    pub fn vertex_count(&self) -> (r: u64)
        ensures
            r == self.spec_n(),
            3 <= r <= MAX_VERTEX_COUNT,
    {
        proof {
            use_type_invariant(self);
        }
        self.n
    }

    /// Compute the approximation parameters for a surface circle.
    pub fn for_circle(circle: &Circle2, tolerance: Tolerance) -> (r: PathApproxParams)
        requires
            circle2_approx_ok(*circle),
        ensures
            r.spec_n() as int == spec_vertex_count(
                spec_isqrt(mag2_circle2(*circle)),
                tolerance.spec_inner().micros as int,
            ),
    {
        let u = circle.a.u.micros;
        let v = circle.a.v.micros;
        proof {
            assert(0 <= u as int * u as int <= 1_000_000_000_000_000_000) by (nonlinear_arith)
                requires
                    -1_000_000_000 <= u as int <= 1_000_000_000,
            {}
            assert(0 <= v as int * v as int <= 1_000_000_000_000_000_000) by (nonlinear_arith)
                requires
                    -1_000_000_000 <= v as int <= 1_000_000_000,
            {}
        }
        let mag2 = ((u as i128) * (u as i128) + (v as i128) * (v as i128)) as u64;
        Self::from_radius_squared(mag2, tolerance)
    }

    /// Compute the approximation parameters for a global circle.
    pub fn for_circle_global(circle: &Circle3, tolerance: Tolerance) -> (r: PathApproxParams)
        requires
            circle3_approx_ok(*circle),
        ensures
            r.spec_n() as int == spec_vertex_count(
                spec_isqrt(mag2_circle3(*circle)),
                tolerance.spec_inner().micros as int,
            ),
    {
        let x = circle.a.x.micros;
        let y = circle.a.y.micros;
        let z = circle.a.z.micros;
        proof {
            assert(0 <= x as int * x as int <= 1_000_000_000_000_000_000) by (nonlinear_arith)
                requires
                    -1_000_000_000 <= x as int <= 1_000_000_000,
            {}
            assert(0 <= y as int * y as int <= 1_000_000_000_000_000_000) by (nonlinear_arith)
                requires
                    -1_000_000_000 <= y as int <= 1_000_000_000,
            {}
            assert(0 <= z as int * z as int <= 1_000_000_000_000_000_000) by (nonlinear_arith)
                requires
                    -1_000_000_000 <= z as int <= 1_000_000_000,
            {}
        }
        let mag2 = ((x as i128) * (x as i128) + (y as i128) * (y as i128) + (z as i128) * (
        z as i128)) as u64;
        Self::from_radius_squared(mag2, tolerance)
    }

    /// Compute the parameters from the squared radius, in micros squared.
    fn from_radius_squared(mag2: u64, tolerance: Tolerance) -> (r: PathApproxParams)
        requires
            mag2 >= 1,
        ensures
            r.spec_n() as int == spec_vertex_count(
                spec_isqrt(mag2 as int),
                tolerance.spec_inner().micros as int,
            ),
    {
        let radius = isqrt(mag2);
        proof {
            assert(is_isqrt(radius as int, mag2 as int));
            lemma_isqrt_unique(mag2 as int, radius as int, spec_isqrt(mag2 as int));
            assert(radius >= 1) by (nonlinear_arith)
                requires
                    mag2 as int >= 1,
                    radius as int * radius as int <= mag2 as int,
                    (mag2 as int) < ((radius as int + 1) * (radius as int + 1)),
                    radius as int >= 0,
            {}
            assert(radius as int <= 0xFFFF_FFFF) by (nonlinear_arith)
                requires
                    radius as int * radius as int <= mag2 as int,
                    mag2 as int <= 0xFFFF_FFFF_FFFF_FFFF,
                    radius as int >= 0,
            {}
        }
        let t = tolerance.inner().micros;
        let rad = radius as i128;
        let ti = t as i128;
        if 2 * ti >= rad {
            return PathApproxParams { n: 3 };
        }
        let ghost r_int = radius as int;
        let ghost t_int = t as int;
        let mut k: u64 = 4;
        loop
            invariant
                4 <= k <= MAX_VERTEX_COUNT,
                first_ok(r_int, t_int, 4) == first_ok(r_int, t_int, k as int),
                rad == r_int,
                ti == t_int,
                1 <= rad <= 0x1_0000_0000i128,
                0 < ti <= 0x7FFF_FFFF_FFFF_FFFFi128,
                2 * t_int < r_int,
                r_int == spec_isqrt(mag2 as int),
                t_int == tolerance.spec_inner().micros as int,
            decreases MAX_VERTEX_COUNT - k,
        {
            if k >= MAX_VERTEX_COUNT {
                proof {
                    assert(first_ok(r_int, t_int, k as int) == MAX_VERTEX_COUNT as int);
                }
                return PathApproxParams { n: MAX_VERTEX_COUNT };
            }
            let phi = (PI_MICROS as u64) / k;
            let c = cos_micros(phi as i64);
            proof {
                assert(rad * (1_000_000 - c as int) <= 0x1_0000_0000i128 * 3_000_000
                    && rad * (1_000_000 - c as int) >= -0x1_0000_0000i128 * 3_000_000)
                    by (nonlinear_arith)
                    requires
                        1 <= rad <= 0x1_0000_0000i128,
                        -2_000_000 <= c as int <= 2_000_000,
                {}
            }
            let dev = rad * (1_000_000 - c as i128);
            if dev <= ti * 1_000_000 {
                proof {
                    assert(deviation_ok(r_int, t_int, k as int));
                    assert(first_ok(r_int, t_int, k as int) == k as int);
                }
                return PathApproxParams { n: k };
            }
            proof {
                assert(!deviation_ok(r_int, t_int, k as int));
                assert(first_ok(r_int, t_int, k as int) == first_ok(r_int, t_int, k as int + 1));
            }
            k = k + 1;
        }
    }

    /// The width of one lattice increment: `tau / n` micro-radians, rounded
    /// up so that `n` increments cover the full turn. Every sample the
    /// lattice emits is an exact integer multiple of this width.
    pub fn increment(&self) -> (r: Scalar)
        ensures
            r.micros as int == spec_increment(self.spec_n() as int),
            1 <= r.micros <= TAU_MICROS,
    {
        proof {
            use_type_invariant(self);
            lemma_increment_positive(self.spec_n() as int);
        }
        let q = ceil_div(TAU_MICROS as i128, self.n as i128);
        Scalar { micros: q as i64 }
    }

    /// Sample the lattice over a boundary: every lattice point strictly
    /// inside the range, in traversal order. Each emitted parameter is an
    /// exact integer multiple of `increment()`, and neither boundary end is
    /// ever emitted.
    pub fn points(&self, boundary: BoundaryOnCurve) -> (r: Vec<Point1>)
        requires
            -BOUNDARY_LIMIT <= boundary.start.t.micros <= BOUNDARY_LIMIT,
            -BOUNDARY_LIMIT <= boundary.end.t.micros <= BOUNDARY_LIMIT,
        ensures
            r@ == sample_points(
                self.spec_n() as int,
                boundary.start.t.micros as int,
                boundary.end.t.micros as int,
            ),
            forall|i: int|
                0 <= i < r@.len() ==> -(BOUNDARY_LIMIT as int) - (TAU_MICROS as int) - 1
                    <= #[trigger] r@[i].t.micros <= BOUNDARY_LIMIT as int + TAU_MICROS as int + 1,
    {
        proof {
            use_type_invariant(self);
        }
        let n = self.n;
        let inc = self.increment();
        let a = boundary.start.t.micros;
        let b = boundary.end.t.micros;
        let ghost ai = a as int;
        let ghost bi = b as int;
        let ghost ni = n as int;
        let ghost ginc = inc.micros as int;
        let (minv, maxv) = if a <= b {
            (a, b)
        } else {
            (b, a)
        };
        proof {
            assert(minv as int == min(ai, bi));
            assert(maxv as int == max(ai, bi));
            crate::trig::lemma_floor_div_bounds(minv as int, ginc);
            crate::trig::lemma_floor_div_bounds(-maxv as int, ginc);
        }
        let lo = floor_div(minv as i128, inc.micros as i128) + 1;
        let hi = ceil_div(maxv as i128, inc.micros as i128) - 1;
        proof {
            assert(lo == lo_index(ginc, min(ai, bi)));
            assert(hi == hi_index(ginc, max(ai, bi)));
        }
        let mut out: Vec<Point1> = Vec::new();
        if lo > hi {
            proof {
                assert(out@ =~= sample_points(ni, ai, bi));
            }
            return out;
        }
        if a <= b {
            let mut k = lo;
            while k <= hi
                invariant
                    lo <= k <= hi + 1,
                    out@.len() == k - lo,
                    forall|j: int|
                        0 <= j < out@.len() ==> out@[j] == sample_points(ni, ai, bi)[j],
                    forall|j: int|
                        0 <= j < out@.len() ==> -(BOUNDARY_LIMIT as int) - (TAU_MICROS as int) - 1
                            <= #[trigger] out@[j].t.micros
                            <= BOUNDARY_LIMIT as int + TAU_MICROS as int + 1,
                    lo == lo_index(ginc, min(ai, bi)),
                    hi == hi_index(ginc, max(ai, bi)),
                    lo <= hi,
                    a <= b,
                    ai == a as int && bi == b as int && ni == n as int,
                    ginc == spec_increment(ni),
                    inc.micros as int == ginc,
                    1 <= inc.micros <= TAU_MICROS,
                    -BOUNDARY_LIMIT <= a <= BOUNDARY_LIMIT,
                    -BOUNDARY_LIMIT <= b <= BOUNDARY_LIMIT,
                    -0x4000_0000_0000_0000_0000i128 <= lo,
                    hi <= 0x4000_0000_0000_0000_0000i128,
                decreases hi + 1 - k,
            {
                proof {
                    lemma_index_in_lattice_window(ginc, min(ai, bi), max(ai, bi), k as int);
                }
                let m = lattice_point(inc.micros, k);
                out.push(Point1 { t: Scalar { micros: m } });
                k = k + 1;
            }
            proof {
                assert(out@ =~= sample_points(ni, ai, bi));
            }
            out
        } else {
            let mut k = hi;
            while k >= lo
                invariant
                    lo - 1 <= k <= hi,
                    out@.len() == hi - k,
                    forall|j: int|
                        0 <= j < out@.len() ==> out@[j] == sample_points(ni, ai, bi)[j],
                    forall|j: int|
                        0 <= j < out@.len() ==> -(BOUNDARY_LIMIT as int) - (TAU_MICROS as int) - 1
                            <= #[trigger] out@[j].t.micros
                            <= BOUNDARY_LIMIT as int + TAU_MICROS as int + 1,
                    lo == lo_index(ginc, min(ai, bi)),
                    hi == hi_index(ginc, max(ai, bi)),
                    lo <= hi,
                    !(a <= b),
                    ai == a as int && bi == b as int && ni == n as int,
                    ginc == spec_increment(ni),
                    inc.micros as int == ginc,
                    1 <= inc.micros <= TAU_MICROS,
                    -BOUNDARY_LIMIT <= a <= BOUNDARY_LIMIT,
                    -BOUNDARY_LIMIT <= b <= BOUNDARY_LIMIT,
                    -0x4000_0000_0000_0000_0000i128 <= lo,
                    hi <= 0x4000_0000_0000_0000_0000i128,
                decreases k + 1 - lo,
            {
                proof {
                    lemma_index_in_lattice_window(ginc, min(ai, bi), max(ai, bi), k as int);
                }
                let m = lattice_point(inc.micros, k);
                out.push(Point1 { t: Scalar { micros: m } });
                k = k - 1;
            }
            proof {
                assert(out@ =~= sample_points(ni, ai, bi));
            }
            out
        }
    }
}

/// Indices between `lo_index` and `hi_index` have their lattice parameter
/// strictly between the range ends.
proof fn lemma_index_in_lattice_window(inc: int, minv: int, maxv: int, k: int)
    requires
        1 <= inc,
        lo_index(inc, minv) <= k <= hi_index(inc, maxv),
    ensures
        minv < k * inc,
        k * inc < maxv,
{
    let q = minv / inc;
    lemma_fundamental_div_mod(minv, inc);
    lemma_mod_bound(minv, inc);
    lemma_mul_inequality(q + 1, k, inc);
    assert((q + 1) * inc == q * inc + inc) by (nonlinear_arith) {}
    let q2 = (-maxv) / inc;
    lemma_fundamental_div_mod(-maxv, inc);
    lemma_mod_bound(-maxv, inc);
    assert(hi_index(inc, maxv) == -q2 - 1);
    lemma_mul_inequality(k, -q2 - 1, inc);
    assert((-q2 - 1) * inc == -(q2 * inc) - inc) by (nonlinear_arith) {}
}

/// One lattice parameter: exactly `k` increments.
fn lattice_point(inc: i64, k: i128) -> (r: i64)
    requires
        1 <= inc <= TAU_MICROS,
        -(BOUNDARY_LIMIT as int) - (TAU_MICROS as int) <= k * (inc as int),
        k * (inc as int) <= BOUNDARY_LIMIT as int + TAU_MICROS as int,
    ensures
        r as int == k * (inc as int),
{
    (k * (inc as i128)) as i64
}

/// Law: every sample any boundary produces is an exact integer multiple of
/// the one increment of its parameters, and two samplings that select the
/// same lattice index produce the identical point. Together with the exact
/// contract of `points`, this is the determinism guarantee: samples from any
/// two, even overlapping, boundaries lie on one shared lattice.
pub proof fn lemma_shared_lattice(n: int, a1: int, b1: int, a2: int, b2: int, i: int, j: int)
    requires
        0 <= i < sample_points(n, a1, b1).len(),
        0 <= j < sample_points(n, a2, b2).len(),
        sample_indices(n, a1, b1)[i] == sample_indices(n, a2, b2)[j],
    ensures
        sample_points(n, a1, b1)[i] == sample_points(n, a2, b2)[j],
        exists|k: int|
            sample_points(n, a1, b1)[i].t.micros == (#[trigger] (k * spec_increment(n))) as i64,
{
    let k = sample_indices(n, a1, b1)[i];
    assert(sample_points(n, a1, b1)[i].t.micros == (k * spec_increment(n)) as i64);
}

/// Law: a sample never equals either boundary endpoint. Every emitted
/// parameter lies strictly between the range ends, as a micro-radian value,
/// so it differs from both ends.
pub proof fn lemma_boundary_exclusivity(n: int, a: int, b: int, i: int)
    requires
        1 <= n,
        -(BOUNDARY_LIMIT as int) <= a <= BOUNDARY_LIMIT as int,
        -(BOUNDARY_LIMIT as int) <= b <= BOUNDARY_LIMIT as int,
        0 <= i < sample_points(n, a, b).len(),
    ensures
        min(a, b) < sample_points(n, a, b)[i].t.micros < max(a, b),
        sample_points(n, a, b)[i].t.micros != a,
        sample_points(n, a, b)[i].t.micros != b,
{
    lemma_increment_positive(n);
    let inc = spec_increment(n);
    let k = sample_indices(n, a, b)[i];
    assert(lo_index(inc, min(a, b)) <= k <= hi_index(inc, max(a, b)));
    lemma_index_in_lattice_window(inc, min(a, b), max(a, b), k);
    assert(sample_points(n, a, b)[i].t.micros == (k * inc) as i64);
}

/// Law: sampling a boundary and sampling the reversed boundary produce the
/// reverse sequences of each other.
pub proof fn lemma_direction_symmetry(n: int, a: int, b: int)
    requires
        1 <= n,
    ensures
        sample_points(n, a, b) == sample_points(n, b, a).reverse(),
{
    let s1 = sample_points(n, a, b);
    let s2 = sample_points(n, b, a);
    let inc = spec_increment(n);
    let lo = lo_index(inc, min(a, b));
    let hi = hi_index(inc, max(a, b));
    assert(min(a, b) == min(b, a) && max(a, b) == max(b, a));
    if a == b {
        lemma_equal_ends_empty(n, a);
        assert(s1 =~= s2.reverse());
    } else if lo > hi {
        assert(s1 =~= s2.reverse());
    } else {
        assert(s1.len() == s2.reverse().len());
        assert forall|i: int| 0 <= i < s1.len() implies s1[i] == s2.reverse()[i] by {
            let c = hi + 1 - lo;
            if a <= b {
                assert(sample_indices(n, a, b)[i] == lo + i);
                assert(sample_indices(n, b, a)[c - 1 - i] == hi - (c - 1 - i));
            } else {
                assert(sample_indices(n, a, b)[i] == hi - i);
                assert(sample_indices(n, b, a)[c - 1 - i] == lo + (c - 1 - i));
            }
        }
        assert(s1 =~= s2.reverse());
    }
}

/// A boundary whose two ends are equal selects nothing.
pub proof fn lemma_equal_ends_empty(n: int, a: int)
    requires
        1 <= n,
    ensures
        sample_indices(n, a, a).len() == 0,
{
    lemma_increment_positive(n);
    let inc = spec_increment(n);
    let q = a / inc;
    let m = a % inc;
    lemma_fundamental_div_mod(a, inc);
    lemma_mod_bound(a, inc);
    if m == 0 {
        assert(-a == (-q) * inc + 0) by (nonlinear_arith)
            requires
                a == inc * q + m,
                m == 0,
        {}
        lemma_fundamental_div_mod_converse_div(-a, inc, -q, 0);
    } else {
        assert(-a == (-q - 1) * inc + (inc - m)) by (nonlinear_arith)
            requires
                a == inc * q + m,
        {}
        lemma_fundamental_div_mod_converse_div(-a, inc, -q - 1, inc - m);
    }
}

/// Approximate a surface circle over a boundary: every selected lattice
/// parameter, paired with where the circle maps it.
pub fn approx_circle(circle: &Circle2, boundary: BoundaryOnCurve, tolerance: Tolerance) -> (r: Vec<
    (Point1, Point2),
>)
    requires
        circle.wf(),
        circle2_approx_ok(*circle),
        -BOUNDARY_LIMIT <= boundary.start.t.micros <= BOUNDARY_LIMIT,
        -BOUNDARY_LIMIT <= boundary.end.t.micros <= BOUNDARY_LIMIT,
    ensures
        r@.len() == circle2_samples(*circle, boundary, tolerance).len(),
        forall|i: int|
            0 <= i < r@.len() ==> r@[i].0 == circle2_samples(*circle, boundary, tolerance)[i]
                && r@[i].1 == circle.spec_point_from_circle_coords(
                circle2_samples(*circle, boundary, tolerance)[i].t.micros as int,
            ),
{
    let params = PathApproxParams::for_circle(circle, tolerance);
    let points = params.points(boundary);
    let ghost pts = circle2_samples(*circle, boundary, tolerance);
    let mut out: Vec<(Point1, Point2)> = Vec::new();
    let mut idx: usize = 0;
    while idx < points.len()
        invariant
            0 <= idx <= points.len(),
            out@.len() == idx,
            points@ == pts,
            forall|j: int|
                0 <= j < points@.len() ==> -(BOUNDARY_LIMIT as int) - (TAU_MICROS as int) - 1
                    <= #[trigger] points@[j].t.micros
                    <= BOUNDARY_LIMIT as int + TAU_MICROS as int + 1,
            forall|j: int|
                0 <= j < out@.len() ==> out@[j].0 == pts[j] && out@[j].1
                    == circle.spec_point_from_circle_coords(pts[j].t.micros as int),
            circle.wf(),
        decreases points.len() - idx,
    {
        let p = points[idx];
        let g = circle.point_from_circle_coords(p);
        out.push((p, g));
        idx = idx + 1;
    }
    out
}

/// The lattice parameters a circle and tolerance select over a boundary.
pub open spec fn circle2_samples(
    circle: Circle2,
    boundary: BoundaryOnCurve,
    tolerance: Tolerance,
) -> Seq<Point1> {
    sample_points(
        spec_vertex_count(spec_isqrt(mag2_circle2(circle)), tolerance.spec_inner().micros as int),
        boundary.start.t.micros as int,
        boundary.end.t.micros as int,
    )
}

/// The lattice parameters a global circle and tolerance select over a
/// boundary.
pub open spec fn circle3_samples(
    circle: Circle3,
    boundary: BoundaryOnCurve,
    tolerance: Tolerance,
) -> Seq<Point1> {
    sample_points(
        spec_vertex_count(spec_isqrt(mag2_circle3(circle)), tolerance.spec_inner().micros as int),
        boundary.start.t.micros as int,
        boundary.end.t.micros as int,
    )
}

/// Approximate a global circle over a boundary.
pub fn approx_circle_global(
    circle: &Circle3,
    boundary: BoundaryOnCurve,
    tolerance: Tolerance,
) -> (r: Vec<(Point1, Point3)>)
    requires
        circle.wf(),
        circle3_approx_ok(*circle),
        -BOUNDARY_LIMIT <= boundary.start.t.micros <= BOUNDARY_LIMIT,
        -BOUNDARY_LIMIT <= boundary.end.t.micros <= BOUNDARY_LIMIT,
    ensures
        r@.len() == circle3_samples(*circle, boundary, tolerance).len(),
        forall|i: int|
            0 <= i < r@.len() ==> r@[i].0 == circle3_samples(*circle, boundary, tolerance)[i]
                && r@[i].1 == circle.spec_point_from_circle_coords(
                circle3_samples(*circle, boundary, tolerance)[i].t.micros as int,
            ),
{
    let params = PathApproxParams::for_circle_global(circle, tolerance);
    let points = params.points(boundary);
    let ghost pts = circle3_samples(*circle, boundary, tolerance);
    let mut out: Vec<(Point1, Point3)> = Vec::new();
    let mut idx: usize = 0;
    while idx < points.len()
        invariant
            0 <= idx <= points.len(),
            out@.len() == idx,
            points@ == pts,
            forall|j: int|
                0 <= j < points@.len() ==> -(BOUNDARY_LIMIT as int) - (TAU_MICROS as int) - 1
                    <= #[trigger] points@[j].t.micros
                    <= BOUNDARY_LIMIT as int + TAU_MICROS as int + 1,
            forall|j: int|
                0 <= j < out@.len() ==> out@[j].0 == pts[j] && out@[j].1
                    == circle.spec_point_from_circle_coords(pts[j].t.micros as int),
            circle.wf(),
        decreases points.len() - idx,
    {
        let p = points[idx];
        let g = circle.point_from_circle_coords(p);
        out.push((p, g));
        idx = idx + 1;
    }
    out
}

impl SurfacePath {
    /// Approximate the path over a boundary: empty for a line (a line is
    /// exact under any linear renderer), the circle lattice otherwise.
    pub fn approx_with_cache(&self, boundary: BoundaryOnCurve, tolerance: Tolerance) -> (r: Vec<
        (Point1, Point2),
    >)
        requires
            self.wf(),
            self matches SurfacePath::Circle(c) ==> circle2_approx_ok(*c),
            -BOUNDARY_LIMIT <= boundary.start.t.micros <= BOUNDARY_LIMIT,
            -BOUNDARY_LIMIT <= boundary.end.t.micros <= BOUNDARY_LIMIT,
        ensures
            self matches SurfacePath::Line(_) ==> r@ =~= Seq::<(Point1, Point2)>::empty(),
            self matches SurfacePath::Circle(c) ==> r@.len() == circle2_samples(
                *c,
                boundary,
                tolerance,
            ).len() && forall|i: int|
                0 <= i < r@.len() ==> r@[i].0 == circle2_samples(*c, boundary, tolerance)[i]
                    && r@[i].1 == c.spec_point_from_circle_coords(
                    circle2_samples(*c, boundary, tolerance)[i].t.micros as int,
                ),
    {
        match self {
            SurfacePath::Circle(circle) => approx_circle(circle, boundary, tolerance),
            SurfacePath::Line(_) => Vec::new(),
        }
    }
}

impl GlobalPath {
    /// Approximate the path over a boundary: empty for a line, the circle
    /// lattice otherwise.
    pub fn approx_with_cache(&self, boundary: BoundaryOnCurve, tolerance: Tolerance) -> (r: Vec<
        (Point1, Point3),
    >)
        requires
            self.wf(),
            self matches GlobalPath::Circle(c) ==> circle3_approx_ok(*c),
            -BOUNDARY_LIMIT <= boundary.start.t.micros <= BOUNDARY_LIMIT,
            -BOUNDARY_LIMIT <= boundary.end.t.micros <= BOUNDARY_LIMIT,
        ensures
            self matches GlobalPath::Line(_) ==> r@ =~= Seq::<(Point1, Point3)>::empty(),
            self matches GlobalPath::Circle(c) ==> r@.len() == circle3_samples(
                *c,
                boundary,
                tolerance,
            ).len() && forall|i: int|
                0 <= i < r@.len() ==> r@[i].0 == circle3_samples(*c, boundary, tolerance)[i]
                    && r@[i].1 == c.spec_point_from_circle_coords(
                    circle3_samples(*c, boundary, tolerance)[i].t.micros as int,
                ),
    {
        match self {
            GlobalPath::Circle(circle) => approx_circle_global(circle, boundary, tolerance),
            GlobalPath::Line(_) => Vec::new(),
        }
    }
}

} // verus!
