//! Paths through surface (2D) and global (3D) space.
//!
//! A path is a closed set of two variants: a line or a circle. A circle's
//! local parameter `t` (in micro-radians) maps to a point via
//! `center + a * cos(t) + b * sin(t)`; a line's parameter maps via
//! `origin + direction * t`. Both evaluations are exact integer fixed-point
//! arithmetic, pinned by spec functions, so they are deterministic.

use vstd::prelude::*;

use crate::math::{Point1, Point2, Point3, Scalar, Vector2, Vector3, SCALE};
use crate::trig::{cos_micros, floor_div, lemma_floor_div_bounds, sin_micros, spec_cos, spec_sin};

verus! {

/// Coordinates at or below this bound (in micro-units) are safe for every
/// geometric evaluation in this module.
pub const GEOM_LIMIT: i64 = 0x100_0000_0000;

/// Whether a raw coordinate is small enough for exact evaluation.
pub open spec fn coord_ok(x: int) -> bool {
    -GEOM_LIMIT <= x <= GEOM_LIMIT
}

/// Multiply two fixed-point scalars: `a * b / SCALE`, rounded down.
pub open spec fn spec_scaled_mul(a: int, b: int) -> int {
    a * b / (SCALE as int)
}

/// Exact fixed-point product of two micro-unit quantities.
pub fn scaled_mul(a: i64, b: i64) -> (r: i64)
    requires
        -GEOM_LIMIT <= a <= GEOM_LIMIT,
        -GEOM_LIMIT <= b <= GEOM_LIMIT,
    ensures
        r as int == spec_scaled_mul(a as int, b as int),
        -0x2000_0000_0000_0000i64 <= r <= 0x2000_0000_0000_0000i64,
{
    proof {
        assert(-0x1_0000_0000_0000_0000_0000 <= (a as int) * (b as int) <= 0x1_0000_0000_0000_0000_0000)
            by (nonlinear_arith)
            requires
                -0x100_0000_0000 <= a as int <= 0x100_0000_0000,
                -0x100_0000_0000 <= b as int <= 0x100_0000_0000,
        {}
    }
    let p = (a as i128) * (b as i128);
    proof {
        lemma_floor_div_bounds(p as int, SCALE as int);
        vstd::arithmetic::div_mod::lemma_div_is_ordered(
            -0x1_0000_0000_0000_0000_0000i128 as int, p as int, SCALE as int);
        vstd::arithmetic::div_mod::lemma_div_is_ordered(
            p as int, 0x1_0000_0000_0000_0000_0000i128 as int, SCALE as int);
    }
    floor_div(p, SCALE as i128) as i64
}

/// A circle in surface coordinates: `center + a cos(t) + b sin(t)`.
#[derive(Clone, Copy, Debug, PartialEq, Eq, Structural)]
pub struct Circle2 {
    /// The circle's center.
    pub center: Point2,
    /// The radius vector pointing at the parameter-zero point.
    pub a: Vector2,
    /// The radius vector a quarter turn ahead.
    pub b: Vector2,
}

/// A circle in global coordinates.
#[derive(Clone, Copy, Debug, PartialEq, Eq, Structural)]
pub struct Circle3 {
    /// The circle's center.
    pub center: Point3,
    /// The radius vector pointing at the parameter-zero point.
    pub a: Vector3,
    /// The radius vector a quarter turn ahead.
    pub b: Vector3,
}

/// A line in surface coordinates: `origin + direction * t`.
#[derive(Clone, Copy, Debug, PartialEq, Eq, Structural)]
pub struct Line2 {
    /// A point on the line, at parameter zero.
    pub origin: Point2,
    /// The line's direction; parameter one lands at `origin + direction`.
    pub direction: Vector2,
}

/// A line in global coordinates.
#[derive(Clone, Copy, Debug, PartialEq, Eq, Structural)]
pub struct Line3 {
    /// A point on the line, at parameter zero.
    pub origin: Point3,
    /// The line's direction; parameter one lands at `origin + direction`.
    pub direction: Vector3,
}

impl Circle2 {
    /// All coordinates small enough for exact evaluation.
    pub open spec fn wf(&self) -> bool {
        &&& coord_ok(self.center.u.micros as int)
        &&& coord_ok(self.center.v.micros as int)
        &&& coord_ok(self.a.u.micros as int)
        &&& coord_ok(self.a.v.micros as int)
        &&& coord_ok(self.b.u.micros as int)
        &&& coord_ok(self.b.v.micros as int)
    }

    /// Where the circle's parameter `t` (micro-radians) lands in surface
    /// coordinates.
    pub open spec fn spec_point_from_circle_coords(&self, t: int) -> Point2 {
        Point2 {
            u: Scalar {
                micros: (self.center.u.micros + spec_scaled_mul(self.a.u.micros as int, spec_cos(t))
                    + spec_scaled_mul(self.b.u.micros as int, spec_sin(t))) as i64,
            },
            v: Scalar {
                micros: (self.center.v.micros + spec_scaled_mul(self.a.v.micros as int, spec_cos(t))
                    + spec_scaled_mul(self.b.v.micros as int, spec_sin(t))) as i64,
            },
        }
    }

    /// Convert a point on the circle into surface coordinates.
    pub fn point_from_circle_coords(&self, point: Point1) -> (r: Point2)
        requires
            self.wf(),
            i64::MIN + 0x80_0000 <= point.t.micros,
        ensures
            r == self.spec_point_from_circle_coords(point.t.micros as int),
    {
        let c = cos_micros(point.t.micros);
        let s = sin_micros(point.t.micros);
        let u = self.center.u.micros + scaled_mul(self.a.u.micros, c) + scaled_mul(
            self.b.u.micros,
            s,
        );
        let v = self.center.v.micros + scaled_mul(self.a.v.micros, c) + scaled_mul(
            self.b.v.micros,
            s,
        );
        Point2 { u: Scalar { micros: u }, v: Scalar { micros: v } }
    }
}

impl Circle3 {
    /// All coordinates small enough for exact evaluation.
    pub open spec fn wf(&self) -> bool {
        &&& coord_ok(self.center.x.micros as int)
        &&& coord_ok(self.center.y.micros as int)
        &&& coord_ok(self.center.z.micros as int)
        &&& coord_ok(self.a.x.micros as int)
        &&& coord_ok(self.a.y.micros as int)
        &&& coord_ok(self.a.z.micros as int)
        &&& coord_ok(self.b.x.micros as int)
        &&& coord_ok(self.b.y.micros as int)
        &&& coord_ok(self.b.z.micros as int)
    }

    /// Where the circle's parameter `t` (micro-radians) lands in global
    /// coordinates.
    pub open spec fn spec_point_from_circle_coords(&self, t: int) -> Point3 {
        Point3 {
            x: Scalar {
                micros: (self.center.x.micros + spec_scaled_mul(self.a.x.micros as int, spec_cos(t))
                    + spec_scaled_mul(self.b.x.micros as int, spec_sin(t))) as i64,
            },
            y: Scalar {
                micros: (self.center.y.micros + spec_scaled_mul(self.a.y.micros as int, spec_cos(t))
                    + spec_scaled_mul(self.b.y.micros as int, spec_sin(t))) as i64,
            },
            z: Scalar {
                micros: (self.center.z.micros + spec_scaled_mul(self.a.z.micros as int, spec_cos(t))
                    + spec_scaled_mul(self.b.z.micros as int, spec_sin(t))) as i64,
            },
        }
    }

    /// Convert a point on the circle into global coordinates.
    pub fn point_from_circle_coords(&self, point: Point1) -> (r: Point3)
        requires
            self.wf(),
            i64::MIN + 0x80_0000 <= point.t.micros,
        ensures
            r == self.spec_point_from_circle_coords(point.t.micros as int),
    {
        let c = cos_micros(point.t.micros);
        let s = sin_micros(point.t.micros);
        let x = self.center.x.micros + scaled_mul(self.a.x.micros, c) + scaled_mul(
            self.b.x.micros,
            s,
        );
        let y = self.center.y.micros + scaled_mul(self.a.y.micros, c) + scaled_mul(
            self.b.y.micros,
            s,
        );
        let z = self.center.z.micros + scaled_mul(self.a.z.micros, c) + scaled_mul(
            self.b.z.micros,
            s,
        );
        Point3 { x: Scalar { micros: x }, y: Scalar { micros: y }, z: Scalar { micros: z } }
    }
}

impl Line2 {
    /// All coordinates small enough for exact evaluation.
    pub open spec fn wf(&self) -> bool {
        &&& coord_ok(self.origin.u.micros as int)
        &&& coord_ok(self.origin.v.micros as int)
        &&& coord_ok(self.direction.u.micros as int)
        &&& coord_ok(self.direction.v.micros as int)
    }

    /// Where the line's parameter `t` lands in surface coordinates.
    pub open spec fn spec_point_from_line_coords(&self, t: int) -> Point2 {
        Point2 {
            u: Scalar {
                micros: (self.origin.u.micros + spec_scaled_mul(
                    self.direction.u.micros as int,
                    t,
                )) as i64,
            },
            v: Scalar {
                micros: (self.origin.v.micros + spec_scaled_mul(
                    self.direction.v.micros as int,
                    t,
                )) as i64,
            },
        }
    }

    /// Convert a point on the line into surface coordinates.
    pub fn point_from_line_coords(&self, point: Point1) -> (r: Point2)
        requires
            self.wf(),
            -GEOM_LIMIT <= point.t.micros <= GEOM_LIMIT,
        ensures
            r == self.spec_point_from_line_coords(point.t.micros as int),
    {
        let u = self.origin.u.micros + scaled_mul(self.direction.u.micros, point.t.micros);
        let v = self.origin.v.micros + scaled_mul(self.direction.v.micros, point.t.micros);
        Point2 { u: Scalar { micros: u }, v: Scalar { micros: v } }
    }
}

impl Line3 {
    /// All coordinates small enough for exact evaluation.
    pub open spec fn wf(&self) -> bool {
        &&& coord_ok(self.origin.x.micros as int)
        &&& coord_ok(self.origin.y.micros as int)
        &&& coord_ok(self.origin.z.micros as int)
        &&& coord_ok(self.direction.x.micros as int)
        &&& coord_ok(self.direction.y.micros as int)
        &&& coord_ok(self.direction.z.micros as int)
    }

    /// Where the line's parameter `t` lands in global coordinates.
    pub open spec fn spec_point_from_line_coords(&self, t: int) -> Point3 {
        Point3 {
            x: Scalar {
                micros: (self.origin.x.micros + spec_scaled_mul(
                    self.direction.x.micros as int,
                    t,
                )) as i64,
            },
            y: Scalar {
                micros: (self.origin.y.micros + spec_scaled_mul(
                    self.direction.y.micros as int,
                    t,
                )) as i64,
            },
            z: Scalar {
                micros: (self.origin.z.micros + spec_scaled_mul(
                    self.direction.z.micros as int,
                    t,
                )) as i64,
            },
        }
    }

    /// Convert a point on the line into global coordinates.
    pub fn point_from_line_coords(&self, point: Point1) -> (r: Point3)
        requires
            self.wf(),
            -GEOM_LIMIT <= point.t.micros <= GEOM_LIMIT,
        ensures
            r == self.spec_point_from_line_coords(point.t.micros as int),
    {
        let x = self.origin.x.micros + scaled_mul(self.direction.x.micros, point.t.micros);
        let y = self.origin.y.micros + scaled_mul(self.direction.y.micros, point.t.micros);
        let z = self.origin.z.micros + scaled_mul(self.direction.z.micros, point.t.micros);
        Point3 { x: Scalar { micros: x }, y: Scalar { micros: y }, z: Scalar { micros: z } }
    }
}

/// A path through surface (2D) space.
#[derive(Clone, Copy, Debug, PartialEq, Eq, Structural)]
pub enum SurfacePath {
    /// A circle
    Circle(Circle2),
    /// A line
    Line(Line2),
}

/// A path through global (3D) space.
#[derive(Clone, Copy, Debug, PartialEq, Eq, Structural)]
pub enum GlobalPath {
    /// A circle
    Circle(Circle3),
    /// A line
    Line(Line3),
}

impl SurfacePath {
    /// All coordinates small enough for exact evaluation.
    pub open spec fn wf(&self) -> bool {
        match self {
            SurfacePath::Circle(c) => c.wf(),
            SurfacePath::Line(l) => l.wf(),
        }
    }

    /// Build a circle from the given center and radius.
    pub fn circle_from_center_and_radius(center: Point2, radius: Scalar) -> (r: SurfacePath)
        ensures
            r matches SurfacePath::Circle(c) && c.center == center && c.a == (Vector2 {
                u: radius,
                v: Scalar { micros: 0 },
            }) && c.b == (Vector2 { u: Scalar { micros: 0 }, v: radius }),
    {
        SurfacePath::Circle(
            Circle2 {
                center,
                a: Vector2 { u: radius, v: Scalar { micros: 0 } },
                b: Vector2 { u: Scalar { micros: 0 }, v: radius },
            },
        )
    }

    /// Build a line that represents the u-axis of the surface it is on.
    pub fn u_axis() -> (r: SurfacePath)
        ensures
            r matches SurfacePath::Line(l) && l.origin == (Point2 {
                u: Scalar { micros: 0 },
                v: Scalar { micros: 0 },
            }) && l.direction == (Vector2 { u: Scalar { micros: SCALE }, v: Scalar { micros: 0 } }),
    {
        SurfacePath::Line(
            Line2 {
                origin: Point2 { u: Scalar { micros: 0 }, v: Scalar { micros: 0 } },
                direction: Vector2 { u: Scalar { micros: SCALE }, v: Scalar { micros: 0 } },
            },
        )
    }

    /// Build a line that represents the v-axis of the surface it is on.
    pub fn v_axis() -> (r: SurfacePath)
        ensures
            r matches SurfacePath::Line(l) && l.origin == (Point2 {
                u: Scalar { micros: 0 },
                v: Scalar { micros: 0 },
            }) && l.direction == (Vector2 { u: Scalar { micros: 0 }, v: Scalar { micros: SCALE } }),
    {
        SurfacePath::Line(
            Line2 {
                origin: Point2 { u: Scalar { micros: 0 }, v: Scalar { micros: 0 } },
                direction: Vector2 { u: Scalar { micros: 0 }, v: Scalar { micros: SCALE } },
            },
        )
    }

    /// Construct a line through two points; parameter zero lands on the first
    /// point and parameter one on the second.
    ///
    /// Also returns the coordinates of the points on the path.
    pub fn line_from_points(p: Point2, q: Point2) -> (r: (SurfacePath, [Point1; 2]))
        requires
            -0x80_0000_0000i64 <= p.u.micros <= 0x80_0000_0000i64,
            -0x80_0000_0000i64 <= p.v.micros <= 0x80_0000_0000i64,
            -0x80_0000_0000i64 <= q.u.micros <= 0x80_0000_0000i64,
            -0x80_0000_0000i64 <= q.v.micros <= 0x80_0000_0000i64,
        ensures
            r.0 matches SurfacePath::Line(l) && l.origin == p && l.direction == (Vector2 {
                u: Scalar { micros: (q.u.micros - p.u.micros) as i64 },
                v: Scalar { micros: (q.v.micros - p.v.micros) as i64 },
            }),
            r.1[0].t.micros == 0 && r.1[1].t.micros == SCALE,
    {
        let direction = Vector2 {
            u: Scalar { micros: q.u.micros - p.u.micros },
            v: Scalar { micros: q.v.micros - p.v.micros },
        };
        (
            SurfacePath::Line(Line2 { origin: p, direction }),
            [Point1 { t: Scalar { micros: 0 } }, Point1 { t: Scalar { micros: SCALE } }],
        )
    }

    /// Convert a point on the path into surface coordinates.
    pub fn point_from_path_coords(&self, point: Point1) -> (r: Point2)
        requires
            self.wf(),
            -GEOM_LIMIT <= point.t.micros <= GEOM_LIMIT,
        ensures
            r == self.spec_point_from_path_coords(point.t.micros as int),
    {
        match self {
            SurfacePath::Circle(circle) => circle.point_from_circle_coords(point),
            SurfacePath::Line(line) => line.point_from_line_coords(point),
        }
    }

    /// Where the path's parameter lands in surface coordinates.
    pub open spec fn spec_point_from_path_coords(&self, t: int) -> Point2 {
        match self {
            SurfacePath::Circle(circle) => circle.spec_point_from_circle_coords(t),
            SurfacePath::Line(line) => line.spec_point_from_line_coords(t),
        }
    }
}

impl GlobalPath {
    /// All coordinates small enough for exact evaluation.
    pub open spec fn wf(&self) -> bool {
        match self {
            GlobalPath::Circle(c) => c.wf(),
            GlobalPath::Line(l) => l.wf(),
        }
    }

    /// Construct a `GlobalPath` that represents the x-axis.
    pub fn x_axis() -> (r: GlobalPath)
        ensures
            r matches GlobalPath::Line(l) && l.origin == spec_origin3() && l.direction == (Vector3 {
                x: Scalar { micros: SCALE },
                y: Scalar { micros: 0 },
                z: Scalar { micros: 0 },
            }),
    {
        GlobalPath::Line(
            Line3 {
                origin: origin3(),
                direction: Vector3 {
                    x: Scalar { micros: SCALE },
                    y: Scalar { micros: 0 },
                    z: Scalar { micros: 0 },
                },
            },
        )
    }

    /// Construct a `GlobalPath` that represents the y-axis.
    pub fn y_axis() -> (r: GlobalPath)
        ensures
            r matches GlobalPath::Line(l) && l.origin == spec_origin3() && l.direction == (Vector3 {
                x: Scalar { micros: 0 },
                y: Scalar { micros: SCALE },
                z: Scalar { micros: 0 },
            }),
    {
        GlobalPath::Line(
            Line3 {
                origin: origin3(),
                direction: Vector3 {
                    x: Scalar { micros: 0 },
                    y: Scalar { micros: SCALE },
                    z: Scalar { micros: 0 },
                },
            },
        )
    }

    /// Construct a `GlobalPath` that represents the z-axis.
    pub fn z_axis() -> (r: GlobalPath)
        ensures
            r matches GlobalPath::Line(l) && l.origin == spec_origin3() && l.direction == (Vector3 {
                x: Scalar { micros: 0 },
                y: Scalar { micros: 0 },
                z: Scalar { micros: SCALE },
            }),
    {
        GlobalPath::Line(
            Line3 {
                origin: origin3(),
                direction: Vector3 {
                    x: Scalar { micros: 0 },
                    y: Scalar { micros: 0 },
                    z: Scalar { micros: SCALE },
                },
            },
        )
    }

    /// Build a circle of the given radius around the global origin.
    pub fn circle_from_radius(radius: Scalar) -> (r: GlobalPath)
        ensures
            r matches GlobalPath::Circle(c) && c.center == spec_origin3() && c.a == (Vector3 {
                x: radius,
                y: Scalar { micros: 0 },
                z: Scalar { micros: 0 },
            }) && c.b == (Vector3 { x: Scalar { micros: 0 }, y: radius, z: Scalar { micros: 0 } }),
    {
        GlobalPath::Circle(
            Circle3 {
                center: origin3(),
                a: Vector3 { x: radius, y: Scalar { micros: 0 }, z: Scalar { micros: 0 } },
                b: Vector3 { x: Scalar { micros: 0 }, y: radius, z: Scalar { micros: 0 } },
            },
        )
    }

    /// Construct a line through two points; parameter zero lands on the first
    /// point and parameter one on the second.
    ///
    /// Also returns the coordinates of the points on the path.
    pub fn line_from_points(p: Point3, q: Point3) -> (r: (GlobalPath, [Point1; 2]))
        requires
            -0x80_0000_0000i64 <= p.x.micros <= 0x80_0000_0000i64,
            -0x80_0000_0000i64 <= p.y.micros <= 0x80_0000_0000i64,
            -0x80_0000_0000i64 <= p.z.micros <= 0x80_0000_0000i64,
            -0x80_0000_0000i64 <= q.x.micros <= 0x80_0000_0000i64,
            -0x80_0000_0000i64 <= q.y.micros <= 0x80_0000_0000i64,
            -0x80_0000_0000i64 <= q.z.micros <= 0x80_0000_0000i64,
        ensures
            r.0 matches GlobalPath::Line(l) && l.origin == p && l.direction == (Vector3 {
                x: Scalar { micros: (q.x.micros - p.x.micros) as i64 },
                y: Scalar { micros: (q.y.micros - p.y.micros) as i64 },
                z: Scalar { micros: (q.z.micros - p.z.micros) as i64 },
            }),
            r.1[0].t.micros == 0 && r.1[1].t.micros == SCALE,
    {
        let direction = Vector3 {
            x: Scalar { micros: q.x.micros - p.x.micros },
            y: Scalar { micros: q.y.micros - p.y.micros },
            z: Scalar { micros: q.z.micros - p.z.micros },
        };
        (
            GlobalPath::Line(Line3 { origin: p, direction }),
            [Point1 { t: Scalar { micros: 0 } }, Point1 { t: Scalar { micros: SCALE } }],
        )
    }

    /// Access the origin of the path's coordinate system.
    pub fn origin(&self) -> (r: Point3)
        requires
            self.wf(),
        ensures
            r == self.spec_origin(),
    {
        match self {
            GlobalPath::Circle(circle) => Point3 {
                x: Scalar { micros: circle.center.x.micros + circle.a.x.micros },
                y: Scalar { micros: circle.center.y.micros + circle.a.y.micros },
                z: Scalar { micros: circle.center.z.micros + circle.a.z.micros },
            },
            GlobalPath::Line(line) => line.origin,
        }
    }

    /// What `origin` returns: for a circle, the parameter-zero point
    /// `center + a`; for a line, its origin point.
    pub open spec fn spec_origin(&self) -> Point3 {
        match self {
            GlobalPath::Circle(circle) => Point3 {
                x: Scalar { micros: (circle.center.x.micros + circle.a.x.micros) as i64 },
                y: Scalar { micros: (circle.center.y.micros + circle.a.y.micros) as i64 },
                z: Scalar { micros: (circle.center.z.micros + circle.a.z.micros) as i64 },
            },
            GlobalPath::Line(line) => line.origin,
        }
    }

    /// Convert a point on the path into global coordinates.
    pub fn point_from_path_coords(&self, point: Point1) -> (r: Point3)
        requires
            self.wf(),
            -GEOM_LIMIT <= point.t.micros <= GEOM_LIMIT,
        ensures
            r == self.spec_point_from_path_coords(point.t.micros as int),
    {
        match self {
            GlobalPath::Circle(circle) => circle.point_from_circle_coords(point),
            GlobalPath::Line(line) => line.point_from_line_coords(point),
        }
    }

    /// Where the path's parameter lands in global coordinates.
    pub open spec fn spec_point_from_path_coords(&self, t: int) -> Point3 {
        match self {
            GlobalPath::Circle(circle) => circle.spec_point_from_circle_coords(t),
            GlobalPath::Line(line) => line.spec_point_from_line_coords(t),
        }
    }

    /// Convert a vector on the path into global coordinates: the direction
    /// scaled for a line, the tangent-scale approximation for a circle.
    pub fn vector_from_path_coords(&self, vector: Scalar) -> (r: Vector3)
        requires
            self.wf(),
            -GEOM_LIMIT <= vector.micros <= GEOM_LIMIT,
        ensures
            self matches GlobalPath::Line(l) ==> r == (Vector3 {
                x: Scalar { micros: spec_scaled_mul(l.direction.x.micros as int, vector.micros as int) as i64 },
                y: Scalar { micros: spec_scaled_mul(l.direction.y.micros as int, vector.micros as int) as i64 },
                z: Scalar { micros: spec_scaled_mul(l.direction.z.micros as int, vector.micros as int) as i64 },
            }),
            self matches GlobalPath::Circle(c) ==> r == (Vector3 {
                x: Scalar { micros: spec_scaled_mul(c.b.x.micros as int, vector.micros as int) as i64 },
                y: Scalar { micros: spec_scaled_mul(c.b.y.micros as int, vector.micros as int) as i64 },
                z: Scalar { micros: spec_scaled_mul(c.b.z.micros as int, vector.micros as int) as i64 },
            }),
    {
        match self {
            GlobalPath::Circle(circle) => Vector3 {
                x: scaled_mul_scalar(circle.b.x, vector),
                y: scaled_mul_scalar(circle.b.y, vector),
                z: scaled_mul_scalar(circle.b.z, vector),
            },
            GlobalPath::Line(line) => Vector3 {
                x: scaled_mul_scalar(line.direction.x, vector),
                y: scaled_mul_scalar(line.direction.y, vector),
                z: scaled_mul_scalar(line.direction.z, vector),
            },
        }
    }
}

/// The global origin point.
pub open spec fn spec_origin3() -> Point3 {
    Point3 { x: Scalar { micros: 0 }, y: Scalar { micros: 0 }, z: Scalar { micros: 0 } }
}

/// The global origin point.
pub fn origin3() -> (r: Point3)
    ensures
        r == spec_origin3(),
{
    Point3 { x: Scalar { micros: 0 }, y: Scalar { micros: 0 }, z: Scalar { micros: 0 } }
}

/// Exact fixed-point product of two scalars.
pub fn scaled_mul_scalar(a: Scalar, b: Scalar) -> (r: Scalar)
    requires
        -GEOM_LIMIT <= a.micros <= GEOM_LIMIT,
        -GEOM_LIMIT <= b.micros <= GEOM_LIMIT,
    ensures
        r.micros as int == spec_scaled_mul(a.micros as int, b.micros as int),
{
    Scalar { micros: scaled_mul(a.micros, b.micros) }
}


/// A fixed-point product is bounded by the product of the factors' bounds,
/// shrunk by the scale.
pub proof fn lemma_scaled_mul_bound(a: int, b: int, ba: int, bb: int)
    requires
        -ba <= a <= ba,
        -bb <= b <= bb,
        0 <= ba,
        0 <= bb,
    ensures
        -(ba * bb / (SCALE as int)) - 1 <= spec_scaled_mul(a, b),
        spec_scaled_mul(a, b) <= ba * bb / (SCALE as int),
{
    assert(-(ba * bb) <= a * b && a * b <= ba * bb) by (nonlinear_arith)
        requires
            -ba <= a <= ba,
            -bb <= b <= bb,
            0 <= ba,
            0 <= bb,
    {}
    vstd::arithmetic::div_mod::lemma_div_is_ordered(a * b, ba * bb, SCALE as int);
    vstd::arithmetic::div_mod::lemma_div_is_ordered(-(ba * bb), a * b, SCALE as int);
    assert((-(ba * bb)) / (SCALE as int) >= -(ba * bb / (SCALE as int)) - 1) by {
        vstd::arithmetic::div_mod::lemma_fundamental_div_mod(ba * bb, SCALE as int);
        vstd::arithmetic::div_mod::lemma_fundamental_div_mod(-(ba * bb), SCALE as int);
        crate::trig::lemma_floor_div_bounds(ba * bb, SCALE as int);
        crate::trig::lemma_floor_div_bounds(-(ba * bb), SCALE as int);
        let q = ba * bb / (SCALE as int);
        let r = ba * bb % (SCALE as int);
        vstd::arithmetic::div_mod::lemma_mod_bound(ba * bb, SCALE as int);
        if r == 0 {
            vstd::arithmetic::div_mod::lemma_fundamental_div_mod_converse_div(
                -(ba * bb),
                SCALE as int,
                -q,
                0,
            );
        } else {
            vstd::arithmetic::div_mod::lemma_fundamental_div_mod_converse_div(
                -(ba * bb),
                SCALE as int,
                -q - 1,
                SCALE as int - r,
            );
        }
    }
}

} // verus!
