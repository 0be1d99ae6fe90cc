//! Fixed-point scalars, points and vectors.
//!
//! Every quantity in this kernel is an integer count of micro-units: one
//! millionth of a model unit for lengths, one millionth of a radian for
//! angles. All arithmetic on them is exact, which is what makes the
//! determinism guarantees of the sampling pipeline provable.

use vstd::prelude::*;

verus! {

/// Micro-units per model unit.
pub const SCALE: i64 = 1_000_000;

/// One full turn (tau), in micro-radians, rounded to the nearest micro.
pub const TAU_MICROS: i64 = 6_283_185;

/// Half a turn (pi), in micro-radians, rounded to the nearest micro.
pub const PI_MICROS: i64 = 3_141_593;

/// A quarter turn (pi / 2), in micro-radians, rounded down.
pub const HALF_PI_MICROS: i64 = 1_570_796;

/// The sign of a scalar: total, deterministic classification.
#[derive(Clone, Copy, Debug, PartialEq, Eq, Structural)]
pub enum Sign {
    /// Strictly below zero
    Negative,
    /// Exactly zero
    Zero,
    /// Strictly above zero
    Positive,
}

/// A one-dimensional quantity: `micros` millionths of a unit.
///
/// Unlike a raw floating-point number, this representation is totally
/// ordered and compares exactly, so every tie-break in the kernel is
/// deterministic.
#[derive(Clone, Copy, Debug, PartialEq, Eq, Structural)]
pub struct Scalar {
    /// The value, as a count of micro-units.
    pub micros: i64,
}

impl Scalar {
    /// Build a scalar from a count of micro-units.
    pub fn from_micros(micros: i64) -> (r: Scalar)
        ensures
            r.micros == micros,
    {
        Scalar { micros }
    }

    /// The scalar zero.
    pub fn zero() -> (r: Scalar)
        ensures
            r.micros == 0,
    {
        Scalar { micros: 0 }
    }

    /// The scalar one.
    pub fn one() -> (r: Scalar)
        ensures
            r.micros == SCALE,
    {
        Scalar { micros: SCALE }
    }

    /// The sign of this scalar.
    pub fn sign(&self) -> (r: Sign)
        ensures
            r == self.spec_sign(),
    {
        if self.micros < 0 {
            Sign::Negative
        } else if self.micros == 0 {
            Sign::Zero
        } else {
            Sign::Positive
        }
    }

    /// What `sign` returns.
    pub open spec fn spec_sign(&self) -> Sign {
        if self.micros < 0 {
            Sign::Negative
        } else if self.micros == 0 {
            Sign::Zero
        } else {
            Sign::Positive
        }
    }
}

/// A point on a curve, in curve-local (1-dimensional) coordinates.
#[derive(Clone, Copy, Debug, PartialEq, Eq, Structural)]
pub struct Point1 {
    /// The curve parameter.
    pub t: Scalar,
}

/// A point in surface-local (2-dimensional) coordinates.
#[derive(Clone, Copy, Debug, PartialEq, Eq, Structural)]
pub struct Point2 {
    /// The first surface coordinate.
    pub u: Scalar,
    /// The second surface coordinate.
    pub v: Scalar,
}

/// A point in global (3-dimensional) coordinates.
#[derive(Clone, Copy, Debug, PartialEq, Eq, Structural)]
pub struct Point3 {
    /// The x coordinate.
    pub x: Scalar,
    /// The y coordinate.
    pub y: Scalar,
    /// The z coordinate.
    pub z: Scalar,
}

/// A displacement in surface-local coordinates.
#[derive(Clone, Copy, Debug, PartialEq, Eq, Structural)]
pub struct Vector2 {
    /// The first surface component.
    pub u: Scalar,
    /// The second surface component.
    pub v: Scalar,
}

/// A displacement in global coordinates.
#[derive(Clone, Copy, Debug, PartialEq, Eq, Structural)]
pub struct Vector3 {
    /// The x component.
    pub x: Scalar,
    /// The y component.
    pub y: Scalar,
    /// The z component.
    pub z: Scalar,
}

/// The error returned when a tolerance is constructed from a non-positive
/// scalar.
#[derive(Clone, Copy, Debug, PartialEq, Eq, Structural)]
pub struct InvalidTolerance;

/// A validated, strictly positive bound on the deviation between analytic
/// geometry and its discrete approximation.
#[derive(Clone, Copy, Debug, PartialEq, Eq, Structural)]
pub struct Tolerance {
    inner: Scalar,
}

impl Tolerance {
    /// A tolerance is always strictly positive.
    #[verifier::type_invariant]
    pub closed spec fn positive(self) -> bool {
        self.inner.micros > 0
    }

    /// The tolerance value, for contracts.
    pub closed spec fn spec_inner(&self) -> Scalar {
        self.inner
    }

    /// Validate a scalar as a tolerance.
    ///
    /// Zero or negative values are rejected, never silently clamped.
    pub fn from_scalar(scalar: Scalar) -> (r: Result<Tolerance, InvalidTolerance>)
        ensures
            scalar.micros > 0 <==> r is Ok,
            r matches Ok(t) ==> t.spec_inner() == scalar,
    {
        if scalar.micros > 0 {
            Ok(Tolerance { inner: scalar })
        } else {
            Err(InvalidTolerance)
        }
    }

    /// The tolerance value itself.
    pub fn inner(&self) -> (r: Scalar)
        ensures
            r == self.spec_inner(),
            r.micros > 0,
    {
        proof {
            use_type_invariant(self);
        }
        self.inner
    }
}

} // verus!
