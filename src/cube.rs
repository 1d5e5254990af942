use vstd::prelude::*;

use crate::axial::{fits_i32, Axial};
use crate::offset::Offset;

verus! {

/// The error of building a cube coordinate from three raw components.
#[derive(Clone, Copy, Debug, PartialEq, Eq, Structural)]
pub enum CoordinateError {
    /// The components do not satisfy `q + r + s == 0`.
    SumNotZero,
}

/// A hex cell addressed by three redundant axes.
///
/// A cube coordinate is valid when `q + r + s == 0`; see [`Cube::is_valid`].
#[derive(Clone, Copy, Debug, Default, PartialEq, Eq, Hash, Structural)]
pub struct Cube {
    pub q: i32,
    pub r: i32,
    pub s: i32,
}

pub open spec fn abs(x: int) -> int {
    if x < 0 {
        -x
    } else {
        x
    }
}

pub open spec fn max3(a: int, b: int, c: int) -> int {
    if a >= b && a >= c {
        a
    } else if b >= c {
        b
    } else {
        c
    }
}

/// The number of steps between two cells: the largest absolute difference of their components.
pub open spec fn distance(a: Cube, b: Cube) -> int {
    max3(abs(a.q - b.q), abs(a.r - b.r), abs(a.s - b.s))
}

impl Cube {
    /// The coordinate invariant: the three components sum to zero.
    pub open spec fn is_valid(self) -> bool {
        self.q + self.r + self.s == 0
    }

    /// Whether each component lies strictly inside the range of `i32`, so that a unit step
    /// in any direction is again a `Cube`.
    pub open spec fn is_interior(self) -> bool {
        &&& i32::MIN < self.q < i32::MAX
        &&& i32::MIN < self.r < i32::MAX
        &&& i32::MIN < self.s < i32::MAX
    }

    pub fn origin() -> (c: Self)
        ensures
            c == (Cube { q: 0, r: 0, s: 0 }),
            c.is_valid(),
    {
        Self { q: 0, r: 0, s: 0 }
    }

    /// Builds a cube coordinate, failing with `SumNotZero` unless `q + r + s == 0`.
    pub fn new(q: i32, r: i32, s: i32) -> (res: Result<Self, CoordinateError>)
        ensures
            res.is_ok() <==> q + r + s == 0,
            res matches Ok(c) ==> c == (Cube { q, r, s }) && c.is_valid(),
            res matches Err(e) ==> e == CoordinateError::SumNotZero,
    {
        let sum: i64 = q as i64 + r as i64 + s as i64;

        match sum {
            0 => Ok(Cube { q, r, s }),
            _ => Err(CoordinateError::SumNotZero),
        }
    }

    /// The largest of the three components.
    pub fn max_component(self) -> (m: i32)
        ensures
            m as int == max3(self.q as int, self.r as int, self.s as int),
    {
        self.q.max(self.r).max(self.s)
    }

    /// The number of steps between two cells: `max(|Δq|, |Δr|, |Δs|)`.
    ///
    /// The differences are taken in `i64`, so every pair of cubes has a distance.
    pub fn distance_to(self, other: Self) -> (d: u32)
        ensures
            d as int == distance(self, other),
    {
        let dq: i64 = self.q as i64 - other.q as i64;
        let dr: i64 = self.r as i64 - other.r as i64;
        let ds: i64 = self.s as i64 - other.s as i64;
        let aq: i64 = if dq < 0 { -dq } else { dq };
        let ar: i64 = if dr < 0 { -dr } else { dr };
        let as_: i64 = if ds < 0 { -ds } else { ds };
        let m: i64 = aq.max(ar).max(as_);
        m as u32
    }

    /// The axial form of this cell, as a mathematical value.
    pub open spec fn axial_spec(self) -> Axial {
        Axial { q: self.q, r: self.r }
    }

    /// Converts to axial form by dropping `s`.
    pub fn to_axial(self) -> (a: Axial)
        ensures
            a.q == self.q,
            a.r == self.r,
            a == self.axial_spec(),
    {
        Axial { q: self.q, r: self.r }
    }

    /// Converts to offset form, through axial form.
    pub fn to_offset(self) -> (o: Offset)
        requires
            self.axial_spec().fits_offset(),
        ensures
            o == self.axial_spec().offset_spec(),
    {
        self.to_axial().to_offset()
    }
}

impl Offset {
    /// Whether the axial and cube forms of this cell have `i32` components.
    pub open spec fn fits_cube(self) -> bool {
        self.fits_axial() && self.axial_spec().fits_cube()
    }

    /// The cube form of this cell, as a mathematical value.
    pub open spec fn cube_spec(self) -> Cube {
        self.axial_spec().cube_spec()
    }

    /// Converts to cube form, through axial form.
    pub fn to_cube(self) -> (c: Cube)
        requires
            self.fits_cube(),
        ensures
            c == self.cube_spec(),
            c.is_valid(),
    {
        self.to_axial().to_cube()
    }
}

impl std::ops::Sub<Cube> for Cube {
    type Output = Cube;

    fn sub(self, rhs: Cube) -> Self::Output {
        Self { q: self.q - rhs.q, r: self.r - rhs.r, s: self.s - rhs.s }
    }
}

impl vstd::std_specs::ops::SubSpecImpl<Cube> for Cube {
    open spec fn obeys_sub_spec() -> bool {
        true
    }

    /// Each component difference is an `i32`.
    open spec fn sub_req(self, rhs: Cube) -> bool {
        &&& fits_i32(self.q - rhs.q)
        &&& fits_i32(self.r - rhs.r)
        &&& fits_i32(self.s - rhs.s)
    }

    /// Component-wise subtraction.
    open spec fn sub_spec(self, rhs: Cube) -> Cube {
        Cube { q: (self.q - rhs.q) as i32, r: (self.r - rhs.r) as i32, s: (self.s - rhs.s) as i32 }
    }
}

/// Converting an offset cell to axial form and back gives the same cell.
pub proof fn lemma_offset_round_trip(o: Offset)
    requires
        o.fits_axial(),
    ensures
        o.axial_spec().fits_offset(),
        o.axial_spec().offset_spec() == o,
{
}

/// Converting an axial cell to offset form and back gives the same cell.
pub proof fn lemma_axial_round_trip(a: Axial)
    requires
        a.fits_offset(),
    ensures
        a.offset_spec().fits_axial(),
        a.offset_spec().axial_spec() == a,
{
}

/// Converting a valid cube to axial form and back gives the same cube.
pub proof fn lemma_cube_round_trip(c: Cube)
    requires
        c.is_valid(),
    ensures
        c.axial_spec().fits_cube(),
        c.axial_spec().cube_spec() == c,
{
}

/// Taking an offset cell through axial, cube and axial form back to offset form gives the
/// same cell.
pub proof fn lemma_offset_cube_round_trip(o: Offset)
    requires
        o.fits_cube(),
    ensures
        o.cube_spec().axial_spec().fits_offset(),
        o.cube_spec().axial_spec().offset_spec() == o,
{
}

/// Every cube obtained by conversion satisfies `q + r + s == 0`.
pub proof fn lemma_conversions_keep_sum_zero(o: Offset, a: Axial, c: Cube)
    requires
        o.fits_cube(),
        a.fits_cube(),
        c.is_valid(),
    ensures
        o.cube_spec().is_valid(),
        a.cube_spec().is_valid(),
        c.axial_spec().cube_spec().is_valid(),
{
}

/// Distance does not depend on the order of its arguments.
pub proof fn lemma_distance_symmetric(a: Cube, b: Cube)
    ensures
        distance(a, b) == distance(b, a),
{
}

/// The distance between two cells is zero exactly when they are the same cell, and never
/// negative.
pub proof fn lemma_distance_zero_iff_equal(a: Cube, b: Cube)
    ensures
        distance(a, b) >= 0,
        distance(a, b) == 0 <==> a == b,
{
}

} // verus!
