use vstd::prelude::*;

use crate::cube::Cube;
use crate::offset::{row_shove, shove, Offset};

verus! {

/// A hex cell addressed by two of the three cube axes; the third is `-q - r`.
///
/// Every pair of integers is a valid axial coordinate.
#[derive(Clone, Copy, Debug, Default, PartialEq, Eq, Hash, Structural)]
pub struct Axial {
    pub q: i32,
    pub r: i32,
}

/// The axial `q` of the offset cell `(col, row)`.
pub open spec fn axial_q_of(col: int, row: int) -> int {
    col - shove(row)
}

/// The offset column of the axial cell `(q, r)`.
pub open spec fn offset_col_of(q: int, r: int) -> int {
    q + shove(r)
}

/// Whether an integer is within the range of `i32`.
pub open spec fn fits_i32(x: int) -> bool {
    i32::MIN <= x <= i32::MAX
}

impl Offset {
    /// Whether the axial form of this cell has an `i32` column.
    pub open spec fn fits_axial(self) -> bool {
        fits_i32(axial_q_of(self.col as int, self.row as int))
    }

    /// The axial form of this cell, as a mathematical value.
    pub open spec fn axial_spec(self) -> Axial {
        Axial { q: axial_q_of(self.col as int, self.row as int) as i32, r: self.row }
    }

    /// Converts to axial form: `q = col - (row - (row & 1)) / 2`, `r = row`.
    pub fn to_axial(self) -> (a: Axial)
        requires
            self.fits_axial(),
        ensures
            a.q as int == axial_q_of(self.col as int, self.row as int),
            a.r == self.row,
            a == self.axial_spec(),
    {
        Axial { q: self.col - row_shove(self.row), r: self.row }
    }
}

impl Axial {
    pub fn new(q: i32, r: i32) -> (a: Self)
        ensures
            a.q == q,
            a.r == r,
    {
        Self { q, r }
    }

    /// Whether the offset form of this cell has an `i32` column.
    pub open spec fn fits_offset(self) -> bool {
        fits_i32(offset_col_of(self.q as int, self.r as int))
    }

    /// The offset form of this cell, as a mathematical value.
    pub open spec fn offset_spec(self) -> Offset {
        Offset { col: offset_col_of(self.q as int, self.r as int) as i32, row: self.r }
    }

    /// Converts to offset form: `col = q + (r - (r & 1)) / 2`, `row = r`.
    pub fn to_offset(self) -> (o: Offset)
        requires
            self.fits_offset(),
        ensures
            o.col as int == offset_col_of(self.q as int, self.r as int),
            o.row == self.r,
            o == self.offset_spec(),
    {
        Offset { col: self.q + row_shove(self.r), row: self.r }
    }

    /// Whether the implicit third axis `-q - r` is an `i32`.
    pub open spec fn fits_cube(self) -> bool {
        fits_i32(-self.q - self.r)
    }

    /// The cube form of this cell, as a mathematical value.
    pub open spec fn cube_spec(self) -> Cube {
        Cube { q: self.q, r: self.r, s: (-self.q - self.r) as i32 }
    }

    /// Converts to cube form: `s = -q - r`, which always sums to zero.
    pub fn to_cube(self) -> (c: Cube)
        requires
            self.fits_cube(),
        ensures
            c.q == self.q,
            c.r == self.r,
            c.s as int == -self.q - self.r,
            c.is_valid(),
            c == self.cube_spec(),
    {
        let (q, r) = (self.q, self.r);
        let s: i64 = -(q as i64) - r as i64;
        Cube { q, r, s: s as i32 }
    }
}

} // verus!
