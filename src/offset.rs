use vstd::prelude::*;

verus! {

/// A hex cell addressed by column and row; odd rows are shoved right by half a cell.
///
/// Every pair of integers is a valid offset coordinate.
#[derive(Clone, Copy, Debug, Default, PartialEq, Eq, Hash, Structural)]
pub struct Offset {
    pub col: i32,
    pub row: i32,
}

/// The horizontal correction of a row: the row rounded down to an even number, halved.
pub open spec fn shove(row: int) -> int {
    (row - row % 2) / 2
}

impl Offset {
    pub fn new(col: i32, row: i32) -> (r: Self)
        ensures
            r.col == col,
            r.row == row,
    {
        Self { col, row }
    }
}

/// Computes `shove(row)` as it stands in the coordinate formulas: `(row - (row & 1)) / 2`.
pub(crate) fn row_shove(row: i32) -> (h: i32)
    ensures
        h as int == shove(row as int),
{
    let parity = row & 1;
    proof {
        assert(parity == 0 || parity == 1) by (bit_vector)
            requires
                parity == row & 1,
        ;
        assert((row & 1) == 0 <==> row % 2 == 0) by (bit_vector);
    }
    (row - parity) / 2
}

} // verus!
