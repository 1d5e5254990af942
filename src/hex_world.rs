use vstd::prelude::*;

use itertools::Itertools;

use crate::cube::Cube;
use crate::cube_direction::{lemma_neighbour_symmetric, lemma_neighbours_distinct};
use crate::offset::Offset;

verus! {

/// The cube forms of a sequence of offset cells.
pub open spec fn cubes_of(coordinates: Seq<Offset>) -> Seq<Cube> {
    coordinates.map_values(|o: Offset| o.cube_spec())
}

/// The set of live cells of a hex lattice, each addressed by its index.
///
/// Cells are fixed when the grid is built: no operation adds or removes one. A neighbour
/// that is not among them is simply absent.
pub struct HexGrid {
    cells: Vec<Cube>,
}

impl View for HexGrid {
    type V = Seq<Cube>;

    closed spec fn view(&self) -> Seq<Cube> {
        self.cells@
    }
}

impl HexGrid {
    /// Every cell is a valid interior cube, and no cell occurs twice.
    pub open spec fn wf(&self) -> bool {
        &&& forall|i: int| 0 <= i < self@.len() ==> (#[trigger] self@[i]).is_valid() && self@[i].is_interior()
        &&& self@.no_duplicates()
    }

    /// `s` lists, once each, the indices of the live neighbours of cell `i`.
    pub open spec fn is_neighbour_list(&self, i: int, s: Seq<usize>) -> bool {
        &&& s.no_duplicates()
        &&& forall|k: int| 0 <= k < s.len() ==> (#[trigger] s[k]) < self@.len()
            && self@[i].neighbours_spec().contains(self@[s[k] as int])
        &&& forall|j: int| 0 <= j < self@.len() && self@[i].neighbours_spec().contains(#[trigger] self@[j])
            ==> s.contains(j as usize)
    }

    /// Builds the grid whose cells are the cube forms of the given offset cells; a cell given
    /// more than once is held once.
    pub fn new(coordinates: &Vec<Offset>) -> (g: HexGrid)
        requires
            forall|i: int| 0 <= i < coordinates@.len()
                ==> (#[trigger] coordinates@[i]).fits_cube() && coordinates@[i].cube_spec().is_interior(),
        ensures
            g.wf(),
            forall|c: Cube| g@.contains(c) <==> cubes_of(coordinates@).contains(c),
    {
        let mut cells: Vec<Cube> = Vec::new();
        let n = coordinates.len();
        for i in 0..n
            invariant
                n == coordinates@.len(),
                forall|i: int| 0 <= i < coordinates@.len()
                    ==> (#[trigger] coordinates@[i]).fits_cube() && coordinates@[i].cube_spec().is_interior(),
                (HexGrid { cells }).wf(),
                forall|c: Cube| cells@.contains(c) <==> cubes_of(coordinates@.take(i as int)).contains(c),
        {
            let c = coordinates[i].to_cube();
            let grid = HexGrid { cells };
            let found = grid.index_of(c);
            cells = grid.cells;
            let ghost before = cubes_of(coordinates@.take(i as int));
            let ghost after = cubes_of(coordinates@.take(i + 1));
            let ghost old_cells = cells@;
            assert(after =~= before.push(c));
            if found.is_none() {
                cells.push(c);
            }
            assert forall|x: Cube| cells@.contains(x) <==> after.contains(x) by {
                if cells@.contains(x) {
                    let m = choose|m: int| 0 <= m < cells@.len() && cells@[m] == x;
                    if m < old_cells.len() {
                        assert(old_cells[m] == x);
                        assert(old_cells.contains(x));
                        let t = choose|t: int| 0 <= t < before.len() && before[t] == x;
                        assert(after[t] == x);
                    } else {
                        assert(after[after.len() - 1] == x);
                    }
                }
                if after.contains(x) {
                    let t = choose|t: int| 0 <= t < after.len() && after[t] == x;
                    if t < before.len() {
                        assert(before[t] == x);
                        assert(before.contains(x));
                        assert(old_cells.contains(x));
                        let m = choose|m: int| 0 <= m < old_cells.len() && old_cells[m] == x;
                        assert(cells@[m] == x);
                    } else if found.is_none() {
                        assert(cells@[cells@.len() - 1] == x);
                    } else {
                        let j = found.unwrap();
                        assert(cells@[j as int] == x);
                    }
                }
            }
        }
        assert(coordinates@.take(n as int) =~= coordinates@);
        HexGrid { cells }
    }

    /// The number of cells.
    pub fn len(&self) -> (n: usize)
        ensures
            n == self@.len(),
    {
        self.cells.len()
    }

    /// The cell at index `i`.
    pub fn cell(&self, i: usize) -> (c: Cube)
        requires
            i < self@.len(),
        ensures
            c == self@[i as int],
    {
        self.cells[i]
    }

    /// The index of cell `c`, or `None` when `c` is not a live cell.
    pub fn index_of(&self, c: Cube) -> (r: Option<usize>)
        ensures
            match r {
                Some(i) => i < self@.len() && self@[i as int] == c,
                None => !self@.contains(c),
            },
    {
        let n = self.cells.len();
        for i in 0..n
            invariant
                n == self@.len(),
                forall|j: int| 0 <= j < i ==> self@[j] != c,
        {
            if self.cells[i] == c {
                return Some(i);
            }
        }
        None
    }

    /// The indices of the live neighbours of cell `i`, once each.
    pub fn neighbour_indices(&self, i: usize) -> (s: Vec<usize>)
        requires
            self.wf(),
            i < self@.len(),
        ensures
            self.is_neighbour_list(i as int, s@),
    {
        let ns = self.cells[i].neighbours();
        proof {
            lemma_neighbours_distinct(self@[i as int]);
        }
        let mut s: Vec<usize> = Vec::new();
        for k in 0..6
            invariant
                self.wf(),
                i < self@.len(),
                ns@ == self@[i as int].neighbours_spec(),
                ns@.len() == 6,
                ns@.no_duplicates(),
                s@.no_duplicates(),
                forall|m: int| 0 <= m < s@.len() ==> (#[trigger] s@[m]) < self@.len()
                    && ns@.take(k as int).contains(self@[s@[m] as int]),
                forall|j: int| 0 <= j < self@.len() && ns@.take(k as int).contains(#[trigger] self@[j])
                    ==> s@.contains(j as usize),
        {
            let found = self.index_of(ns[k]);
            let ghost before = ns@.take(k as int);
            let ghost after = ns@.take(k + 1);
            let ghost old_s = s@;
            assert(after =~= before.push(ns@[k as int]));
            assert forall|x: Cube| before.contains(x) implies after.contains(x) by {
                let t = choose|t: int| 0 <= t < before.len() && before[t] == x;
                assert(after[t] == x);
            }
            if let Some(j) = found {
                assert(!s@.contains(j)) by {
                    if s@.contains(j) {
                        let m = choose|m: int| 0 <= m < s@.len() && s@[m] == j;
                        assert(before.contains(self@[s@[m] as int]));
                        let t = choose|t: int| 0 <= t < before.len() && before[t] == self@[s@[m] as int];
                        assert(ns@[t] == ns@[k as int]);
                    }
                }
                s.push(j);
                proof {
                    assert(after[k as int] == self@[j as int]);
                    assert forall|m: int| 0 <= m < s@.len() implies (#[trigger] s@[m]) < self@.len()
                        && after.contains(self@[s@[m] as int]) by {
                        if m < old_s.len() {
                            assert(s@[m] == old_s[m]);
                        }
                    }
                    assert forall|jj: int| 0 <= jj < self@.len() && after.contains(#[trigger] self@[jj])
                        implies s@.contains(jj as usize) by {
                        if self@[jj] == ns@[k as int] {
                            assert(self@[jj] == self@[j as int]);
                            assert(s@[s@.len() - 1] == j);
                        } else {
                            let t = choose|t: int| 0 <= t < after.len() && after[t] == self@[jj];
                            assert(before[t] == self@[jj]);
                            assert(old_s.contains(jj as usize));
                            let m = choose|m: int| 0 <= m < old_s.len() && old_s[m] == jj as usize;
                            assert(s@[m] == jj as usize);
                        }
                    }
                }
            } else {
                proof {
                    assert forall|jj: int| 0 <= jj < self@.len() && after.contains(#[trigger] self@[jj])
                        implies s@.contains(jj as usize) by {
                        assert(self@[jj] != ns@[k as int]);
                        let t = choose|t: int| 0 <= t < after.len() && after[t] == self@[jj];
                        assert(before[t] == self@[jj]);
                    }
                }
            }
        }
        assert(ns@.take(6) =~= ns@);
        s
    }

    /// For each cell, in index order, the indices of its live neighbours.
    pub fn adjacency(&self) -> (a: Vec<Vec<usize>>)
        requires
            self.wf(),
        ensures
            a@.len() == self@.len(),
            forall|i: int| 0 <= i < a@.len() ==> self.is_neighbour_list(i, #[trigger] a@[i]@),
    {
        let mut a: Vec<Vec<usize>> = Vec::new();
        let n = self.cells.len();
        for i in 0..n
            invariant
                self.wf(),
                n == self@.len(),
                a@.len() == i,
                forall|k: int| 0 <= k < i ==> self.is_neighbour_list(k, #[trigger] a@[k]@),
        {
            a.push(self.neighbour_indices(i));
        }
        a
    }
}

/// Cell `j` is listed among the neighbours of cell `i` exactly when `i` is listed among
/// those of `j`: what a cell hands out to its live neighbours is exactly what it receives
/// from them, so a tick may gather from neighbours instead of scattering to them.
pub proof fn lemma_adjacency_symmetric(g: HexGrid, i: usize, j: usize, si: Seq<usize>, sj: Seq<usize>)
    requires
        g.wf(),
        i < g@.len(),
        j < g@.len(),
        g.is_neighbour_list(i as int, si),
        g.is_neighbour_list(j as int, sj),
    ensures
        si.contains(j) <==> sj.contains(i),
{
    let (ci, cj) = (g@[i as int], g@[j as int]);
    lemma_neighbour_symmetric(ci, cj);
    if si.contains(j) {
        let k = choose|k: int| 0 <= k < si.len() && si[k] == j;
        assert(ci.neighbours_spec().contains(g@[si[k] as int]));
        assert(cj.neighbours_spec().contains(g@[i as int]));
    }
    if sj.contains(i) {
        let k = choose|k: int| 0 <= k < sj.len() && sj[k] == i;
        assert(cj.neighbours_spec().contains(g@[sj[k] as int]));
        assert(ci.neighbours_spec().contains(g@[j as int]));
    }
}

/// The largest radius of a square of offset cells whose cube forms stay well inside `i32`.
pub const MAX_RADIUS: i32 = 0x1000_0000;

/// Relies on itertools' `Itertools::cartesian_product`: every pair of values of `lo..=hi`,
/// the first component outermost, in increasing order.
#[verifier::external_body]
fn square_pairs(lo: i32, hi: i32) -> (r: Vec<(i32, i32)>)
    requires
        lo <= hi,
    ensures
        r@.len() == (hi - lo + 1) * (hi - lo + 1),
        forall|k: int| 0 <= k < r@.len() ==> #[trigger] r@[k] == (
            (lo + k / (hi - lo + 1)) as i32,
            (lo + k % (hi - lo + 1)) as i32,
        ),
{
    (lo..=hi).cartesian_product(lo..=hi).collect()
}

/// The offset cell at position `k` of the square of the given radius, listed column by
/// column.
pub open spec fn square_cell(radius: int, k: int) -> Offset {
    Offset {
        col: (-radius + k / (2 * radius + 1)) as i32,
        row: (-radius + k % (2 * radius + 1)) as i32,
    }
}

/// Each cell of a square of radius at most `MAX_RADIUS` lies in the square, and its cube
/// form is an interior cube.
proof fn lemma_square_cell_fits(radius: int, k: int)
    requires
        0 <= radius <= MAX_RADIUS,
        0 <= k < (2 * radius + 1) * (2 * radius + 1),
    ensures
        -radius <= square_cell(radius, k).col <= radius,
        -radius <= square_cell(radius, k).row <= radius,
        square_cell(radius, k).fits_cube(),
        square_cell(radius, k).cube_spec().is_interior(),
{
    let n = 2 * radius + 1;
    let x = k / n;
    vstd::arithmetic::div_mod::lemma_fundamental_div_mod(k, n);
    assert(x < n) by {
        if x >= n {
            assert(n * x >= n * n) by (nonlinear_arith)
                requires
                    x >= n,
                    n > 0,
            ;
        }
    }
    assert(0 <= x) by (nonlinear_arith)
        requires
            0 <= k,
            n > 0,
            x == k / n,
    ;
}

/// All offset cells with column and row in `-radius..=radius`, column by column.
pub fn get_coordinates(radius: i32) -> (r: Vec<Offset>)
    requires
        0 <= radius <= MAX_RADIUS,
    ensures
        r@.len() == (2 * radius + 1) * (2 * radius + 1),
        forall|k: int| 0 <= k < r@.len() ==> #[trigger] r@[k] == square_cell(radius as int, k),
        forall|k: int| 0 <= k < r@.len() ==> (#[trigger] r@[k]).fits_cube() && r@[k].cube_spec().is_interior(),
{
    let pairs = square_pairs(-radius, radius);
    let mut r: Vec<Offset> = Vec::new();
    let n = pairs.len();
    for k in 0..n
        invariant
            n == pairs@.len(),
            n == (2 * radius + 1) * (2 * radius + 1),
            0 <= radius <= MAX_RADIUS,
            r@.len() == k,
            forall|k: int| 0 <= k < pairs@.len() ==> #[trigger] pairs@[k] == (
                (-radius + k / (2 * radius + 1)) as i32,
                (-radius + k % (2 * radius + 1)) as i32,
            ),
            forall|j: int| 0 <= j < k ==> #[trigger] r@[j] == square_cell(radius as int, j),
    {
        let (col, row) = pairs[k];
        r.push(Offset::new(col, row));
    }
    assert forall|k: int| 0 <= k < r@.len() implies (#[trigger] r@[k]).fits_cube() && r@[k].cube_spec().is_interior() by {
        lemma_square_cell_fits(radius as int, k);
    }
    r
}

} // verus!
