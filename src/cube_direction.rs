use vstd::prelude::*;

use crate::axial::fits_i32;
use crate::cube::{distance, Cube};

verus! {

/// The six unit steps of the hex lattice.
#[derive(Clone, Copy, Debug, PartialEq, Eq, Hash, Structural)]
pub enum Direction {
    E,
    NE,
    NW,
    W,
    SW,
    SE,
}

/// The six directions, in the order in which neighbours are listed.
pub open spec fn directions() -> Seq<Direction> {
    seq![Direction::E, Direction::NE, Direction::NW, Direction::W, Direction::SW, Direction::SE]
}

impl Direction {
    /// The unit cube vector of this direction.
    pub open spec fn vector(self) -> Cube {
        match self {
            Direction::E => Cube { q: 1, r: 0, s: -1i32 },
            Direction::NE => Cube { q: 1, r: -1i32, s: 0 },
            Direction::NW => Cube { q: 0, r: -1i32, s: 1 },
            Direction::W => Cube { q: -1i32, r: 0, s: 1 },
            Direction::SW => Cube { q: -1i32, r: 1, s: 0 },
            Direction::SE => Cube { q: 0, r: 1, s: -1i32 },
        }
    }
}

impl From<Direction> for Cube {
    fn from(dir: Direction) -> Self {
        match dir {
            Direction::E => Cube { q: 1, r: 0, s: -1 },
            Direction::NE => Cube { q: 1, r: -1, s: 0 },
            Direction::NW => Cube { q: 0, r: -1, s: 1 },
            Direction::W => Cube { q: -1, r: 0, s: 1 },
            Direction::SW => Cube { q: -1, r: 1, s: 0 },
            Direction::SE => Cube { q: 0, r: 1, s: -1 },
        }
    }
}

impl vstd::std_specs::convert::FromSpecImpl<Direction> for Cube {
    open spec fn obeys_from_spec() -> bool {
        true
    }

    open spec fn from_spec(dir: Direction) -> Cube {
        dir.vector()
    }
}

impl std::ops::Add<Cube> for Cube {
    type Output = Cube;

    fn add(self, rhs: Cube) -> Self::Output {
        Self { q: self.q + rhs.q, r: self.r + rhs.r, s: self.s + rhs.s }
    }
}

impl vstd::std_specs::ops::AddSpecImpl<Cube> for Cube {
    open spec fn obeys_add_spec() -> bool {
        true
    }

    /// Each component sum is an `i32`.
    open spec fn add_req(self, rhs: Cube) -> bool {
        &&& fits_i32(self.q + rhs.q)
        &&& fits_i32(self.r + rhs.r)
        &&& fits_i32(self.s + rhs.s)
    }

    /// Component-wise addition.
    open spec fn add_spec(self, rhs: Cube) -> Cube {
        Cube { q: (self.q + rhs.q) as i32, r: (self.r + rhs.r) as i32, s: (self.s + rhs.s) as i32 }
    }
}

impl std::ops::Add<Direction> for Cube {
    type Output = Cube;

    fn add(self, rhs: Direction) -> Self::Output {
        self + Cube::from(rhs)
    }
}

impl vstd::std_specs::ops::AddSpecImpl<Direction> for Cube {
    open spec fn obeys_add_spec() -> bool {
        true
    }

    /// The step stays within the range of `i32`.
    open spec fn add_req(self, rhs: Direction) -> bool {
        &&& fits_i32(self.q + rhs.vector().q)
        &&& fits_i32(self.r + rhs.vector().r)
        &&& fits_i32(self.s + rhs.vector().s)
    }

    /// The adjacent cell in the given direction.
    open spec fn add_spec(self, rhs: Direction) -> Cube {
        self.step(rhs)
    }
}

impl Cube {
    /// The adjacent cell in direction `d`: this cell plus the unit vector of `d`.
    pub open spec fn step(self, d: Direction) -> Cube {
        Cube {
            q: (self.q + d.vector().q) as i32,
            r: (self.r + d.vector().r) as i32,
            s: (self.s + d.vector().s) as i32,
        }
    }

    /// The six adjacent cells, one per direction, in the order of [`directions`].
    pub open spec fn neighbours_spec(self) -> Seq<Cube> {
        directions().map_values(|d: Direction| self.step(d))
    }

    /// The six adjacent cells, one per direction: E, NE, NW, W, SW, SE.
    pub fn neighbours(self) -> (n: Vec<Cube>)
        requires
            self.is_interior(),
        ensures
            n@ == self.neighbours_spec(),
    {
        let mut n: Vec<Cube> = Vec::new();
        n.push(self + Direction::E);
        n.push(self + Direction::NE);
        n.push(self + Direction::NW);
        n.push(self + Direction::W);
        n.push(self + Direction::SW);
        n.push(self + Direction::SE);
        assert(n@ =~= self.neighbours_spec());
        n
    }
}

/// The six neighbours of an interior cell are six different cells, none of them the cell
/// itself.
pub proof fn lemma_neighbours_distinct(c: Cube)
    requires
        c.is_interior(),
    ensures
        c.neighbours_spec().len() == 6,
        c.neighbours_spec().no_duplicates(),
        !c.neighbours_spec().contains(c),
{
    let n = c.neighbours_spec();
    assert forall|i: int, j: int| 0 <= i < n.len() && 0 <= j < n.len() && i != j implies n[i] != n[j] by {
        assert(directions()[i] != directions()[j]);
    }
    assert forall|i: int| 0 <= i < n.len() implies n[i] != c by {}
}

/// A step in any direction keeps a valid cube valid, so every neighbour of a valid cube is
/// valid.
pub proof fn lemma_neighbours_keep_sum_zero(c: Cube, d: Direction)
    requires
        c.is_valid(),
        c.is_interior(),
    ensures
        c.step(d).is_valid(),
        forall|k: int| 0 <= k < c.neighbours_spec().len() ==> (#[trigger] c.neighbours_spec()[k]).is_valid(),
{
}

/// Each neighbour of a cell is at distance one from it.
pub proof fn lemma_neighbours_at_distance_one(c: Cube)
    requires
        c.is_interior(),
    ensures
        forall|k: int| 0 <= k < c.neighbours_spec().len() ==> distance(c, #[trigger] c.neighbours_spec()[k]) == 1,
{
}

/// Two interior cells are neighbours of each other or of neither.
pub proof fn lemma_neighbour_symmetric(a: Cube, b: Cube)
    requires
        a.is_interior(),
        b.is_interior(),
    ensures
        a.neighbours_spec().contains(b) <==> b.neighbours_spec().contains(a),
{
    let na = a.neighbours_spec();
    let nb = b.neighbours_spec();
    if na.contains(b) {
        let k = choose|k: int| 0 <= k < na.len() && na[k] == b;
        assert(nb[(k + 3) % 6] == a);
    }
    if nb.contains(a) {
        let k = choose|k: int| 0 <= k < nb.len() && nb[k] == a;
        assert(na[(k + 3) % 6] == b);
    }
}

/// The neighbours of the origin are exactly the six unit vectors, each once, none of them
/// the origin, each at distance one.
pub proof fn lemma_origin_neighbours()
    ensures
        ({
            let o = Cube { q: 0, r: 0, s: 0 };
            let n = o.neighbours_spec();
            &&& n.len() == 6
            &&& n.no_duplicates()
            &&& !n.contains(o)
            &&& forall|k: int| 0 <= k < n.len() ==> distance(o, #[trigger] n[k]) == 1
            &&& n.to_set() == set![
                Cube { q: 1, r: 0, s: -1i32 },
                Cube { q: 1, r: -1i32, s: 0 },
                Cube { q: 0, r: -1i32, s: 1 },
                Cube { q: -1i32, r: 0, s: 1 },
                Cube { q: -1i32, r: 1, s: 0 },
                Cube { q: 0, r: 1, s: -1i32 },
            ]
        }),
{
    let o = Cube { q: 0, r: 0, s: 0 };
    lemma_neighbours_distinct(o);
    lemma_neighbours_at_distance_one(o);
    let n = o.neighbours_spec();
    assert(n.to_set() =~= set![
        Cube { q: 1, r: 0, s: -1i32 },
        Cube { q: 1, r: -1i32, s: 0 },
        Cube { q: 0, r: -1i32, s: 1 },
        Cube { q: -1i32, r: 0, s: 1 },
        Cube { q: -1i32, r: 1, s: 0 },
        Cube { q: 0, r: 1, s: -1i32 },
    ]) by {
        assert(n[0] == Cube { q: 1, r: 0, s: -1i32 });
        assert(n[1] == Cube { q: 1, r: -1i32, s: 0 });
        assert(n[2] == Cube { q: 0, r: -1i32, s: 1 });
        assert(n[3] == Cube { q: -1i32, r: 0, s: 1 });
        assert(n[4] == Cube { q: -1i32, r: 1, s: 0 });
        assert(n[5] == Cube { q: 0, r: 1, s: -1i32 });
    }
}

} // verus!
