use vstd::prelude::*;

verus! {

/// A triangle of a mesh, given by the indices of its three corners in the vertex list.
#[derive(Clone, Copy, Debug, PartialEq, Eq)]
pub struct Triangle {
    pub indices: [u32; 3],
}

impl Triangle {
    pub fn new(a: u32, b: u32, c: u32) -> (t: Self)
        ensures
            t.indices@ == seq![a, b, c],
    {
        Triangle { indices: [a, b, c] }
    }

    /// Whether every corner index is below `vertex_count`.
    pub open spec fn in_range(self, vertex_count: int) -> bool {
        forall|k: int| 0 <= k < 3 ==> (#[trigger] self.indices@[k]) < vertex_count
    }

    /// Whether every corner index plus `offset` is a `u32`.
    pub open spec fn can_shift(self, offset: int) -> bool {
        forall|k: int| 0 <= k < 3 ==> (#[trigger] self.indices@[k]) + offset <= u32::MAX
    }

    /// This triangle with `offset` added to each corner index.
    pub open spec fn shifted_spec(self, offset: int) -> Triangle {
        Triangle {
            indices: [
                (self.indices@[0] + offset) as u32,
                (self.indices@[1] + offset) as u32,
                (self.indices@[2] + offset) as u32,
            ],
        }
    }

    /// This triangle with `offset` added to each corner index, as when its vertex list is
    /// appended to another one of `offset` vertices.
    pub fn shifted(self, offset: u32) -> (t: Triangle)
        requires
            self.can_shift(offset as int),
        ensures
            t == self.shifted_spec(offset as int),
            forall|k: int| 0 <= k < 3 ==> (#[trigger] t.indices@[k]) == self.indices@[k] + offset,
    {
        let (a, b, c) = (self.indices[0], self.indices[1], self.indices[2]);
        let t = Triangle { indices: [a + offset, b + offset, c + offset] };
        assert(t.indices@ =~= self.shifted_spec(offset as int).indices@);
        t
    }
}

impl From<&[u32; 3]> for Triangle {
    fn from(indices: &[u32; 3]) -> Self {
        Triangle { indices: *indices }
    }
}

impl vstd::std_specs::convert::FromSpecImpl<&[u32; 3]> for Triangle {
    open spec fn obeys_from_spec() -> bool {
        true
    }

    open spec fn from_spec(indices: &[u32; 3]) -> Triangle {
        Triangle { indices: *indices }
    }
}

/// Whether every corner of every triangle indexes one of `vertex_count` vertices.
pub fn indices_in_range(triangles: &Vec<Triangle>, vertex_count: usize) -> (ok: bool)
    ensures
        ok == forall|i: int| 0 <= i < triangles@.len() ==> (#[trigger] triangles@[i]).in_range(
            vertex_count as int,
        ),
{
    let n = triangles.len();
    for i in 0..n
        invariant
            n == triangles@.len(),
            forall|j: int| 0 <= j < i ==> (#[trigger] triangles@[j]).in_range(vertex_count as int),
    {
        let t = triangles[i];
        for k in 0..3
            invariant
                i < triangles@.len(),
                t == triangles@[i as int],
                forall|m: int| 0 <= m < k ==> (#[trigger] t.indices@[m]) < vertex_count,
        {
            if t.indices[k] as usize >= vertex_count {
                assert(t.indices@[k as int] >= vertex_count);
                assert(!triangles@[i as int].in_range(vertex_count as int));
                return false;
            }
        }
    }
    true
}

/// The triangles of two meshes joined into one: those of the first as they are, then those of
/// the second with each index moved past the `first_vertex_count` vertices of the first.
pub fn merge_triangles(first: Vec<Triangle>, first_vertex_count: usize, second: &Vec<Triangle>) -> (r: Vec<Triangle>)
    requires
        first_vertex_count <= u32::MAX,
        forall|i: int| 0 <= i < second@.len() ==> (#[trigger] second@[i]).can_shift(first_vertex_count as int),
    ensures
        r@ == first@ + second@.map_values(|t: Triangle| t.shifted_spec(first_vertex_count as int)),
{
    let mut triangles = first;
    let offset = first_vertex_count as u32;
    let n = second.len();
    for i in 0..n
        invariant
            n == second@.len(),
            offset == first_vertex_count,
            forall|i: int| 0 <= i < second@.len() ==> (#[trigger] second@[i]).can_shift(first_vertex_count as int),
            triangles@ == first@ + second@.take(i as int).map_values(|t: Triangle| t.shifted_spec(first_vertex_count as int)),
    {
        triangles.push(second[i].shifted(offset));
        assert(second@.take(i + 1) =~= second@.take(i as int).push(second@[i as int]));
        assert(second@.take(i + 1).map_values(|t: Triangle| t.shifted_spec(first_vertex_count as int)) =~=
            second@.take(i as int).map_values(|t: Triangle| t.shifted_spec(first_vertex_count as int)).push(
                second@[i as int].shifted_spec(first_vertex_count as int)));
    }
    assert(second@.take(n as int) =~= second@);
    triangles
}

/// The triangles of a flat hexagon whose centre is vertex 0 and whose corners are vertices
/// 1 to 6: one triangle per corner, fanning out from the centre.
pub fn hex_triangles() -> (r: Vec<Triangle>)
    ensures
        r@.len() == 6,
        forall|i: int| 0 <= i < 6 ==> (#[trigger] r@[i]).indices@ == seq![
            0u32,
            (if i == 5 { 1 } else { i + 2 }) as u32,
            (i + 1) as u32,
        ],
{
    let r = vec![
        Triangle::new(0, 2, 1),
        Triangle::new(0, 3, 2),
        Triangle::new(0, 4, 3),
        Triangle::new(0, 5, 4),
        Triangle::new(0, 6, 5),
        Triangle::new(0, 1, 6),
    ];
    assert forall|i: int| 0 <= i < 6 implies (#[trigger] r@[i]).indices@ == seq![
        0u32,
        (if i == 5 { 1 } else { i + 2 }) as u32,
        (i + 1) as u32,
    ] by {
        assert(r@[i].indices@ =~= seq![0u32, (if i == 5 { 1 } else { i + 2 }) as u32, (i + 1) as u32]);
    }
    r
}

/// The triangles of the six rectangular sides of a hexagonal prism. Side `i` owns vertices
/// `4 * i` to `4 * i + 3` (bottom and top of one edge, then bottom and top of the next) and
/// is split into two triangles.
pub fn prism_side_triangles() -> (r: Vec<Triangle>)
    ensures
        r@.len() == 12,
        forall|i: int| 0 <= i < 6 ==> (#[trigger] r@[2 * i]).indices@ == seq![
            (4 * i) as u32,
            (4 * i + 3) as u32,
            (4 * i + 2) as u32,
        ] && r@[2 * i + 1].indices@ == seq![(4 * i) as u32, (4 * i + 1) as u32, (4 * i + 3) as u32],
        forall|i: int| 0 <= i < 12 ==> (#[trigger] r@[i]).in_range(24),
{
    let mut r: Vec<Triangle> = Vec::new();
    for i in 0..6u32
        invariant
            r@.len() == 2 * i,
            forall|j: int| 0 <= j < i ==> (#[trigger] r@[2 * j]).indices@ == seq![
                (4 * j) as u32,
                (4 * j + 3) as u32,
                (4 * j + 2) as u32,
            ] && r@[2 * j + 1].indices@ == seq![(4 * j) as u32, (4 * j + 1) as u32, (4 * j + 3) as u32],
    {
        let offset = 4 * i;
        r.push(Triangle::new(offset, offset + 3, offset + 2));
        r.push(Triangle::new(offset, offset + 1, offset + 3));
    }
    assert forall|i: int| 0 <= i < 12 implies (#[trigger] r@[i]).in_range(24) by {
        let j = i / 2;
        assert(r@[2 * j].indices@ == seq![(4 * j) as u32, (4 * j + 3) as u32, (4 * j + 2) as u32]);
        if i % 2 == 1 {
            assert(i == 2 * j + 1);
            assert(r@[2 * j + 1].indices@ == seq![(4 * j) as u32, (4 * j + 1) as u32, (4 * j + 3) as u32]);
        }
    }
    r
}

} // verus!
