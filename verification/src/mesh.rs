use vstd::prelude::*;

verus! {

/// The index buffer of a mesh together with the number of vertices that the
/// indices refer to.
pub struct MeshIndices {
    pub vertex_count: u64,
    pub indices: Vec<u32>,
}

impl MeshIndices {
    /// Every index names an existing vertex.
    pub open spec fn in_bounds(&self) -> bool {
        forall|k: int| 0 <= k < self.indices@.len() ==> #[trigger] self.indices@[k] < self.vertex_count
    }

    /// The indices form whole triangles.
    pub open spec fn is_triangle_list(&self) -> bool {
        self.indices@.len() % 3 == 0
    }

    /// The indices form whole line segments.
    pub open spec fn is_line_list(&self) -> bool {
        self.indices@.len() % 2 == 0
    }
}

// ---------------------------------------------------------------- sphere

/// The position, in the sphere's index buffer, of corner `t` of cell (`i`, `j`).
pub open spec fn sphere_slot(i: int, j: int, t: int, slices: int) -> int {
    6 * (i * slices + j) + t
}

/// Corner `t` of the two triangles of cell (`i`, `j`) of a sphere whose rows
/// hold `slices + 1` vertices: `a, b, a+1, b, b+1, a+1`, where `a` is the
/// cell's top-left vertex and `b` the vertex below it.
pub open spec fn sphere_corner(i: int, j: int, t: int, slices: int) -> int {
    let a = i * (slices + 1) + j;
    let b = a + slices + 1;
    if t == 0 {
        a
    } else if t == 1 {
        b
    } else if t == 2 {
        a + 1
    } else if t == 3 {
        b
    } else if t == 4 {
        b + 1
    } else {
        a + 1
    }
}

/// The number of vertices of a sphere with the given subdivisions.
pub open spec fn sphere_vertex_count(stacks: int, slices: int) -> int {
    (stacks + 1) * (slices + 1)
}

proof fn lemma_cell_before(i2: int, j2: int, i: int, j: int, s: int)
    by (nonlinear_arith)
    requires
        0 <= j,
        0 <= i2,
        0 <= j2,
        (i2 < i && j2 < s) || (i2 == i && j2 < j),
    ensures
        i2 * s + j2 < i * s + j,
{
}

proof fn lemma_sphere_cell_bounds(i: int, j: int, stacks: int, s: int)
    by (nonlinear_arith)
    requires
        0 <= i < stacks,
        0 <= j < s,
    ensures
        0 <= i * (s + 1) + j,
        i * (s + 1) + j + (s + 1) + 1 < (stacks + 1) * (s + 1),
{
}

proof fn lemma_next_row(i: int, s: int)
    by (nonlinear_arith)
    ensures
        i * s + s == (i + 1) * s,
{
}

/// Every cell of the sphere is wound the same way: its corners are those of
/// the cell to its left moved one vertex on, and those of the cell above
/// moved one row of `slices + 1` vertices on; the first cell is
/// `0, s+1, 1, s+1, s+2, 1`. Together these fix every index.
pub proof fn lemma_sphere_cells_uniform(i: int, j: int, t: int, s: int)
    ensures
        sphere_corner(i + 1, j, t, s) == sphere_corner(i, j, t, s) + s + 1,
        sphere_corner(i, j + 1, t, s) == sphere_corner(i, j, t, s) + 1,
        sphere_corner(0, 0, 0, s) == 0,
        sphere_corner(0, 0, 1, s) == s + 1,
        sphere_corner(0, 0, 2, s) == 1,
        sphere_corner(0, 0, 3, s) == s + 1,
        sphere_corner(0, 0, 4, s) == s + 2,
        sphere_corner(0, 0, 5, s) == 1,
{
    assert((i + 1) * (s + 1) == i * (s + 1) + s + 1) by (nonlinear_arith);
    assert(0 * (s + 1) == 0) by (nonlinear_arith);
}

/// The two triangles of every cell share the diagonal from the cell's
/// lower-left to its upper-right vertex, and with at least one slice each
/// triangle has three different corners.
pub proof fn lemma_sphere_cell_triangles(i: int, j: int, s: int)
    requires
        s > 0,
    ensures
        sphere_corner(i, j, 1, s) == sphere_corner(i, j, 3, s),
        sphere_corner(i, j, 2, s) == sphere_corner(i, j, 5, s),
        sphere_corner(i, j, 0, s) != sphere_corner(i, j, 1, s),
        sphere_corner(i, j, 0, s) != sphere_corner(i, j, 2, s),
        sphere_corner(i, j, 1, s) != sphere_corner(i, j, 2, s),
        sphere_corner(i, j, 3, s) != sphere_corner(i, j, 4, s),
        sphere_corner(i, j, 4, s) != sphere_corner(i, j, 5, s),
        sphere_corner(i, j, 3, s) != sphere_corner(i, j, 5, s),
{
}

/// The triangle indices of a UV sphere with `stacks` rows of `slices` cells;
/// the vertices are laid out row by row, `slices + 1` to a row.
pub fn sphere_indices(stacks: u32, slices: u32) -> (m: MeshIndices)
    requires
        slices < u32::MAX,
        sphere_vertex_count(stacks as int, slices as int) <= u32::MAX + 1,
    ensures
        m.vertex_count == sphere_vertex_count(stacks as int, slices as int),
        m.indices@.len() == 6 * (stacks * slices),
        forall|i: int, j: int, t: int|
            0 <= i < stacks && 0 <= j < slices && 0 <= t < 6 ==> m.indices@[sphere_slot(i, j, t, slices as int)]
                == #[trigger] sphere_corner(i, j, t, slices as int),
        m.in_bounds(),
        m.is_triangle_list(),
{
    let cols = slices + 1;
    let ghost s = slices as int;
    let ghost vc = sphere_vertex_count(stacks as int, s);
    let mut indices: Vec<u32> = Vec::new();
    let mut i: u32 = 0;
    while i < stacks
        invariant
            i <= stacks,
            cols == slices + 1,
            s == slices,
            vc == sphere_vertex_count(stacks as int, s),
            vc <= u32::MAX + 1,
            indices@.len() == 6 * (i * s),
            forall|k: int| 0 <= k < indices@.len() ==> #[trigger] indices@[k] < vc,
            forall|i2: int, j2: int, t: int|
                0 <= i2 < i && 0 <= j2 < s && 0 <= t < 6 ==> indices@[sphere_slot(i2, j2, t, s)]
                    == #[trigger] sphere_corner(i2, j2, t, s),
        decreases stacks - i,
    {
        let mut j: u32 = 0;
        while j < slices
            invariant
                i < stacks,
                j <= slices,
                cols == slices + 1,
                s == slices,
                vc == sphere_vertex_count(stacks as int, s),
                vc <= u32::MAX + 1,
                indices@.len() == 6 * (i * s + j),
                forall|k: int| 0 <= k < indices@.len() ==> #[trigger] indices@[k] < vc,
                forall|i2: int, j2: int, t: int|
                    ((0 <= i2 < i && 0 <= j2 < s) || (i2 == i && 0 <= j2 < j)) && 0 <= t < 6
                        ==> indices@[sphere_slot(i2, j2, t, s)] == #[trigger] sphere_corner(i2, j2, t, s),
            decreases slices - j,
        {
            proof {
                lemma_sphere_cell_bounds(i as int, j as int, stacks as int, s);
            }
            let a = i * cols + j;
            let b = a + cols;
            let ghost before = indices@;
            indices.push(a);
            indices.push(b);
            indices.push(a + 1);
            indices.push(b);
            indices.push(b + 1);
            indices.push(a + 1);
            proof {
                let base = 6 * (i * s + j);
                assert(before.len() == base);
                assert forall|i2: int, j2: int, t: int|
                    ((0 <= i2 < i && 0 <= j2 < s) || (i2 == i && 0 <= j2 < j + 1)) && 0 <= t < 6
                        implies indices@[sphere_slot(i2, j2, t, s)] == #[trigger] sphere_corner(i2, j2, t, s) by {
                    if i2 == i && j2 == j {
                        assert(sphere_slot(i2, j2, t, s) == base + t);
                    } else {
                        lemma_cell_before(i2, j2, i as int, j as int, s);
                        assert(sphere_slot(i2, j2, t, s) < base);
                        assert(indices@[sphere_slot(i2, j2, t, s)] == before[sphere_slot(i2, j2, t, s)]);
                    }
                }
            }
            j = j + 1;
        }
        proof {
            lemma_next_row(i as int, s);
        }
        i = i + 1;
    }
    proof {
        assert(indices@.len() == 6 * (stacks * slices));
        assert(indices@.len() % 3 == 0);
    }
    let vertex_count = (stacks as u64 + 1) * (slices as u64 + 1);
    MeshIndices { vertex_count, indices }
}

// ---------------------------------------------------------------- cube

/// Corner `t` of the two triangles of a quad whose vertices are numbered
/// 0..4 around it: `0, 1, 2, 0, 2, 3`.
pub open spec fn quad_corner(t: int) -> int {
    if t == 0 || t == 3 {
        0
    } else if t == 1 {
        1
    } else if t == 2 || t == 4 {
        2
    } else {
        3
    }
}

/// The position, in the cube's index buffer, of corner `t` of face `f`.
pub open spec fn cube_slot(f: int, t: int) -> int {
    6 * f + t
}

/// The triangle indices of the cube: six faces of four vertices each, two
/// triangles to a face.
pub fn cube_indices() -> (m: MeshIndices)
    ensures
        m.vertex_count == 24,
        m.indices@.len() == 36,
        forall|f: int, t: int|
            0 <= f < 6 && 0 <= t < 6 ==> #[trigger] m.indices@[cube_slot(f, t)] == 4 * f + quad_corner(t),
        m.in_bounds(),
        m.is_triangle_list(),
{
    let mut indices: Vec<u32> = Vec::new();
    let mut fi: u32 = 0;
    while fi < 6
        invariant
            fi <= 6,
            indices@.len() == 6 * fi,
            forall|k: int| 0 <= k < indices@.len() ==> #[trigger] indices@[k] < 4 * fi,
            forall|f: int, t: int|
                0 <= f < fi && 0 <= t < 6 ==> #[trigger] indices@[cube_slot(f, t)] == 4 * f + quad_corner(t),
        decreases 6 - fi,
    {
        let base = 4 * fi;
        let ghost before = indices@;
        indices.push(base);
        indices.push(base + 1);
        indices.push(base + 2);
        indices.push(base);
        indices.push(base + 2);
        indices.push(base + 3);
        assert forall|f: int, t: int|
            0 <= f < fi + 1 && 0 <= t < 6 implies #[trigger] indices@[cube_slot(f, t)] == 4 * f + quad_corner(t) by {
            if f < fi {
                assert(indices@[cube_slot(f, t)] == before[cube_slot(f, t)]);
            }
        }
        fi = fi + 1;
    }
    MeshIndices { vertex_count: 24, indices }
}

// ---------------------------------------------------------------- pyramid

/// The pyramid's indices: two triangles for the square base (vertices
/// 0..4), then one triangle per side, each side with three vertices of its own.
pub open spec fn pyramid_index_seq() -> Seq<u32> {
    seq![0u32, 2, 1, 0, 3, 2] + Seq::new(12, |k: int| (4 + k) as u32)
}

pub fn pyramid_indices() -> (m: MeshIndices)
    ensures
        m.vertex_count == 16,
        m.indices@ == pyramid_index_seq(),
        m.in_bounds(),
        m.is_triangle_list(),
{
    let mut indices: Vec<u32> = Vec::new();
    let bi: u32 = 0;
    indices.push(bi);
    indices.push(bi + 2);
    indices.push(bi + 1);
    indices.push(bi);
    indices.push(bi + 3);
    indices.push(bi + 2);
    let mut si: u32 = 0;
    while si < 4
        invariant
            si <= 4,
            indices@ == seq![0u32, 2, 1, 0, 3, 2] + Seq::new((3 * si) as nat, |k: int| (4 + k) as u32),
        decreases 4 - si,
    {
        let base_idx = 4 + 3 * si;
        indices.push(base_idx);
        indices.push(base_idx + 1);
        indices.push(base_idx + 2);
        assert(indices@ =~= seq![0u32, 2, 1, 0, 3, 2] + Seq::new((3 * (si + 1)) as nat, |k: int| (4 + k) as u32));
        si = si + 1;
    }
    MeshIndices { vertex_count: 16, indices }
}

// ---------------------------------------------------------------- lines

/// Index pairs `(start + k, start + k + 1)` for `k < segs`: a closed-form
/// polyline over `segs + 1` consecutive vertices.
pub open spec fn chain(start: int, segs: int) -> Seq<u32> {
    Seq::new((2 * segs) as nat, |k: int| (start + k / 2 + k % 2) as u32)
}

/// Appends the index pairs of a polyline over vertices `start ..= start + segs`.
fn push_chain(indices: &mut Vec<u32>, start: u32, segs: u32)
    requires
        start + segs <= u32::MAX,
    ensures
        final(indices)@ == old(indices)@ + chain(start as int, segs as int),
{
    let mut i: u32 = 0;
    while i < segs
        invariant
            i <= segs,
            start + segs <= u32::MAX,
            indices@ == old(indices)@ + chain(start as int, i as int),
        decreases segs - i,
    {
        indices.push(start + i);
        indices.push(start + i + 1);
        assert(indices@ =~= old(indices)@ + chain(start as int, (i + 1) as int));
        i = i + 1;
    }
}

/// The line indices of the three coordinate axes, one segment each.
pub fn axes_indices() -> (m: MeshIndices)
    ensures
        m.vertex_count == 6,
        m.indices@ == seq![0u32, 1, 2, 3, 4, 5],
        m.in_bounds(),
        m.is_line_list(),
{
    let mut indices: Vec<u32> = Vec::new();
    indices.push(0);
    indices.push(1);
    indices.push(2);
    indices.push(3);
    indices.push(4);
    indices.push(5);
    assert(indices@ =~= seq![0u32, 1, 2, 3, 4, 5]);
    MeshIndices { vertex_count: 6, indices }
}

/// Segments around the torus's outer and inner outlines.
pub const TORUS_MAJOR_SEGMENTS: u32 = 48;

/// Segments around each cross-section ring of the torus.
pub const TORUS_MINOR_SEGMENTS: u32 = 12;

/// Cross-section rings drawn around the torus.
pub const TORUS_RING_COUNT: u32 = 12;

/// The chains of `count` rings of `stride` vertices each, the first ring
/// starting at vertex `first`, `segs` segments per ring.
pub open spec fn ring_chains(first: int, count: nat, stride: int, segs: int) -> Seq<u32>
    decreases count,
{
    if count == 0 {
        Seq::empty()
    } else {
        ring_chains(first, (count - 1) as nat, stride, segs) + chain(first + (count - 1) * stride, segs)
    }
}

/// The vertices of the torus outline: outer and inner circle of `major + 1`
/// vertices each, then `rings` cross-sections of `minor + 1` vertices each.
pub open spec fn torus_vertex_count(major: int, minor: int, rings: int) -> int {
    2 * (major + 1) + rings * (minor + 1)
}

/// The torus outline's indices: the outer circle, the inner circle, then
/// each cross-section ring, each as a chain of segments.
pub open spec fn torus_index_seq(major: int, minor: int, rings: nat) -> Seq<u32> {
    chain(0, major) + chain(major + 1, major) + ring_chains(2 * (major + 1), rings, minor + 1, minor)
}

proof fn lemma_chain_bounds(start: int, segs: int, k: int)
    requires
        0 <= start,
        0 <= segs,
        0 <= k < 2 * segs,
    ensures
        start <= start + k / 2 + k % 2 <= start + segs,
{
}

proof fn lemma_ring_step(ri: int, stride: int, rings: int)
    by (nonlinear_arith)
    requires
        0 <= ri < rings,
        0 < stride,
    ensures
        ri * stride + stride == (ri + 1) * stride,
        (ri + 1) * stride <= rings * stride,
        0 <= ri * stride,
{
}

/// The line indices of the torus outline with the given subdivisions.
pub fn torus_outline_indices(major: u32, minor: u32, rings: u32) -> (m: MeshIndices)
    requires
        torus_vertex_count(major as int, minor as int, rings as int) <= u32::MAX + 1,
    ensures
        m.vertex_count == torus_vertex_count(major as int, minor as int, rings as int),
        m.indices@ == torus_index_seq(major as int, minor as int, rings as nat),
        m.in_bounds(),
        m.is_line_list(),
{
    let ghost vc = torus_vertex_count(major as int, minor as int, rings as int);
    proof {
        lemma_ring_step(0, minor + 1, 1);
        if rings > 0 {
            lemma_ring_step((rings - 1) as int, minor + 1, rings as int);
        }
    }
    let mut indices: Vec<u32> = Vec::new();
    let ring_start: u32 = 0;
    push_chain(&mut indices, ring_start, major);
    let ring2_start = major + 1;
    push_chain(&mut indices, ring2_start, major);
    let first: u64 = 2 * (major as u64 + 1);
    let ghost head = chain(0, major as int) + chain(major + 1, major as int);
    assert(indices@ =~= head + ring_chains(first as int, 0, minor + 1, minor as int));
    assert forall|k: int| 0 <= k < indices@.len() implies #[trigger] indices@[k] < vc by {
        if k < 2 * major {
            lemma_chain_bounds(0, major as int, k);
        } else {
            lemma_chain_bounds(major + 1, major as int, k - 2 * major);
        }
    }
    let mut ring_base = first;
    let mut ri: u32 = 0;
    while ri < rings
        invariant
            ri <= rings,
            vc == torus_vertex_count(major as int, minor as int, rings as int),
            vc <= u32::MAX + 1,
            first == 2 * (major + 1),
            ring_base == first + ri * (minor + 1),
            indices@ == head + ring_chains(first as int, ri as nat, minor + 1, minor as int),
            forall|k: int| 0 <= k < indices@.len() ==> #[trigger] indices@[k] < vc,
            indices@.len() % 2 == 0,
        decreases rings - ri,
    {
        proof {
            lemma_ring_step(ri as int, minor + 1, rings as int);
        }
        let ghost before = indices@;
        push_chain(&mut indices, ring_base as u32, minor);
        assert(indices@ =~= head + ring_chains(first as int, (ri + 1) as nat, minor + 1, minor as int));
        assert forall|k: int| 0 <= k < indices@.len() implies #[trigger] indices@[k] < vc by {
            if k >= before.len() {
                lemma_chain_bounds(ring_base as int, minor as int, k - before.len());
            }
        }
        ring_base = ring_base + (minor as u64 + 1);
        ri = ri + 1;
    }
    MeshIndices { vertex_count: first + (rings as u64) * ((minor as u64) + 1), indices }
}

/// The number of lines in each direction of a grid reaching `half` units
/// from the origin.
pub open spec fn grid_line_count(half: int) -> int {
    if half >= 0 {
        2 * half + 1
    } else {
        0
    }
}

/// The line indices of the floor grid: for each `i` in `-half ..= half` two
/// segments of two vertices each, numbered in order.
pub fn grid_indices(half: i32) -> (m: MeshIndices)
    requires
        half > i32::MIN,
        4 * grid_line_count(half as int) <= u32::MAX,
    ensures
        m.vertex_count == 4 * grid_line_count(half as int),
        m.indices@ == Seq::new((4 * grid_line_count(half as int)) as nat, |k: int| k as u32),
        m.in_bounds(),
        m.is_line_list(),
{
    let mut indices: Vec<u32> = Vec::new();
    let mut base: u32 = 0;
    let mut i: i32 = -half;
    while i <= half
        invariant
            half > i32::MIN,
            4 * grid_line_count(half as int) <= u32::MAX,
            half < 0 ==> i == -half,
            half >= 0 ==> -half <= i <= half + 1,
            base == 4 * (i + half),
            indices@ == Seq::new(base as nat, |k: int| k as u32),
        decreases half + 1 - i,
    {
        indices.push(base);
        indices.push(base + 1);
        indices.push(base + 2);
        indices.push(base + 3);
        assert(indices@ =~= Seq::new((base + 4) as nat, |k: int| k as u32));
        base = base + 4;
        i = i + 1;
    }
    proof {
        if half < 0 {
            assert(base == 0);
        }
    }
    MeshIndices { vertex_count: base as u64, indices }
}

/// How many vertices the normal overlay takes from a mesh of `n` vertices:
/// every other one, starting with the first.
pub open spec fn picked_count(n: int) -> int {
    (n + 1) / 2
}

/// Every other element of `v`, starting with the first.
pub fn every_other<T: Copy>(v: &Vec<T>) -> (r: Vec<T>)
    ensures
        r@.len() == picked_count(v@.len() as int),
        forall|i: int| 0 <= i < r@.len() ==> #[trigger] r@[i] == v@[2 * i],
{
    let n = v.len();
    let count = n / 2 + n % 2;
    let mut r: Vec<T> = Vec::new();
    let mut k: usize = 0;
    while k < count
        invariant
            n == v@.len(),
            count == picked_count(n as int),
            k <= count,
            r@.len() == k,
            forall|j: int| 0 <= j < k ==> #[trigger] r@[j] == v@[2 * j],
        decreases count - k,
    {
        r.push(v[2 * k]);
        k = k + 1;
    }
    r
}

/// The line indices of the normal overlay for a mesh of `source_vertices`
/// vertices: one segment, from the vertex to the tip of its normal, for
/// every other source vertex.
pub fn normal_line_indices(source_vertices: usize) -> (m: MeshIndices)
    requires
        2 * picked_count(source_vertices as int) <= u32::MAX,
    ensures
        m.vertex_count == 2 * picked_count(source_vertices as int),
        m.indices@ == Seq::new(m.vertex_count as nat, |k: int| k as u32),
        m.in_bounds(),
        m.is_line_list(),
{
    let count = source_vertices / 2 + source_vertices % 2;
    let mut indices: Vec<u32> = Vec::new();
    let mut base: u32 = 0;
    let mut n: usize = 0;
    while n < count
        invariant
            count == picked_count(source_vertices as int),
            2 * count <= u32::MAX,
            n <= count,
            base == 2 * n,
            indices@ == Seq::new(base as nat, |k: int| k as u32),
        decreases count - n,
    {
        indices.push(base);
        indices.push(base + 1);
        assert(indices@ =~= Seq::new((base + 2) as nat, |k: int| k as u32));
        base = base + 2;
        n = n + 1;
    }
    MeshIndices { vertex_count: base as u64, indices }
}

} // verus!
