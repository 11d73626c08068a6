//! A mesh: the vertices of a shape, and optionally the indices that pick them.
//!
//! The vertices are a flat run of 32-bit words, each the bit pattern of one
//! float, read by a [`VertexLayout`]. A mesh is checked once, when it is made,
//! and is not changed afterwards: what it says of its sizes and of its draw
//! call holds for the buffers that are uploaded from it.

use crate::layout::vertex_bytes;
use crate::layout::vertex_floats;
use crate::layout::well_formed;
use crate::layout::Attribute;
use crate::layout::VertexLayout;
use crate::layout::FLOAT_BYTES;
use vstd::prelude::*;

verus! {

/// The size of one index, an unsigned 32-bit integer, in bytes.
pub const INDEX_BYTES: usize = 4;

/// The number of vertices of one triangle.
pub const TRIANGLE_VERTICES: u32 = 3;

/// The one draw call that draws a mesh as triangles.
#[derive(Clone, Copy, Debug, PartialEq, Eq, Structural)]
pub enum DrawCall {
    /// Draw the first `count` vertices of the vertex buffer, in their order.
    Arrays { count: u32 },
    /// Draw the vertices that the first `count` indices of the index buffer
    /// name, in the order of the indices.
    Elements { count: u32 },
}

/// Why a mesh cannot be made.
#[derive(Clone, Copy, Debug, PartialEq, Eq, Structural)]
pub enum MeshError {
    /// The words do not make up whole vertices.
    PartialVertex,
    /// There are more vertices, indices or bytes than the driver can count.
    TooLarge,
    /// The index at this place names no vertex. It is the first such index.
    IndexOutOfRange { position: usize },
}

/// The mathematical value of a [`Mesh`].
pub struct MeshView {
    pub layout: Seq<Attribute>,
    pub words: Seq<u32>,
    pub indices: Option<Seq<u32>>,
}

/// The number of whole vertices in the words of a mesh.
pub open spec fn vertex_count(mesh: MeshView) -> int {
    mesh.words.len() as int / vertex_floats(mesh.layout)
}

/// Whether the words of a mesh make up whole vertices.
pub open spec fn whole_vertices(mesh: MeshView) -> bool {
    mesh.words.len() as int % vertex_floats(mesh.layout) == 0
}

/// Whether the driver can count the vertices, the indices and the bytes of
/// both buffers: counts are signed 32-bit, sizes signed and pointer-sized.
pub open spec fn countable(mesh: MeshView) -> bool {
    &&& vertex_count(mesh) <= i32::MAX
    &&& vertex_count(mesh) * vertex_bytes(mesh.layout) <= isize::MAX
    &&& mesh.indices matches Some(indices) ==> indices.len() <= i32::MAX && indices.len()
        * INDEX_BYTES <= isize::MAX
}

/// Whether the index at `position` is the first that names no vertex.
pub open spec fn first_bad_index(mesh: MeshView, position: int) -> bool {
    &&& mesh.indices matches Some(indices)
    &&& 0 <= position < indices.len()
    &&& indices[position] >= vertex_count(mesh)
    &&& forall|k: int| 0 <= k < position ==> (#[trigger] indices[k]) < vertex_count(mesh)
}

/// Whether every index names a vertex.
pub open spec fn indices_in_range(mesh: MeshView) -> bool {
    mesh.indices matches Some(indices) ==> forall|k: int|
        0 <= k < indices.len() ==> (#[trigger] indices[k]) < vertex_count(mesh)
}

/// Whether words and indices make up a mesh under a layout.
pub open spec fn mesh_ok(mesh: MeshView) -> bool {
    &&& well_formed(mesh.layout)
    &&& whole_vertices(mesh)
    &&& countable(mesh)
    &&& indices_in_range(mesh)
}

/// The size in bytes of the vertex buffer of a mesh: the number of its
/// vertices times the stride of its layout.
pub open spec fn vertex_buffer_bytes(mesh: MeshView) -> int {
    vertex_count(mesh) * vertex_bytes(mesh.layout)
}

/// The size in bytes of the index buffer of a mesh; 0 where it has none.
pub open spec fn index_buffer_bytes(mesh: MeshView) -> int {
    match mesh.indices {
        Some(indices) => indices.len() * INDEX_BYTES,
        None => 0,
    }
}

/// The draw call of a mesh: by its indices where it has any, all of them,
/// and else by its vertices, all of them.
pub open spec fn draw_call_of(mesh: MeshView) -> DrawCall {
    match mesh.indices {
        Some(indices) => DrawCall::Elements { count: indices.len() as u32 },
        None => DrawCall::Arrays { count: vertex_count(mesh) as u32 },
    }
}

/// The number of vertices that a draw call refers to.
pub open spec fn references(call: DrawCall) -> int {
    match call {
        DrawCall::Arrays { count } => count as int,
        DrawCall::Elements { count } => count as int,
    }
}

/// The vertex that the reference at place `k` of the draw call of a mesh
/// names.
pub open spec fn referenced_vertex(mesh: MeshView, k: int) -> int {
    match mesh.indices {
        Some(indices) => indices[k] as int,
        None => k,
    }
}

/// The number of whole triangles that the draw call of a mesh draws. The
/// references that are left over when the last triangle is full draw
/// nothing.
pub open spec fn triangle_count_of(mesh: MeshView) -> int {
    references(draw_call_of(mesh)) / TRIANGLE_VERTICES as int
}

/// The three vertices of the triangle at place `k` of a mesh.
pub open spec fn triangle_of(mesh: MeshView, k: int) -> Seq<u32> {
    seq![
        referenced_vertex(mesh, TRIANGLE_VERTICES * k) as u32,
        referenced_vertex(mesh, TRIANGLE_VERTICES * k + 1) as u32,
        referenced_vertex(mesh, TRIANGLE_VERTICES * k + 2) as u32,
    ]
}

/// The place, among the words of a mesh, of the first word of an attribute
/// of a vertex.
pub open spec fn attribute_start(mesh: MeshView, vertex: int, slot: int) -> int {
    vertex * vertex_floats(mesh.layout) + mesh.layout[slot].offset as int / FLOAT_BYTES as int
}

/// The words of one attribute of one vertex of a mesh.
pub open spec fn attribute_words(mesh: MeshView, vertex: int, slot: int) -> Seq<u32> {
    mesh.words.subrange(
        attribute_start(mesh, vertex, slot),
        attribute_start(mesh, vertex, slot) + mesh.layout[slot].components,
    )
}

/// A mesh.
#[derive(Debug)]
pub struct Mesh {
    layout: VertexLayout,
    words: Vec<u32>,
    indices: Option<Vec<u32>>,
    count: u32,
}

/// The view of a list of indices that may be absent.
pub open spec fn indices_view(indices: Option<Vec<u32>>) -> Option<Seq<u32>> {
    match indices {
        Some(list) => Some(list@),
        None => None,
    }
}

impl View for Mesh {
    type V = MeshView;

    closed spec fn view(&self) -> MeshView {
        MeshView {
            layout: self.layout@,
            words: self.words@,
            indices: indices_view(self.indices),
        }
    }
}

impl Mesh {
    #[verifier::type_invariant]
    spec fn valid(self) -> bool {
        mesh_ok(self@) && self.count == vertex_count(self@)
    }

    /// Makes a mesh of the words of its vertices and, where it is drawn by
    /// indices, of its indices.
    #[verifier::loop_isolation(false)]
    pub fn new(layout: VertexLayout, words: Vec<u32>, indices: Option<Vec<u32>>) -> (made: Result<
        Mesh,
        MeshError,
    >)
        ensures
            well_formed(layout@),
            ({
                let given = MeshView {
                    layout: layout@,
                    words: words@,
                    indices: indices_view(indices),
                };
                match made {
                    Ok(mesh) => mesh@ == given && mesh_ok(given),
                    Err(MeshError::PartialVertex) => !whole_vertices(given),
                    Err(MeshError::TooLarge) => whole_vertices(given) && !countable(given),
                    Err(MeshError::IndexOutOfRange { position }) => whole_vertices(given)
                        && countable(given) && first_bad_index(given, position as int),
                }
            }),
    {
        let ghost given = MeshView {
            layout: layout@,
            words: words@,
            indices: indices_view(indices),
        };
        let floats = layout.floats_per_vertex() as usize;
        let stride = layout.stride();
        let n = words.len();
        if n % floats != 0 {
            return Err(MeshError::PartialVertex);
        }
        let count = n / floats;
        if count > i32::MAX as usize {
            return Err(MeshError::TooLarge);
        }
        if layout.buffer_bytes(count).is_none() {
            return Err(MeshError::TooLarge);
        }
        match &indices {
            Some(list) => {
                let m = list.len();
                if m > i32::MAX as usize {
                    return Err(MeshError::TooLarge);
                }
                if m > isize::MAX as usize / INDEX_BYTES {
                    return Err(MeshError::TooLarge);
                }
                let mut k: usize = 0;
                while k < m
                    invariant
                        m == list@.len(),
                        k <= m,
                        countable(given),
                        forall|j: int| 0 <= j < k ==> (#[trigger] list@[j]) < count,
                    decreases m - k,
                {
                    if list[k] as usize >= count {
                        return Err(MeshError::IndexOutOfRange { position: k });
                    }
                    k = k + 1;
                }
            },
            None => {},
        }
        Ok(Mesh { layout, words, indices, count: count as u32 })
    }

    /// The layout by which the words are read.
    pub fn layout(&self) -> (layout: &VertexLayout)
        ensures
            layout@ == self@.layout,
            mesh_ok(self@),
    {
        proof {
            use_type_invariant(self);
        }
        &self.layout
    }

    /// The words of the vertex buffer.
    pub fn words(&self) -> (words: &[u32])
        ensures
            words@ == self@.words,
    {
        self.words.as_slice()
    }

    /// The indices of the index buffer, where the mesh is drawn by indices.
    pub fn indices(&self) -> (indices: Option<&[u32]>)
        ensures
            match indices {
                Some(list) => self@.indices == Some(list@),
                None => self@.indices is None,
            },
    {
        match &self.indices {
            Some(list) => Some(list.as_slice()),
            None => None,
        }
    }

    /// The number of vertices.
    pub fn vertex_count(&self) -> (count: u32)
        ensures
            count == vertex_count(self@),
            count * vertex_floats(self@.layout) == self@.words.len(),
            count <= i32::MAX,
    {
        proof {
            use_type_invariant(self);
            lemma_whole_vertices(self@);
        }
        self.count
    }

    /// The size in bytes of the vertex buffer: the number of vertices times
    /// the stride of the layout, which is every word of the mesh.
    pub fn vertex_bytes(&self) -> (bytes: usize)
        ensures
            bytes == vertex_buffer_bytes(self@),
            bytes == vertex_count(self@) * vertex_bytes(self@.layout),
            bytes == FLOAT_BYTES * self@.words.len(),
            bytes <= isize::MAX,
    {
        proof {
            use_type_invariant(self);
            lemma_whole_vertices(self@);
        }
        let stride = self.layout.stride() as usize;
        self.count as usize * stride
    }

    /// The size in bytes of the index buffer; 0 where the mesh has none.
    pub fn index_bytes(&self) -> (bytes: usize)
        ensures
            bytes == index_buffer_bytes(self@),
            bytes <= isize::MAX,
    {
        proof {
            use_type_invariant(self);
        }
        match &self.indices {
            Some(list) => list.len() * INDEX_BYTES,
            None => 0,
        }
    }

    /// The one draw call that draws the mesh.
    pub fn draw_call(&self) -> (call: DrawCall)
        ensures
            call == draw_call_of(self@),
            references(call) <= i32::MAX,
            match call {
                DrawCall::Arrays { count } => self@.indices is None && count == vertex_count(
                    self@,
                ),
                DrawCall::Elements { count } => self@.indices matches Some(indices) && count
                    == indices.len(),
            },
    {
        proof {
            use_type_invariant(self);
        }
        match &self.indices {
            Some(list) => DrawCall::Elements { count: list.len() as u32 },
            None => DrawCall::Arrays { count: self.count },
        }
    }
}

impl Mesh {
    /// The number of whole triangles that the draw call draws.
    pub fn triangle_count(&self) -> (count: u32)
        ensures
            count == triangle_count_of(self@),
    {
        match self.draw_call() {
            DrawCall::Arrays { count } => count / TRIANGLE_VERTICES,
            DrawCall::Elements { count } => count / TRIANGLE_VERTICES,
        }
    }

    /// The three vertices of the triangle at place `k`, or `None` where the
    /// draw call draws no more than `k` whole triangles.
    pub fn triangle(&self, k: u32) -> (corners: Option<[u32; 3]>)
        ensures
            match corners {
                Some(vertices) => k < triangle_count_of(self@) && vertices@ == triangle_of(
                    self@,
                    k as int,
                ) && forall|c: int| 0 <= c < 3 ==> (#[trigger] vertices@[c]) < vertex_count(self@),
                None => k >= triangle_count_of(self@),
            },
    {
        proof {
            use_type_invariant(self);
        }
        if k >= self.triangle_count() {
            return None;
        }
        let at: u32 = TRIANGLE_VERTICES * k;
        let corners: [u32; 3] = match &self.indices {
            Some(list) => [list[at as usize], list[at as usize + 1], list[at as usize + 2]],
            None => [at, at + 1, at + 2],
        };
        assert(corners@ =~= triangle_of(self@, k as int));
        Some(corners)
    }

    /// The words of one attribute of one vertex, or `None` where the mesh has
    /// no such vertex or the layout no such attribute.
    pub fn attribute(&self, vertex: u32, slot: usize) -> (found: Option<Vec<u32>>)
        ensures
            match found {
                Some(words) => vertex < vertex_count(self@) && slot < self@.layout.len()
                    && words@ == attribute_words(self@, vertex as int, slot as int),
                None => vertex >= vertex_count(self@) || slot >= self@.layout.len(),
            },
    {
        proof {
            use_type_invariant(self);
            lemma_whole_vertices(self@);
        }
        let attributes = self.layout.attributes();
        if vertex >= self.count || slot >= attributes.len() {
            return None;
        }
        let floats = self.layout.floats_per_vertex() as usize;
        let attribute = attributes[slot];
        proof {
            lemma_attribute_in_vertex(self@.layout, slot as int);
            lemma_attribute_in_words(self@, vertex as int, slot as int);
        }
        let start: usize = vertex as usize * floats + (attribute.offset / FLOAT_BYTES) as usize;
        let mut words: Vec<u32> = Vec::new();
        let mut c: usize = 0;
        while c < attribute.components as usize
            invariant
                c <= attribute.components,
                start + attribute.components <= self.words@.len() <= usize::MAX,
                words@ == self.words@.subrange(start as int, start + c),
            decreases attribute.components - c,
        {
            words.push(self.words[start + c]);
            assert(words@ =~= self.words@.subrange(start as int, start + c + 1));
            c = c + 1;
        }
        Some(words)
    }
}

/// Where the words of a mesh make up whole vertices, they are as many as the
/// vertices times the floats of one, and four bytes each.
pub proof fn lemma_whole_vertices(mesh: MeshView)
    requires
        well_formed(mesh.layout),
        whole_vertices(mesh),
    ensures
        vertex_floats(mesh.layout) >= 1,
        vertex_count(mesh) >= 0,
        vertex_count(mesh) * vertex_floats(mesh.layout) == mesh.words.len(),
        vertex_count(mesh) * vertex_bytes(mesh.layout) == FLOAT_BYTES * mesh.words.len(),
{
    let floats = vertex_floats(mesh.layout);
    let counts = crate::layout::component_counts(mesh.layout);
    crate::layout::lemma_total_counts_places(counts, counts.len() as int);
    assert(counts.take(counts.len() as int) =~= counts);
    let n = mesh.words.len() as int;
    assert(n == floats * (n / floats) + n % floats) by (nonlinear_arith)
        requires
            floats >= 1,
    ;
    assert(n / floats >= 0) by (nonlinear_arith)
        requires
            floats >= 1,
            n >= 0,
    ;
    let count = vertex_count(mesh);
    assert(count * (FLOAT_BYTES * floats) == FLOAT_BYTES * (count * floats)) by (nonlinear_arith);
    assert(count * floats == floats * count) by (nonlinear_arith);
}

/// An attribute of a layout lies inside the vertex: it starts at a whole
/// float and ends no later than the vertex does.
pub proof fn lemma_attribute_in_vertex(layout: Seq<Attribute>, slot: int)
    requires
        well_formed(layout),
        0 <= slot < layout.len(),
    ensures
        layout[slot].offset as int % FLOAT_BYTES as int == 0,
        0 <= layout[slot].offset as int / FLOAT_BYTES as int,
        layout[slot].offset as int / FLOAT_BYTES as int + layout[slot].components
            <= vertex_floats(layout),
        1 <= layout[slot].components,
{
    let counts = crate::layout::component_counts(layout);
    crate::layout::lemma_total_take(counts, slot);
    crate::layout::lemma_total_take(counts, slot + 1);
    assert(layout[slot] == crate::layout::packed_attribute(counts, slot));
    assert(crate::layout::component_count_ok(counts[slot]));
    let before = crate::layout::total(counts.take(slot));
    assert(layout[slot].offset == FLOAT_BYTES * before);
    assert((4 * before) / 4 == before && (4 * before) % 4 == 0) by (nonlinear_arith);
}

/// An attribute of a vertex of a mesh lies inside the words of the mesh.
pub proof fn lemma_attribute_in_words(mesh: MeshView, vertex: int, slot: int)
    requires
        mesh_ok(mesh),
        0 <= vertex < vertex_count(mesh),
        0 <= slot < mesh.layout.len(),
    ensures
        0 <= attribute_start(mesh, vertex, slot),
        attribute_start(mesh, vertex, slot) + mesh.layout[slot].components <= mesh.words.len(),
        vertex * vertex_floats(mesh.layout) <= attribute_start(mesh, vertex, slot),
        attribute_start(mesh, vertex, slot) + mesh.layout[slot].components <= (vertex + 1)
            * vertex_floats(mesh.layout),
{
    lemma_whole_vertices(mesh);
    lemma_attribute_in_vertex(mesh.layout, slot);
    let floats = vertex_floats(mesh.layout);
    let count = vertex_count(mesh);
    assert(0 <= vertex * floats && (vertex + 1) * floats == vertex * floats + floats && (vertex
        + 1) * floats <= count * floats) by (nonlinear_arith)
        requires
            0 <= vertex < count,
            floats >= 1,
    ;
}

} // verus!
