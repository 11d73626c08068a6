//! How a flat buffer of 32-bit floats maps to the inputs of a vertex stage.
//!
//! A vertex is a run of floats. It is cut into attributes, one after the
//! other and without gaps; the attribute at place `i` feeds the input slot `i`.
//! Each attribute is described to the driver by its slot, its number of
//! components, the stride from one vertex to the next and its own offset in
//! the vertex, the last two in bytes.

use vstd::prelude::*;

verus! {

/// The size of one component, a 32-bit float, in bytes.
pub const FLOAT_BYTES: u32 = 4;

/// The largest number of components that one attribute can have.
pub const MAX_COMPONENTS: u32 = 4;

/// The largest number of floats that one vertex can have: with more, the
/// stride in bytes would not fit the driver's signed 32-bit size.
pub const MAX_VERTEX_FLOATS: u32 = 0x1fff_ffff;

/// The description of one attribute.
#[derive(Clone, Copy, Debug, PartialEq, Eq, Structural)]
pub struct Attribute {
    /// The input slot of the vertex stage that the attribute feeds.
    pub slot: u32,
    /// The number of floats of the attribute, from 1 to [`MAX_COMPONENTS`].
    pub components: u32,
    /// The distance in bytes from one vertex to the next.
    pub stride: u32,
    /// The distance in bytes from the start of a vertex to the attribute.
    pub offset: u32,
}

/// Why a list of component counts gives no layout.
#[derive(Clone, Copy, Debug, PartialEq, Eq, Structural)]
pub enum LayoutError {
    /// There is no attribute.
    Empty,
    /// The attribute at this place has no component, or more than
    /// [`MAX_COMPONENTS`]. It is the first such attribute.
    BadComponentCount { slot: usize },
    /// A vertex would have more than [`MAX_VERTEX_FLOATS`] floats.
    TooLarge,
}

/// The sum of the component counts: the number of floats of one vertex.
pub open spec fn total(counts: Seq<u32>) -> int
    decreases counts.len(),
{
    if counts.len() == 0 {
        0
    } else {
        total(counts.drop_last()) + counts.last()
    }
}

/// Whether an attribute can have this many components.
pub open spec fn component_count_ok(count: u32) -> bool {
    1 <= count <= MAX_COMPONENTS
}

/// Whether `slot` is the first place at which `counts` holds a count that no
/// attribute can have.
pub open spec fn first_bad_count(counts: Seq<u32>, slot: int) -> bool {
    &&& 0 <= slot < counts.len()
    &&& !component_count_ok(counts[slot])
    &&& forall|i: int| 0 <= i < slot ==> component_count_ok(#[trigger] counts[i])
}

/// Whether a list of component counts gives a layout.
pub open spec fn counts_ok(counts: Seq<u32>) -> bool {
    &&& counts.len() > 0
    &&& forall|i: int| 0 <= i < counts.len() ==> component_count_ok(#[trigger] counts[i])
    &&& total(counts) <= MAX_VERTEX_FLOATS
}

/// The attribute at place `i` of the layout that `counts` gives.
pub open spec fn packed_attribute(counts: Seq<u32>, i: int) -> Attribute {
    Attribute {
        slot: i as u32,
        components: counts[i],
        stride: (FLOAT_BYTES * total(counts)) as u32,
        offset: (FLOAT_BYTES * total(counts.take(i))) as u32,
    }
}

/// The layout that `counts` gives: one attribute for each count, in their
/// order, each starting where the one before it ends.
pub open spec fn packed_layout(counts: Seq<u32>) -> Seq<Attribute> {
    Seq::new(counts.len(), |i: int| packed_attribute(counts, i))
}

/// The component counts of a list of attributes.
pub open spec fn component_counts(attributes: Seq<Attribute>) -> Seq<u32> {
    Seq::new(attributes.len(), |i: int| attributes[i].components)
}

/// Whether a list of attributes is a layout: the one that its own component
/// counts give.
pub open spec fn well_formed(attributes: Seq<Attribute>) -> bool {
    &&& counts_ok(component_counts(attributes))
    &&& attributes == packed_layout(component_counts(attributes))
}

/// The number of floats of one vertex in a layout.
pub open spec fn vertex_floats(attributes: Seq<Attribute>) -> int {
    total(component_counts(attributes))
}

/// The number of bytes of one vertex in a layout.
pub open spec fn vertex_bytes(attributes: Seq<Attribute>) -> int {
    FLOAT_BYTES * vertex_floats(attributes)
}

/// The sum of the first counts is no more than the sum of all.
pub proof fn lemma_total_take(counts: Seq<u32>, i: int)
    requires
        0 <= i <= counts.len(),
    ensures
        0 <= total(counts.take(i)) <= total(counts),
        i < counts.len() ==> total(counts.take(i + 1)) == total(counts.take(i)) + counts[i],
    decreases counts.len() - i,
{
    if i < counts.len() {
        assert(counts.take(i + 1).drop_last() =~= counts.take(i));
        assert(counts.take(i + 1).last() == counts[i]);
        lemma_total_take(counts, i + 1);
    } else {
        assert(counts.take(i) =~= counts);
    }
    lemma_total_nonnegative(counts.take(i));
}

/// A sum of counts is not negative.
pub proof fn lemma_total_nonnegative(counts: Seq<u32>)
    ensures
        0 <= total(counts),
    decreases counts.len(),
{
    if counts.len() > 0 {
        lemma_total_nonnegative(counts.drop_last());
    }
}

/// Where every count is at least 1, the sum of the first `i` is at least `i`.
pub proof fn lemma_total_counts_places(counts: Seq<u32>, i: int)
    requires
        0 <= i <= counts.len(),
        forall|j: int| 0 <= j < counts.len() ==> component_count_ok(#[trigger] counts[j]),
    ensures
        i <= total(counts.take(i)) <= MAX_COMPONENTS * i,
    decreases i,
{
    if i > 0 {
        lemma_total_counts_places(counts, i - 1);
        lemma_total_take(counts, i - 1);
        assert(component_count_ok(counts[i - 1]));
    } else {
        assert(counts.take(0) =~= Seq::<u32>::empty());
    }
}

/// A layout of interleaved float attributes.
#[derive(Debug)]
pub struct VertexLayout {
    attributes: Vec<Attribute>,
    floats: u32,
}

impl View for VertexLayout {
    type V = Seq<Attribute>;

    closed spec fn view(&self) -> Seq<Attribute> {
        self.attributes@
    }
}

impl VertexLayout {
    #[verifier::type_invariant]
    spec fn valid(self) -> bool {
        well_formed(self.attributes@) && self.floats == vertex_floats(self.attributes@)
    }

    /// The layout of a vertex whose attributes have these numbers of
    /// components.
    pub fn packed(counts: &[u32]) -> (made: Result<VertexLayout, LayoutError>)
        ensures
            match made {
                Ok(layout) => counts_ok(counts@) && layout@ == packed_layout(counts@)
                    && well_formed(layout@),
                Err(LayoutError::Empty) => counts@.len() == 0,
                Err(LayoutError::BadComponentCount { slot }) => first_bad_count(
                    counts@,
                    slot as int,
                ),
                Err(LayoutError::TooLarge) => counts@.len() > 0 && (forall|i: int|
                    0 <= i < counts@.len() ==> component_count_ok(#[trigger] counts@[i]))
                    && total(counts@) > MAX_VERTEX_FLOATS,
            },
    {
        let n = counts.len();
        if n == 0 {
            return Err(LayoutError::Empty);
        }
        let mut i: usize = 0;
        while i < n
            invariant
                n == counts@.len(),
                i <= n,
                forall|j: int| 0 <= j < i ==> component_count_ok(#[trigger] counts@[j]),
            decreases n - i,
        {
            if counts[i] < 1 || counts[i] > MAX_COMPONENTS {
                return Err(LayoutError::BadComponentCount { slot: i });
            }
            i = i + 1;
        }
        let mut floats: u32 = 0;
        i = 0;
        while i < n
            invariant
                n == counts@.len(),
                i <= n,
                forall|j: int| 0 <= j < n ==> component_count_ok(#[trigger] counts@[j]),
                floats == total(counts@.take(i as int)),
                floats <= MAX_VERTEX_FLOATS,
            decreases n - i,
        {
            proof {
                lemma_total_take(counts@, i as int);
                lemma_total_take(counts@, i + 1);
                assert(component_count_ok(counts@[i as int]));
            }
            floats = floats + counts[i];
            if floats > MAX_VERTEX_FLOATS {
                return Err(LayoutError::TooLarge);
            }
            i = i + 1;
        }
        proof {
            assert(counts@.take(n as int) =~= counts@);
        }
        let stride: u32 = FLOAT_BYTES * floats;
        let mut attributes: Vec<Attribute> = Vec::new();
        let mut before: u32 = 0;
        i = 0;
        while i < n
            invariant
                n == counts@.len(),
                i <= n,
                counts_ok(counts@),
                floats == total(counts@),
                stride == FLOAT_BYTES * floats,
                before == total(counts@.take(i as int)),
                attributes@ == packed_layout(counts@).take(i as int),
            decreases n - i,
        {
            proof {
                lemma_total_take(counts@, i as int);
                lemma_total_take(counts@, i + 1);
                lemma_total_counts_places(counts@, i as int);
            }
            attributes.push(
                Attribute {
                    slot: i as u32,
                    components: counts[i],
                    stride,
                    offset: FLOAT_BYTES * before,
                },
            );
            before = before + counts[i];
            assert(attributes@ =~= packed_layout(counts@).take(i + 1));
            i = i + 1;
        }
        proof {
            assert(packed_layout(counts@).take(n as int) =~= packed_layout(counts@));
            assert(component_counts(attributes@) =~= counts@);
        }
        Ok(VertexLayout { attributes, floats })
    }

    /// The attributes, in the order of their slots.
    pub fn attributes(&self) -> (attributes: &[Attribute])
        ensures
            attributes@ == self@,
            well_formed(self@),
    {
        proof {
            use_type_invariant(self);
        }
        self.attributes.as_slice()
    }

    /// The number of floats of one vertex.
    pub fn floats_per_vertex(&self) -> (floats: u32)
        ensures
            floats == vertex_floats(self@),
            1 <= floats <= MAX_VERTEX_FLOATS,
            well_formed(self@),
    {
        proof {
            use_type_invariant(self);
            let counts = component_counts(self@);
            lemma_total_counts_places(counts, counts.len() as int);
            assert(counts.take(counts.len() as int) =~= counts);
        }
        self.floats
    }

    /// The number of bytes of one vertex: the stride of every attribute.
    pub fn stride(&self) -> (stride: u32)
        ensures
            stride == vertex_bytes(self@),
            FLOAT_BYTES <= stride <= i32::MAX,
            forall|i: int| 0 <= i < self@.len() ==> (#[trigger] self@[i]).stride == stride,
            well_formed(self@),
    {
        let floats = self.floats_per_vertex();
        proof {
            use_type_invariant(self);
        }
        FLOAT_BYTES * floats
    }

    /// The size in bytes of a buffer of `vertices` vertices: `vertices` times
    /// the stride. There is none where that is more than the driver's signed
    /// pointer-sized size can state.
    pub fn buffer_bytes(&self, vertices: usize) -> (bytes: Option<usize>)
        ensures
            match bytes {
                Some(size) => size == vertices * vertex_bytes(self@) && size <= isize::MAX,
                None => vertices * vertex_bytes(self@) > isize::MAX,
            },
    {
        let stride = self.stride() as usize;
        match vertices.checked_mul(stride) {
            Some(size) => {
                if size <= isize::MAX as usize {
                    Some(size)
                } else {
                    None
                }
            },
            None => None,
        }
    }
}

} // verus!
