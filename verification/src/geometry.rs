//! The screen-filling quad the scene is drawn on: its triangulation, the
//! sign pattern of its corners, the layout of its vertex buffer, and the
//! viewport rectangle that frames it.
use vstd::prelude::*;

verus! {

/// Number of corners of the screen-filling quad.
pub const QUAD_VERTEX_COUNT: usize = 4;

/// The quad's triangulation: two triangles over its four corners, in the
/// order the element buffer holds the indices.
pub open spec fn quad_indices_spec() -> Seq<u16> {
    seq![0u16, 1u16, 2u16, 0u16, 2u16, 3u16]
}

/// Index data for the quad's two triangles.
pub fn quad_indices() -> (v: Vec<u16>)
    ensures
        v@ == quad_indices_spec(),
{
    let mut v: Vec<u16> = Vec::new();
    v.push(0);
    v.push(1);
    v.push(2);
    v.push(0);
    v.push(2);
    v.push(3);
    proof {
        assert(v@ =~= quad_indices_spec());
    }
    v
}

/// Signs of the quad's corners around a centred rectangle, in buffer order:
/// bottom-left, bottom-right, top-right, top-left. Scaling each pair by the
/// rectangle's half-extents gives the quad's vertex positions.
pub open spec fn quad_corner_signs_spec() -> Seq<(i32, i32)> {
    seq![(-1i32, -1i32), (1i32, -1i32), (1i32, 1i32), (-1i32, 1i32)]
}

/// The corner sign pattern of the quad, one pair per vertex.
pub fn quad_corner_signs() -> (v: Vec<(i32, i32)>)
    ensures
        v@ == quad_corner_signs_spec(),
{
    let mut v: Vec<(i32, i32)> = Vec::new();
    v.push((-1, -1));
    v.push((1, -1));
    v.push((1, 1));
    v.push((-1, 1));
    proof {
        assert(v@ =~= quad_corner_signs_spec());
    }
    v
}

/// Some triangle of the quad's triangulation touches corner `c`.
pub open spec fn corner_is_used(c: int) -> bool {
    exists|i: int| 0 <= i < quad_indices_spec().len() && #[trigger] quad_indices_spec()[i] == c
}

/// The quad's triangulation is well formed: six indices, each naming one of
/// the four corners, and every corner is used by some triangle.
pub proof fn lemma_quad_triangulation_valid()
    ensures
        quad_indices_spec().len() == 6,
        forall|i: int|
            0 <= i < quad_indices_spec().len() ==> quad_indices_spec()[i] < QUAD_VERTEX_COUNT,
        forall|c: int| 0 <= c < QUAD_VERTEX_COUNT ==> #[trigger] corner_is_used(c),
{
    assert forall|c: int| 0 <= c < QUAD_VERTEX_COUNT implies #[trigger] corner_is_used(c) by {
        if c == 0 {
            assert(quad_indices_spec()[0] == c);
        } else if c == 1 {
            assert(quad_indices_spec()[1] == c);
        } else if c == 2 {
            assert(quad_indices_spec()[2] == c);
        } else {
            assert(quad_indices_spec()[5] == c);
        }
    }
}

/// How a vertex buffer is laid out for the position attribute: a number of
/// 32-bit float components per vertex, read from a byte offset, one vertex
/// every `stride_bytes`.
pub struct VertexLayout {
    /// Components read per vertex.
    pub components: i32,
    /// Bytes from the start of one vertex to the start of the next.
    pub stride_bytes: i32,
    /// Bytes before the first component.
    pub offset_bytes: i32,
}

impl VertexLayout {
    /// A layout is tightly packed when the stride covers exactly its
    /// components, four bytes each, starting at the buffer's front.
    pub open spec fn tightly_packed(self) -> bool {
        &&& self.components > 0
        &&& self.stride_bytes == self.components * 4
        &&& self.offset_bytes == 0
    }
}

/// Layout of the quad's vertex buffer: two position components per vertex
/// and nothing else between them.
pub fn quad_vertex_layout() -> (l: VertexLayout)
    ensures
        l.tightly_packed(),
        l.components == 2,
{
    VertexLayout { components: 2, stride_bytes: 8, offset_bytes: 0 }
}

/// The viewport rectangle covering a whole canvas, anchored at the origin,
/// or `None` when a canvas dimension does not fit the context's signed
/// argument type.
pub fn viewport_rect(width: u32, height: u32) -> (r: Option<(i32, i32, i32, i32)>)
    ensures
        r is Some <==> width <= i32::MAX && height <= i32::MAX,
        r is Some ==> r->0 == (0i32, 0i32, width as i32, height as i32),
{
    if width <= 0x7fff_ffff && height <= 0x7fff_ffff {
        Some((0, 0, width as i32, height as i32))
    } else {
        None
    }
}

} // verus!
