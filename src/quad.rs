//! The quad that is actually rasterized: six vertices, two triangles sharing
//! a diagonal. The mesh's own vertices are read by the fragment shader through
//! the storage view; they never go through this buffer.
//!
//! Coordinates are carried as the bit patterns of 32-bit floats.
use vstd::prelude::*;

use crate::layout::QUAD_VERTEX_STRIDE;

verus! {

/// Bits of the float 0.4.
pub const X_RIGHT: u32 = 0x3ECC_CCCD;
/// Bits of the float -0.4.
pub const X_LEFT: u32 = 0xBECC_CCCD;
/// Bits of the float 0.8.
pub const Y_TOP: u32 = 0x3F4C_CCCD;
/// Bits of the float -0.8.
pub const Y_BOTTOM: u32 = 0xBF4C_CCCD;
/// Bits of the float 0.0: the quad sits at depth zero, in front of the scene.
pub const Z_FRONT: u32 = 0;

/// Number of vertices the quad is drawn with.
pub const QUAD_VERTEX_COUNT: u32 = 6;

/// A quad vertex position, as float bit patterns.
#[derive(Clone, Copy, Debug, PartialEq, Eq, Structural)]
pub struct QuadVertex {
    pub x: u32,
    pub y: u32,
    pub z: u32,
}

pub open spec fn top_left() -> QuadVertex {
    QuadVertex { x: X_LEFT, y: Y_TOP, z: Z_FRONT }
}

pub open spec fn top_right() -> QuadVertex {
    QuadVertex { x: X_RIGHT, y: Y_TOP, z: Z_FRONT }
}

pub open spec fn bottom_left() -> QuadVertex {
    QuadVertex { x: X_LEFT, y: Y_BOTTOM, z: Z_FRONT }
}

pub open spec fn bottom_right() -> QuadVertex {
    QuadVertex { x: X_RIGHT, y: Y_BOTTOM, z: Z_FRONT }
}

/// The upper-left triangle, then the lower-right one; both run along the
/// diagonal from the top-right to the bottom-left corner.
pub open spec fn quad_spec() -> Seq<QuadVertex> {
    seq![top_left(), bottom_left(), top_right(), top_right(), bottom_left(), bottom_right()]
}

/// The six quad vertices, in draw order.
pub fn quad_mesh() -> (r: Vec<QuadVertex>)
    ensures
        r@ == quad_spec(),
        r@.len() == QUAD_VERTEX_COUNT,
{
    let tl = QuadVertex { x: X_LEFT, y: Y_TOP, z: Z_FRONT };
    let tr = QuadVertex { x: X_RIGHT, y: Y_TOP, z: Z_FRONT };
    let bl = QuadVertex { x: X_LEFT, y: Y_BOTTOM, z: Z_FRONT };
    let br = QuadVertex { x: X_RIGHT, y: Y_BOTTOM, z: Z_FRONT };
    let r = vec![tl, bl, tr, tr, bl, br];
    assert(r@ =~= quad_spec());
    r
}

/// The coordinates of the vertices, three words each, in order.
pub open spec fn flatten_vertices(vs: Seq<QuadVertex>) -> Seq<u32>
    decreases vs.len(),
{
    if vs.len() == 0 {
        Seq::empty()
    } else {
        flatten_vertices(vs.drop_last()) + seq![vs.last().x, vs.last().y, vs.last().z]
    }
}

pub proof fn lemma_flatten_len(vs: Seq<QuadVertex>)
    ensures
        flatten_vertices(vs).len() == 3 * vs.len(),
    decreases vs.len(),
{
    if vs.len() > 0 {
        lemma_flatten_len(vs.drop_last());
    }
}

/// The coordinates of `vs`, flattened to words.
pub fn vertex_words(vs: &Vec<QuadVertex>) -> (r: Vec<u32>)
    ensures
        r@ == flatten_vertices(vs@),
{
    let mut r: Vec<u32> = Vec::new();
    let mut i: usize = 0;
    while i < vs.len()
        invariant
            0 <= i <= vs.len(),
            r@ == flatten_vertices(vs@.take(i as int)),
        decreases vs.len() - i,
    {
        let v = vs[i];
        r.push(v.x);
        r.push(v.y);
        r.push(v.z);
        proof {
            assert(vs@.take(i + 1).drop_last() =~= vs@.take(i as int));
            assert(r@ =~= flatten_vertices(vs@.take(i + 1)));
        }
        i = i + 1;
    }
    assert(vs@.take(vs.len() as int) =~= vs@);
    r
}

/// The four bytes of `w`, least significant first when `little`.
pub open spec fn word_bytes(w: u32, little: bool) -> Seq<u8> {
    let b = seq![w as u8, (w >> 8u32) as u8, (w >> 16u32) as u8, (w >> 24u32) as u8];
    if little {
        b
    } else {
        seq![b[3], b[2], b[1], b[0]]
    }
}

/// The bytes of the words, one after another, each in the given byte order.
pub open spec fn words_bytes(ws: Seq<u32>, little: bool) -> Seq<u8>
    decreases ws.len(),
{
    if ws.len() == 0 {
        Seq::empty()
    } else {
        words_bytes(ws.drop_last(), little) + word_bytes(ws.last(), little)
    }
}

pub proof fn lemma_words_bytes_len(ws: Seq<u32>, little: bool)
    ensures
        words_bytes(ws, little).len() == 4 * ws.len(),
    decreases ws.len(),
{
    if ws.len() > 0 {
        lemma_words_bytes_len(ws.drop_last(), little);
    }
}

/// Relies on `bytemuck::cast_slice::<u32, u8>`: the words' memory read as
/// bytes, four per word, in the machine's byte order, whichever that is. The
/// cast never fails, as `u8` has no alignment and divides every length.
#[verifier::external_body]
fn words_as_bytes(ws: &Vec<u32>) -> (r: Vec<u8>)
    ensures
        r@ == words_bytes(ws@, true) || r@ == words_bytes(ws@, false),
{
    bytemuck::cast_slice::<u32, u8>(ws.as_slice()).to_vec()
}

/// The contents of the quad vertex buffer: the six positions, three 32-bit
/// floats each, in the machine's byte order.
pub fn quad_vertex_bytes() -> (r: Vec<u8>)
    ensures
        r@ == words_bytes(flatten_vertices(quad_spec()), true) || r@ == words_bytes(
            flatten_vertices(quad_spec()),
            false,
        ),
        r@.len() == QUAD_VERTEX_COUNT * QUAD_VERTEX_STRIDE,
{
    let q = quad_mesh();
    let ws = vertex_words(&q);
    let r = words_as_bytes(&ws);
    proof {
        lemma_flatten_len(quad_spec());
        lemma_words_bytes_len(ws@, true);
        lemma_words_bytes_len(ws@, false);
    }
    r
}

} // verus!
