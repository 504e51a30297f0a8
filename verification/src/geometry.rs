//! The static vertex buffer: its contents, its view, and the one-time upload.

use vstd::prelude::*;

verus! {

/// Bytes per vertex: three single-precision coordinates.
pub const VERTEX_STRIDE: u32 = 12;

/// Vertices in the triangle.
pub const VERTEX_COUNT: u32 = 3;

/// Bit pattern of the single-precision value 0.0.
pub const ZERO_BITS: u32 = 0x0000_0000;

/// Bit pattern of the single-precision value 0.5.
pub const HALF_BITS: u32 = 0x3F00_0000;

/// Bit pattern of the single-precision value -0.5.
pub const NEG_HALF_BITS: u32 = 0xBF00_0000;

/// A position in normalized device coordinates, each coordinate held as the
/// bit pattern of its single-precision value.
#[derive(Clone, Copy, PartialEq, Eq, Structural, Debug)]
pub struct Vertex {
    pub x: u32,
    pub y: u32,
    pub z: u32,
}

/// What a draw call needs to know of the vertex buffer.
#[derive(Clone, Copy, PartialEq, Eq, Structural, Debug)]
pub struct VertexBufferView {
    pub location: u64,
    pub size_in_bytes: u32,
    pub stride_in_bytes: u32,
}

/// The triangle's corners: top, bottom right, bottom left.
pub open spec fn spec_triangle() -> Seq<Vertex> {
    seq![
        Vertex { x: ZERO_BITS, y: HALF_BITS, z: ZERO_BITS },
        Vertex { x: HALF_BITS, y: NEG_HALF_BITS, z: ZERO_BITS },
        Vertex { x: NEG_HALF_BITS, y: NEG_HALF_BITS, z: ZERO_BITS },
    ]
}

pub fn triangle() -> (v: Vec<Vertex>)
    ensures
        v@ == spec_triangle(),
        v@.len() == VERTEX_COUNT,
{
    let mut v: Vec<Vertex> = Vec::new();
    v.push(Vertex { x: ZERO_BITS, y: HALF_BITS, z: ZERO_BITS });
    v.push(Vertex { x: HALF_BITS, y: NEG_HALF_BITS, z: ZERO_BITS });
    v.push(Vertex { x: NEG_HALF_BITS, y: NEG_HALF_BITS, z: ZERO_BITS });
    assert(v@ =~= spec_triangle());
    v
}

/// The four bytes of `word`, least significant first.
pub open spec fn word_bytes(word: u32) -> Seq<u8> {
    seq![
        (word % 256) as u8,
        ((word / 256) % 256) as u8,
        ((word / 65536) % 256) as u8,
        (word / 16777216) as u8,
    ]
}

/// The twelve bytes of one vertex: x, then y, then z.
pub open spec fn vertex_bytes(v: Vertex) -> Seq<u8> {
    word_bytes(v.x) + word_bytes(v.y) + word_bytes(v.z)
}

/// The bytes of a run of vertices, in order.
pub open spec fn buffer_bytes(vs: Seq<Vertex>) -> Seq<u8>
    decreases vs.len(),
{
    if vs.len() == 0 {
        Seq::empty()
    } else {
        buffer_bytes(vs.drop_last()) + vertex_bytes(vs.last())
    }
}

/// A vertex buffer holds one stride of bytes per vertex.
pub proof fn lemma_buffer_bytes_len(vs: Seq<Vertex>)
    ensures
        buffer_bytes(vs).len() == VERTEX_STRIDE * vs.len(),
    decreases vs.len(),
{
    if vs.len() > 0 {
        lemma_buffer_bytes_len(vs.drop_last());
    }
}

fn push_word(out: &mut Vec<u8>, word: u32)
    ensures
        final(out)@ == old(out)@ + word_bytes(word),
{
    out.push((word % 256) as u8);
    out.push(((word / 256) % 256) as u8);
    out.push(((word / 65536) % 256) as u8);
    out.push((word / 16777216) as u8);
    assert(out@ =~= old(out)@ + word_bytes(word));
}

/// Lays the vertices out as the bytes to copy into the mapped buffer.
pub fn encode_vertices(vs: &Vec<Vertex>) -> (out: Vec<u8>)
    ensures
        out@ == buffer_bytes(vs@),
        out@.len() == VERTEX_STRIDE * vs@.len(),
{
    let mut out: Vec<u8> = Vec::new();
    let mut i: usize = 0;
    while i < vs.len()
        invariant
            i <= vs@.len(),
            out@ == buffer_bytes(vs@.take(i as int)),
        decreases vs@.len() - i,
    {
        let v = vs[i];
        let ghost before = out@;
        push_word(&mut out, v.x);
        push_word(&mut out, v.y);
        push_word(&mut out, v.z);
        proof {
            let next = vs@.take(i as int + 1);
            assert(next.drop_last() =~= vs@.take(i as int));
            assert(next.last() == v);
            assert(out@ =~= before + vertex_bytes(v));
        }
        i = i + 1;
    }
    proof {
        assert(vs@.take(i as int) =~= vs@);
        lemma_buffer_bytes_len(vs@);
    }
    out
}

/// The view of a buffer at `location` holding `vertex_count` vertices, when
/// its size fits the view's 32-bit size field.
pub fn buffer_view(location: u64, vertex_count: u32) -> (r: Option<VertexBufferView>)
    ensures
        r is Some <==> vertex_count * VERTEX_STRIDE <= u32::MAX,
        r is Some ==> r.unwrap() == (VertexBufferView {
            location,
            size_in_bytes: (vertex_count * VERTEX_STRIDE) as u32,
            stride_in_bytes: VERTEX_STRIDE,
        }),
{
    if vertex_count <= u32::MAX / VERTEX_STRIDE {
        Some(
            VertexBufferView {
                location,
                size_in_bytes: vertex_count * VERTEX_STRIDE,
                stride_in_bytes: VERTEX_STRIDE,
            },
        )
    } else {
        None
    }
}

} // verus!
