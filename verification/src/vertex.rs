//! The vertices of the triangle and the bytes that are uploaded for them.

use vstd::prelude::*;
use vstd::slice::slice_to_vec;
use crate::bits::{NEG_ONE_BITS, ONE_BITS};
use crate::pipeline::VERTEX_STRIDE;

verus! {

/// A position in clip space. Each coordinate is the binary32 encoding of its
/// value.
#[derive(Clone, Copy, Debug, PartialEq, Eq, Structural)]
pub struct Vertex {
    pub x: u32,
    pub y: u32,
}

/// The three corners of the triangle: bottom left, bottom right and top right
/// of clip space.
pub open spec fn triangle() -> Seq<Vertex> {
    seq![
        Vertex { x: NEG_ONE_BITS, y: NEG_ONE_BITS },
        Vertex { x: ONE_BITS, y: NEG_ONE_BITS },
        Vertex { x: ONE_BITS, y: ONE_BITS },
    ]
}

/// The corners of the triangle, in the order in which they are drawn.
pub fn triangle_vertices() -> (vertices: Vec<Vertex>)
    ensures
        vertices@ == triangle(),
{
    let mut vertices: Vec<Vertex> = Vec::new();
    vertices.push(Vertex { x: NEG_ONE_BITS, y: NEG_ONE_BITS });
    vertices.push(Vertex { x: ONE_BITS, y: NEG_ONE_BITS });
    vertices.push(Vertex { x: ONE_BITS, y: ONE_BITS });
    vertices
}

/// The coordinates of the vertices in buffer order: for each vertex its `x`,
/// then its `y`.
pub open spec fn coordinate_words(vertices: Seq<Vertex>) -> Seq<u32> {
    Seq::new(
        2 * vertices.len(),
        |i: int|
            if i % 2 == 0 {
                vertices[i / 2].x
            } else {
                vertices[i / 2].y
            },
    )
}

/// Lays the coordinates of the vertices out in buffer order.
pub fn vertex_words(vertices: &Vec<Vertex>) -> (words: Vec<u32>)
    ensures
        words@ == coordinate_words(vertices@),
{
    let n = vertices.len();
    let mut words: Vec<u32> = Vec::new();
    let mut i: usize = 0;
    while i < n
        invariant
            n == vertices@.len(),
            i <= n,
            words@.len() == 2 * i,
            forall|k: int| 0 <= k < words@.len() ==> words@[k] == coordinate_words(vertices@)[k],
        decreases n - i,
    {
        let v = vertices[i];
        words.push(v.x);
        words.push(v.y);
        i += 1;
    }
    words
}

/// Byte `k` of a word, counted from the least significant byte.
pub open spec fn word_byte(word: u32, k: int) -> u8 {
    if k == 0 {
        (word % 0x100) as u8
    } else if k == 1 {
        (word / 0x100 % 0x100) as u8
    } else if k == 2 {
        (word / 0x1_0000 % 0x100) as u8
    } else {
        (word / 0x100_0000 % 0x100) as u8
    }
}

/// The words as bytes, each word with its least significant byte first.
pub open spec fn little_endian_bytes(words: Seq<u32>) -> Seq<u8> {
    Seq::new(4 * words.len(), |i: int| word_byte(words[i / 4], i % 4))
}

/// The words as bytes, each word with its most significant byte first.
pub open spec fn big_endian_bytes(words: Seq<u32>) -> Seq<u8> {
    Seq::new(4 * words.len(), |i: int| word_byte(words[i / 4], 3 - i % 4))
}

/// `bytes` is what the words look like in memory, on a machine of either byte
/// order.
pub open spec fn is_memory_image(bytes: Seq<u8>, words: Seq<u32>) -> bool {
    bytes == little_endian_bytes(words) || bytes == big_endian_bytes(words)
}

/// The memory of the words, seen as bytes.
///
/// Calls `bytemuck::cast_slice` from `u32` to `u8`. The cast returns the same
/// memory under another type: four bytes for each word, in the order in which
/// the machine stores a word, which is either least or most significant byte
/// first. A cast to bytes meets no alignment or size condition that could
/// fail, so the call returns for every input.
#[verifier::external_body]
fn cast_words<'a>(words: &'a [u32]) -> (bytes: &'a [u8])
    ensures
        is_memory_image(bytes@, words@),
{
    bytemuck::cast_slice::<u32, u8>(words)
}

/// The contents of the vertex buffer for the given vertices: their
/// coordinates in buffer order, as they lie in memory.
pub fn vertex_bytes(vertices: &Vec<Vertex>) -> (bytes: Vec<u8>)
    ensures
        is_memory_image(bytes@, coordinate_words(vertices@)),
        bytes@.len() == VERTEX_STRIDE * vertices@.len(),
{
    let words = vertex_words(vertices);
    let bytes = cast_words(words.as_slice());
    slice_to_vec(bytes)
}

} // verus!
