//! The bytes that the GPU receives: matrices and vertices as the contents of
//! uniform and vertex buffers.
use vstd::prelude::*;
use crate::math::{Mat4, Vec4};
use crate::structs::{Point3Input, POINT3_INPUT_SIZE};

verus! {

/// The four bytes of a word, least significant first.
pub open spec fn le_word(w: u32) -> Seq<u8> {
    seq![
        (w & 0xff) as u8,
        ((w >> 8) & 0xff) as u8,
        ((w >> 16) & 0xff) as u8,
        ((w >> 24) & 0xff) as u8,
    ]
}

/// The bytes of a list of words, each word least significant byte first.
pub open spec fn le_bytes(words: Seq<u32>) -> Seq<u8> {
    Seq::new(4 * words.len(), |i: int| le_word(words[i / 4])[i % 4])
}

/// The bytes of a list of words, each word most significant byte first.
pub open spec fn be_bytes(words: Seq<u32>) -> Seq<u8> {
    Seq::new(4 * words.len(), |i: int| le_word(words[i / 4])[3 - i % 4])
}

/// Whether `bytes` holds `words` as a machine lays them out in memory: four
/// bytes per word, in the order of the words, every word in the same byte
/// order.
pub open spec fn encodes(bytes: Seq<u8>, words: Seq<u32>) -> bool {
    bytes == le_bytes(words) || bytes == be_bytes(words)
}

/// The bytes of `words` as they lie in memory. Calls `bytemuck::cast_slice`
/// from words to bytes, which reinterprets the memory of the slice: the
/// contract claims that the result has four bytes for each word, in the order
/// of the words, in the byte order of the machine, which is one of the two for
/// all words.
#[verifier::external_body]
fn cast_words(words: &[u32]) -> (bytes: Vec<u8>)
    ensures
        encodes(bytes@, words@),
{
    bytemuck::cast_slice::<u32, u8>(words).to_vec()
}

/// The contents of a buffer that holds `words`: four bytes per word, in the
/// byte order of the machine.
pub fn words_to_bytes(words: &Vec<u32>) -> (bytes: Vec<u8>)
    ensures
        encodes(bytes@, words@),
        bytes@.len() == 4 * words@.len(),
{
    cast_words(words.as_slice())
}

/// The contents of the uniform buffer that holds a matrix: its sixteen
/// words, column by column.
pub fn uniform_bytes(m: &Mat4) -> (bytes: Vec<u8>)
    ensures
        encodes(bytes@, m.words()),
        bytes@.len() == 64,
{
    let words = m.to_words();
    words_to_bytes(&words)
}

/// The contents of the uniform buffer that holds a vector of four words.
pub fn vec4_bytes(v: &Vec4) -> (bytes: Vec<u8>)
    ensures
        encodes(bytes@, v.words()),
        bytes@.len() == 16,
{
    let mut words: Vec<u32> = Vec::new();
    v.push_words(&mut words);
    words_to_bytes(&words)
}

/// The words of a list of vertices: those of each vertex in turn.
pub open spec fn vertex_words(vertex_v: Seq<Point3Input>) -> Seq<u32>
    decreases vertex_v.len(),
{
    if vertex_v.len() == 0 {
        Seq::empty()
    } else {
        vertex_words(vertex_v.drop_last()) + vertex_v.last().words()
    }
}

/// A list of vertices has twelve words per vertex.
pub proof fn lemma_vertex_words_len(vertex_v: Seq<Point3Input>)
    ensures
        vertex_words(vertex_v).len() == 12 * vertex_v.len(),
    decreases vertex_v.len(),
{
    if vertex_v.len() > 0 {
        lemma_vertex_words_len(vertex_v.drop_last());
    }
}

/// The contents of the vertex buffer that holds `vertex_v`: position, colour
/// and normal of each vertex in turn, 48 bytes per vertex.
pub fn vertex_bytes(vertex_v: &[Point3Input]) -> (bytes: Vec<u8>)
    ensures
        encodes(bytes@, vertex_words(vertex_v@)),
        bytes@.len() == POINT3_INPUT_SIZE * vertex_v@.len(),
{
    let mut words: Vec<u32> = Vec::new();
    let mut i: usize = 0;
    while i < vertex_v.len()
        invariant
            i <= vertex_v.len(),
            words@ == vertex_words(vertex_v@.subrange(0, i as int)),
        decreases vertex_v.len() - i,
    {
        proof {
            let next = vertex_v@.subrange(0, i + 1);
            assert(next.drop_last() =~= vertex_v@.subrange(0, i as int));
        }
        let v = &vertex_v[i];
        v.position.push_words(&mut words);
        v.color.push_words(&mut words);
        v.normal.push_words(&mut words);
        i = i + 1;
    }
    assert(vertex_v@.subrange(0, i as int) =~= vertex_v@);
    proof {
        lemma_vertex_words_len(vertex_v@);
    }
    words_to_bytes(&words)
}

} // verus!
