//! The bytes that fill vertex and index buffers.

use vstd::prelude::*;

verus! {

/// The weight of byte `k` of a word: 256 to the power `k`, for `k` below 4.
pub open spec fn radix(k: int) -> int {
    if k <= 0 {
        1
    } else if k == 1 {
        0x100
    } else if k == 2 {
        0x1_0000
    } else {
        0x100_0000
    }
}

/// Byte `k` of `word`, counted from the least significant byte.
pub open spec fn byte_at(word: int, k: int) -> u8 {
    ((word / radix(k)) % 256) as u8
}

/// The words laid out one after another, `width` bytes each, least
/// significant byte first.
pub open spec fn little_endian(words: Seq<int>, width: int) -> Seq<u8> {
    Seq::new((words.len() * width) as nat, |i: int| byte_at(words[i / width], i % width))
}

/// The words laid out one after another, `width` bytes each, most
/// significant byte first.
pub open spec fn big_endian(words: Seq<int>, width: int) -> Seq<u8> {
    Seq::new(
        (words.len() * width) as nat,
        |i: int| byte_at(words[i / width], width - 1 - i % width),
    )
}

/// `bytes` is the memory image of `words` in one of the two byte orders.
/// Which one depends on the machine.
pub open spec fn native_endian(bytes: Seq<u8>, words: Seq<int>, width: int) -> bool {
    bytes == little_endian(words, width) || bytes == big_endian(words, width)
}

/// 16-bit words as mathematical integers.
pub open spec fn ints16(words: Seq<u16>) -> Seq<int> {
    words.map_values(|w: u16| w as int)
}

/// 32-bit words as mathematical integers.
pub open spec fn ints32(words: Seq<u32>) -> Seq<int> {
    words.map_values(|w: u32| w as int)
}

/// A value that is nothing but a fixed run of 32-bit words, so that a slice
/// of such values can be handed to the GPU as raw memory.
pub trait Pod: Sized {
    /// The words of the value, in memory order.
    spec fn spec_words(&self) -> Seq<u32>;

    /// The words of the value, in memory order.
    fn words(&self) -> (words: Vec<u32>)
        ensures
            words@ == self.spec_words(),
    ;
}

/// The words of all `values`, one value after another.
pub open spec fn flatten_words<V: Pod>(values: Seq<V>) -> Seq<u32>
    decreases values.len(),
{
    if values.len() == 0 {
        Seq::empty()
    } else {
        flatten_words(values.drop_last()) + values.last().spec_words()
    }
}

/// Values of `n` words each flatten to `n` words per value.
pub proof fn lemma_flatten_words_len<V: Pod>(values: Seq<V>, n: nat)
    requires
        forall|i: int| 0 <= i < values.len() ==> (#[trigger] values[i]).spec_words().len() == n,
    ensures
        flatten_words(values).len() == values.len() * n,
    decreases values.len(),
{
    if values.len() > 0 {
        lemma_flatten_words_len(values.drop_last(), n);
        assert(values.len() * n == (values.len() - 1) * n + n) by (nonlinear_arith);
    }
}

/// Reinterprets 16-bit words as bytes with `bytemuck::cast_slice`.
///
/// The cast keeps the memory as it is, so the result has two bytes per word
/// in the byte order of the machine. From `u16` to `u8` it cannot fail:
/// the target needs no alignment and every length divides evenly.
#[verifier::external_body]
fn cast_u16_slice(words: &Vec<u16>) -> (bytes: Vec<u8>)
    ensures
        native_endian(bytes@, ints16(words@), 2),
{
    bytemuck::cast_slice::<u16, u8>(words.as_slice()).to_vec()
}

/// Reinterprets 32-bit words as bytes with `bytemuck::cast_slice`.
///
/// The cast keeps the memory as it is, so the result has four bytes per word
/// in the byte order of the machine. From `u32` to `u8` it cannot fail:
/// the target needs no alignment and every length divides evenly.
#[verifier::external_body]
fn cast_u32_slice(words: &Vec<u32>) -> (bytes: Vec<u8>)
    ensures
        native_endian(bytes@, ints32(words@), 4),
{
    bytemuck::cast_slice::<u32, u8>(words.as_slice()).to_vec()
}

/// The contents of an index buffer: the indices as raw memory.
pub fn index_bytes(indices: &Vec<u16>) -> (bytes: Vec<u8>)
    ensures
        native_endian(bytes@, ints16(indices@), 2),
        bytes@.len() == 2 * indices@.len(),
{
    cast_u16_slice(indices)
}

/// The contents of a vertex buffer: the vertices as raw memory, one after
/// another.
pub fn vertex_bytes<V: Pod>(vertices: &Vec<V>) -> (bytes: Vec<u8>)
    ensures
        native_endian(bytes@, ints32(flatten_words(vertices@)), 4),
        bytes@.len() == 4 * flatten_words(vertices@).len(),
{
    let mut words: Vec<u32> = Vec::new();
    let mut i: usize = 0;
    while i < vertices.len()
        invariant
            i <= vertices.len(),
            words@ == flatten_words(vertices@.take(i as int)),
        decreases vertices.len() - i,
    {
        let mut next = vertices[i].words();
        words.append(&mut next);
        i = i + 1;
        proof {
            assert(vertices@.take(i as int).drop_last() == vertices@.take(i - 1));
        }
    }
    proof {
        assert(vertices@.take(i as int) == vertices@);
    }
    cast_u32_slice(&words)
}

} // verus!
