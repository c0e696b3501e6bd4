//! Little-endian packing of 32-bit words into table bytes.
//!
//! The raygen record's user data is a run of 32-bit words; the table holds
//! it as bytes, least significant byte first.  The result buffer comes back
//! the other way: bytes read as words.  Packing one way and unpacking the
//! other returns the original words.

use vstd::prelude::*;

verus! {

/// Byte `k` (least significant first) of the word `w`.
pub open spec fn le_byte(w: u32, k: int) -> u8 {
    ((w >> (8 * k)) & 0xff) as u8
}

/// The word whose four little-endian bytes sit in `b` at `at`.
pub open spec fn word_from_le(b: Seq<u8>, at: int) -> u32 {
    (b[at] as u32) | ((b[at + 1] as u32) << 8) | ((b[at + 2] as u32) << 16) | ((b[at + 3] as u32)
        << 24)
}

/// Packs the words into bytes, least significant byte of each word first.
pub fn words_to_le_bytes(words: &Vec<u32>) -> (r: Vec<u8>)
    requires
        4 * words@.len() <= usize::MAX,
    ensures
        r@.len() == 4 * words@.len(),
        forall|i: int, k: int|
            0 <= i < words@.len() && 0 <= k < 4 ==> #[trigger] r@[4 * i + k] == le_byte(
                words@[i],
                k,
            ),
{
    let n: usize = words.len();
    let mut r: Vec<u8> = Vec::new();
    let mut i: usize = 0;
    while i < n
        invariant
            n == words@.len(),
            4 * n <= usize::MAX,
            i <= n,
            r@.len() == 4 * i,
            forall|j: int, k: int|
                0 <= j < i && 0 <= k < 4 ==> #[trigger] r@[4 * j + k] == le_byte(words@[j], k),
        decreases n - i,
    {
        let w: u32 = words[i];
        r.push((w & 0xff) as u8);
        r.push(((w >> 8) & 0xff) as u8);
        r.push(((w >> 16) & 0xff) as u8);
        r.push(((w >> 24) & 0xff) as u8);
        proof {
            assert((w & 0xff) as u8 == le_byte(w, 0)) by (bit_vector);
            assert(((w >> 8) & 0xff) as u8 == le_byte(w, 1)) by (bit_vector);
            assert(((w >> 16) & 0xff) as u8 == le_byte(w, 2)) by (bit_vector);
            assert(((w >> 24) & 0xff) as u8 == le_byte(w, 3)) by (bit_vector);
        }
        i = i + 1;
    }
    r
}

/// Unpacks little-endian bytes back into words; `bytes` must be whole
/// words long.
pub fn le_bytes_to_words(bytes: &Vec<u8>) -> (r: Vec<u32>)
    requires
        bytes@.len() % 4 == 0,
    ensures
        4 * r@.len() == bytes@.len(),
        forall|i: int| 0 <= i < r@.len() ==> r@[i] == word_from_le(bytes@, 4 * i),
{
    let blen: usize = bytes.len();
    let n: usize = blen / 4;
    let mut r: Vec<u32> = Vec::new();
    let mut i: usize = 0;
    while i < n
        invariant
            blen == bytes@.len(),
            4 * n == blen,
            i <= n,
            r@.len() == i,
            forall|j: int| 0 <= j < i ==> r@[j] == word_from_le(bytes@, 4 * j),
        decreases n - i,
    {
        let b0: u32 = bytes[4 * i] as u32;
        let b1: u32 = bytes[4 * i + 1] as u32;
        let b2: u32 = bytes[4 * i + 2] as u32;
        let b3: u32 = bytes[4 * i + 3] as u32;
        let w: u32 = b0 | (b1 << 8) | (b2 << 16) | (b3 << 24);
        r.push(w);
        i = i + 1;
    }
    r
}

/// Packing then unpacking is the identity: bytes that hold each word's
/// little-endian image decode back to exactly those words.
pub proof fn lemma_words_le_round_trip(words: Seq<u32>, bytes: Seq<u8>)
    requires
        bytes.len() == 4 * words.len(),
        forall|i: int, k: int|
            0 <= i < words.len() && 0 <= k < 4 ==> #[trigger] bytes[4 * i + k] == le_byte(
                words[i],
                k,
            ),
    ensures
        forall|i: int| 0 <= i < words.len() ==> word_from_le(bytes, 4 * i) == words[i],
{
    assert forall|i: int| 0 <= i < words.len() implies word_from_le(bytes, 4 * i) == words[i] by {
        let w = words[i];
        assert(bytes[4 * i + 0] == le_byte(w, 0));
        assert(bytes[4 * i + 1] == le_byte(w, 1));
        assert(bytes[4 * i + 2] == le_byte(w, 2));
        assert(bytes[4 * i + 3] == le_byte(w, 3));
        assert((((w >> (8 * 0)) & 0xff) as u8 as u32) | ((((w >> (8 * 1)) & 0xff) as u8 as u32)
            << 8) | ((((w >> (8 * 2)) & 0xff) as u8 as u32) << 16) | ((((w >> (8 * 3))
            & 0xff) as u8 as u32) << 24) == w) by (bit_vector);
    };
}

} // verus!
