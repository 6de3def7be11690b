//! Packing 32-bit words into bytes.
//!
//! A device buffer is a sequence of bytes. Every record the library produces is
//! a whole number of 32-bit words, and each word is laid out least significant
//! byte first.

use vstd::arithmetic::div_mod::lemma_fundamental_div_mod_converse;
use vstd::prelude::*;

verus! {

/// Byte `k` of `word`, counting from the least significant one.
pub open spec fn le_byte(word: u32, k: int) -> u8 {
    if k == 0 {
        (word % 0x100) as u8
    } else if k == 1 {
        (word / 0x100 % 0x100) as u8
    } else if k == 2 {
        (word / 0x1_0000 % 0x100) as u8
    } else {
        (word / 0x100_0000 % 0x100) as u8
    }
}

/// The word whose four bytes, least significant first, are `b0` to `b3`.
pub open spec fn le_word(b0: u8, b1: u8, b2: u8, b3: u8) -> u32 {
    (b0 + 0x100 * b1 + 0x1_0000 * b2 + 0x100_0000 * b3) as u32
}

/// The bytes of a sequence of words: word `i` fills bytes `4 * i` to `4 * i + 3`.
pub open spec fn pack_words(words: Seq<u32>) -> Seq<u8> {
    Seq::new(4 * words.len(), |j: int| le_byte(words[j / 4], j % 4))
}

/// The words held by a byte sequence; bytes past the last whole word are ignored.
pub open spec fn unpack_words(bytes: Seq<u8>) -> Seq<u32> {
    Seq::new(
        (bytes.len() / 4) as nat,
        |i: int| le_word(bytes[4 * i], bytes[4 * i + 1], bytes[4 * i + 2], bytes[4 * i + 3]),
    )
}

/// Whether every record is `width` words long.
pub open spec fn uniform_records(records: Seq<Seq<u32>>, width: int) -> bool {
    forall|i: int| 0 <= i < records.len() ==> (#[trigger] records[i]).len() == width
}

/// The words of a sequence of records of `width` words each, record after
/// record.
pub open spec fn join_records(records: Seq<Seq<u32>>, width: int) -> Seq<u32> {
    Seq::new((records.len() * width) as nat, |j: int| records[j / width][j % width])
}

/// The records of `width` words each that a word sequence holds; words past the
/// last whole record are ignored.
pub open spec fn split_records(words: Seq<u32>, width: int) -> Seq<Seq<u32>> {
    Seq::new((words.len() as int / width) as nat, |i: int| words.subrange(i * width, i * width + width))
}

/// Converts a vector of words into the vector of their bytes.
pub fn u32vec_to_u8vec(vec32: Vec<u32>) -> (vec8: Vec<u8>)
    ensures
        vec8@ == pack_words(vec32@),
        vec8@.len() == 4 * vec32@.len(),
{
    let mut vec8: Vec<u8> = Vec::new();
    let mut i: usize = 0;
    while i < vec32.len()
        invariant
            i <= vec32.len(),
            vec8@.len() == 4 * i,
            forall|j: int| 0 <= j < 4 * i ==> vec8@[j] == le_byte(vec32@[j / 4], j % 4),
        decreases vec32.len() - i,
    {
        let word: u32 = vec32[i];
        vec8.push((word % 0x100) as u8);
        vec8.push((word / 0x100 % 0x100) as u8);
        vec8.push((word / 0x1_0000 % 0x100) as u8);
        vec8.push((word / 0x100_0000 % 0x100) as u8);
        i = i + 1;
    }
    vec8
}

/// Unpacking the bytes of a word sequence gives the words back.
pub proof fn lemma_pack_round_trip(words: Seq<u32>)
    ensures
        unpack_words(pack_words(words)) == words,
{
    let bytes = pack_words(words);
    assert forall|i: int| 0 <= i < words.len() implies unpack_words(bytes)[i] == words[i] by {}
}

/// Packing takes four bytes per word.
pub proof fn lemma_pack_len(words: Seq<u32>)
    ensures
        pack_words(words).len() == 4 * words.len(),
{
}

/// Records of any width survive packing: the bytes of their words, unpacked and
/// split at the same width, are the records again.
pub proof fn lemma_records_round_trip(records: Seq<Seq<u32>>, width: int)
    requires
        width > 0,
        uniform_records(records, width),
    ensures
        pack_words(join_records(records, width)).len() == 4 * width * records.len(),
        split_records(unpack_words(pack_words(join_records(records, width))), width) == records,
{
    let words = join_records(records, width);
    lemma_pack_round_trip(words);
    let count = records.len() as int;
    assert(count * width >= 0) by (nonlinear_arith)
        requires
            count >= 0,
            width > 0,
    ;
    assert(4 * (count * width) == 4 * width * count) by (nonlinear_arith);
    lemma_fundamental_div_mod_converse(count * width, width, count, 0);
    let back = split_records(words, width);
    assert forall|i: int| 0 <= i < count implies back[i] == records[i] by {
        assert(0 <= i * width && i * width + width <= count * width) by (nonlinear_arith)
            requires
                0 <= i < count,
                width > 0,
        ;
        assert forall|f: int| 0 <= f < width implies back[i][f] == records[i][f] by {
            lemma_fundamental_div_mod_converse(i * width + f, width, i, f);
        }
    }
}

} // verus!
