//! Thirty-two-bit values and their four bytes, lowest byte first, with negative
//! numbers in two's complement.

use vstd::prelude::*;

verus! {

/// The unsigned word that holds `value` in two's complement.
pub open spec fn spec_twos_complement(value: int) -> u32
    recommends
        i32::MIN <= value <= i32::MAX,
{
    if value < 0 {
        (value + 0x1_0000_0000) as u32
    } else {
        value as u32
    }
}

/// The signed number that the word `word` holds in two's complement.
pub open spec fn spec_signed(word: u32) -> int {
    if word >= 0x8000_0000 {
        word - 0x1_0000_0000
    } else {
        word as int
    }
}

/// The four bytes of a word, lowest byte first.
pub open spec fn spec_le_bytes(word: u32) -> Seq<u8> {
    seq![
        (word % 0x100) as u8,
        (word / 0x100 % 0x100) as u8,
        (word / 0x1_0000 % 0x100) as u8,
        (word / 0x100_0000 % 0x100) as u8,
    ]
}

/// The word of four bytes, lowest byte first.
pub open spec fn spec_from_le_bytes(bytes: Seq<u8>) -> u32
    recommends
        bytes.len() == 4,
{
    (bytes[0] + 0x100 * bytes[1] + 0x1_0000 * bytes[2] + 0x100_0000 * bytes[3]) as u32
}

/// The unsigned word that holds `value` in two's complement.
pub fn twos_complement(value: i32) -> (word: u32)
    ensures
        word == spec_twos_complement(value as int),
        spec_signed(word) == value,
{
    let word: u32 = value as u32;
    assert(word == if value < 0 {
        value + 0x1_0000_0000
    } else {
        value as int
    }) by (bit_vector)
        requires
            word == value as u32,
    ;
    word
}

/// The signed number that the word `word` holds in two's complement.
pub fn signed(word: u32) -> (value: i32)
    ensures
        value == spec_signed(word),
        spec_twos_complement(value as int) == word,
{
    let value: i32 = word as i32;
    assert(value == if word >= 0x8000_0000u32 {
        word - 0x1_0000_0000
    } else {
        word as int
    }) by (bit_vector)
        requires
            value == word as i32,
    ;
    value
}

/// The four bytes of a word, lowest byte first.
pub fn le_bytes(word: u32) -> (bytes: [u8; 4])
    ensures
        bytes@ == spec_le_bytes(word),
{
    let b0: u8 = (word & 0xff) as u8;
    let b1: u8 = ((word >> 8) & 0xff) as u8;
    let b2: u8 = ((word >> 16) & 0xff) as u8;
    let b3: u8 = ((word >> 24) & 0xff) as u8;
    assert(b0 == word % 0x100 && b1 == word / 0x100 % 0x100 && b2 == word / 0x1_0000 % 0x100
        && b3 == word / 0x100_0000 % 0x100) by (bit_vector)
        requires
            b0 == (word & 0xff) as u8,
            b1 == ((word >> 8) & 0xff) as u8,
            b2 == ((word >> 16) & 0xff) as u8,
            b3 == ((word >> 24) & 0xff) as u8,
    ;
    let bytes = [b0, b1, b2, b3];
    assert(bytes@ =~= spec_le_bytes(word));
    bytes
}

/// The word of four bytes, lowest byte first.
pub fn from_le_bytes(bytes: &[u8]) -> (word: u32)
    requires
        bytes@.len() == 4,
    ensures
        word == spec_from_le_bytes(bytes@),
{
    let b0: u32 = bytes[0] as u32;
    let b1: u32 = bytes[1] as u32;
    let b2: u32 = bytes[2] as u32;
    let b3: u32 = bytes[3] as u32;
    b0 + 0x100 * b1 + 0x1_0000 * b2 + 0x100_0000 * b3
}

/// A word is found again from its bytes, and four bytes from their word.
pub proof fn lemma_le_bytes_round_trip(word: u32, bytes: Seq<u8>)
    ensures
        spec_from_le_bytes(spec_le_bytes(word)) == word,
        bytes.len() == 4 ==> spec_le_bytes(spec_from_le_bytes(bytes)) == bytes,
{
    assert(word % 0x100 + 0x100 * (word / 0x100 % 0x100) + 0x1_0000 * (word / 0x1_0000 % 0x100)
        + 0x100_0000 * (word / 0x100_0000 % 0x100) == word) by (bit_vector);
    if bytes.len() == 4 {
        let b0 = bytes[0];
        let b1 = bytes[1];
        let b2 = bytes[2];
        let b3 = bytes[3];
        let w: u32 = spec_from_le_bytes(bytes);
        assert(w % 0x100 == b0 && w / 0x100 % 0x100 == b1 && w / 0x1_0000 % 0x100 == b2 && w
            / 0x100_0000 % 0x100 == b3) by (bit_vector)
            requires
                w == b0 as u32 + 0x100 * (b1 as u32) + 0x1_0000 * (b2 as u32) + 0x100_0000 * (
                b3 as u32),
        ;
        assert(spec_le_bytes(w) =~= bytes);
    }
}

} // verus!
