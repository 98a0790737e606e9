//! Byte layout of the 32-bit values shared between the host and the shader stages.
//!
//! Every value that reaches a GPU buffer is a 32-bit word stored least significant
//! byte first. Real numbers travel as their IEEE-754 single-precision bit pattern;
//! this crate moves such patterns around and never does arithmetic on them.

use vstd::prelude::*;
use vstd::arithmetic::div_mod::{lemma_div_denominator, lemma_fundamental_div_mod};
use vstd::arithmetic::div_mod::lemma_fundamental_div_mod_converse;

verus! {

/// A single-precision real number, held as its IEEE-754 bit pattern.
#[derive(Debug, Clone, Copy, PartialEq, Eq, Structural)]
pub struct Scalar {
    pub bits: u32,
}

/// Bit pattern of the real number zero.
pub const ZERO_BITS: u32 = 0;

/// Bit pattern of the real number one.
pub const ONE_BITS: u32 = 0x3F80_0000;

impl Scalar {
    /// The scalar with the given bit pattern.
    pub fn from_bits(bits: u32) -> (s: Scalar)
        ensures
            s.bits == bits,
    {
        Scalar { bits }
    }

    /// The real number zero.
    pub fn zero() -> (s: Scalar)
        ensures
            s.bits == ZERO_BITS,
    {
        Scalar { bits: ZERO_BITS }
    }

    /// The real number one.
    pub fn one() -> (s: Scalar)
        ensures
            s.bits == ONE_BITS,
    {
        Scalar { bits: ONE_BITS }
    }
}

/// The four bytes of `word`, least significant first.
pub open spec fn le_bytes(word: u32) -> Seq<u8> {
    seq![
        (word % 256) as u8,
        (word / 256 % 256) as u8,
        (word / 65536 % 256) as u8,
        (word / 16777216) as u8,
    ]
}

/// The word stored least significant byte first in `bytes[at..at + 4]`.
pub open spec fn le_word(bytes: Seq<u8>, at: int) -> u32 {
    (bytes[at] + 256 * bytes[at + 1] + 65536 * bytes[at + 2] + 16777216 * bytes[at + 3]) as u32
}

/// The word that stands for a signed integer: its two's complement.
pub open spec fn signed_word(value: i32) -> u32 {
    if value >= 0 {
        value as u32
    } else {
        (value + 0x1_0000_0000) as u32
    }
}

/// The signed integer a word stands for in two's complement.
pub open spec fn word_signed(word: u32) -> i32 {
    if word < 0x8000_0000 {
        word as i32
    } else {
        (word - 0x1_0000_0000) as i32
    }
}

/// The four digits of a number below `2^32` written to the base 256.
proof fn lemma_digits(b0: int, b1: int, b2: int, b3: int)
    requires
        0 <= b0 < 256,
        0 <= b1 < 256,
        0 <= b2 < 256,
        0 <= b3 < 256,
    ensures
        ({
            let word = b0 + 256 * b1 + 65536 * b2 + 16777216 * b3;
            &&& 0 <= word < 0x1_0000_0000
            &&& word % 256 == b0
            &&& word / 256 % 256 == b1
            &&& word / 65536 % 256 == b2
            &&& word / 16777216 == b3
        }),
{
    let word = b0 + 256 * b1 + 65536 * b2 + 16777216 * b3;
    let upper = b1 + 256 * b2 + 65536 * b3;
    lemma_fundamental_div_mod_converse(word, 256, upper, b0);
    lemma_fundamental_div_mod_converse(upper, 256, b2 + 256 * b3, b1);
    lemma_fundamental_div_mod_converse(word, 65536, b2 + 256 * b3, b0 + 256 * b1);
    lemma_fundamental_div_mod_converse(b2 + 256 * b3, 256, b3, b2);
    lemma_fundamental_div_mod_converse(word, 16777216, b3, b0 + 256 * b1 + 65536 * b2);
}

/// A number below `2^32` is the sum of its four digits to the base 256.
proof fn lemma_digits_sum(word: int)
    requires
        0 <= word < 0x1_0000_0000,
    ensures
        0 <= word / 16777216 < 256,
        word == word % 256 + 256 * (word / 256 % 256) + 65536 * (word / 65536 % 256) + 16777216
            * (word / 16777216),
{
    lemma_fundamental_div_mod(word, 256);
    lemma_fundamental_div_mod(word / 256, 256);
    lemma_fundamental_div_mod(word / 65536, 256);
    assert(word / 256 / 256 == word / 65536) by {
        lemma_div_denominator(word, 256, 256);
    }
    assert(word / 65536 / 256 == word / 16777216) by {
        lemma_div_denominator(word, 65536, 256);
    }
}

/// Reading back the bytes of a word gives the word.
pub proof fn lemma_word_round_trip(word: u32)
    ensures
        le_bytes(word).len() == 4,
        le_word(le_bytes(word), 0) == word,
{
    lemma_digits_sum(word as int);
}

/// Writing out the word read from four bytes gives those bytes.
pub proof fn lemma_bytes_round_trip(bytes: Seq<u8>, at: int)
    requires
        0 <= at,
        at + 4 <= bytes.len(),
    ensures
        le_bytes(le_word(bytes, at)) == bytes.subrange(at, at + 4),
{
    let b0 = bytes[at] as int;
    let b1 = bytes[at + 1] as int;
    let b2 = bytes[at + 2] as int;
    let b3 = bytes[at + 3] as int;
    lemma_digits(b0, b1, b2, b3);
    let word = le_word(bytes, at);
    assert(word == b0 + 256 * b1 + 65536 * b2 + 16777216 * b3);
    let written = le_bytes(word);
    let field = bytes.subrange(at, at + 4);
    assert(written[0] == field[0]);
    assert(written[1] == field[1]);
    assert(written[2] == field[2]);
    assert(written[3] == field[3]);
    assert(written =~= field);
}

/// Two's complement loses nothing of a signed integer.
pub proof fn lemma_signed_round_trip(value: i32)
    ensures
        word_signed(signed_word(value)) == value,
{
}

/// Every word stands for a signed integer whose two's complement it is.
pub proof fn lemma_signed_word_round_trip(word: u32)
    ensures
        signed_word(word_signed(word)) == word,
{
}

/// Two's complement of `value`.
pub fn to_word(value: i32) -> (word: u32)
    ensures
        word == signed_word(value),
{
    assert(value as u32 == signed_word(value)) by (bit_vector);
    value as u32
}

/// The signed integer with two's complement `word`.
pub fn from_word(word: u32) -> (value: i32)
    ensures
        value == word_signed(word),
{
    assert(word as i32 == word_signed(word)) by (bit_vector);
    word as i32
}

/// Appends the four bytes of `word` to `out`, least significant first.
pub fn push_word(out: &mut Vec<u8>, word: u32)
    ensures
        final(out)@ == old(out)@ + le_bytes(word),
{
    assert(word & 0xff == word % 256) by (bit_vector);
    assert((word >> 8) & 0xff == word / 256 % 256) by (bit_vector);
    assert((word >> 16) & 0xff == word / 65536 % 256) by (bit_vector);
    assert(word >> 24 == word / 16777216) by (bit_vector);
    out.push((word & 0xff) as u8);
    out.push(((word >> 8) & 0xff) as u8);
    out.push(((word >> 16) & 0xff) as u8);
    out.push((word >> 24) as u8);
    assert(out@ =~= old(out)@ + le_bytes(word));
}

/// The bytes of a run of words: word `k` occupies bytes `4 * k` to `4 * k + 3`.
pub open spec fn words_bytes(words: Seq<u32>) -> Seq<u8> {
    Seq::new(4 * words.len(), |i: int| le_bytes(words[i / 4])[i % 4])
}

/// One more word adds its four bytes at the end.
proof fn lemma_words_bytes_push(words: Seq<u32>, word: u32)
    ensures
        words_bytes(words.push(word)) == words_bytes(words) + le_bytes(word),
{
    let longer = words_bytes(words.push(word));
    let joined = words_bytes(words) + le_bytes(word);
    assert(longer.len() == joined.len());
    assert forall|i: int| 0 <= i < longer.len() implies longer[i] == joined[i] by {
        if i >= 4 * words.len() {
            assert(i / 4 == words.len());
            assert(i % 4 == i - 4 * words.len());
        } else {
            assert(i / 4 < words.len());
        }
    }
    assert(longer =~= joined);
}

/// Word `k` of a run is the word read at byte `4 * k`.
pub proof fn lemma_word_at(words: Seq<u32>, k: int)
    requires
        0 <= k < words.len(),
    ensures
        le_word(words_bytes(words), 4 * k) == words[k],
{
    let bytes = words_bytes(words);
    assert(bytes[4 * k] == le_bytes(words[k])[0]) by {
        assert((4 * k) / 4 == k && (4 * k) % 4 == 0);
    }
    assert(bytes[4 * k + 1] == le_bytes(words[k])[1]) by {
        assert((4 * k + 1) / 4 == k && (4 * k + 1) % 4 == 1);
    }
    assert(bytes[4 * k + 2] == le_bytes(words[k])[2]) by {
        assert((4 * k + 2) / 4 == k && (4 * k + 2) % 4 == 2);
    }
    assert(bytes[4 * k + 3] == le_bytes(words[k])[3]) by {
        assert((4 * k + 3) / 4 == k && (4 * k + 3) % 4 == 3);
    }
    lemma_word_round_trip(words[k]);
}

/// Word `k` of a run occupies the four bytes from `4 * k` on, so every word starts at a
/// multiple of its size.
pub proof fn lemma_word_bytes(words: Seq<u32>, k: int)
    requires
        0 <= k < words.len(),
    ensures
        words_bytes(words).len() == 4 * words.len(),
        words_bytes(words).subrange(4 * k, 4 * k + 4) == le_bytes(words[k]),
{
    let bytes = words_bytes(words);
    let field = bytes.subrange(4 * k, 4 * k + 4);
    assert forall|i: int| 0 <= i < 4 implies field[i] == le_bytes(words[k])[i] by {
        assert((4 * k + i) / 4 == k && (4 * k + i) % 4 == i);
    }
    assert(field =~= le_bytes(words[k]));
}

/// Serializes a run of words, each least significant byte first.
pub fn encode_words(words: &[u32]) -> (bytes: Vec<u8>)
    ensures
        bytes@ == words_bytes(words@),
{
    let mut bytes: Vec<u8> = Vec::new();
    let mut k: usize = 0;
    assert(bytes@ =~= words_bytes(words@.take(0)));
    while k < words.len()
        invariant
            k <= words.len(),
            bytes@ == words_bytes(words@.take(k as int)),
        decreases words.len() - k,
    {
        push_word(&mut bytes, words[k]);
        proof {
            lemma_words_bytes_push(words@.take(k as int), words@[k as int]);
            assert(words@.take(k as int).push(words@[k as int]) =~= words@.take(k + 1));
        }
        k += 1;
    }
    assert(words@.take(k as int) =~= words@);
    bytes
}

/// Reads the word stored least significant byte first at `bytes[at..at + 4]`.
pub(crate) fn read_word(bytes: &[u8], at: usize) -> (word: u32)
    requires
        at + 4 <= bytes.len(),
    ensures
        word == le_word(bytes@, at as int),
{
    let b0: u32 = bytes[at] as u32;
    let b1: u32 = bytes[at + 1] as u32;
    let b2: u32 = bytes[at + 2] as u32;
    let b3: u32 = bytes[at + 3] as u32;
    assert(b0 | (b1 << 8) | (b2 << 16) | (b3 << 24) == b0 + 256 * b1 + 65536 * b2 + 16777216 * b3)
        by (bit_vector)
        requires
            b0 < 256,
            b1 < 256,
            b2 < 256,
            b3 < 256,
    ;
    b0 | (b1 << 8) | (b2 << 16) | (b3 << 24)
}

} // verus!
