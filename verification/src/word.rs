//! The machine word: a 256-bit unsigned integer held as four 64-bit limbs.

use primitive_types::U256;
use vstd::prelude::*;

verus! {

/// A 256-bit machine word. `limb0` is the least significant limb.
#[derive(Clone, Copy, Debug, PartialEq, Eq, Structural, Hash)]
pub struct Word {
    pub limb0: u64,
    pub limb1: u64,
    pub limb2: u64,
    pub limb3: u64,
}

impl View for Word {
    type V = nat;

    /// The number that the word denotes.
    open spec fn view(&self) -> nat {
        (self.limb0 + self.limb1 * 0x1_0000_0000_0000_0000 + self.limb2
            * 0x1_0000_0000_0000_0000_0000_0000_0000_0000 + self.limb3
            * 0x1_0000_0000_0000_0000_0000_0000_0000_0000_0000_0000_0000_0000) as nat
    }
}

/// The eight bytes of a limb, most significant first.
pub open spec fn limb_be_bytes(limb: u64) -> Seq<u8> {
    seq![
        (limb >> 56) as u8,
        (limb >> 48) as u8,
        (limb >> 40) as u8,
        (limb >> 32) as u8,
        (limb >> 24) as u8,
        (limb >> 16) as u8,
        (limb >> 8) as u8,
        limb as u8,
    ]
}

/// The limb whose big-endian bytes are `bytes[at..at + 8]`.
pub open spec fn limb_from_be_bytes(bytes: Seq<u8>, at: int) -> u64 {
    (bytes[at] as u64) << 56 | (bytes[at + 1] as u64) << 48 | (bytes[at + 2] as u64) << 40 | (
    bytes[at + 3] as u64) << 32 | (bytes[at + 4] as u64) << 24 | (bytes[at + 5] as u64) << 16 | (
    bytes[at + 6] as u64) << 8 | (bytes[at + 7] as u64)
}

impl Word {
    /// The low 128 bits of the word, as a number.
    pub open spec fn low_128(self) -> nat {
        (self.limb0 + self.limb1 * 0x1_0000_0000_0000_0000) as nat
    }

    /// The high 128 bits of the word, as a number.
    pub open spec fn high_128(self) -> nat {
        (self.limb2 + self.limb3 * 0x1_0000_0000_0000_0000) as nat
    }

    /// The 32 bytes of the word, most significant first.
    pub open spec fn be_bytes(self) -> Seq<u8> {
        limb_be_bytes(self.limb3) + limb_be_bytes(self.limb2) + limb_be_bytes(self.limb1)
            + limb_be_bytes(self.limb0)
    }

    /// The word whose big-endian bytes are the 32 bytes of `bytes`.
    pub open spec fn from_be_bytes(bytes: Seq<u8>) -> Word {
        Word {
            limb0: limb_from_be_bytes(bytes, 24),
            limb1: limb_from_be_bytes(bytes, 16),
            limb2: limb_from_be_bytes(bytes, 8),
            limb3: limb_from_be_bytes(bytes, 0),
        }
    }

    pub fn zero() -> (w: Word)
        ensures
            w@ == 0,
            w == (Word { limb0: 0, limb1: 0, limb2: 0, limb3: 0 }),
    {
        Word { limb0: 0, limb1: 0, limb2: 0, limb3: 0 }
    }

    pub fn from_u64(value: u64) -> (w: Word)
        ensures
            w@ == value,
            w == (Word { limb0: value, limb1: 0, limb2: 0, limb3: 0 }),
    {
        Word { limb0: value, limb1: 0, limb2: 0, limb3: 0 }
    }

    pub fn from_u32(value: u32) -> (w: Word)
        ensures
            w@ == value,
            w == (Word { limb0: value as u64, limb1: 0, limb2: 0, limb3: 0 }),
    {
        Word { limb0: value as u64, limb1: 0, limb2: 0, limb3: 0 }
    }

    pub fn is_zero(&self) -> (r: bool)
        ensures
            r == (self@ == 0),
    {
        self.limb0 == 0 && self.limb1 == 0 && self.limb2 == 0 && self.limb3 == 0
    }

    /// Whether the word's value is at most `u32::MAX`.
    pub fn fits_u32(&self) -> (r: bool)
        ensures
            r == (self@ <= u32::MAX),
    {
        self.limb0 <= 0xffff_ffff && self.limb1 == 0 && self.limb2 == 0 && self.limb3 == 0
    }

    /// The word's value modulo 2^32.
    pub fn low_u32(&self) -> (r: u32)
        ensures
            r == self.limb0 % 0x1_0000_0000,
            self@ <= u32::MAX ==> r == self@,
    {
        (self.limb0 % 0x1_0000_0000) as u32
    }

    /// Whether the low 128 bits of the word are all zero.
    pub fn low_128_is_zero(&self) -> (r: bool)
        ensures
            r == (self.low_128() == 0),
    {
        self.limb0 == 0 && self.limb1 == 0
    }

    /// The word as 32 bytes, most significant first.
    pub fn to_big_endian(&self) -> (bytes: [u8; 32])
        ensures
            bytes@ == self.be_bytes(),
    {
        u256_to_big_endian(*self)
    }

    /// The word that 32 bytes denote, most significant first.
    pub fn from_big_endian(bytes: &[u8; 32]) -> (w: Word)
        ensures
            w == Word::from_be_bytes(bytes@),
    {
        u256_from_big_endian(bytes)
    }
}

proof fn lemma_limb_round_trip(limb: u64)
    ensures
        limb_from_be_bytes(limb_be_bytes(limb), 0) == limb,
{
    assert(((limb >> 56) as u8 as u64) << 56 | ((limb >> 48) as u8 as u64) << 48 | ((limb >> 40) as u8
        as u64) << 40 | ((limb >> 32) as u8 as u64) << 32 | ((limb >> 24) as u8 as u64) << 24 | ((limb
        >> 16) as u8 as u64) << 16 | ((limb >> 8) as u8 as u64) << 8 | (limb as u8 as u64) == limb)
        by (bit_vector);
}

/// Reading back the bytes that a word was written as gives the word.
pub proof fn lemma_be_bytes_round_trip(w: Word)
    ensures
        w.be_bytes().len() == 32,
        Word::from_be_bytes(w.be_bytes()) == w,
{
    let b = w.be_bytes();
    lemma_limb_round_trip(w.limb0);
    lemma_limb_round_trip(w.limb1);
    lemma_limb_round_trip(w.limb2);
    lemma_limb_round_trip(w.limb3);
    assert(limb_from_be_bytes(b, 0) == limb_from_be_bytes(limb_be_bytes(w.limb3), 0));
    assert(limb_from_be_bytes(b, 8) == limb_from_be_bytes(limb_be_bytes(w.limb2), 0));
    assert(limb_from_be_bytes(b, 16) == limb_from_be_bytes(limb_be_bytes(w.limb1), 0));
    assert(limb_from_be_bytes(b, 24) == limb_from_be_bytes(limb_be_bytes(w.limb0), 0));
}

/// Calls `U256::to_big_endian` of `primitive_types` on the word with the same
/// limbs. Trusted: the 32 bytes written are the limbs from the most
/// significant to the least, each as eight bytes, most significant first.
#[verifier::external_body]
fn u256_to_big_endian(w: Word) -> (bytes: [u8; 32])
    ensures
        bytes@ == w.be_bytes(),
{
    let mut bytes = [0u8; 32];
    U256([w.limb0, w.limb1, w.limb2, w.limb3]).to_big_endian(&mut bytes);
    bytes
}

/// Calls `U256::from_big_endian` of `primitive_types` on exactly 32 bytes.
/// Trusted: each limb of the result is read from its eight bytes, most
/// significant first, the first eight bytes giving the most significant limb.
#[verifier::external_body]
fn u256_from_big_endian(bytes: &[u8; 32]) -> (w: Word)
    ensures
        w == Word::from_be_bytes(bytes@),
{
    let value = U256::from_big_endian(bytes);
    Word { limb0: value.0[0], limb1: value.0[1], limb2: value.0[2], limb3: value.0[3] }
}

} // verus!
