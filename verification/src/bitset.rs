//! Bit sets: one bit for each register, and one for each slot of a stack.

use vstd::prelude::*;

verus! {

/// Whether bit `i` of a 16-bit mask is set.
pub open spec fn mask_bit(mask: u16, i: int) -> bool {
    (mask >> (i as u16)) & 1 == 1
}

proof fn lemma_mask_set(mask: u16, i: u16, j: u16)
    by (bit_vector)
    requires
        i < 16,
        j < 16,
    ensures
        ((mask | (1u16 << i)) >> j) & 1 == 1 <==> (i == j || (mask >> j) & 1 == 1),
{
}

proof fn lemma_mask_clear(mask: u16, i: u16, j: u16)
    by (bit_vector)
    requires
        i < 16,
        j < 16,
    ensures
        ((mask & !(1u16 << i)) >> j) & 1 == 1 <==> (i != j && (mask >> j) & 1 == 1),
{
}

proof fn lemma_mask_zero(j: u16)
    by (bit_vector)
    requires
        j < 16,
    ensures
        (0u16 >> j) & 1 == 0,
{
}

/// No bit of the zero mask is set.
pub proof fn lemma_mask_bit_zero()
    ensures
        forall|j: int| 0 <= j < 16 ==> !#[trigger] mask_bit(0, j),
{
    assert forall|j: int| 0 <= j < 16 implies !#[trigger] mask_bit(0, j) by {
        lemma_mask_zero(j as u16);
    }
}

/// Whether bit `i` of the mask is set.
pub fn mask_get(mask: u16, i: u8) -> (r: bool)
    requires
        i < 16,
    ensures
        r == mask_bit(mask, i as int),
{
    (mask >> (i as u16)) & 1 == 1
}

/// The mask with bit `i` set to `value` and every other bit as it was.
pub fn mask_with(mask: u16, i: u8, value: bool) -> (r: u16)
    requires
        i < 16,
    ensures
        forall|j: int|
            0 <= j < 16 ==> #[trigger] mask_bit(r, j) == (if j == i {
                value
            } else {
                mask_bit(mask, j)
            }),
{
    let r: u16 = if value {
        mask | (1u16 << (i as u16))
    } else {
        mask & !(1u16 << (i as u16))
    };
    proof {
        assert forall|j: int| 0 <= j < 16 implies #[trigger] mask_bit(r, j) == (if j == i {
            value
        } else {
            mask_bit(mask, j)
        }) by {
            lemma_mask_set(mask, i as u16, j as u16);
            lemma_mask_clear(mask, i as u16, j as u16);
        }
    }
    r
}

/// The number of bits in a `Bitset`.
pub const BITSET_BITS: usize = 65536;

/// Whether bit `i` of a 64-bit word is set.
pub open spec fn word_bit(word: u64, i: int) -> bool {
    (word >> (i as u64)) & 1 == 1
}

proof fn lemma_word_set(word: u64, i: u64, j: u64)
    by (bit_vector)
    requires
        i < 64,
        j < 64,
    ensures
        ((word | (1u64 << i)) >> j) & 1 == 1 <==> (i == j || (word >> j) & 1 == 1),
{
}

proof fn lemma_word_clear(word: u64, i: u64, j: u64)
    by (bit_vector)
    requires
        i < 64,
        j < 64,
    ensures
        ((word & !(1u64 << i)) >> j) & 1 == 1 <==> (i != j && (word >> j) & 1 == 1),
{
}

proof fn lemma_word_zero(j: u64)
    by (bit_vector)
    requires
        j < 64,
    ensures
        (0u64 >> j) & 1 == 0,
{
}

/// A set of 65536 bits, one for each slot of a stack.
pub struct Bitset {
    words: Vec<u64>,
}

impl View for Bitset {
    type V = Seq<bool>;

    /// The bits, by index.
    closed spec fn view(&self) -> Seq<bool> {
        Seq::new(65536, |i: int| word_bit(self.words@[i / 64], i % 64))
    }
}

impl Bitset {
    /// The set has room for all its bits.
    pub closed spec fn wf(&self) -> bool {
        self.words@.len() == 1024
    }

    /// The set with no bit set.
    pub fn new() -> (set: Bitset)
        ensures
            set.wf(),
            set@.len() == 65536,
            forall|i: int| 0 <= i < 65536 ==> !#[trigger] set@[i],
    {
        let mut words: Vec<u64> = Vec::new();
        let mut n: usize = 0;
        while n < 1024
            invariant
                n <= 1024,
                words@.len() == n,
                forall|k: int| 0 <= k < n ==> #[trigger] words@[k] == 0,
            decreases 1024 - n,
        {
            words.push(0);
            n = n + 1;
        }
        let set = Bitset { words };
        proof {
            assert forall|i: int| 0 <= i < 65536 implies !#[trigger] set@[i] by {
                lemma_word_zero((i % 64) as u64);
            }
        }
        set
    }

    pub fn get(&self, i: u16) -> (r: bool)
        requires
            self.wf(),
        ensures
            r == self@[i as int],
    {
        let word: u64 = self.words[(i / 64) as usize];
        (word >> ((i % 64) as u64)) & 1 == 1
    }

    /// Sets bit `i` to `value` and leaves every other bit as it is.
    pub fn put(&mut self, i: u16, value: bool)
        requires
            old(self).wf(),
        ensures
            final(self).wf(),
            final(self)@ == old(self)@.update(i as int, value),
    {
        let at: usize = (i / 64) as usize;
        let bit: u64 = (i % 64) as u64;
        let word: u64 = self.words[at];
        let new_word: u64 = if value {
            word | (1u64 << bit)
        } else {
            word & !(1u64 << bit)
        };
        self.words.set(at, new_word);
        proof {
            assert forall|k: int| 0 <= k < 65536 implies #[trigger] self@[k] == old(self)@.update(
                i as int,
                value,
            )[k] by {
                if k / 64 == at as int {
                    lemma_word_set(word, bit, (k % 64) as u64);
                    lemma_word_clear(word, bit, (k % 64) as u64);
                }
            }
            assert(self@ =~= old(self)@.update(i as int, value));
        }
    }

    pub fn set(&mut self, i: u16)
        requires
            old(self).wf(),
        ensures
            final(self).wf(),
            final(self)@ == old(self)@.update(i as int, true),
    {
        self.put(i, true);
    }

    pub fn clear(&mut self, i: u16)
        requires
            old(self).wf(),
        ensures
            final(self).wf(),
            final(self)@ == old(self)@.update(i as int, false),
    {
        self.put(i, false);
    }
}

impl Default for Bitset {
    fn default() -> (set: Bitset)
        ensures
            set.wf(),
            set@.len() == 65536,
            forall|i: int| 0 <= i < 65536 ==> !#[trigger] set@[i],
    {
        Bitset::new()
    }
}

} // verus!
