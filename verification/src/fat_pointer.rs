//! Fat pointers: references to a bounded region of a memory page, packed
//! into a machine word.

use crate::word::Word;
use vstd::prelude::*;
use vstd::std_specs::convert::FromSpecImpl;

verus! {

/// A reference to the bytes `start + offset .. start + length` of a page.
///
/// In a word the offset and the page are the two 32-bit halves of the lowest
/// limb, the offset below the page, so both lie in the low 128 bits. The
/// start and the length are the two halves of the third limb, the start below
/// the length, so both lie in the high 128 bits. The second and the fourth
/// limb belong to no field.
#[derive(Clone, Copy, Debug, PartialEq, Eq, Structural)]
pub struct FatPointer {
    pub offset: u32,
    pub memory_page: u32,
    pub start: u32,
    pub length: u32,
}

impl FatPointer {
    /// The pointer that a word holds.
    pub open spec fn of_word(w: Word) -> FatPointer {
        FatPointer {
            offset: (w.limb0 % 0x1_0000_0000) as u32,
            memory_page: (w.limb0 / 0x1_0000_0000) as u32,
            start: (w.limb2 % 0x1_0000_0000) as u32,
            length: (w.limb2 / 0x1_0000_0000) as u32,
        }
    }

    /// The word `w` with its four pointer fields replaced by those of `self`.
    pub open spec fn stored_in(self, w: Word) -> Word {
        Word {
            limb0: (self.offset + self.memory_page * 0x1_0000_0000) as u64,
            limb1: w.limb1,
            limb2: (self.start + self.length * 0x1_0000_0000) as u64,
            limb3: w.limb3,
        }
    }

    /// Writes the four fields into `w` and leaves the bits that belong to no
    /// field as they are.
    pub fn store_in(self, w: Word) -> (r: Word)
        ensures
            r == self.stored_in(w),
            FatPointer::of_word(r) == self,
            r.limb1 == w.limb1,
            r.limb3 == w.limb3,
    {
        Word {
            limb0: self.offset as u64 + self.memory_page as u64 * 0x1_0000_0000,
            limb1: w.limb1,
            limb2: self.start as u64 + self.length as u64 * 0x1_0000_0000,
            limb3: w.limb3,
        }
    }

    /// The word that holds the pointer and is zero everywhere else.
    pub fn into_word(self) -> (r: Word)
        ensures
            r == self.stored_in(Word { limb0: 0, limb1: 0, limb2: 0, limb3: 0 }),
            FatPointer::of_word(r) == self,
    {
        self.store_in(Word::zero())
    }
}

impl From<Word> for FatPointer {
    /// Reads the four fields out of a word.
    fn from(value: Word) -> (p: FatPointer) {
        FatPointer {
            offset: (value.limb0 % 0x1_0000_0000) as u32,
            memory_page: (value.limb0 / 0x1_0000_0000) as u32,
            start: (value.limb2 % 0x1_0000_0000) as u32,
            length: (value.limb2 / 0x1_0000_0000) as u32,
        }
    }
}

impl FromSpecImpl<Word> for FatPointer {
    open spec fn obeys_from_spec() -> bool {
        true
    }

    open spec fn from_spec(value: Word) -> FatPointer {
        FatPointer::of_word(value)
    }
}

} // verus!
