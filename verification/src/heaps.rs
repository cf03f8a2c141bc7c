//! The heaps: byte pages that grow as they are written and never shrink.

use crate::word::{lemma_be_bytes_round_trip, Word};
use vstd::prelude::*;

verus! {

/// A request to read or write the 32-byte word with index `index` of the page
/// `page`. A write carries the word in `value`; a read gets it back there.
#[derive(Clone, Copy, Debug, PartialEq, Eq, Structural)]
pub struct MemoryQuery {
    pub page: u32,
    pub index: u32,
    pub value: Word,
    pub rw_flag: bool,
    pub value_is_pointer: bool,
}

/// The `len` bytes of `page` from `start` on, with zero for every byte that
/// lies beyond the end of the page.
pub open spec fn read_bytes(page: Seq<u8>, start: int, len: int) -> Seq<u8> {
    Seq::new(
        len as nat,
        |i: int|
            if start + i < page.len() {
                page[start + i]
            } else {
                0u8
            },
    )
}

/// `page` with `bytes` written from `start` on. A page that ends before
/// `start + bytes.len()` is first filled up with zeros to that length.
pub open spec fn write_bytes(page: Seq<u8>, start: int, bytes: Seq<u8>) -> Seq<u8> {
    let end = start + bytes.len();
    let len = if page.len() >= end {
        page.len()
    } else {
        end as nat
    };
    Seq::new(
        len,
        |i: int|
            if start <= i < end {
                bytes[i - start]
            } else if i < page.len() {
                page[i]
            } else {
                0u8
            },
    )
}

/// The pages and the answer after `query` was carried out on `pages`.
pub open spec fn query_result(pages: Seq<Seq<u8>>, query: MemoryQuery) -> (
    Seq<Seq<u8>>,
    MemoryQuery,
) {
    let page = pages[query.page as int];
    let start = query.index * 32;
    if query.rw_flag {
        (pages.update(query.page as int, write_bytes(page, start, query.value.be_bytes())), query)
    } else {
        (
            pages,
            MemoryQuery {
                value: Word::from_be_bytes(read_bytes(page, start, 32)),
                value_is_pointer: false,
                ..query
            },
        )
    }
}

/// A word that was written is read back from the same place, as a plain
/// word, and reading changes no page.
pub proof fn lemma_write_then_read(pages: Seq<Seq<u8>>, write: MemoryQuery)
    requires
        write.rw_flag,
        write.page < pages.len(),
    ensures
        ({
            let written = query_result(pages, write).0;
            let read = MemoryQuery { rw_flag: false, ..write };
            query_result(written, read) == (
                written,
                MemoryQuery { rw_flag: false, value_is_pointer: false, ..write },
            )
        }),
{
    let written = query_result(pages, write).0;
    let start = write.index * 32;
    lemma_be_bytes_round_trip(write.value);
    assert(read_bytes(written[write.page as int], start, 32) =~= write.value.be_bytes());
}

/// No query takes a page away or makes one shorter, and a query touches
/// no page but its own.
pub proof fn lemma_pages_never_shrink(pages: Seq<Seq<u8>>, query: MemoryQuery)
    requires
        query.page < pages.len(),
    ensures
        ({
            let after = query_result(pages, query).0;
            &&& after.len() == pages.len()
            &&& forall|p: int| 0 <= p < pages.len() ==> #[trigger] after[p].len() >= pages[p].len()
            &&& forall|p: int| 0 <= p < pages.len() && p != query.page ==> #[trigger] after[p] == pages[p]
        }),
{
}

/// A growable collection of byte pages, each found by its number.
pub struct Heaps {
    pages: Vec<Vec<u8>>,
}

impl View for Heaps {
    type V = Seq<Seq<u8>>;

    /// The pages, by number.
    closed spec fn view(&self) -> Seq<Seq<u8>> {
        Seq::new(self.pages@.len(), |i: int| self.pages@[i]@)
    }
}

impl Heaps {
    /// A collection without any page.
    pub fn new() -> (heaps: Heaps)
        ensures
            heaps@.len() == 0,
    {
        Heaps { pages: Vec::new() }
    }

    /// The number of pages.
    pub fn len(&self) -> (n: usize)
        ensures
            n == self@.len(),
    {
        self.pages.len()
    }

    /// Adds an empty page and returns its number.
    pub fn allocate(&mut self) -> (page: u32)
        requires
            old(self)@.len() < u32::MAX,
        ensures
            page == old(self)@.len(),
            final(self)@ == old(self)@.push(Seq::<u8>::empty()),
    {
        let page: u32 = self.pages.len() as u32;
        self.pages.push(Vec::new());
        assert(self@ =~= old(self)@.push(Seq::<u8>::empty()));
        page
    }

    /// The `len` bytes of the page from `start` on, with zero for what lies
    /// beyond its end.
    pub fn read_range(&self, page: u32, start: u64, len: u32) -> (bytes: Vec<u8>)
        requires
            page < self@.len(),
            start + len <= u64::MAX,
        ensures
            bytes@ == read_bytes(self@[page as int], start as int, len as int),
    {
        let source = &self.pages[page as usize];
        let mut bytes: Vec<u8> = Vec::new();
        let mut i: u32 = 0;
        while i < len
            invariant
                i <= len,
                start + len <= u64::MAX,
                page < self@.len(),
                bytes@.len() == i,
                source@ == self@[page as int],
                forall|k: int|
                    0 <= k < i ==> #[trigger] bytes@[k] == read_bytes(
                        source@,
                        start as int,
                        len as int,
                    )[k],
            decreases len - i,
        {
            let at: u64 = start + i as u64;
            let byte: u8 = if at < source.len() as u64 {
                source[at as usize]
            } else {
                0
            };
            bytes.push(byte);
            i = i + 1;
        }
        assert(bytes@ =~= read_bytes(self@[page as int], start as int, len as int));
        bytes
    }

    /// Carries out a query. A write fills the page up with zeros as far as
    /// the word reaches and stores the word's 32 bytes, most significant
    /// first. A read takes the word from the 32 bytes, zero where the page
    /// has ended, and marks it as no pointer.
    pub fn execute_partial_query(&mut self, query: MemoryQuery) -> (answer: MemoryQuery)
        requires
            query.page < old(self)@.len(),
            query.index * 32 + 32 <= usize::MAX,
        ensures
            (final(self)@, answer) == query_result(old(self)@, query),
    {
        let page: usize = query.page as usize;
        let start: usize = query.index as usize * 32;
        let end: usize = start + 32;
        if query.rw_flag {
            let ghost before = self.pages@[page as int]@;
            let bytes: [u8; 32] = query.value.to_big_endian();
            if end > self.pages[page].len() {
                self.pages[page].resize(end, 0u8);
            }
            let ghost grown = self.pages@[page as int]@;
            assert(grown.len() >= end);
            assert(forall|k: int| 0 <= k < before.len() ==> grown[k] == before[k]) by {
                if end > before.len() {
                    assert(grown.subrange(0, before.len() as int) == before);
                    assert forall|k: int| 0 <= k < before.len() implies grown[k] == before[k] by {
                        assert(grown.subrange(0, before.len() as int)[k] == grown[k]);
                    }
                }
            }
            assert(forall|k: int| before.len() <= k < grown.len() ==> grown[k] == 0u8);
            let mut i: usize = 0;
            while i < 32
                invariant
                    i <= 32,
                    end == start + 32,
                    page < self.pages@.len(),
                    self.pages@.len() == old(self).pages@.len(),
                    forall|p: int|
                        0 <= p < self.pages@.len() && p != page ==> self.pages@[p] == old(
                            self,
                        ).pages@[p],
                    self.pages@[page as int]@.len() == grown.len(),
                    grown.len() >= end,
                    bytes@ == query.value.be_bytes(),
                    bytes@.len() == 32,
                    forall|k: int|
                        0 <= k < grown.len() ==> #[trigger] self.pages@[page as int]@[k] == (if start
                            <= k < start + i {
                            bytes@[k - start]
                        } else {
                            grown[k]
                        }),
                decreases 32 - i,
            {
                let byte: u8 = bytes[i];
                self.pages[page].set(start + i, byte);
                i = i + 1;
            }
            assert(self.pages@[page as int]@ =~= write_bytes(
                before,
                start as int,
                query.value.be_bytes(),
            ));
            assert(self@ =~= old(self)@.update(
                query.page as int,
                write_bytes(before, start as int, query.value.be_bytes()),
            ));
            query
        } else {
            let source = &self.pages[page];
            let mut buffer: [u8; 32] = [0u8; 32];
            let mut i: usize = 0;
            while i < 32
                invariant
                    i <= 32,
                    end == start + 32,
                    source@ == self@[query.page as int],
                    buffer@.len() == 32,
                    forall|k: int|
                        0 <= k < 32 ==> #[trigger] buffer@[k] == (if k < i && start + k
                            < source@.len() {
                            source@[start + k]
                        } else {
                            0u8
                        }),
                decreases 32 - i,
            {
                if start + i < source.len() {
                    buffer[i] = source[start + i];
                }
                i = i + 1;
            }
            assert(buffer@ =~= read_bytes(self@[query.page as int], start as int, 32));
            let value = Word::from_big_endian(&buffer);
            MemoryQuery {
                page: query.page,
                index: query.index,
                value,
                rw_flag: query.rw_flag,
                value_is_pointer: false,
            }
        }
    }
}

} // verus!
