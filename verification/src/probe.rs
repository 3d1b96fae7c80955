//! Computations of the storage maintenance tools: deciding whether a page
//! reads as erased, and locating a probe at a flash word index or byte
//! address within the storage area. Reading and writing the storage itself
//! is left to the caller.

use vstd::prelude::*;

use crate::chunks::{FLASH_START, WORD_SIZE};

verus! {

/// First byte address of the storage area inside the flash.
pub const STORAGE_START: usize = 0xBE000;

/// The byte every erased flash cell reads as.
pub const ERASED_BYTE: u8 = 0xff;

/// The byte the probe writes.
pub const PROBE_BYTE: u8 = 0xc3;

/// Whether every byte of the page reads as erased flash.
pub fn is_page_erased(page: &Vec<u8>) -> (r: bool)
    ensures
        r == (forall|i: int| 0 <= i < page@.len() ==> page@[i] == ERASED_BYTE),
{
    let mut i: usize = 0;
    while i < page.len()
        invariant
            i <= page@.len(),
            forall|j: int| 0 <= j < i ==> page@[j] == ERASED_BYTE,
        decreases page@.len() - i,
    {
        if page[i] != ERASED_BYTE {
            return false;
        }
        i = i + 1;
    }
    true
}

/// Where a probe lands, and the bytes it writes.
pub struct ProbeSpot {
    /// Byte address of the probed words in the address space.
    pub addr: usize,
    /// Storage page holding the probed words.
    pub page: usize,
    /// Byte offset of the probe inside that page.
    pub byte: usize,
    /// The pattern to write: `words` words of the probe byte.
    pub data: Vec<u8>,
}

/// Word index of the start of the storage area, relative to the flash base.
pub open spec fn storage_offset_words() -> int {
    (STORAGE_START - FLASH_START) as int / (WORD_SIZE as int)
}

/// Locates a probe of `words` words at flash word `index` in a storage whose
/// pages hold `page_size` words each: the byte address probed, the storage
/// page it falls in, and the byte offset inside that page.
pub fn test_index(index: usize, words: usize, page_size: usize) -> (r: ProbeSpot)
    requires
        page_size > 0,
        page_size * (WORD_SIZE as int) <= usize::MAX,
        index >= storage_offset_words(),
        index * (WORD_SIZE as int) + FLASH_START <= usize::MAX,
        words * (WORD_SIZE as int) <= usize::MAX,
    ensures
        r.addr == index * (WORD_SIZE as int) + FLASH_START,
        r.page == (index - storage_offset_words()) / (page_size as int),
        r.byte == ((index - storage_offset_words()) % (page_size as int)) * (WORD_SIZE as int),
        r.data@ == Seq::new((words * 4) as nat, |i: int| PROBE_BYTE),
{
    let offset = (STORAGE_START - FLASH_START) / WORD_SIZE;
    let page = (index - offset) / page_size;
    let byte = ((index - offset) % page_size) * WORD_SIZE;
    let addr = index * WORD_SIZE + FLASH_START;
    let total = words * WORD_SIZE;
    let mut data: Vec<u8> = Vec::new();
    let mut i: usize = 0;
    while i < total
        invariant
            i <= total,
            data@.len() == i,
            forall|j: int| 0 <= j < i ==> data@[j] == PROBE_BYTE,
        decreases total - i,
    {
        data.push(PROBE_BYTE);
        i = i + 1;
    }
    assert(data@ =~= Seq::new((words * 4) as nat, |i: int| PROBE_BYTE));
    ProbeSpot { addr, page, byte, data }
}

/// Locates a probe of `words` words at flash byte address `addr`, by its
/// word index.
pub fn test_address(addr: usize, words: usize, page_size: usize) -> (r: ProbeSpot)
    requires
        page_size > 0,
        page_size * (WORD_SIZE as int) <= usize::MAX,
        addr >= STORAGE_START,
        words * (WORD_SIZE as int) <= usize::MAX,
    ensures
        r.addr == ((addr - FLASH_START) as int / 4) * 4 + FLASH_START,
        r.page == ((addr - FLASH_START) as int / 4 - storage_offset_words()) / (page_size as int),
        r.byte == (((addr - FLASH_START) as int / 4 - storage_offset_words()) % (page_size as int))
            * (WORD_SIZE as int),
        r.data@ == Seq::new((words * 4) as nat, |i: int| PROBE_BYTE),
{
    test_index((addr - FLASH_START) / WORD_SIZE, words, page_size)
}

} // verus!
