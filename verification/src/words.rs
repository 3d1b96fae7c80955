//! Reading flash words out of a byte region.
//!
//! The hardware takes write data as 32-bit words. A process hands the driver
//! a byte region whose length is word-aligned; each group of four bytes is
//! one word, least-significant byte first, the order in which the
//! little-endian target hardware reads memory.

use vstd::prelude::*;

verus! {

/// The word formed by the four bytes starting at byte index `4 * i`.
pub open spec fn word_at(bytes: Seq<u8>, i: int) -> u32 {
    (bytes[4 * i] + bytes[4 * i + 1] * 0x100 + bytes[4 * i + 2] * 0x1_0000 + bytes[4 * i + 3]
        * 0x100_0000) as u32
}

/// The words a byte region holds, in order. A trailing group of fewer than
/// four bytes (which a word-aligned region never has) is dropped.
pub open spec fn words_of(bytes: Seq<u8>) -> Seq<u32> {
    Seq::new((bytes.len() / 4) as nat, |i: int| word_at(bytes, i))
}

/// Assembles one word from four bytes, least-significant first.
pub fn word_from_bytes(b0: u8, b1: u8, b2: u8, b3: u8) -> (w: u32)
    ensures
        w == b0 + b1 * 0x100 + b2 * 0x1_0000 + b3 * 0x100_0000,
{
    b0 as u32 + b1 as u32 * 0x100 + b2 as u32 * 0x1_0000 + b3 as u32 * 0x100_0000
}

} // verus!
