//! Flash geometry constants and the chunking model.
//!
//! A write request is decomposed into chunks. Each chunk is bounded by the
//! largest buffer one hardware write call may carry and by the hardware's
//! write-boundary defect: a single write call must not span a 64-word-aligned
//! boundary. The functions here say, for a cursor position and a number of
//! words still to write, how long the next chunk is and which chunks a whole
//! request decomposes into.

use vstd::prelude::*;

verus! {

/// Number of bytes in one flash word.
pub const WORD_SIZE: usize = 4;

/// Number of bytes in one flash page.
pub const PAGE_SIZE: usize = 2048;

/// First byte address of the flash region this driver manages.
pub const FLASH_START: usize = 0x40000;

/// `FLASH_START` as a word index.
pub const FLASH_START_WORD: usize = FLASH_START / WORD_SIZE;

/// Advisory endurance limit: how often a word may be written between erases.
pub const MAX_WORD_WRITES: usize = 2;

/// Advisory endurance limit: how often a page may be erased.
pub const MAX_PAGE_ERASES: usize = 10000;

/// Largest number of words one hardware write call may carry.
pub const MAX_WRITE_LENGTH: usize = 32;

/// Writes that span a 256-byte (64-word) aligned boundary fail on this
/// hardware, so no single chunk may cross a boundary of this many words.
pub const WEIRD_SIZE: usize = 64;

/// Length in words of the next chunk when the absolute word cursor stands at
/// `p` and `remaining` words are still to be written: the distance to the
/// next 64-word boundary, capped by the hardware call limit and by what is
/// left.
pub open spec fn chunk_len(p: int, remaining: int) -> int {
    let room = WEIRD_SIZE as int - p % (WEIRD_SIZE as int);
    let cap = if room <= MAX_WRITE_LENGTH as int {
        room
    } else {
        MAX_WRITE_LENGTH as int
    };
    if remaining <= cap {
        remaining
    } else {
        cap
    }
}

/// The lengths of the chunks that a write of `remaining` words starting at
/// absolute word cursor `p` decomposes into, in the order they are issued.
pub open spec fn chunk_lens(p: int, remaining: int) -> Seq<int>
    decreases remaining,
{
    if remaining <= 0 {
        Seq::empty()
    } else {
        seq![chunk_len(p, remaining)] + chunk_lens(
            p + chunk_len(p, remaining),
            remaining - chunk_len(p, remaining),
        )
    }
}

/// Total of a sequence of chunk lengths.
pub open spec fn lens_sum(lens: Seq<int>) -> int
    decreases lens.len(),
{
    if lens.len() == 0 {
        0
    } else {
        lens[0] + lens_sum(lens.drop_first())
    }
}

/// The next chunk is never empty while words remain, and never longer than
/// what remains or than one hardware call allows.
pub proof fn lemma_chunk_len_bounds(p: int, remaining: int)
    requires
        p >= 0,
        remaining > 0,
    ensures
        0 < chunk_len(p, remaining) <= remaining,
        chunk_len(p, remaining) <= MAX_WRITE_LENGTH as int,
{
}

/// No chunk straddles a 64-word-aligned boundary: the first and the last word
/// of the chunk issued at cursor `p` lie in the same 64-word block.
pub proof fn lemma_chunk_in_one_block(p: int, remaining: int)
    requires
        p >= 0,
        remaining > 0,
    ensures
        p / (WEIRD_SIZE as int) == (p + chunk_len(p, remaining) - 1) / (WEIRD_SIZE as int),
{
    let b = WEIRD_SIZE as int;
    let c = chunk_len(p, remaining);
    assert(p == b * (p / b) + p % b) by {
        vstd::arithmetic::div_mod::lemma_fundamental_div_mod(p, b);
    }
    assert(c <= b - p % b);
    assert(b * (p / b) <= p + c - 1 < b * (p / b) + b);
    assert((p + c - 1) / b == p / b) by {
        vstd::arithmetic::div_mod::lemma_div_plus_one(p + c - 1, b);
        vstd::arithmetic::div_mod::lemma_fundamental_div_mod_converse(
            p + c - 1,
            b,
            p / b,
            p + c - 1 - b * (p / b),
        );
    }
}

/// The absolute word cursors at which the chunks of a write start: the first
/// at `p`, each later one where the previous chunk ended.
pub open spec fn chunk_starts(p: int, remaining: int) -> Seq<int>
    decreases remaining,
{
    if remaining <= 0 {
        Seq::empty()
    } else {
        seq![p] + chunk_starts(
            p + chunk_len(p, remaining),
            remaining - chunk_len(p, remaining),
        )
    }
}

/// A write plan has as many chunk starts as chunk lengths.
pub proof fn lemma_chunk_counts_agree(p: int, remaining: int)
    ensures
        chunk_lens(p, remaining).len() == chunk_starts(p, remaining).len(),
    decreases remaining,
{
    if remaining > 0 {
        let c = chunk_len(p, remaining);
        lemma_chunk_counts_agree(p + c, remaining - c);
    }
}

/// Every chunk of a write — not only the first — lies within a single
/// 64-word block: the inclusive word range it covers never straddles a
/// 64-word-aligned boundary, so the hardware defect is respected throughout
/// the request.
pub proof fn lemma_every_chunk_in_one_block(p: int, remaining: int, i: int)
    requires
        p >= 0,
        0 <= i < chunk_starts(p, remaining).len(),
    ensures
        chunk_lens(p, remaining).len() == chunk_starts(p, remaining).len(),
        ({
            let start = chunk_starts(p, remaining)[i];
            let len = chunk_lens(p, remaining)[i];
            start / (WEIRD_SIZE as int) == (start + len - 1) / (WEIRD_SIZE as int)
        }),
    decreases remaining,
{
    lemma_chunk_counts_agree(p, remaining);
    let c = chunk_len(p, remaining);
    lemma_chunk_len_bounds(p, remaining);
    if i == 0 {
        lemma_chunk_in_one_block(p, remaining);
        assert(chunk_starts(p, remaining)[0] == p);
        assert(chunk_lens(p, remaining)[0] == c);
    } else {
        lemma_every_chunk_in_one_block(p + c, remaining - c, i - 1);
        assert(chunk_starts(p, remaining)[i] == chunk_starts(p + c, remaining - c)[i - 1]);
        assert(chunk_lens(p, remaining)[i] == chunk_lens(p + c, remaining - c)[i - 1]);
    }
}

/// Chunks are issued in strictly increasing cursor order, with no gap and no
/// overlap: each chunk starts exactly where the previous one ended.
pub proof fn lemma_chunk_starts_contiguous(p: int, remaining: int, i: int)
    requires
        p >= 0,
        0 <= i,
        i + 1 < chunk_starts(p, remaining).len(),
    ensures
        chunk_lens(p, remaining).len() == chunk_starts(p, remaining).len(),
        chunk_starts(p, remaining)[i + 1] == chunk_starts(p, remaining)[i] + chunk_lens(
            p,
            remaining,
        )[i],
    decreases remaining,
{
    lemma_chunk_counts_agree(p, remaining);
    let c = chunk_len(p, remaining);
    lemma_chunk_len_bounds(p, remaining);
    if i == 0 {
        assert(chunk_starts(p, remaining)[0] == p);
        assert(chunk_lens(p, remaining)[0] == c);
        assert(chunk_starts(p, remaining)[1] == chunk_starts(p + c, remaining - c)[0]);
        lemma_chunk_counts_agree(p + c, remaining - c);
        assert(chunk_starts(p + c, remaining - c)[0] == p + c);
    } else {
        lemma_chunk_starts_contiguous(p + c, remaining - c, i - 1);
        assert(chunk_starts(p, remaining)[i + 1] == chunk_starts(p + c, remaining - c)[i]);
        assert(chunk_starts(p, remaining)[i] == chunk_starts(p + c, remaining - c)[i - 1]);
        assert(chunk_lens(p, remaining)[i] == chunk_lens(p + c, remaining - c)[i - 1]);
    }
}

/// A write of `remaining` words starting at cursor `p` is covered exactly by
/// its chunks: every chunk is non-empty, and the chunk lengths add up to
/// `remaining`. With `lemma_every_chunk_in_one_block`, every one of those
/// chunks stays inside a single 64-word block.
pub proof fn lemma_chunks_cover(p: int, remaining: int)
    requires
        p >= 0,
        remaining >= 0,
    ensures
        lens_sum(chunk_lens(p, remaining)) == remaining,
        forall|i: int|
            0 <= i < chunk_lens(p, remaining).len() ==> chunk_lens(p, remaining)[i] > 0,
        remaining == 0 <==> chunk_lens(p, remaining).len() == 0,
    decreases remaining,
{
    if remaining > 0 {
        let c = chunk_len(p, remaining);
        lemma_chunk_len_bounds(p, remaining);
        lemma_chunks_cover(p + c, remaining - c);
        let rest = chunk_lens(p + c, remaining - c);
        assert(chunk_lens(p, remaining).drop_first() =~= rest);
    }
}

} // verus!
