//! User-facing computations of the security-key application: LED patterns,
//! the console line reporting a packet event, and the user-presence check.
//!
//! Each LED pattern is returned as one `bool` per LED, lit or dark; driving
//! the LEDs themselves is left to the caller, as is printing.

use vstd::prelude::*;
use vstd::string::StringSliceAdditionalSpecFns;

verus! {

/// Whether `n` has an odd number of one bits.
pub open spec fn ones_parity(n: int) -> bool
    decreases n,
{
    if n <= 0 {
        false
    } else {
        (n % 2 == 1) != ones_parity(n / 2)
    }
}

/// Computes the parity of the number of one bits in `x`.
fn odd_parity(x: usize) -> (b: bool)
    ensures
        b == ones_parity(x as int),
{
    let mut v = x;
    let mut par = false;
    while v > 0
        invariant
            (par != ones_parity(v as int)) == ones_parity(x as int),
        decreases v,
    {
        par = par != (v % 2 == 1);
        v = v / 2;
    }
    par
}

/// LED pattern asking for user presence: LED `l` is lit exactly when
/// `pattern_seed ^ l` has an odd number of one bits, for `count` LEDs.
pub fn blink_leds(pattern_seed: usize, count: usize) -> (r: Vec<bool>)
    ensures
        r@.len() == count,
        forall|l: int| 0 <= l < count ==> r@[l] == ones_parity((pattern_seed ^ (l as usize)) as int),
{
    let mut r: Vec<bool> = Vec::new();
    let mut l: usize = 0;
    while l < count
        invariant
            l <= count,
            r@.len() == l,
            forall|j: int| 0 <= j < l ==> r@[j] == ones_parity((pattern_seed ^ (j as usize)) as int),
        decreases count - l,
    {
        r.push(odd_parity(pattern_seed ^ l));
        l = l + 1;
    }
    r
}

/// Which LED the wink pattern treats as position `l`: positions 2 and 3 are
/// exchanged so that the LEDs form a circle on boards that wire them
/// crosswise.
pub open spec fn wink_swap(l: int) -> int {
    if l == 2 {
        3
    } else if l == 3 {
        2
    } else {
        l
    }
}

/// Whether LED `l` is lit in the wink "snake" for this seed: three indices
/// derived from the seed circle through the `count` LEDs.
pub open spec fn wink_lit(pattern_seed: int, count: int, l: int) -> bool {
    let a = (pattern_seed / 2) % count;
    let b = ((pattern_seed + 1) / 2) % count;
    let c = ((pattern_seed + 3) / 2) % count;
    wink_swap(l) == a || wink_swap(l) == b || wink_swap(l) == c
}

/// LED pattern of the wink acknowledgement: a snake of two or three lit LEDs
/// circling through all `count` LEDs as the seed advances.
pub fn wink_leds(pattern_seed: usize, count: usize) -> (r: Vec<bool>)
    requires
        count > 0,
        pattern_seed + 3 <= usize::MAX,
    ensures
        r@.len() == count,
        forall|l: int| 0 <= l < count ==> r@[l] == wink_lit(pattern_seed as int, count as int, l),
{
    let a = (pattern_seed / 2) % count;
    let b = ((pattern_seed + 1) / 2) % count;
    let c = ((pattern_seed + 3) / 2) % count;
    let mut r: Vec<bool> = Vec::new();
    let mut l: usize = 0;
    while l < count
        invariant
            l <= count,
            r@.len() == l,
            a == (pattern_seed as int / 2) % (count as int),
            b == ((pattern_seed as int + 1) / 2) % (count as int),
            c == ((pattern_seed as int + 3) / 2) % (count as int),
            forall|j: int|
                0 <= j < l ==> r@[j] == wink_lit(pattern_seed as int, count as int, j),
        decreases count - l,
    {
        let k = if l == 2 {
            3
        } else if l == 3 {
            2
        } else {
            l
        };
        r.push(k == a || k == b || k == c);
        l = l + 1;
    }
    r
}

/// LED pattern with every one of the `count` LEDs dark.
pub fn switch_off_leds(count: usize) -> (r: Vec<bool>)
    ensures
        r@.len() == count,
        forall|l: int| 0 <= l < count ==> r@[l] == false,
{
    let mut r: Vec<bool> = Vec::new();
    let mut l: usize = 0;
    while l < count
        invariant
            l <= count,
            r@.len() == l,
            forall|j: int| 0 <= j < l ==> r@[j] == false,
        decreases count - l,
    {
        r.push(false);
        l = l + 1;
    }
    r
}

/// Identifier of the transport channel a request arrived on.
pub type ChannelId = [u8; 4];

/// Checks for user presence on the given channel. This build grants presence
/// unconditionally; the error is a status code of the authenticator
/// protocol.
pub fn check_user_presence(cid: ChannelId) -> (r: Result<(), u8>)
    ensures
        r is Ok,
{
    let _ = cid;
    Ok(())
}

/// The decimal digits of `n`, most significant first, as ASCII bytes.
pub open spec fn dec_digits(n: int) -> Seq<u8>
    decreases n,
{
    if n < 10 {
        seq![(n + 0x30) as u8]
    } else {
        dec_digits(n / 10) + seq![(n % 10 + 0x30) as u8]
    }
}

/// The lowest `width` decimal digits of `n` as ASCII bytes, zero-padded on
/// the left to exactly `width` digits.
pub open spec fn dec_digits_fixed(n: int, width: nat) -> Seq<u8>
    decreases width,
{
    if width == 0 {
        Seq::empty()
    } else {
        dec_digits_fixed(n / 10, (width - 1) as nat) + seq![(n % 10 + 0x30) as u8]
    }
}

/// The console line reporting a packet event: the notice text, then the time
/// as seconds and six digits of microseconds.
pub open spec fn notice_line(text: Seq<u8>, now_us: int) -> Seq<u8> {
    text + seq![' ' as u8, 'a' as u8, 't' as u8, ' ' as u8] + dec_digits(now_us / 1_000_000)
        + seq!['.' as u8] + dec_digits_fixed(now_us % 1_000_000, 6) + seq![' ' as u8, 's' as u8]
}

/// Appends the decimal digits of `n`.
fn push_decimal(out: &mut Vec<u8>, n: u64)
    ensures
        final(out)@ == old(out)@ + dec_digits(n as int),
    decreases n,
{
    if n >= 10 {
        push_decimal(out, n / 10);
    }
    out.push((n % 10) as u8 + 0x30);
    assert(out@ =~= old(out)@ + dec_digits(n as int));
}

/// Appends exactly `width` decimal digits of `n`, zero-padded.
fn push_decimal_fixed(out: &mut Vec<u8>, n: u64, width: usize)
    ensures
        final(out)@ == old(out)@ + dec_digits_fixed(n as int, width as nat),
    decreases width,
{
    if width > 0 {
        push_decimal_fixed(out, n / 10, width - 1);
        out.push((n % 10) as u8 + 0x30);
    }
    assert(out@ =~= old(out)@ + dec_digits_fixed(n as int, width as nat));
}

/// Appends all bytes of a slice.
fn push_bytes(out: &mut Vec<u8>, bytes: &[u8])
    ensures
        final(out)@ == old(out)@ + bytes@,
{
    let mut i: usize = 0;
    while i < bytes.len()
        invariant
            i <= bytes@.len(),
            out@ == old(out)@ + bytes@.subrange(0, i as int),
        decreases bytes@.len() - i,
    {
        let b = bytes[i];
        out.push(b);
        assert(out@ =~= old(out)@ + bytes@.subrange(0, i + 1));
        i = i + 1;
    }
    assert(out@ =~= old(out)@ + bytes@);
}

/// Renders the console line that reports a packet event, with the time in
/// microseconds split into seconds and a six-digit fraction. The line is
/// returned as ASCII bytes; printing it is left to the caller.
pub fn print_packet_notice(notice_text: &str, now_us: u64) -> (r: Vec<u8>)
    ensures
        r@ == notice_line(notice_text.spec_bytes(), now_us as int),
{
    let mut out: Vec<u8> = Vec::new();
    push_bytes(&mut out, notice_text.as_bytes());
    out.push(' ' as u8);
    out.push('a' as u8);
    out.push('t' as u8);
    out.push(' ' as u8);
    push_decimal(&mut out, now_us / 1_000_000);
    out.push('.' as u8);
    push_decimal_fixed(&mut out, now_us % 1_000_000, 6);
    out.push(' ' as u8);
    out.push('s' as u8);
    assert(out@ =~= notice_line(notice_text.spec_bytes(), now_us as int));
    out
}

} // verus!
