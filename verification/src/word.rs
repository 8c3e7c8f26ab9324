//! Bytes and 16-bit words: how two bytes make a word, and how a one-byte
//! displacement moves an address.

use vstd::prelude::*;

verus! {

/// The word whose upper byte is `high` and whose lower byte is `low`.
pub open spec fn word(high: u8, low: u8) -> u16 {
    (high * 256 + low) as u16
}

/// The upper byte of `w`.
pub open spec fn high_byte(w: u16) -> u8 {
    (w / 256) as u8
}

/// The lower byte of `w`.
pub open spec fn low_byte(w: u16) -> u8 {
    (w % 256) as u8
}

/// The 16-bit word that `n` comes to when counting wraps round: 0x10000 is 0
/// again, and -1 is 0xFFFF.
#[verifier::opaque]
pub open spec fn wrap16(n: int) -> u16 {
    (n % 0x1_0000) as u16
}

/// The byte that `n` comes to when counting wraps round: 0x100 is 0 again,
/// and -1 is 0xFF.
#[verifier::opaque]
pub open spec fn wrap8(n: int) -> u8 {
    (n % 0x100) as u8
}

/// The value of `off` read as a signed displacement, -128 to 127.
pub open spec fn signed(off: u8) -> int {
    if off < 0x80 {
        off as int
    } else {
        off - 0x100
    }
}

/// Splitting a word and joining the halves gives the word back, and joining
/// two bytes and splitting the word gives the bytes back.
pub proof fn lemma_word_halves(w: u16, high: u8, low: u8)
    ensures
        word(high_byte(w), low_byte(w)) == w,
        high_byte(word(high, low)) == high,
        low_byte(word(high, low)) == low,
{
}

/// Joins two bytes into a word.
pub fn make_word(high: u8, low: u8) -> (w: u16)
    ensures
        w == word(high, low),
{
    let w: u16 = ((high as u16) << 8) | (low as u16);
    assert(((high as u16) << 8) | (low as u16) == high * 256 + low) by (bit_vector);
    w
}

/// The upper byte of a word.
pub fn upper(w: u16) -> (b: u8)
    ensures
        b == high_byte(w),
{
    let b: u8 = (w >> 8) as u8;
    assert(w >> 8 == w / 256) by (bit_vector);
    b
}

/// The lower byte of a word.
pub fn lower(w: u16) -> (b: u8)
    ensures
        b == low_byte(w),
{
    let b: u8 = (w & 0x00FF) as u8;
    assert(w & 0x00FF == w % 256) by (bit_vector);
    b
}

/// Counting on 16 bits wraps round: a word stays what it is, and only the
/// remainder by 0x10000 counts.
pub proof fn lemma_wrap16(n: int)
    ensures
        wrap16(n) == n % 0x1_0000,
        0 <= n <= 0xFFFF ==> wrap16(n) == n,
        wrap16(n + 0x1_0000) == wrap16(n),
        wrap16(n - 0x1_0000) == wrap16(n),
{
    reveal(wrap16);
}

/// Counting on 8 bits wraps round: a byte stays what it is, and only the
/// remainder by 0x100 counts.
pub proof fn lemma_wrap8(n: int)
    ensures
        wrap8(n) == n % 0x100,
        0 <= n <= 0xFF ==> wrap8(n) == n,
        wrap8(n + 0x100) == wrap8(n),
        wrap8(n - 0x100) == wrap8(n),
{
    reveal(wrap8);
}

/// `base + n` on 16 bits, wrapping round.
pub fn add16(base: u16, n: u16) -> (r: u16)
    ensures
        r == wrap16(base + n),
{
    reveal(wrap16);
    base.wrapping_add(n)
}

/// `base - n` on 16 bits, wrapping round.
pub fn sub16(base: u16, n: u16) -> (r: u16)
    ensures
        r == wrap16(base - n),
{
    reveal(wrap16);
    base.wrapping_sub(n)
}

/// `base + n` on 8 bits, wrapping round.
pub fn add8(base: u8, n: u8) -> (r: u8)
    ensures
        r == wrap8(base + n),
{
    reveal(wrap8);
    base.wrapping_add(n)
}

/// `base - n` on 8 bits, wrapping round.
pub fn sub8(base: u8, n: u8) -> (r: u8)
    ensures
        r == wrap8(base - n),
{
    reveal(wrap8);
    base.wrapping_sub(n)
}

/// Moves `base` by the signed displacement `off`, wrapping round the ends of
/// the address space.
pub fn displace(base: u16, off: u8) -> (r: u16)
    ensures
        r == wrap16(base + signed(off)),
{
    reveal(wrap16);
    if off < 0x80 {
        base.wrapping_add(off as u16)
    } else {
        base.wrapping_sub(0x100 - off as u16)
    }
}

} // verus!
