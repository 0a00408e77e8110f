//! Word-level helpers shared by the bus and the instruction engine: bit
//! fields, little-endian composition, rotations and sign extension.

use vstd::prelude::*;
use vstd::arithmetic::div_mod::lemma_fundamental_div_mod_converse;

verus! {

/// The field of `x` that starts at bit `lo` and is selected by `mask`.
pub open spec fn field(x: u32, lo: u32, mask: u32) -> u32 {
    (x >> lo) & mask
}

/// Whether bit `n` of `x` is set.
pub open spec fn bit(x: u32, n: u32) -> bool {
    field(x, n, 1) == 1
}

pub proof fn lemma_field_bound(x: u32, lo: u32, mask: u32)
    ensures
        field(x, lo, mask) <= mask,
{
    assert((x >> lo) & mask <= mask) by (bit_vector);
}

/// Reads the field of `x` that starts at bit `lo` and is selected by `mask`.
pub fn extract(x: u32, lo: u32, mask: u32) -> (r: u32)
    requires
        lo < 32,
    ensures
        r == field(x, lo, mask),
        r <= mask,
{
    proof {
        lemma_field_bound(x, lo, mask);
    }
    (x >> lo) & mask
}

/// Reads bit `n` of `x`.
pub fn test_bit(x: u32, n: u32) -> (r: bool)
    requires
        n < 32,
    ensures
        r == bit(x, n),
{
    extract(x, n, 1) == 1
}

/// Byte `i` (0 is the least significant) of a word.
pub open spec fn byte_of(x: u32, i: int) -> u8 {
    if i == 0 {
        (x % 0x100) as u8
    } else if i == 1 {
        (x / 0x100 % 0x100) as u8
    } else if i == 2 {
        (x / 0x1_0000 % 0x100) as u8
    } else {
        (x / 0x100_0000 % 0x100) as u8
    }
}

/// The half-word whose low byte is `lo` and whose high byte is `hi`.
pub open spec fn le16(lo: u8, hi: u8) -> u16 {
    (lo + hi * 0x100) as u16
}

/// The word made of four bytes, least significant first.
pub open spec fn le32(b0: u8, b1: u8, b2: u8, b3: u8) -> u32 {
    (b0 + b1 * 0x100 + b2 * 0x1_0000 + b3 * 0x100_0000) as u32
}

/// The word made of two half-words, least significant first.
pub open spec fn join_halves(lo: u16, hi: u16) -> u32 {
    (lo + hi * 0x1_0000) as u32
}

pub fn get_byte(x: u32, i: usize) -> (r: u8)
    requires
        i < 4,
    ensures
        r == byte_of(x, i as int),
{
    if i == 0 {
        (x % 0x100) as u8
    } else if i == 1 {
        (x / 0x100 % 0x100) as u8
    } else if i == 2 {
        (x / 0x1_0000 % 0x100) as u8
    } else {
        (x / 0x100_0000 % 0x100) as u8
    }
}

pub fn make_half(lo: u8, hi: u8) -> (r: u16)
    ensures
        r == le16(lo, hi),
{
    lo as u16 + hi as u16 * 0x100
}

pub fn make_word(b0: u8, b1: u8, b2: u8, b3: u8) -> (r: u32)
    ensures
        r == le32(b0, b1, b2, b3),
{
    b0 as u32 + b1 as u32 * 0x100 + b2 as u32 * 0x1_0000 + b3 as u32 * 0x100_0000
}

/// A word is the little-endian composition of its own four bytes.
pub proof fn lemma_bytes_of_word(x: u32)
    ensures
        le32(byte_of(x, 0), byte_of(x, 1), byte_of(x, 2), byte_of(x, 3)) == x,
{
}

/// The bytes of a composed word are the bytes it was composed of.
pub proof fn lemma_word_of_bytes(b0: u8, b1: u8, b2: u8, b3: u8)
    ensures
        byte_of(le32(b0, b1, b2, b3), 0) == b0,
        byte_of(le32(b0, b1, b2, b3), 1) == b1,
        byte_of(le32(b0, b1, b2, b3), 2) == b2,
        byte_of(le32(b0, b1, b2, b3), 3) == b3,
{
    let w = le32(b0, b1, b2, b3) as int;
    let top = b3 as int;
    let upper = b2 + b3 * 0x100;
    let high = b1 + b2 * 0x100 + b3 * 0x1_0000;
    lemma_fundamental_div_mod_converse(w, 0x100, high, b0 as int);
    lemma_fundamental_div_mod_converse(high, 0x100, upper, b1 as int);
    lemma_fundamental_div_mod_converse(w, 0x1_0000, upper, b0 + b1 * 0x100);
    lemma_fundamental_div_mod_converse(upper, 0x100, top, b2 as int);
    lemma_fundamental_div_mod_converse(w, 0x100_0000, top, b0 + b1 * 0x100 + b2 * 0x1_0000);
}

/// A half-word rotated right by `8 * k` bits; `k` counts the bytes by which
/// an access is misaligned.
pub open spec fn rotr16_bytes(x: u16, k: int) -> u16 {
    if k % 2 == 0 {
        x
    } else {
        (x / 0x100 + (x % 0x100) * 0x100) as u16
    }
}

/// A word rotated right by `8 * k` bits.
pub open spec fn rotr32_bytes(x: u32, k: int) -> u32 {
    if k % 4 == 0 {
        x
    } else if k % 4 == 1 {
        (x / 0x100 + (x % 0x100) * 0x100_0000) as u32
    } else if k % 4 == 2 {
        (x / 0x1_0000 + (x % 0x1_0000) * 0x1_0000) as u32
    } else {
        (x / 0x100_0000 + (x % 0x100_0000) * 0x100) as u32
    }
}

pub fn rotate_half_bytes(x: u16, k: u32) -> (r: u16)
    ensures
        r == rotr16_bytes(x, k as int),
{
    if k % 2 == 0 {
        x
    } else {
        x / 0x100 + (x % 0x100) * 0x100
    }
}

pub fn rotate_word_bytes(x: u32, k: u32) -> (r: u32)
    ensures
        r == rotr32_bytes(x, k as int),
{
    let m: u32 = k % 4;
    if m == 0 {
        x
    } else if m == 1 {
        x / 0x100 + (x % 0x100) * 0x100_0000
    } else if m == 2 {
        x / 0x1_0000 + (x % 0x1_0000) * 0x1_0000
    } else {
        x / 0x100_0000 + (x % 0x100_0000) * 0x100
    }
}

/// Rotating a word right by one byte moves byte `i + 1` to place `i`.
pub proof fn lemma_rotr32_one_byte(x: u32)
    ensures
        byte_of(rotr32_bytes(x, 1), 0) == byte_of(x, 1),
        byte_of(rotr32_bytes(x, 1), 1) == byte_of(x, 2),
        byte_of(rotr32_bytes(x, 1), 2) == byte_of(x, 3),
        byte_of(rotr32_bytes(x, 1), 3) == byte_of(x, 0),
{
}

/// `x` rotated right by `n` bits, `n` below 32.
pub open spec fn ror(x: u32, n: u32) -> u32 {
    if n == 0 {
        x
    } else {
        (x >> n) | (x << ((32 - n) as u32))
    }
}

pub fn rotate_right(x: u32, n: u32) -> (r: u32)
    requires
        n < 32,
    ensures
        r == ror(x, n),
{
    if n == 0 {
        x
    } else {
        (x >> n) | (x << (32 - n))
    }
}

/// The value of the low `2 * half` bits of `x` read as a signed number and
/// written back as a word: numbers from `half` up stand for negatives.
pub open spec fn sign_extend(x: u32, half: u32) -> u32 {
    if x >= half {
        (x + 0x1_0000_0000 - 2 * half) as u32
    } else {
        x
    }
}

pub fn extend_sign(x: u32, half: u32) -> (r: u32)
    requires
        0 < half <= 0x8000_0000,
        x < 2 * half,
    ensures
        r == sign_extend(x, half),
{
    if x >= half {
        let gap: u32 = ((0x8000_0000u32 - half) * 2) as u32;
        x + gap
    } else {
        x
    }
}

/// What a word stands for when its top bit is read as a sign.
pub open spec fn signed(x: u32) -> int {
    if x >= 0x8000_0000 {
        x - 0x1_0000_0000
    } else {
        x as int
    }
}

/// `(a + b) mod 2^32`, for any integer `b`.
pub open spec fn wrap32(v: int) -> u32 {
    (v % 0x1_0000_0000) as u32
}

/// How many of the low `n` bits of `x` are set.
pub open spec fn count_bits(x: u32, n: nat) -> nat
    decreases n,
{
    if n == 0 {
        0
    } else {
        count_bits(x, (n - 1) as nat) + if bit(x, (n - 1) as u32) {
            1nat
        } else {
            0nat
        }
    }
}

/// Counts the set bits among the low `n` bits of `x`.
pub fn count_low_bits(x: u32, n: u32) -> (r: u32)
    requires
        n <= 32,
    ensures
        r == count_bits(x, n as nat),
        r <= n,
{
    let mut i: u32 = 0;
    let mut total: u32 = 0;
    while i < n
        invariant
            i <= n <= 32,
            total == count_bits(x, i as nat),
            total <= i,
        decreases n - i,
    {
        if test_bit(x, i) {
            total = total + 1;
        }
        i = i + 1;
    }
    total
}

} // verus!
