//! Arithmetic and shifts as the processor performs them: a 32-bit result
//! together with the carry and signed-overflow outcomes that feed the status
//! flags.

use vstd::prelude::*;
use crate::bits::{signed, wrap32, bit, ror, test_bit, rotate_right};

verus! {

/// What an arithmetic or shift step hands to the status register.
#[derive(Clone, Copy, Debug, PartialEq, Eq, Structural)]
pub struct AluOut {
    pub value: u32,
    pub carry: bool,
    pub overflow: bool,
}

pub open spec fn carry_in(c: bool) -> int {
    if c {
        1
    } else {
        0
    }
}

pub open spec fn fits_signed(v: int) -> bool {
    -0x8000_0000 <= v < 0x8000_0000
}

/// `a + b + c`: the sum modulo 2^32, carry when the unsigned sum does not
/// fit, overflow when the signed sum does not fit.
pub open spec fn add_spec(a: u32, b: u32, c: bool) -> AluOut {
    AluOut {
        value: wrap32(a + b + carry_in(c)),
        carry: a + b + carry_in(c) >= 0x1_0000_0000,
        overflow: !fits_signed(signed(a) + signed(b) + carry_in(c)),
    }
}

/// `a - b - (1 - c)`: the difference modulo 2^32, carry when no borrow was
/// needed, overflow when the signed difference does not fit.
pub open spec fn sub_spec(a: u32, b: u32, c: bool) -> AluOut {
    AluOut {
        value: wrap32(a - b - (1 - carry_in(c))),
        carry: a - b - (1 - carry_in(c)) >= 0,
        overflow: !fits_signed(signed(a) - signed(b) - (1 - carry_in(c))),
    }
}

/// Whether a result is negative when read as a signed number.
pub open spec fn is_negative(x: u32) -> bool {
    x >= 0x8000_0000
}

pub fn negative(x: u32) -> (r: bool)
    ensures
        r == is_negative(x),
{
    x >= 0x8000_0000
}

pub fn add_with_carry(a: u32, b: u32, c: bool) -> (out: AluOut)
    ensures
        out == add_spec(a, b, c),
{
    let cin: u64 = if c { 1 } else { 0 };
    let sum: u64 = a as u64 + b as u64 + cin;
    let value: u32 = (sum % 0x1_0000_0000) as u32;
    let carry = sum >= 0x1_0000_0000;
    let overflow = negative(a) == negative(b) && negative(value) != negative(a);
    AluOut { value, carry, overflow }
}

pub fn sub_with_carry(a: u32, b: u32, c: bool) -> (out: AluOut)
    ensures
        out == sub_spec(a, b, c),
{
    let borrow: u64 = if c { 0 } else { 1 };
    let take: u64 = b as u64 + borrow;
    let carry = a as u64 >= take;
    let value: u32 = if carry {
        (a as u64 - take) as u32
    } else {
        (a as u64 + 0x1_0000_0000 - take) as u32
    };
    let overflow = negative(a) != negative(b) && negative(value) != negative(a);
    AluOut { value, carry, overflow }
}

/// The four shift kinds, by their two-bit encoding.
#[derive(Clone, Copy, Debug, PartialEq, Eq, Structural)]
pub enum ShiftKind {
    Lsl,
    Lsr,
    Asr,
    Ror,
}

pub open spec fn shift_kind_of(code: u32) -> ShiftKind {
    if code == 0 {
        ShiftKind::Lsl
    } else if code == 1 {
        ShiftKind::Lsr
    } else if code == 2 {
        ShiftKind::Asr
    } else {
        ShiftKind::Ror
    }
}

pub fn decode_shift_kind(code: u32) -> (k: ShiftKind)
    ensures
        k == shift_kind_of(code),
{
    if code == 0 {
        ShiftKind::Lsl
    } else if code == 1 {
        ShiftKind::Lsr
    } else if code == 2 {
        ShiftKind::Asr
    } else {
        ShiftKind::Ror
    }
}

/// The bits that an arithmetic right shift by `n` (1 to 31) fills in at
/// the top of a negative number.
pub open spec fn sign_fill(n: u32) -> u32 {
    !(0xFFFF_FFFFu32 >> n)
}

/// `v` shifted right by `n` bits with the sign bit copied in from the left;
/// from 32 bits on every bit is a copy of the sign.
pub open spec fn asr(v: u32, n: u32) -> u32 {
    if n == 0 {
        v
    } else if n >= 32 {
        if is_negative(v) {
            0xFFFF_FFFF
        } else {
            0
        }
    } else if is_negative(v) {
        (v >> n) | sign_fill(n)
    } else {
        v >> n
    }
}

pub fn arithmetic_shift_right(v: u32, n: u32) -> (r: u32)
    ensures
        r == asr(v, n),
{
    if n == 0 {
        v
    } else if n >= 32 {
        if negative(v) {
            0xFFFF_FFFF
        } else {
            0
        }
    } else if negative(v) {
        (v >> n) | !(0xFFFF_FFFFu32 >> n)
    } else {
        v >> n
    }
}

/// The value of a shift of `v` by `n` bits. A shift by nothing leaves `v`;
/// logical shifts by 32 or more clear it; rotations go by `n` modulo 32.
pub open spec fn shift_value(kind: ShiftKind, v: u32, n: u32) -> u32 {
    match kind {
        ShiftKind::Lsl => if n == 0 {
            v
        } else if n < 32 {
            v << n
        } else {
            0
        },
        ShiftKind::Lsr => if n == 0 {
            v
        } else if n < 32 {
            v >> n
        } else {
            0
        },
        ShiftKind::Asr => asr(v, n),
        ShiftKind::Ror => ror(v, n % 32),
    }
}

pub fn shift(kind: ShiftKind, v: u32, n: u32) -> (r: u32)
    ensures
        r == shift_value(kind, v, n),
{
    match kind {
        ShiftKind::Lsl => if n == 0 {
            v
        } else if n < 32 {
            v << n
        } else {
            0
        },
        ShiftKind::Lsr => if n == 0 {
            v
        } else if n < 32 {
            v >> n
        } else {
            0
        },
        ShiftKind::Asr => arithmetic_shift_right(v, n),
        ShiftKind::Ror => rotate_right(v, n % 32),
    }
}

/// The carry that a shift by `n` bits leaves: the last bit shifted out.
/// A shift by nothing keeps the carry it found. Amounts above 32 count as 32
/// for the three shifts; a rotation goes by `n` modulo 32 and keeps the carry
/// when that is nothing.
pub open spec fn shift_carry(kind: ShiftKind, v: u32, n: u32, carry: bool) -> bool {
    let m: u32 = if n > 32 {
        32
    } else {
        n
    };
    match kind {
        ShiftKind::Lsl => if m == 0 {
            carry
        } else {
            bit(v, (32 - m) as u32)
        },
        ShiftKind::Lsr => if m == 0 {
            carry
        } else {
            bit(v, (m - 1) as u32)
        },
        ShiftKind::Asr => if m == 0 {
            carry
        } else if m == 32 {
            is_negative(v)
        } else {
            bit(v, (m - 1) as u32)
        },
        ShiftKind::Ror => if n % 32 == 0 {
            carry
        } else {
            bit(v, ((n % 32) - 1) as u32)
        },
    }
}

pub fn carry_of_shift(kind: ShiftKind, v: u32, n: u32, carry: bool) -> (r: bool)
    ensures
        r == shift_carry(kind, v, n, carry),
{
    let m: u32 = if n > 32 {
        32
    } else {
        n
    };
    match kind {
        ShiftKind::Lsl => if m == 0 {
            carry
        } else {
            test_bit(v, 32 - m)
        },
        ShiftKind::Lsr => if m == 0 {
            carry
        } else {
            test_bit(v, m - 1)
        },
        ShiftKind::Asr => if m == 0 {
            carry
        } else if m == 32 {
            negative(v)
        } else {
            test_bit(v, m - 1)
        },
        ShiftKind::Ror => if n % 32 == 0 {
            carry
        } else {
            test_bit(v, (n % 32) - 1)
        },
    }
}

} // verus!
