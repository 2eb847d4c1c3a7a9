//! Bit helpers on register-sized words.

use vstd::prelude::*;

verus! {

/// Whether bit `n` of `value` is set.
pub open spec fn bit_of_u16(value: u16, n: u8) -> bool {
    value & (1u16 << n) != 0
}

/// `v` with bit `n` forced to `bit`, every other bit kept.
pub open spec fn with_bit_u16(v: u16, n: u8, bit: bool) -> u16 {
    if bit {
        v | (1u16 << n)
    } else {
        v & !(1u16 << n)
    }
}

/// Reads the `n`th bit from a `u16` as a bool.
pub fn read_bit(value: u16, n: u8) -> (r: bool)
    requires
        n < 16,
    ensures
        r == bit_of_u16(value, n),
{
    value & (1u16 << n) != 0
}

/// Returns `v` with its `n`th bit set to `bit`.
pub fn write_bit(v: u16, n: u8, bit: bool) -> (r: u16)
    requires
        n < 16,
    ensures
        r == with_bit_u16(v, n, bit),
        bit_of_u16(r, n) == bit,
        forall|k: u8| k < 16 && k != n ==> bit_of_u16(r, k) == bit_of_u16(v, k),
{
    let b: u16 = if bit { 1 } else { 0 };
    let r = (v & !(1u16 << n)) | (b << n);
    assert(r == with_bit_u16(v, n, bit)) by (bit_vector)
        requires
            n < 16,
            b == (if bit { 1u16 } else { 0u16 }),
            r == (v & !(1u16 << n)) | (b << n),
    ;
    assert(forall|k: u8| k < 16 && k != n ==> bit_of_u16(r, k) == bit_of_u16(v, k)) by (bit_vector)
        requires
            n < 16,
            b == (if bit { 1u16 } else { 0u16 }),
            r == (v & !(1u16 << n)) | (b << n),
    ;
    assert(bit_of_u16(r, n) == bit) by (bit_vector)
        requires
            n < 16,
            b == (if bit { 1u16 } else { 0u16 }),
            r == (v & !(1u16 << n)) | (b << n),
    ;
    r
}

/// Whether bit `n` of `value` is set.
pub open spec fn bit_of_u8(value: u8, n: u8) -> bool {
    value & (1u8 << n) != 0
}

/// `v` with bit `n` forced to `bit`, every other bit kept.
pub open spec fn with_bit_u8(v: u8, n: u8, bit: bool) -> u8 {
    if bit {
        v | (1u8 << n)
    } else {
        v & !(1u8 << n)
    }
}

/// Reads the `n`th bit from a `u8` as a bool.
pub fn read_bit_u8(value: u8, n: u8) -> (r: bool)
    requires
        n < 8,
    ensures
        r == bit_of_u8(value, n),
{
    value & (1u8 << n) != 0
}

/// Returns `v` with its `n`th bit set to `bit`.
pub fn write_bit_u8(v: u8, n: u8, bit: bool) -> (r: u8)
    requires
        n < 8,
    ensures
        r == with_bit_u8(v, n, bit),
        bit_of_u8(r, n) == bit,
        forall|k: u8| k < 8 && k != n ==> bit_of_u8(r, k) == bit_of_u8(v, k),
{
    let b: u8 = if bit { 1 } else { 0 };
    let r = (v & !(1u8 << n)) | (b << n);
    assert(r == with_bit_u8(v, n, bit) && bit_of_u8(r, n) == bit) by (bit_vector)
        requires
            n < 8,
            b == (if bit { 1u8 } else { 0u8 }),
            r == (v & !(1u8 << n)) | (b << n),
    ;
    assert(forall|k: u8| k < 8 && k != n ==> bit_of_u8(r, k) == bit_of_u8(v, k)) by (bit_vector)
        requires
            n < 8,
            b == (if bit { 1u8 } else { 0u8 }),
            r == (v & !(1u8 << n)) | (b << n),
    ;
    r
}

} // verus!
