//! Fixed-width reads from byte slices, in either byte order: single integers
//! and rationals, and arrays of them laid out back to back.

use vstd::prelude::*;
use vstd::slice::slice_subrange;
use crate::rational::{IRational, URational};
use crate::types::{F32Bits, F64Bits};

verus! {

/// The 16-bit unsigned integer held in the first two bytes of `raw`,
/// least significant byte first when `le` is set.
pub open spec fn spec_read_u16(le: bool, raw: Seq<u8>) -> u16
    recommends
        raw.len() >= 2,
{
    if le {
        (raw[1] as int * 0x100 + raw[0] as int) as u16
    } else {
        (raw[0] as int * 0x100 + raw[1] as int) as u16
    }
}

/// The 32-bit unsigned integer held in the first four bytes of `raw`,
/// least significant byte first when `le` is set.
pub open spec fn spec_read_u32(le: bool, raw: Seq<u8>) -> u32
    recommends
        raw.len() >= 4,
{
    if le {
        (raw[3] as int * 0x100_0000 + raw[2] as int * 0x1_0000 + raw[1] as int * 0x100
            + raw[0] as int) as u32
    } else {
        (raw[0] as int * 0x100_0000 + raw[1] as int * 0x1_0000 + raw[2] as int * 0x100
            + raw[3] as int) as u32
    }
}

/// The 64-bit unsigned integer held in the first eight bytes of `raw`,
/// least significant byte first when `le` is set.
pub open spec fn spec_read_u64(le: bool, raw: Seq<u8>) -> u64
    recommends
        raw.len() >= 8,
{
    if le {
        (spec_read_u32(le, raw.subrange(4, 8)) as int * 0x1_0000_0000 + spec_read_u32(
            le,
            raw.subrange(0, 4),
        ) as int) as u64
    } else {
        (spec_read_u32(le, raw.subrange(0, 4)) as int * 0x1_0000_0000 + spec_read_u32(
            le,
            raw.subrange(4, 8),
        ) as int) as u64
    }
}

/// The signed integer with the same 8-bit two's complement pattern as `b`.
pub open spec fn spec_as_i8(b: u8) -> i8 {
    if b >= 0x80 {
        (b as int - 0x100) as i8
    } else {
        b as i8
    }
}

/// The signed integer with the same 16-bit two's complement pattern as `u`.
pub open spec fn spec_as_i16(u: u16) -> i16 {
    if u >= 0x8000 {
        (u as int - 0x1_0000) as i16
    } else {
        u as i16
    }
}

/// The signed integer with the same 32-bit two's complement pattern as `u`.
pub open spec fn spec_as_i32(u: u32) -> i32 {
    if u >= 0x8000_0000 {
        (u as int - 0x1_0000_0000) as i32
    } else {
        u as i32
    }
}

/// The 16-bit signed integer held in the first two bytes of `raw`.
pub open spec fn spec_read_i16(le: bool, raw: Seq<u8>) -> i16
    recommends
        raw.len() >= 2,
{
    spec_as_i16(spec_read_u16(le, raw))
}

/// The 32-bit signed integer held in the first four bytes of `raw`.
pub open spec fn spec_read_i32(le: bool, raw: Seq<u8>) -> i32
    recommends
        raw.len() >= 4,
{
    spec_as_i32(spec_read_u32(le, raw))
}

/// The unsigned rational held in the first eight bytes of `raw`: numerator,
/// then denominator.
pub open spec fn spec_read_urational(le: bool, raw: Seq<u8>) -> URational
    recommends
        raw.len() >= 8,
{
    URational {
        numerator: spec_read_u32(le, raw.subrange(0, 4)),
        denominator: spec_read_u32(le, raw.subrange(4, 8)),
    }
}

/// The signed rational held in the first eight bytes of `raw`: numerator,
/// then denominator.
pub open spec fn spec_read_irational(le: bool, raw: Seq<u8>) -> IRational
    recommends
        raw.len() >= 8,
{
    IRational {
        numerator: spec_read_i32(le, raw.subrange(0, 4)),
        denominator: spec_read_i32(le, raw.subrange(4, 8)),
    }
}

/// The `size` bytes of element `i` in an array laid out back to back.
pub open spec fn element(raw: Seq<u8>, size: int, i: int) -> Seq<u8>
    recommends
        0 <= i,
        0 < size,
        (i + 1) * size <= raw.len(),
{
    raw.subrange(i * size, (i + 1) * size)
}

/// The first `count` bytes of `raw`, each as a signed integer.
pub open spec fn spec_i8_array(count: nat, raw: Seq<u8>) -> Seq<i8>
    recommends
        raw.len() >= count,
{
    Seq::new(count, |i: int| spec_as_i8(raw[i]))
}

/// The first `count` 16-bit unsigned integers of `raw`.
pub open spec fn spec_u16_array(le: bool, count: nat, raw: Seq<u8>) -> Seq<u16>
    recommends
        raw.len() >= 2 * count,
{
    Seq::new(count, |i: int| spec_read_u16(le, element(raw, 2, i)))
}

/// The first `count` 16-bit signed integers of `raw`.
pub open spec fn spec_i16_array(le: bool, count: nat, raw: Seq<u8>) -> Seq<i16>
    recommends
        raw.len() >= 2 * count,
{
    Seq::new(count, |i: int| spec_read_i16(le, element(raw, 2, i)))
}

/// The first `count` 32-bit unsigned integers of `raw`.
pub open spec fn spec_u32_array(le: bool, count: nat, raw: Seq<u8>) -> Seq<u32>
    recommends
        raw.len() >= 4 * count,
{
    Seq::new(count, |i: int| spec_read_u32(le, element(raw, 4, i)))
}

/// The first `count` 32-bit signed integers of `raw`.
pub open spec fn spec_i32_array(le: bool, count: nat, raw: Seq<u8>) -> Seq<i32>
    recommends
        raw.len() >= 4 * count,
{
    Seq::new(count, |i: int| spec_read_i32(le, element(raw, 4, i)))
}

/// The first `count` unsigned rationals of `raw`.
pub open spec fn spec_urational_array(le: bool, count: nat, raw: Seq<u8>) -> Seq<URational>
    recommends
        raw.len() >= 8 * count,
{
    Seq::new(count, |i: int| spec_read_urational(le, element(raw, 8, i)))
}

/// The first `count` signed rationals of `raw`.
pub open spec fn spec_irational_array(le: bool, count: nat, raw: Seq<u8>) -> Seq<IRational>
    recommends
        raw.len() >= 8 * count,
{
    Seq::new(count, |i: int| spec_read_irational(le, element(raw, 8, i)))
}

/// The first `count` single-precision bit patterns of `raw`.
pub open spec fn spec_f32_array(le: bool, count: nat, raw: Seq<u8>) -> Seq<F32Bits>
    recommends
        raw.len() >= 4 * count,
{
    Seq::new(count, |i: int| F32Bits { bits: spec_read_u32(le, element(raw, 4, i)) })
}

/// The first `count` double-precision bit patterns of `raw`.
pub open spec fn spec_f64_array(le: bool, count: nat, raw: Seq<u8>) -> Seq<F64Bits>
    recommends
        raw.len() >= 8 * count,
{
    Seq::new(count, |i: int| F64Bits { bits: spec_read_u64(le, element(raw, 8, i)) })
}

/// Reads a 16-bit unsigned integer from the first two bytes of `raw`.
pub fn read_u16(le: bool, raw: &[u8]) -> (r: u16)
    requires
        raw@.len() >= 2,
    ensures
        r == spec_read_u16(le, raw@),
{
    if le {
        (raw[1] as u16) * 0x100 + raw[0] as u16
    } else {
        (raw[0] as u16) * 0x100 + raw[1] as u16
    }
}

/// Reads a 32-bit unsigned integer from the first four bytes of `raw`.
pub fn read_u32(le: bool, raw: &[u8]) -> (r: u32)
    requires
        raw@.len() >= 4,
    ensures
        r == spec_read_u32(le, raw@),
{
    if le {
        (raw[3] as u32) * 0x100_0000 + (raw[2] as u32) * 0x1_0000 + (raw[1] as u32) * 0x100
            + raw[0] as u32
    } else {
        (raw[0] as u32) * 0x100_0000 + (raw[1] as u32) * 0x1_0000 + (raw[2] as u32) * 0x100
            + raw[3] as u32
    }
}

/// Reads a 64-bit unsigned integer from the first eight bytes of `raw`.
pub fn read_u64(le: bool, raw: &[u8]) -> (r: u64)
    requires
        raw@.len() >= 8,
    ensures
        r == spec_read_u64(le, raw@),
{
    let first = read_u32(le, slice_subrange(raw, 0, 4));
    let second = read_u32(le, slice_subrange(raw, 4, 8));
    if le {
        (second as u64) * 0x1_0000_0000 + first as u64
    } else {
        (first as u64) * 0x1_0000_0000 + second as u64
    }
}

/// The signed integer with the same 8-bit pattern as `b`.
pub fn as_i8(b: u8) -> (r: i8)
    ensures
        r == spec_as_i8(b),
{
    if b >= 0x80 {
        (b as i16 - 0x100) as i8
    } else {
        b as i8
    }
}

/// Reads a 16-bit signed integer from the first two bytes of `raw`.
pub fn read_i16(le: bool, raw: &[u8]) -> (r: i16)
    requires
        raw@.len() >= 2,
    ensures
        r == spec_read_i16(le, raw@),
{
    let u = read_u16(le, raw);
    if u >= 0x8000 {
        (u as i32 - 0x1_0000) as i16
    } else {
        u as i16
    }
}

/// Reads a 32-bit signed integer from the first four bytes of `raw`.
pub fn read_i32(le: bool, raw: &[u8]) -> (r: i32)
    requires
        raw@.len() >= 4,
    ensures
        r == spec_read_i32(le, raw@),
{
    let u = read_u32(le, raw);
    if u >= 0x8000_0000 {
        (u as i64 - 0x1_0000_0000) as i32
    } else {
        u as i32
    }
}

/// Reads an unsigned rational from the first eight bytes of `raw`.
pub fn read_urational(le: bool, raw: &[u8]) -> (r: URational)
    requires
        raw@.len() >= 8,
    ensures
        r == spec_read_urational(le, raw@),
{
    let numerator = read_u32(le, slice_subrange(raw, 0, 4));
    let denominator = read_u32(le, slice_subrange(raw, 4, 8));
    URational { numerator, denominator }
}

/// Reads a signed rational from the first eight bytes of `raw`.
pub fn read_irational(le: bool, raw: &[u8]) -> (r: IRational)
    requires
        raw@.len() >= 8,
    ensures
        r == spec_read_irational(le, raw@),
{
    let numerator = read_i32(le, slice_subrange(raw, 0, 4));
    let denominator = read_i32(le, slice_subrange(raw, 4, 8));
    IRational { numerator, denominator }
}

/// The bytes of element `i` of an array of `size`-byte elements.
fn element_of(raw: &[u8], size: usize, i: usize) -> (r: &[u8])
    requires
        0 < size <= 8,
        (i + 1) * size <= raw@.len(),
    ensures
        r@ == element(raw@, size as int, i as int),
{
    let len = raw.len();
    assert(0 <= i * size && i * size + size == (i + 1) * size) by (nonlinear_arith);
    let start = i * size;
    slice_subrange(raw, start, start + size)
}

/// Reads the first `count` bytes of `raw` as signed integers.
pub fn read_i8_array(count: u32, raw: &[u8]) -> (r: Vec<i8>)
    requires
        raw@.len() >= count,
    ensures
        r@ == spec_i8_array(count as nat, raw@),
{
    let mut out: Vec<i8> = Vec::new();
    let mut i: usize = 0;
    while i < count as usize
        invariant
            i <= count,
            raw@.len() >= count,
            out@ == spec_i8_array(i as nat, raw@),
        decreases count - i,
    {
        out.push(as_i8(raw[i]));
        i += 1;
        assert(out@ =~= spec_i8_array(i as nat, raw@));
    }
    out
}

/// Reads the first `count` 16-bit unsigned integers of `raw`.
pub fn read_u16_array(le: bool, count: u32, raw: &[u8]) -> (r: Vec<u16>)
    requires
        raw@.len() >= 2 * count,
    ensures
        r@ == spec_u16_array(le, count as nat, raw@),
{
    let mut out: Vec<u16> = Vec::new();
    let mut i: usize = 0;
    while i < count as usize
        invariant
            i <= count,
            raw@.len() >= 2 * count,
            out@ == spec_u16_array(le, i as nat, raw@),
        decreases count - i,
    {
        out.push(read_u16(le, element_of(raw, 2, i)));
        i += 1;
        assert(out@ =~= spec_u16_array(le, i as nat, raw@));
    }
    out
}

/// Reads the first `count` 16-bit signed integers of `raw`.
pub fn read_i16_array(le: bool, count: u32, raw: &[u8]) -> (r: Vec<i16>)
    requires
        raw@.len() >= 2 * count,
    ensures
        r@ == spec_i16_array(le, count as nat, raw@),
{
    let mut out: Vec<i16> = Vec::new();
    let mut i: usize = 0;
    while i < count as usize
        invariant
            i <= count,
            raw@.len() >= 2 * count,
            out@ == spec_i16_array(le, i as nat, raw@),
        decreases count - i,
    {
        out.push(read_i16(le, element_of(raw, 2, i)));
        i += 1;
        assert(out@ =~= spec_i16_array(le, i as nat, raw@));
    }
    out
}

/// Reads the first `count` 32-bit unsigned integers of `raw`.
pub fn read_u32_array(le: bool, count: u32, raw: &[u8]) -> (r: Vec<u32>)
    requires
        raw@.len() >= 4 * count,
    ensures
        r@ == spec_u32_array(le, count as nat, raw@),
{
    let mut out: Vec<u32> = Vec::new();
    let mut i: usize = 0;
    while i < count as usize
        invariant
            i <= count,
            raw@.len() >= 4 * count,
            out@ == spec_u32_array(le, i as nat, raw@),
        decreases count - i,
    {
        out.push(read_u32(le, element_of(raw, 4, i)));
        i += 1;
        assert(out@ =~= spec_u32_array(le, i as nat, raw@));
    }
    out
}

/// Reads the first `count` 32-bit signed integers of `raw`.
pub fn read_i32_array(le: bool, count: u32, raw: &[u8]) -> (r: Vec<i32>)
    requires
        raw@.len() >= 4 * count,
    ensures
        r@ == spec_i32_array(le, count as nat, raw@),
{
    let mut out: Vec<i32> = Vec::new();
    let mut i: usize = 0;
    while i < count as usize
        invariant
            i <= count,
            raw@.len() >= 4 * count,
            out@ == spec_i32_array(le, i as nat, raw@),
        decreases count - i,
    {
        out.push(read_i32(le, element_of(raw, 4, i)));
        i += 1;
        assert(out@ =~= spec_i32_array(le, i as nat, raw@));
    }
    out
}

/// Reads the first `count` unsigned rationals of `raw`.
pub fn read_urational_array(le: bool, count: u32, raw: &[u8]) -> (r: Vec<URational>)
    requires
        raw@.len() >= 8 * count,
    ensures
        r@ == spec_urational_array(le, count as nat, raw@),
{
    let mut out: Vec<URational> = Vec::new();
    let mut i: usize = 0;
    while i < count as usize
        invariant
            i <= count,
            raw@.len() >= 8 * count,
            out@ == spec_urational_array(le, i as nat, raw@),
        decreases count - i,
    {
        out.push(read_urational(le, element_of(raw, 8, i)));
        i += 1;
        assert(out@ =~= spec_urational_array(le, i as nat, raw@));
    }
    out
}

/// Reads the first `count` signed rationals of `raw`.
pub fn read_irational_array(le: bool, count: u32, raw: &[u8]) -> (r: Vec<IRational>)
    requires
        raw@.len() >= 8 * count,
    ensures
        r@ == spec_irational_array(le, count as nat, raw@),
{
    let mut out: Vec<IRational> = Vec::new();
    let mut i: usize = 0;
    while i < count as usize
        invariant
            i <= count,
            raw@.len() >= 8 * count,
            out@ == spec_irational_array(le, i as nat, raw@),
        decreases count - i,
    {
        out.push(read_irational(le, element_of(raw, 8, i)));
        i += 1;
        assert(out@ =~= spec_irational_array(le, i as nat, raw@));
    }
    out
}

/// Reads the first `count` single-precision bit patterns of `raw`.
pub fn read_f32_array(le: bool, count: u32, raw: &[u8]) -> (r: Vec<F32Bits>)
    requires
        raw@.len() >= 4 * count,
    ensures
        r@ == spec_f32_array(le, count as nat, raw@),
{
    let mut out: Vec<F32Bits> = Vec::new();
    let mut i: usize = 0;
    while i < count as usize
        invariant
            i <= count,
            raw@.len() >= 4 * count,
            out@ == spec_f32_array(le, i as nat, raw@),
        decreases count - i,
    {
        out.push(F32Bits { bits: read_u32(le, element_of(raw, 4, i)) });
        i += 1;
        assert(out@ =~= spec_f32_array(le, i as nat, raw@));
    }
    out
}

/// Reads the first `count` double-precision bit patterns of `raw`.
pub fn read_f64_array(le: bool, count: u32, raw: &[u8]) -> (r: Vec<F64Bits>)
    requires
        raw@.len() >= 8 * count,
    ensures
        r@ == spec_f64_array(le, count as nat, raw@),
{
    let mut out: Vec<F64Bits> = Vec::new();
    let mut i: usize = 0;
    while i < count as usize
        invariant
            i <= count,
            raw@.len() >= 8 * count,
            out@ == spec_f64_array(le, i as nat, raw@),
        decreases count - i,
    {
        out.push(F64Bits { bits: read_u64(le, element_of(raw, 8, i)) });
        i += 1;
        assert(out@ =~= spec_f64_array(le, i as nat, raw@));
    }
    out
}

/// The 16-bit integer whose two bytes are those of `x` in reversed order.
pub open spec fn swap_u16(x: u16) -> u16 {
    ((x as int % 0x100) * 0x100 + x as int / 0x100) as u16
}

/// The 32-bit integer whose four bytes are those of `x` in reversed order.
pub open spec fn swap_u32(x: u32) -> u32 {
    ((x as int % 0x100) * 0x100_0000 + (x as int / 0x100 % 0x100) * 0x1_0000 + (x as int
        / 0x1_0000 % 0x100) * 0x100 + x as int / 0x100_0000) as u32
}

/// Two bytes read in one byte order give the byte-reversed number of what
/// they give in the other: the number of the same bytes in reversed order.
pub proof fn lemma_read_u16_reversed(le: bool, raw: Seq<u8>)
    requires
        raw.len() >= 2,
    ensures
        spec_read_u16(le, raw) == swap_u16(spec_read_u16(!le, raw)),
        spec_read_u16(le, raw) == spec_read_u16(!le, raw.subrange(0, 2).reverse()),
{
    let back = raw.subrange(0, 2).reverse();
    assert(back[0] == raw[1] && back[1] == raw[0]);
}

/// The four bytes of a 32-bit number, from the number.
proof fn lemma_bytes_of_u32(a: int, b: int, c: int, d: int)
    requires
        0 <= a < 0x100,
        0 <= b < 0x100,
        0 <= c < 0x100,
        0 <= d < 0x100,
    ensures
        ({
            let x = a * 0x100_0000 + b * 0x1_0000 + c * 0x100 + d;
            &&& 0 <= x <= 0xffff_ffff
            &&& x % 0x100 == d
            &&& x / 0x100 % 0x100 == c
            &&& x / 0x1_0000 % 0x100 == b
            &&& x / 0x100_0000 == a
        }),
{
}

/// Four bytes read in one byte order give the byte-reversed number of what
/// they give in the other: the number of the same bytes in reversed order.
pub proof fn lemma_read_u32_reversed(le: bool, raw: Seq<u8>)
    requires
        raw.len() >= 4,
    ensures
        spec_read_u32(le, raw) == swap_u32(spec_read_u32(!le, raw)),
        spec_read_u32(le, raw) == spec_read_u32(!le, raw.subrange(0, 4).reverse()),
{
    let back = raw.subrange(0, 4).reverse();
    assert(back[0] == raw[3] && back[1] == raw[2] && back[2] == raw[1] && back[3] == raw[0]);
    lemma_bytes_of_u32(raw[0] as int, raw[1] as int, raw[2] as int, raw[3] as int);
    lemma_bytes_of_u32(raw[3] as int, raw[2] as int, raw[1] as int, raw[0] as int);
}

/// Each element of an array of 16-bit integers read in one byte order is
/// the byte-reversed number of the element read in the other; the signed
/// reading is that of the same bit pattern.
pub proof fn lemma_u16_array_reversed(le: bool, count: nat, raw: Seq<u8>, i: int)
    requires
        raw.len() >= 2 * count,
        0 <= i < count,
    ensures
        spec_u16_array(le, count, raw)[i] == swap_u16(spec_u16_array(!le, count, raw)[i]),
        spec_i16_array(le, count, raw)[i] == spec_as_i16(
            swap_u16(spec_u16_array(!le, count, raw)[i]),
        ),
{
    lemma_read_u16_reversed(le, element(raw, 2, i));
}

/// Each element of an array of 32-bit integers read in one byte order is
/// the byte-reversed number of the element read in the other; the signed
/// reading is that of the same bit pattern.
pub proof fn lemma_u32_array_reversed(le: bool, count: nat, raw: Seq<u8>, i: int)
    requires
        raw.len() >= 4 * count,
        0 <= i < count,
    ensures
        spec_u32_array(le, count, raw)[i] == swap_u32(spec_u32_array(!le, count, raw)[i]),
        spec_i32_array(le, count, raw)[i] == spec_as_i32(
            swap_u32(spec_u32_array(!le, count, raw)[i]),
        ),
{
    lemma_read_u32_reversed(le, element(raw, 4, i));
}

} // verus!
