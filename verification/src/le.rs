//! Little-endian decoding of fixed-width integers.
//!
//! Every decoder reads its bytes least significant first, whatever the byte
//! order of the machine it runs on.

use vstd::prelude::*;

verus! {

/// The number that `bytes` spell when read least significant byte first.
pub open spec fn le_value(bytes: Seq<u8>) -> nat
    decreases bytes.len(),
{
    if bytes.len() == 0 {
        0
    } else {
        bytes[0] as nat + 256 * le_value(bytes.drop_first())
    }
}

/// The byte of `bytes` at index `at`.
pub open spec fn le_u8(bytes: Seq<u8>, at: int) -> u8 {
    bytes[at]
}

/// The unsigned 16-bit value of the two bytes of `bytes` from index `at`.
pub open spec fn le_u16(bytes: Seq<u8>, at: int) -> u16 {
    (bytes[at] as int + 0x100 * (bytes[at + 1] as int)) as u16
}

/// The unsigned 32-bit value of the four bytes of `bytes` from index `at`.
pub open spec fn le_u32(bytes: Seq<u8>, at: int) -> u32 {
    (le_u16(bytes, at) as int + 0x1_0000 * (le_u16(bytes, at + 2) as int)) as u32
}

/// The unsigned 64-bit value of the eight bytes of `bytes` from index `at`.
pub open spec fn le_u64(bytes: Seq<u8>, at: int) -> u64 {
    (le_u32(bytes, at) as int + 0x1_0000_0000 * (le_u32(bytes, at + 4) as int)) as u64
}

/// The unsigned 128-bit value of the sixteen bytes of `bytes` from index `at`.
pub open spec fn le_u128(bytes: Seq<u8>, at: int) -> u128 {
    (le_u64(bytes, at) as int + 0x1_0000_0000_0000_0000 * (le_u64(bytes, at + 8) as int)) as u128
}

/// The signed reading, in two's complement, of an unsigned value below
/// `modulus`.
pub open spec fn twos_complement(value: int, modulus: int) -> int {
    if 2 * value < modulus {
        value
    } else {
        value - modulus
    }
}

/// The signed 8-bit value of the byte of `bytes` at index `at`.
pub open spec fn le_i8(bytes: Seq<u8>, at: int) -> i8 {
    twos_complement(le_u8(bytes, at) as int, 0x100) as i8
}

/// The signed 16-bit value of the two bytes of `bytes` from index `at`.
pub open spec fn le_i16(bytes: Seq<u8>, at: int) -> i16 {
    twos_complement(le_u16(bytes, at) as int, 0x1_0000) as i16
}

/// The signed 32-bit value of the four bytes of `bytes` from index `at`.
pub open spec fn le_i32(bytes: Seq<u8>, at: int) -> i32 {
    twos_complement(le_u32(bytes, at) as int, 0x1_0000_0000) as i32
}

/// The signed 64-bit value of the eight bytes of `bytes` from index `at`.
pub open spec fn le_i64(bytes: Seq<u8>, at: int) -> i64 {
    twos_complement(le_u64(bytes, at) as int, 0x1_0000_0000_0000_0000) as i64
}

/// The signed 128-bit value of the sixteen bytes of `bytes` from index `at`.
pub open spec fn le_i128(bytes: Seq<u8>, at: int) -> i128 {
    twos_complement(
        le_u128(bytes, at) as int,
        0x1_0000_0000_0000_0000_0000_0000_0000_0000int,
    ) as i128
}

/// The reading of a nullable integer: zero stands for "absent", any other
/// value is present.
pub open spec fn nonzero<T: Integer>(value: T) -> Option<T> {
    if value as int == 0 {
        None
    } else {
        Some(value)
    }
}

/// True when the `n` bytes of `a` from `at_a` equal those of `b` from `at_b`.
pub open spec fn same_window(a: Seq<u8>, at_a: int, b: Seq<u8>, at_b: int, n: nat) -> bool {
    forall|i: int| at_a <= i < at_a + n ==> #[trigger] a[i] == b[i - at_a + at_b]
}

/// Two windows of equal bytes hold the same 16-bit value.
pub proof fn lemma_le_u16_is_local(a: Seq<u8>, at_a: int, b: Seq<u8>, at_b: int)
    requires
        same_window(a, at_a, b, at_b, 2),
    ensures
        le_u16(a, at_a) == le_u16(b, at_b),
{
}

/// Two windows of equal bytes hold the same 32-bit value.
pub proof fn lemma_le_u32_is_local(a: Seq<u8>, at_a: int, b: Seq<u8>, at_b: int)
    requires
        same_window(a, at_a, b, at_b, 4),
    ensures
        le_u32(a, at_a) == le_u32(b, at_b),
{
    lemma_le_u16_is_local(a, at_a, b, at_b);
    lemma_le_u16_is_local(a, at_a + 2, b, at_b + 2);
}

/// Two windows of equal bytes hold the same 64-bit value.
pub proof fn lemma_le_u64_is_local(a: Seq<u8>, at_a: int, b: Seq<u8>, at_b: int)
    requires
        same_window(a, at_a, b, at_b, 8),
    ensures
        le_u64(a, at_a) == le_u64(b, at_b),
{
    lemma_le_u32_is_local(a, at_a, b, at_b);
    lemma_le_u32_is_local(a, at_a + 4, b, at_b + 4);
}

/// Two windows of equal bytes hold the same 128-bit value.
pub proof fn lemma_le_u128_is_local(a: Seq<u8>, at_a: int, b: Seq<u8>, at_b: int)
    requires
        same_window(a, at_a, b, at_b, 16),
    ensures
        le_u128(a, at_a) == le_u128(b, at_b),
{
    lemma_le_u64_is_local(a, at_a, b, at_b);
    lemma_le_u64_is_local(a, at_a + 8, b, at_b + 8);
}

/// Decodes the byte at `at`.
pub fn decode_u8(bytes: &[u8], at: usize) -> (value: u8)
    requires
        at + 1 <= bytes.len(),
    ensures
        value == le_u8(bytes@, at as int),
{
    bytes[at]
}

/// Decodes the two bytes from `at` as an unsigned little-endian integer.
pub fn decode_u16(bytes: &[u8], at: usize) -> (value: u16)
    requires
        at + 2 <= bytes.len(),
    ensures
        value == le_u16(bytes@, at as int),
{
    let low: u16 = bytes[at] as u16;
    let high: u16 = bytes[at + 1] as u16;
    low + 0x100 * high
}

/// Decodes the four bytes from `at` as an unsigned little-endian integer.
pub fn decode_u32(bytes: &[u8], at: usize) -> (value: u32)
    requires
        at + 4 <= bytes.len(),
    ensures
        value == le_u32(bytes@, at as int),
{
    let low: u32 = decode_u16(bytes, at) as u32;
    let high: u32 = decode_u16(bytes, at + 2) as u32;
    low + 0x1_0000 * high
}

/// Decodes the eight bytes from `at` as an unsigned little-endian integer.
pub fn decode_u64(bytes: &[u8], at: usize) -> (value: u64)
    requires
        at + 8 <= bytes.len(),
    ensures
        value == le_u64(bytes@, at as int),
{
    let low: u64 = decode_u32(bytes, at) as u64;
    let high: u64 = decode_u32(bytes, at + 4) as u64;
    low + 0x1_0000_0000 * high
}

/// Decodes the sixteen bytes from `at` as an unsigned little-endian integer.
pub fn decode_u128(bytes: &[u8], at: usize) -> (value: u128)
    requires
        at + 16 <= bytes.len(),
    ensures
        value == le_u128(bytes@, at as int),
{
    let low: u128 = decode_u64(bytes, at) as u128;
    let high: u128 = decode_u64(bytes, at + 8) as u128;
    low + 0x1_0000_0000_0000_0000 * high
}

/// Decodes the byte at `at` as a signed integer.
pub fn decode_i8(bytes: &[u8], at: usize) -> (value: i8)
    requires
        at + 1 <= bytes.len(),
    ensures
        value == le_i8(bytes@, at as int),
{
    let raw: u8 = decode_u8(bytes, at);
    if raw < 0x80 {
        raw as i8
    } else {
        (raw - 0x80) as i8 + i8::MIN
    }
}

/// Decodes the two bytes from `at` as a signed little-endian integer.
pub fn decode_i16(bytes: &[u8], at: usize) -> (value: i16)
    requires
        at + 2 <= bytes.len(),
    ensures
        value == le_i16(bytes@, at as int),
{
    let raw: u16 = decode_u16(bytes, at);
    if raw < 0x8000 {
        raw as i16
    } else {
        (raw - 0x8000) as i16 + i16::MIN
    }
}

/// Decodes the four bytes from `at` as a signed little-endian integer.
pub fn decode_i32(bytes: &[u8], at: usize) -> (value: i32)
    requires
        at + 4 <= bytes.len(),
    ensures
        value == le_i32(bytes@, at as int),
{
    let raw: u32 = decode_u32(bytes, at);
    if raw < 0x8000_0000 {
        raw as i32
    } else {
        (raw - 0x8000_0000) as i32 + i32::MIN
    }
}

/// Decodes the eight bytes from `at` as a signed little-endian integer.
pub fn decode_i64(bytes: &[u8], at: usize) -> (value: i64)
    requires
        at + 8 <= bytes.len(),
    ensures
        value == le_i64(bytes@, at as int),
{
    let raw: u64 = decode_u64(bytes, at);
    if raw < 0x8000_0000_0000_0000 {
        raw as i64
    } else {
        (raw - 0x8000_0000_0000_0000) as i64 + i64::MIN
    }
}

/// Decodes the sixteen bytes from `at` as a signed little-endian integer.
pub fn decode_i128(bytes: &[u8], at: usize) -> (value: i128)
    requires
        at + 16 <= bytes.len(),
    ensures
        value == le_i128(bytes@, at as int),
{
    let raw: u128 = decode_u128(bytes, at);
    if raw < 0x8000_0000_0000_0000_0000_0000_0000_0000 {
        raw as i128
    } else {
        (raw - 0x8000_0000_0000_0000_0000_0000_0000_0000) as i128 + i128::MIN
    }
}

/// The two bytes that spell `value`, least significant first.
pub open spec fn le_bytes_u16(value: u16) -> Seq<u8> {
    seq![(value % 0x100) as u8, (value / 0x100) as u8]
}

/// The four bytes that spell `value`, least significant first.
pub open spec fn le_bytes_u32(value: u32) -> Seq<u8> {
    le_bytes_u16((value % 0x1_0000) as u16) + le_bytes_u16((value / 0x1_0000) as u16)
}

/// The eight bytes that spell `value`, least significant first.
pub open spec fn le_bytes_u64(value: u64) -> Seq<u8> {
    le_bytes_u32((value % 0x1_0000_0000) as u32) + le_bytes_u32((value / 0x1_0000_0000) as u32)
}

/// A number is split by a modulus into the remainder and the quotient
/// that it was put together from.
proof fn lemma_split(low: int, high: int, modulus: int)
    requires
        0 <= low < modulus,
        0 <= high,
    ensures
        (low + modulus * high) % modulus == low,
        (low + modulus * high) / modulus == high,
{
    assert((low + modulus * high) % modulus == low && (low + modulus * high) / modulus == high)
        by (nonlinear_arith)
        requires
            0 <= low < modulus,
            0 <= high,
    ;
}

/// Decoding the bytes that spell a 16-bit value gives the value back.
pub proof fn lemma_u16_decodes_to_itself(value: u16)
    ensures
        le_bytes_u16(value).len() == 2,
        le_u16(le_bytes_u16(value), 0) == value,
{
}

/// Decoding the bytes that spell a 32-bit value gives the value back.
pub proof fn lemma_u32_decodes_to_itself(value: u32)
    ensures
        le_bytes_u32(value).len() == 4,
        le_u32(le_bytes_u32(value), 0) == value,
{
    let low = (value % 0x1_0000) as u16;
    let high = (value / 0x1_0000) as u16;
    let spelled = le_bytes_u32(value);
    lemma_u16_decodes_to_itself(low);
    lemma_u16_decodes_to_itself(high);
    lemma_le_u16_is_local(spelled, 0, le_bytes_u16(low), 0);
    lemma_le_u16_is_local(spelled, 2, le_bytes_u16(high), 0);
}

/// Decoding the bytes that spell a 64-bit value gives the value back.
pub proof fn lemma_u64_decodes_to_itself(value: u64)
    ensures
        le_bytes_u64(value).len() == 8,
        le_u64(le_bytes_u64(value), 0) == value,
{
    let low = (value % 0x1_0000_0000) as u32;
    let high = (value / 0x1_0000_0000) as u32;
    let spelled = le_bytes_u64(value);
    lemma_u32_decodes_to_itself(low);
    lemma_u32_decodes_to_itself(high);
    lemma_le_u32_is_local(spelled, 0, le_bytes_u32(low), 0);
    lemma_le_u32_is_local(spelled, 4, le_bytes_u32(high), 0);
}

/// The two bytes of a window are those that spell what the window decodes
/// to.
pub proof fn lemma_u16_spells_its_window(bytes: Seq<u8>, at: int)
    requires
        0 <= at,
        at + 2 <= bytes.len(),
    ensures
        le_bytes_u16(le_u16(bytes, at)) == bytes.subrange(at, at + 2),
{
    lemma_split(bytes[at] as int, bytes[at + 1] as int, 0x100);
    assert(le_bytes_u16(le_u16(bytes, at)) =~= bytes.subrange(at, at + 2));
}

/// The four bytes of a window are those that spell what the window decodes
/// to.
pub proof fn lemma_u32_spells_its_window(bytes: Seq<u8>, at: int)
    requires
        0 <= at,
        at + 4 <= bytes.len(),
    ensures
        le_bytes_u32(le_u32(bytes, at)) == bytes.subrange(at, at + 4),
{
    lemma_split(le_u16(bytes, at) as int, le_u16(bytes, at + 2) as int, 0x1_0000);
    lemma_u16_spells_its_window(bytes, at);
    lemma_u16_spells_its_window(bytes, at + 2);
    assert(bytes.subrange(at, at + 2) + bytes.subrange(at + 2, at + 4) =~= bytes.subrange(
        at,
        at + 4,
    ));
}

/// The eight bytes of a window are those that spell what the window decodes
/// to.
pub proof fn lemma_u64_spells_its_window(bytes: Seq<u8>, at: int)
    requires
        0 <= at,
        at + 8 <= bytes.len(),
    ensures
        le_bytes_u64(le_u64(bytes, at)) == bytes.subrange(at, at + 8),
{
    lemma_split(le_u32(bytes, at) as int, le_u32(bytes, at + 4) as int, 0x1_0000_0000);
    lemma_u32_spells_its_window(bytes, at);
    lemma_u32_spells_its_window(bytes, at + 4);
    assert(bytes.subrange(at, at + 4) + bytes.subrange(at + 4, at + 8) =~= bytes.subrange(
        at,
        at + 8,
    ));
}

/// The fixed-width readings agree with the reading of a byte sequence of
/// any length.
pub proof fn lemma_le_value(bytes: Seq<u8>, at: int)
    requires
        0 <= at,
    ensures
        at + 1 <= bytes.len() ==> le_u8(bytes, at) == le_value(bytes.subrange(at, at + 1)),
        at + 2 <= bytes.len() ==> le_u16(bytes, at) == le_value(bytes.subrange(at, at + 2)),
        at + 4 <= bytes.len() ==> le_u32(bytes, at) == le_value(bytes.subrange(at, at + 4)),
        at + 8 <= bytes.len() ==> le_u64(bytes, at) == le_value(bytes.subrange(at, at + 8)),
{
    if at + 1 <= bytes.len() {
        lemma_le_value_of(bytes.subrange(at, at + 1));
    }
    if at + 2 <= bytes.len() {
        lemma_le_value_of(bytes.subrange(at, at + 2));
    }
    if at + 4 <= bytes.len() {
        lemma_le_value_of(bytes.subrange(at, at + 4));
    }
    if at + 8 <= bytes.len() {
        lemma_le_value_of(bytes.subrange(at, at + 8));
    }
}

/// The reading of a sequence of up to eight bytes, written out.
proof fn lemma_le_value_of(bytes: Seq<u8>)
    requires
        bytes.len() <= 8,
    ensures
        bytes.len() == 1 ==> le_value(bytes) == bytes[0],
        bytes.len() == 2 ==> le_value(bytes) == bytes[0] + 0x100 * bytes[1],
        bytes.len() == 4 ==> le_value(bytes) == bytes[0] + 0x100 * bytes[1] + 0x1_0000 * (bytes[2]
            + 0x100 * bytes[3]),
        bytes.len() == 8 ==> le_value(bytes) == bytes[0] + 0x100 * bytes[1] + 0x1_0000 * (bytes[2]
            + 0x100 * bytes[3]) + 0x1_0000_0000 * (bytes[4] + 0x100 * bytes[5] + 0x1_0000 * (
        bytes[6] + 0x100 * bytes[7])),
{
    reveal_with_fuel(le_value, 9);
    let b1 = bytes.drop_first();
    let b2 = b1.drop_first();
    let b3 = b2.drop_first();
    let b4 = b3.drop_first();
    let b5 = b4.drop_first();
    let b6 = b5.drop_first();
    let b7 = b6.drop_first();
    let b8 = b7.drop_first();
}

} // verus!
