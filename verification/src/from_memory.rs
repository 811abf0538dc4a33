//! Decoding of fixed-size records from their packed little-endian layout.

use crate::error::Error;
use crate::io::read_at::{fits, ReadAt};
use crate::io::read_at_ext::ReadAtExt;
use crate::io::read_at_reader::ReadAtReader;
use crate::le::{
    decode_i128, decode_i16, decode_i32, decode_i64, decode_i8, decode_u128, decode_u16,
    decode_u32, decode_u64, decode_u8, le_i128, le_i16, le_i32, le_i64, le_i8, le_u128, le_u16,
    le_u32, le_u64, le_u8, lemma_le_u128_is_local, lemma_le_u16_is_local, lemma_le_u32_is_local,
    lemma_le_u64_is_local, nonzero, same_window,
};
use vstd::prelude::*;

verus! {

/// What decoding a record of `size` bytes from `content` at `offset` comes
/// to where the source itself does not fail: `value`, or the end of the
/// input where `content` is too short.
pub open spec fn whole_or_eof<T>(content: Seq<u8>, offset: int, size: nat, value: T) -> Result<
    T,
    Error,
> {
    if fits(content, offset, size) {
        Ok(value)
    } else {
        Err(Error::UnexpectedEof)
    }
}

/// A value with a fixed-size, tightly packed, little-endian layout.
///
/// A record is decoded field by field, each field from the bytes that follow
/// those of the field before it: the layout has no padding.
pub trait FromMemory: Sized {
    /// How many bytes the layout takes.
    spec fn raw_size() -> nat;

    /// The value that the `raw_size()` bytes of `bytes` from `at` decode to.
    spec fn decoded(bytes: Seq<u8>, at: int) -> Self;

    /// A decoded value depends on the bytes of its own window alone.
    proof fn decoded_is_local(a: Seq<u8>, at_a: int, b: Seq<u8>, at_b: int)
        requires
            same_window(a, at_a, b, at_b, Self::raw_size()),
        ensures
            Self::decoded(a, at_a) == Self::decoded(b, at_b),
    ;

    /// How many bytes the layout takes.
    fn size() -> (n: usize)
        ensures
            n == Self::raw_size(),
    ;

    /// Decodes the record whose layout starts at index `at` of `bytes`.
    fn from_raw(bytes: &[u8], at: usize) -> (value: Self)
        requires
            at + Self::raw_size() <= bytes.len(),
        ensures
            value == Self::decoded(bytes@, at as int),
    ;

    /// Decodes a record from the front of `mem` and moves `mem` past it.
    /// A `mem` too short for the record is left as it is.
    fn from_memory(mem: &mut &[u8]) -> (r: Result<Self, Error>)
        ensures
            old(mem)@.len() >= Self::raw_size() ==> r == Ok::<Self, Error>(
                Self::decoded(old(mem)@, 0),
            ) && final(mem)@ == old(mem)@.subrange(
                Self::raw_size() as int,
                old(mem)@.len() as int,
            ),
            old(mem)@.len() < Self::raw_size() ==> r == Err::<Self, Error>(Error::UnexpectedEof)
                && final(mem)@ == old(mem)@,
    {
        let size: usize = Self::size();
        let all: &[u8] = *mem;
        if all.len() < size {
            return Err(Error::UnexpectedEof);
        }
        let value = Self::from_raw(all, 0);
        *mem = vstd::slice::slice_subrange(all, size, all.len());
        Ok(value)
    }

    /// Decodes the record that `read_at` holds at `offset`.
    fn from_read_at<R: ReadAt>(read_at: &R, offset: u64) -> (r: Result<Self, Error>)
        ensures
            r == whole_or_eof(
                read_at.content(),
                offset as int,
                Self::raw_size(),
                Self::decoded(read_at.content(), offset as int),
            ) || (r matches Err(e) && e.is_io() && !read_at.infallible()),
    {
        let size: usize = Self::size();
        let mut raw: Vec<u8> = vec![0u8; size];
        match read_at.read_exact_at(raw.as_mut_slice(), offset) {
            Err(e) => Err(e),
            Ok(()) => {
                proof {
                    Self::decoded_is_local(raw@, 0, read_at.content(), offset as int);
                }
                Ok(Self::from_raw(raw.as_slice(), 0))
            },
        }
    }

    /// Decodes the record at the position of `read` and moves `read` past
    /// it. On failure `read` stays where it was.
    fn from_io<R: ReadAt>(read: &mut ReadAtReader<R>) -> (r: Result<Self, Error>)
        ensures
            final(read).read_at == old(read).read_at,
            r == whole_or_eof(
                old(read).read_at.content(),
                old(read).pos as int,
                Self::raw_size(),
                Self::decoded(old(read).read_at.content(), old(read).pos as int),
            ) || (r matches Err(e) && e.is_io() && !old(read).read_at.infallible()),
            r is Ok ==> final(read).pos == old(read).pos + Self::raw_size(),
            r is Err ==> final(read).pos == old(read).pos,
    {
        let mut pos: u64 = read.pos;
        let r = Self::from_read_at_advance(&read.read_at, &mut pos);
        read.pos = pos;
        r
    }

    /// Decodes the record that `read_at` holds at `*offset` and, on success
    /// only, moves `*offset` past it.
    fn from_read_at_advance<R: ReadAt>(read_at: &R, offset: &mut u64) -> (r: Result<Self, Error>)
        ensures
            r == whole_or_eof(
                read_at.content(),
                *old(offset) as int,
                Self::raw_size(),
                Self::decoded(read_at.content(), *old(offset) as int),
            ) || (r matches Err(e) && e.is_io() && !read_at.infallible()),
            r is Ok ==> *final(offset) == *old(offset) + Self::raw_size(),
            r is Err ==> *final(offset) == *old(offset),
    {
        let size: usize = Self::size();
        if size as u64 > u64::MAX - *offset {
            return Err(Error::UnexpectedEof);
        }
        match Self::from_read_at(read_at, *offset) {
            Err(e) => Err(e),
            Ok(value) => {
                *offset = *offset + size as u64;
                Ok(value)
            },
        }
    }
}

impl FromMemory for () {
    open spec fn raw_size() -> nat {
        0
    }

    open spec fn decoded(bytes: Seq<u8>, at: int) -> Self {
        ()
    }

    proof fn decoded_is_local(a: Seq<u8>, at_a: int, b: Seq<u8>, at_b: int) {
    }

    fn size() -> (n: usize) {
        0
    }

    fn from_raw(bytes: &[u8], at: usize) -> (value: Self) {
        ()
    }
}

impl FromMemory for u8 {
    open spec fn raw_size() -> nat {
        1
    }

    open spec fn decoded(bytes: Seq<u8>, at: int) -> Self {
        le_u8(bytes, at)
    }

    proof fn decoded_is_local(a: Seq<u8>, at_a: int, b: Seq<u8>, at_b: int) {
    }

    fn size() -> (n: usize) {
        1
    }

    fn from_raw(bytes: &[u8], at: usize) -> (value: Self) {
        decode_u8(bytes, at)
    }
}

impl FromMemory for u16 {
    open spec fn raw_size() -> nat {
        2
    }

    open spec fn decoded(bytes: Seq<u8>, at: int) -> Self {
        le_u16(bytes, at)
    }

    proof fn decoded_is_local(a: Seq<u8>, at_a: int, b: Seq<u8>, at_b: int) {
        lemma_le_u16_is_local(a, at_a, b, at_b);
    }

    fn size() -> (n: usize) {
        2
    }

    fn from_raw(bytes: &[u8], at: usize) -> (value: Self) {
        decode_u16(bytes, at)
    }
}

impl FromMemory for u32 {
    open spec fn raw_size() -> nat {
        4
    }

    open spec fn decoded(bytes: Seq<u8>, at: int) -> Self {
        le_u32(bytes, at)
    }

    proof fn decoded_is_local(a: Seq<u8>, at_a: int, b: Seq<u8>, at_b: int) {
        lemma_le_u32_is_local(a, at_a, b, at_b);
    }

    fn size() -> (n: usize) {
        4
    }

    fn from_raw(bytes: &[u8], at: usize) -> (value: Self) {
        decode_u32(bytes, at)
    }
}

impl FromMemory for u64 {
    open spec fn raw_size() -> nat {
        8
    }

    open spec fn decoded(bytes: Seq<u8>, at: int) -> Self {
        le_u64(bytes, at)
    }

    proof fn decoded_is_local(a: Seq<u8>, at_a: int, b: Seq<u8>, at_b: int) {
        lemma_le_u64_is_local(a, at_a, b, at_b);
    }

    fn size() -> (n: usize) {
        8
    }

    fn from_raw(bytes: &[u8], at: usize) -> (value: Self) {
        decode_u64(bytes, at)
    }
}

impl FromMemory for u128 {
    open spec fn raw_size() -> nat {
        16
    }

    open spec fn decoded(bytes: Seq<u8>, at: int) -> Self {
        le_u128(bytes, at)
    }

    proof fn decoded_is_local(a: Seq<u8>, at_a: int, b: Seq<u8>, at_b: int) {
        lemma_le_u128_is_local(a, at_a, b, at_b);
    }

    fn size() -> (n: usize) {
        16
    }

    fn from_raw(bytes: &[u8], at: usize) -> (value: Self) {
        decode_u128(bytes, at)
    }
}

impl FromMemory for i8 {
    open spec fn raw_size() -> nat {
        1
    }

    open spec fn decoded(bytes: Seq<u8>, at: int) -> Self {
        le_i8(bytes, at)
    }

    proof fn decoded_is_local(a: Seq<u8>, at_a: int, b: Seq<u8>, at_b: int) {
        
    }

    fn size() -> (n: usize) {
        1
    }

    fn from_raw(bytes: &[u8], at: usize) -> (value: Self) {
        decode_i8(bytes, at)
    }
}

impl FromMemory for i16 {
    open spec fn raw_size() -> nat {
        2
    }

    open spec fn decoded(bytes: Seq<u8>, at: int) -> Self {
        le_i16(bytes, at)
    }

    proof fn decoded_is_local(a: Seq<u8>, at_a: int, b: Seq<u8>, at_b: int) {
        lemma_le_u16_is_local(a, at_a, b, at_b);
    }

    fn size() -> (n: usize) {
        2
    }

    fn from_raw(bytes: &[u8], at: usize) -> (value: Self) {
        decode_i16(bytes, at)
    }
}

impl FromMemory for i32 {
    open spec fn raw_size() -> nat {
        4
    }

    open spec fn decoded(bytes: Seq<u8>, at: int) -> Self {
        le_i32(bytes, at)
    }

    proof fn decoded_is_local(a: Seq<u8>, at_a: int, b: Seq<u8>, at_b: int) {
        lemma_le_u32_is_local(a, at_a, b, at_b);
    }

    fn size() -> (n: usize) {
        4
    }

    fn from_raw(bytes: &[u8], at: usize) -> (value: Self) {
        decode_i32(bytes, at)
    }
}

impl FromMemory for i64 {
    open spec fn raw_size() -> nat {
        8
    }

    open spec fn decoded(bytes: Seq<u8>, at: int) -> Self {
        le_i64(bytes, at)
    }

    proof fn decoded_is_local(a: Seq<u8>, at_a: int, b: Seq<u8>, at_b: int) {
        lemma_le_u64_is_local(a, at_a, b, at_b);
    }

    fn size() -> (n: usize) {
        8
    }

    fn from_raw(bytes: &[u8], at: usize) -> (value: Self) {
        decode_i64(bytes, at)
    }
}

impl FromMemory for i128 {
    open spec fn raw_size() -> nat {
        16
    }

    open spec fn decoded(bytes: Seq<u8>, at: int) -> Self {
        le_i128(bytes, at)
    }

    proof fn decoded_is_local(a: Seq<u8>, at_a: int, b: Seq<u8>, at_b: int) {
        lemma_le_u128_is_local(a, at_a, b, at_b);
    }

    fn size() -> (n: usize) {
        16
    }

    fn from_raw(bytes: &[u8], at: usize) -> (value: Self) {
        decode_i128(bytes, at)
    }
}

/// A nullable integer: the value zero decodes to `None`.
impl FromMemory for Option<u8> {
    open spec fn raw_size() -> nat {
        1
    }

    open spec fn decoded(bytes: Seq<u8>, at: int) -> Self {
        nonzero(le_u8(bytes, at))
    }

    proof fn decoded_is_local(a: Seq<u8>, at_a: int, b: Seq<u8>, at_b: int) {
        
    }

    fn size() -> (n: usize) {
        1
    }

    fn from_raw(bytes: &[u8], at: usize) -> (value: Self) {
        let raw: u8 = decode_u8(bytes, at);
        if raw == 0 {
            None
        } else {
            Some(raw)
        }
    }
}

/// A nullable integer: the value zero decodes to `None`.
impl FromMemory for Option<u16> {
    open spec fn raw_size() -> nat {
        2
    }

    open spec fn decoded(bytes: Seq<u8>, at: int) -> Self {
        nonzero(le_u16(bytes, at))
    }

    proof fn decoded_is_local(a: Seq<u8>, at_a: int, b: Seq<u8>, at_b: int) {
        lemma_le_u16_is_local(a, at_a, b, at_b);
    }

    fn size() -> (n: usize) {
        2
    }

    fn from_raw(bytes: &[u8], at: usize) -> (value: Self) {
        let raw: u16 = decode_u16(bytes, at);
        if raw == 0 {
            None
        } else {
            Some(raw)
        }
    }
}

/// A nullable integer: the value zero decodes to `None`.
impl FromMemory for Option<u32> {
    open spec fn raw_size() -> nat {
        4
    }

    open spec fn decoded(bytes: Seq<u8>, at: int) -> Self {
        nonzero(le_u32(bytes, at))
    }

    proof fn decoded_is_local(a: Seq<u8>, at_a: int, b: Seq<u8>, at_b: int) {
        lemma_le_u32_is_local(a, at_a, b, at_b);
    }

    fn size() -> (n: usize) {
        4
    }

    fn from_raw(bytes: &[u8], at: usize) -> (value: Self) {
        let raw: u32 = decode_u32(bytes, at);
        if raw == 0 {
            None
        } else {
            Some(raw)
        }
    }
}

/// A nullable integer: the value zero decodes to `None`.
impl FromMemory for Option<u64> {
    open spec fn raw_size() -> nat {
        8
    }

    open spec fn decoded(bytes: Seq<u8>, at: int) -> Self {
        nonzero(le_u64(bytes, at))
    }

    proof fn decoded_is_local(a: Seq<u8>, at_a: int, b: Seq<u8>, at_b: int) {
        lemma_le_u64_is_local(a, at_a, b, at_b);
    }

    fn size() -> (n: usize) {
        8
    }

    fn from_raw(bytes: &[u8], at: usize) -> (value: Self) {
        let raw: u64 = decode_u64(bytes, at);
        if raw == 0 {
            None
        } else {
            Some(raw)
        }
    }
}

impl FromMemory for [u8; 2] {
    open spec fn raw_size() -> nat {
        2
    }

    open spec fn decoded(bytes: Seq<u8>, at: int) -> Self {
        [bytes[at], bytes[at + 1]]
    }

    proof fn decoded_is_local(a: Seq<u8>, at_a: int, b: Seq<u8>, at_b: int) {
    }

    fn size() -> (n: usize) {
        2
    }

    fn from_raw(bytes: &[u8], at: usize) -> (value: Self) {
        [bytes[at], bytes[at + 1]]
    }
}

impl FromMemory for [u8; 4] {
    open spec fn raw_size() -> nat {
        4
    }

    open spec fn decoded(bytes: Seq<u8>, at: int) -> Self {
        [bytes[at], bytes[at + 1], bytes[at + 2], bytes[at + 3]]
    }

    proof fn decoded_is_local(a: Seq<u8>, at_a: int, b: Seq<u8>, at_b: int) {
    }

    fn size() -> (n: usize) {
        4
    }

    fn from_raw(bytes: &[u8], at: usize) -> (value: Self) {
        [bytes[at], bytes[at + 1], bytes[at + 2], bytes[at + 3]]
    }
}

impl FromMemory for [u8; 8] {
    open spec fn raw_size() -> nat {
        8
    }

    open spec fn decoded(bytes: Seq<u8>, at: int) -> Self {
        [
            bytes[at], bytes[at + 1], bytes[at + 2], bytes[at + 3], bytes[at + 4], bytes[at + 5],
            bytes[at + 6], bytes[at + 7],
        ]
    }

    proof fn decoded_is_local(a: Seq<u8>, at_a: int, b: Seq<u8>, at_b: int) {
    }

    fn size() -> (n: usize) {
        8
    }

    fn from_raw(bytes: &[u8], at: usize) -> (value: Self) {
        [
            bytes[at], bytes[at + 1], bytes[at + 2], bytes[at + 3], bytes[at + 4], bytes[at + 5],
            bytes[at + 6], bytes[at + 7],
        ]
    }
}

} // verus!
