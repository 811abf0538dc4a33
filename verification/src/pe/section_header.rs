use crate::error::Error;
use crate::from_memory::{whole_or_eof, FromMemory};
use crate::io::read_at::ReadAt;
use crate::io::read_at_ext::{
    first_index_of, lemma_first_index_of_found, lemma_first_index_of_none,
};
use crate::io::read_at_reader::ReadAtReader;
use crate::pe::rva::RVA;
use crate::pe::section_characteristics::SectionCharacteristics;
use core::ops::Range;
use vstd::prelude::*;

verus! {

/// A section of the image: its name, the range of virtual addresses it
/// is mapped to, and where its bytes lie in the file.
#[derive(Clone, Copy, Debug, Default, PartialEq, Eq)]
pub struct SectionHeader {
    /// The name, padded with zero bytes where it is shorter than eight.
    pub name: [u8; 8],
    /// How many bytes the section takes once loaded.
    pub virtual_size: u32,
    /// Where the section starts once loaded.
    pub virtual_address: RVA,
    /// How many bytes of the section the file holds.
    pub size_of_raw_data: u32,
    /// File offset of the section's bytes; absent where the file holds none.
    pub pointer_to_raw_data: Option<u32>,
    /// File offset of the relocations, if any.
    pub pointer_to_relocations: Option<u32>,
    /// File offset of the line numbers, if any.
    pub pointer_to_linenumbers: Option<u32>,
    pub number_of_relocations: u16,
    pub number_of_linenumbers: u16,
    pub characteristics: SectionCharacteristics,
}

impl FromMemory for SectionHeader {
    open spec fn raw_size() -> nat {
        40
    }

    open spec fn decoded(bytes: Seq<u8>, at: int) -> Self {
        SectionHeader {
            name: <[u8; 8] as FromMemory>::decoded(bytes, at),
            virtual_size: <u32 as FromMemory>::decoded(bytes, at + 8),
            virtual_address: <RVA as FromMemory>::decoded(bytes, at + 12),
            size_of_raw_data: <u32 as FromMemory>::decoded(bytes, at + 16),
            pointer_to_raw_data: <Option<u32> as FromMemory>::decoded(bytes, at + 20),
            pointer_to_relocations: <Option<u32> as FromMemory>::decoded(bytes, at + 24),
            pointer_to_linenumbers: <Option<u32> as FromMemory>::decoded(bytes, at + 28),
            number_of_relocations: <u16 as FromMemory>::decoded(bytes, at + 32),
            number_of_linenumbers: <u16 as FromMemory>::decoded(bytes, at + 34),
            characteristics: <SectionCharacteristics as FromMemory>::decoded(bytes, at + 36),
        }
    }

    proof fn decoded_is_local(a: Seq<u8>, at_a: int, b: Seq<u8>, at_b: int) {
        <[u8; 8] as FromMemory>::decoded_is_local(a, at_a, b, at_b);
        <u32 as FromMemory>::decoded_is_local(a, at_a + 8, b, at_b + 8);
        <RVA as FromMemory>::decoded_is_local(a, at_a + 12, b, at_b + 12);
        <u32 as FromMemory>::decoded_is_local(a, at_a + 16, b, at_b + 16);
        <Option<u32> as FromMemory>::decoded_is_local(a, at_a + 20, b, at_b + 20);
        <Option<u32> as FromMemory>::decoded_is_local(a, at_a + 24, b, at_b + 24);
        <Option<u32> as FromMemory>::decoded_is_local(a, at_a + 28, b, at_b + 28);
        <u16 as FromMemory>::decoded_is_local(a, at_a + 32, b, at_b + 32);
        <u16 as FromMemory>::decoded_is_local(a, at_a + 34, b, at_b + 34);
        <SectionCharacteristics as FromMemory>::decoded_is_local(a, at_a + 36, b, at_b + 36);
    }

    fn size() -> (n: usize) {
        40
    }

    fn from_raw(bytes: &[u8], at: usize) -> (value: Self) {
        SectionHeader {
            name: <[u8; 8] as FromMemory>::from_raw(bytes, at),
            virtual_size: <u32 as FromMemory>::from_raw(bytes, at + 8),
            virtual_address: <RVA as FromMemory>::from_raw(bytes, at + 12),
            size_of_raw_data: <u32 as FromMemory>::from_raw(bytes, at + 16),
            pointer_to_raw_data: <Option<u32> as FromMemory>::from_raw(bytes, at + 20),
            pointer_to_relocations: <Option<u32> as FromMemory>::from_raw(bytes, at + 24),
            pointer_to_linenumbers: <Option<u32> as FromMemory>::from_raw(bytes, at + 28),
            number_of_relocations: <u16 as FromMemory>::from_raw(bytes, at + 32),
            number_of_linenumbers: <u16 as FromMemory>::from_raw(bytes, at + 34),
            characteristics: <SectionCharacteristics as FromMemory>::from_raw(bytes, at + 36),
        }
    }
}
impl SectionHeader {
    /// The address behind the last one that the section is mapped to. The
    /// range ends with the 32-bit address space at the latest.
    pub open spec fn virtual_end(self) -> int {
        if self.virtual_address.0 + self.virtual_size <= 0x1_0000_0000 {
            self.virtual_address.0 + self.virtual_size
        } else {
            0x1_0000_0000
        }
    }

    /// True when the section is mapped to the address `rva`: the range of a
    /// section starts at `virtual_address`, takes `virtual_size` addresses,
    /// and does not hold its end.
    pub open spec fn contains(self, rva: int) -> bool {
        self.virtual_address.0 <= rva < self.virtual_end()
    }

    /// The file offset, from the start of the image, of the byte that lies
    /// `offset` bytes into the section. An absent pointer counts as zero.
    pub open spec fn raw_offset(self, offset: int) -> int {
        match self.pointer_to_raw_data {
            Some(pointer) => pointer + offset,
            None => offset,
        }
    }

    /// Reads the section header at the position of `read`.
    pub fn read_from<R: ReadAt>(read: &mut ReadAtReader<R>) -> (r: Result<Self, Error>)
        ensures
            final(read).read_at == old(read).read_at,
            r == whole_or_eof(
                old(read).read_at.content(),
                old(read).pos as int,
                40,
                Self::decoded(old(read).read_at.content(), old(read).pos as int),
            ) || (r matches Err(e) && e.is_io() && !old(read).read_at.infallible()),
            r is Ok ==> final(read).pos == old(read).pos + 40,
            r is Err ==> final(read).pos == old(read).pos,
    {
        Self::from_io(read)
    }

    /// The addresses that the section is mapped to, from the first to
    /// behind the last.
    pub fn virtual_address_range(&self) -> (r: Range<u64>)
        ensures
            r.start == self.virtual_address.0,
            r.end == self.virtual_end(),
    {
        let start: u64 = self.virtual_address.0 as u64;
        let end: u64 = start + self.virtual_size as u64;
        if end <= 0x1_0000_0000 {
            start..end
        } else {
            start..0x1_0000_0000
        }
    }

    /// The name without its padding: the bytes before the first zero byte,
    /// or all eight where none is zero.
    pub fn name_bytes(&self) -> (r: &[u8])
        ensures
            r@ == self.name@.subrange(0, first_index_of(self.name@, 0)),
    {
        let name: &[u8] = self.name.as_slice();
        let mut len: usize = 0;
        while len < 8 && name[len] != 0
            invariant
                len <= 8,
                name@ == self.name@,
                name@.len() == 8,
                forall|k: int| 0 <= k < len ==> name@[k] != 0,
            decreases 8 - len,
        {
            len = len + 1;
        }
        proof {
            if len < 8 {
                lemma_first_index_of_found(name@, 0, len as int);
            } else {
                lemma_first_index_of_none(name@, 0);
            }
        }
        vstd::slice::slice_subrange(name, 0, len)
    }

    /// Tells whether the section is mapped to the address `rva`.
    pub fn contains_rva(&self, rva: RVA) -> (r: bool)
        ensures
            r == self.contains(rva.0 as int),
    {
        let start: u64 = self.virtual_address.0 as u64;
        let end: u64 = start + self.virtual_size as u64;
        start <= rva.0 as u64 && (rva.0 as u64) < end
    }
}

} // verus!
