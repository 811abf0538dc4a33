use crate::from_memory::FromMemory;
use vstd::prelude::*;

verus! {

/// Flags of a section header: what the section holds and how it is mapped.
#[derive(Clone, Copy, Debug, PartialEq, Eq, Structural)]
pub struct SectionCharacteristics {
    pub bits: u32,
}

impl SectionCharacteristics {
    pub const NONE: u32 = 0;

    pub const TYPE_REG: u32 = 0x0000_0000;

    pub const SCALE_INDEX: u32 = 0x0000_0001;

    pub const TYPE_NOLOAD: u32 = 0x0000_0002;

    pub const TYPE_GROUP: u32 = 0x0000_0004;

    pub const TYPE_NO_PAD: u32 = 0x0000_0008;

    pub const TYPE_COPY: u32 = 0x0000_0010;

    /// The section holds executable code.
    pub const CNT_CODE: u32 = 0x0000_0020;

    /// The section holds initialized data.
    pub const CNT_INITIALIZED_DATA: u32 = 0x0000_0040;

    /// The section holds uninitialized data.
    pub const CNT_UNINITIALIZED_DATA: u32 = 0x0000_0080;

    pub const LNK_OTHER: u32 = 0x0000_0100;

    /// The section holds comments or other information.
    pub const LNK_INFO: u32 = 0x0000_0200;

    pub const TYPE_OVER: u32 = 0x0000_0400;

    /// The section will not become part of the image.
    pub const LNK_REMOVE: u32 = 0x0000_0800;

    /// The section holds COMDAT data.
    pub const LNK_COMDAT: u32 = 0x0000_1000;

    pub const RESERVED_00002000: u32 = 0x0000_2000;

    pub const NO_DEFER_SPEC_EXC: u32 = 0x0000_4000;

    /// The section holds data referenced through the global pointer.
    pub const GPREL: u32 = 0x0000_8000;

    pub const MEM_FARDATA: u32 = 0x0000_8000;

    pub const MEM_SYSHEAP: u32 = 0x0001_0000;

    pub const MEM_PURGEABLE: u32 = 0x0002_0000;

    pub const MEM_16BIT: u32 = 0x0002_0000;

    pub const MEM_LOCKED: u32 = 0x0004_0000;

    pub const MEM_PRELOAD: u32 = 0x0008_0000;

    pub const ALIGN_1BYTES: u32 = 0x0010_0000;

    pub const ALIGN_2BYTES: u32 = 0x0020_0000;

    pub const ALIGN_4BYTES: u32 = 0x0030_0000;

    pub const ALIGN_8BYTES: u32 = 0x0040_0000;

    pub const ALIGN_16BYTES: u32 = 0x0050_0000;

    pub const ALIGN_32BYTES: u32 = 0x0060_0000;

    pub const ALIGN_64BYTES: u32 = 0x0070_0000;

    pub const ALIGN_128BYTES: u32 = 0x0080_0000;

    pub const ALIGN_256BYTES: u32 = 0x0090_0000;

    pub const ALIGN_512BYTES: u32 = 0x00A0_0000;

    pub const ALIGN_1024BYTES: u32 = 0x00B0_0000;

    pub const ALIGN_2048BYTES: u32 = 0x00C0_0000;

    pub const ALIGN_4096BYTES: u32 = 0x00D0_0000;

    pub const ALIGN_8192BYTES: u32 = 0x00E0_0000;

    pub const ALIGN_MASK: u32 = 0x00F0_0000;

    /// The section holds extended relocations.
    pub const LNK_NRELOC_OVFL: u32 = 0x0100_0000;

    /// The section can be discarded.
    pub const MEM_DISCARDABLE: u32 = 0x0200_0000;

    /// The section cannot be cached.
    pub const MEM_NOT_CACHED: u32 = 0x0400_0000;

    /// The section cannot be paged.
    pub const MEM_NOT_PAGED: u32 = 0x0800_0000;

    /// The section can be shared in memory.
    pub const MEM_SHARED: u32 = 0x1000_0000;

    /// The section can be executed as code.
    pub const MEM_EXECUTE: u32 = 0x2000_0000;

    /// The section can be read.
    pub const MEM_READ: u32 = 0x4000_0000;

    /// The section can be written to.
    pub const MEM_WRITE: u32 = 0x8000_0000;

    /// The flags whose bits are set in `bits`. Every bit is a flag of its
    /// own, so none is dropped.
    pub fn from_bits_truncate(bits: u32) -> (r: Self)
        ensures
            r.bits == bits,
    {
        Self { bits }
    }

    /// The flags as bits.
    pub fn bits(&self) -> (r: u32)
        ensures
            r == self.bits,
    {
        self.bits
    }

    /// True when no flag is set.
    pub fn is_empty(&self) -> (r: bool)
        ensures
            r == (self.bits == 0),
    {
        self.bits == 0
    }

    /// True when every bit of `flags` is set.
    pub fn contains(&self, flags: u32) -> (r: bool)
        ensures
            r == (self.bits & flags == flags),
    {
        self.bits & flags == flags
    }
}

impl Default for SectionCharacteristics {
    fn default() -> (r: Self)
        ensures
            r.bits == 0,
    {
        Self { bits: 0 }
    }
}

impl FromMemory for SectionCharacteristics {
    open spec fn raw_size() -> nat {
        <u32 as FromMemory>::raw_size()
    }

    open spec fn decoded(bytes: Seq<u8>, at: int) -> Self {
        SectionCharacteristics { bits: <u32 as FromMemory>::decoded(bytes, at) }
    }

    proof fn decoded_is_local(a: Seq<u8>, at_a: int, b: Seq<u8>, at_b: int) {
        <u32 as FromMemory>::decoded_is_local(a, at_a, b, at_b);
    }

    fn size() -> (n: usize) {
        <u32 as FromMemory>::size()
    }

    fn from_raw(bytes: &[u8], at: usize) -> (value: Self) {
        SectionCharacteristics { bits: <u32 as FromMemory>::from_raw(bytes, at) }
    }
}

} // verus!
