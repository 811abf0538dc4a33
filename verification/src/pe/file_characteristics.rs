use crate::from_memory::FromMemory;
use vstd::prelude::*;

verus! {

/// Flags of the file header: what kind of image the file holds.
#[derive(Clone, Copy, Debug, PartialEq, Eq, Structural)]
pub struct FileCharacteristics {
    pub bits: u16,
}

impl FileCharacteristics {
    pub const NONE: u16 = 0;

    /// Relocation information was stripped: the image loads at its preferred base only.
    pub const RELOCS_STRIPPED: u16 = 0x0001;

    /// The image has no unresolved external references.
    pub const EXECUTABLE_IMAGE: u16 = 0x0002;

    /// COFF line numbers were stripped.
    pub const LINE_NUMS_STRIPPED: u16 = 0x0004;

    /// COFF symbol table entries were stripped.
    pub const LOCAL_SYMS_STRIPPED: u16 = 0x0008;

    /// Trim the working set aggressively (obsolete).
    pub const AGGRESSIVE_WS_TRIM: u16 = 0x0010;

    /// The program handles addresses above 2 GB.
    pub const LARGE_ADDRESS_AWARE: u16 = 0x0020;

    pub const RESERVED_0040: u16 = 0x0040;

    /// The bytes of the word are reversed (obsolete).
    pub const BYTES_REVERSED_LO: u16 = 0x0080;

    /// The machine has 32-bit words.
    pub const MACHINE_32BIT: u16 = 0x0100;

    /// Debugging information was removed.
    pub const DEBUG_STRIPPED: u16 = 0x0200;

    /// On removable media, copy the image to the swap file and run it from there.
    pub const REMOVABLE_RUN_FROM_SWAP: u16 = 0x0400;

    /// On the network, copy the image to the swap file and run it from there.
    pub const NET_RUN_FROM_SWAP: u16 = 0x0800;

    /// The image is a system file.
    pub const SYSTEM: u16 = 0x1000;

    /// The image is a dynamic-link library.
    pub const DLL: u16 = 0x2000;

    /// Run on a uniprocessor machine only.
    pub const UP_SYSTEM_ONLY: u16 = 0x4000;

    /// The bytes of the word are reversed (obsolete).
    pub const BYTES_REVERSED_HI: u16 = 0x8000;

    /// The flags whose bits are set in `bits`. Every bit is a flag of its
    /// own, so none is dropped.
    pub fn from_bits_truncate(bits: u16) -> (r: Self)
        ensures
            r.bits == bits,
    {
        Self { bits }
    }

    /// The flags as bits.
    pub fn bits(&self) -> (r: u16)
        ensures
            r == self.bits,
    {
        self.bits
    }

    /// True when no flag is set.
    pub fn is_empty(&self) -> (r: bool)
        ensures
            r == (self.bits == 0),
    {
        self.bits == 0
    }

    /// True when every bit of `flags` is set.
    pub fn contains(&self, flags: u16) -> (r: bool)
        ensures
            r == (self.bits & flags == flags),
    {
        self.bits & flags == flags
    }
}

impl Default for FileCharacteristics {
    fn default() -> (r: Self)
        ensures
            r.bits == 0,
    {
        Self { bits: 0 }
    }
}

impl FromMemory for FileCharacteristics {
    open spec fn raw_size() -> nat {
        <u16 as FromMemory>::raw_size()
    }

    open spec fn decoded(bytes: Seq<u8>, at: int) -> Self {
        FileCharacteristics { bits: <u16 as FromMemory>::decoded(bytes, at) }
    }

    proof fn decoded_is_local(a: Seq<u8>, at_a: int, b: Seq<u8>, at_b: int) {
        <u16 as FromMemory>::decoded_is_local(a, at_a, b, at_b);
    }

    fn size() -> (n: usize) {
        <u16 as FromMemory>::size()
    }

    fn from_raw(bytes: &[u8], at: usize) -> (value: Self) {
        FileCharacteristics { bits: <u16 as FromMemory>::from_raw(bytes, at) }
    }
}

} // verus!
