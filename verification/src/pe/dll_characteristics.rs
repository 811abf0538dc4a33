use crate::from_memory::FromMemory;
use vstd::prelude::*;

verus! {

/// Flags of the optional header: how the loader is to treat the image.
#[derive(Clone, Copy, Debug, PartialEq, Eq, Structural)]
pub struct DllCharacteristics {
    pub bits: u16,
}

impl DllCharacteristics {
    pub const NONE: u16 = 0;

    pub const PROCESS_INIT: u16 = 0x0001;

    pub const PROCESS_TERM: u16 = 0x0002;

    pub const THREAD_INIT: u16 = 0x0004;

    pub const THREAD_TERM: u16 = 0x0008;

    pub const RESERVED_0010: u16 = 0x0010;

    /// The image handles a high-entropy 64-bit address space.
    pub const HIGH_ENTROPY_VA: u16 = 0x0020;

    /// The image can be relocated at load time.
    pub const DYNAMIC_BASE: u16 = 0x0040;

    /// Code integrity checks are enforced.
    pub const FORCE_INTEGRITY: u16 = 0x0080;

    /// The image is compatible with data execution prevention.
    pub const NX_COMPAT: u16 = 0x0100;

    /// The image is isolation aware, but is not to be isolated.
    pub const NO_ISOLATION: u16 = 0x0200;

    /// The image uses no structured exception handling.
    pub const NO_SEH: u16 = 0x0400;

    /// The image is not to be bound.
    pub const NO_BIND: u16 = 0x0800;

    /// The image runs in an app container.
    pub const APPCONTAINER: u16 = 0x1000;

    /// The image is a WDM driver.
    pub const WDM_DRIVER: u16 = 0x2000;

    /// The image supports control flow guard.
    pub const GUARD_CF: u16 = 0x4000;

    /// The image is terminal server aware.
    pub const TERMINAL_SERVER_AWARE: u16 = 0x8000;

    /// The flags whose bits are set in `bits`. Every bit is a flag of its
    /// own, so none is dropped.
    pub fn from_bits_truncate(bits: u16) -> (r: Self)
        ensures
            r.bits == bits,
    {
        Self { bits }
    }

    /// The flags as bits.
    pub fn bits(&self) -> (r: u16)
        ensures
            r == self.bits,
    {
        self.bits
    }

    /// True when no flag is set.
    pub fn is_empty(&self) -> (r: bool)
        ensures
            r == (self.bits == 0),
    {
        self.bits == 0
    }

    /// True when every bit of `flags` is set.
    pub fn contains(&self, flags: u16) -> (r: bool)
        ensures
            r == (self.bits & flags == flags),
    {
        self.bits & flags == flags
    }
}

impl Default for DllCharacteristics {
    fn default() -> (r: Self)
        ensures
            r.bits == 0,
    {
        Self { bits: 0 }
    }
}

impl FromMemory for DllCharacteristics {
    open spec fn raw_size() -> nat {
        <u16 as FromMemory>::raw_size()
    }

    open spec fn decoded(bytes: Seq<u8>, at: int) -> Self {
        DllCharacteristics { bits: <u16 as FromMemory>::decoded(bytes, at) }
    }

    proof fn decoded_is_local(a: Seq<u8>, at_a: int, b: Seq<u8>, at_b: int) {
        <u16 as FromMemory>::decoded_is_local(a, at_a, b, at_b);
    }

    fn size() -> (n: usize) {
        <u16 as FromMemory>::size()
    }

    fn from_raw(bytes: &[u8], at: usize) -> (value: Self) {
        DllCharacteristics { bits: <u16 as FromMemory>::from_raw(bytes, at) }
    }
}

} // verus!
