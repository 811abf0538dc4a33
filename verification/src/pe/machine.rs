use crate::from_memory::FromMemory;
use vstd::prelude::*;

verus! {

/// The instruction set that an image was built for.
#[derive(Clone, Copy, Debug, PartialEq, Eq, Structural)]
pub struct Machine(pub u16);

impl FromMemory for Machine {
    open spec fn raw_size() -> nat {
        2
    }

    open spec fn decoded(bytes: Seq<u8>, at: int) -> Self {
        Machine(<u16 as FromMemory>::decoded(bytes, at))
    }

    proof fn decoded_is_local(a: Seq<u8>, at_a: int, b: Seq<u8>, at_b: int) {
        <u16 as FromMemory>::decoded_is_local(a, at_a, b, at_b);
    }

    fn size() -> (n: usize) {
        2
    }

    fn from_raw(bytes: &[u8], at: usize) -> (value: Self) {
        Machine(<u16 as FromMemory>::from_raw(bytes, at))
    }
}

impl Machine {
    /// Any machine.
    pub const UNKNOWN: u16 = 0;

    /// The host itself rather than an emulated guest.
    pub const TARGET_HOST: u16 = 0x0001;

    /// Intel 386 and later.
    pub const I386: u16 = 0x014c;

    /// MIPS, little endian.
    pub const R3000: u16 = 0x0162;

    /// MIPS, little endian.
    pub const R4000: u16 = 0x0166;

    /// MIPS, little endian.
    pub const R10000: u16 = 0x0168;

    /// MIPS, little endian, WCE v2.
    pub const WCEMIPSV2: u16 = 0x0169;

    /// Alpha AXP.
    pub const ALPHA: u16 = 0x0184;

    /// Hitachi SH3, little endian.
    pub const SH3: u16 = 0x01a2;

    pub const SH3DSP: u16 = 0x01a3;

    /// Hitachi SH3E, little endian.
    pub const SH3E: u16 = 0x01a4;

    /// Hitachi SH4, little endian.
    pub const SH4: u16 = 0x01a6;

    /// Hitachi SH5.
    pub const SH5: u16 = 0x01a8;

    /// ARM, little endian.
    pub const ARM: u16 = 0x01c0;

    /// ARM Thumb, little endian.
    pub const THUMB: u16 = 0x01c2;

    /// ARM Thumb-2, little endian.
    pub const ARMNT: u16 = 0x01c4;

    pub const AM33: u16 = 0x01d3;

    /// PowerPC, little endian.
    pub const POWERPC: u16 = 0x01f0;

    pub const POWERPCFP: u16 = 0x01f1;

    /// Intel Itanium.
    pub const IA64: u16 = 0x0200;

    pub const MIPS16: u16 = 0x0266;

    /// Alpha, 64 bit.
    pub const ALPHA64: u16 = 0x0284;

    pub const MIPSFPU: u16 = 0x0366;

    pub const MIPSFPU16: u16 = 0x0466;

    /// Infineon.
    pub const TRICORE: u16 = 0x0520;

    pub const CEF: u16 = 0x0cef;

    /// EFI byte code.
    pub const EBC: u16 = 0x0ebc;

    /// x86-64.
    pub const AMD64: u16 = 0x8664;

    /// M32R, little endian.
    pub const M32R: u16 = 0x9041;

    /// ARM64, little endian.
    pub const ARM64: u16 = 0xaa64;

    pub const CEE: u16 = 0xc0ee;

    pub fn new(value: u16) -> (r: Self)
        ensures
            r.0 == value,
    {
        Self(value)
    }

    /// The code as a number.
    pub fn to_u16(self) -> (r: u16)
        ensures
            r == self.0,
    {
        self.0
    }

    /// The name of the code, for those that have one.
    pub open spec fn spec_name(code: u16) -> Option<&'static str> {
        if code == 0 {
            Some("Machine::UNKNOWN")
        } else if code == 0x0001 {
            Some("Machine::TARGET_HOST")
        } else if code == 0x014c {
            Some("Machine::I386")
        } else if code == 0x0162 {
            Some("Machine::R3000")
        } else if code == 0x0166 {
            Some("Machine::R4000")
        } else if code == 0x0168 {
            Some("Machine::R10000")
        } else if code == 0x0169 {
            Some("Machine::WCEMIPSV2")
        } else if code == 0x0184 {
            Some("Machine::ALPHA")
        } else if code == 0x01a2 {
            Some("Machine::SH3")
        } else if code == 0x01a3 {
            Some("Machine::SH3DSP")
        } else if code == 0x01a4 {
            Some("Machine::SH3E")
        } else if code == 0x01a6 {
            Some("Machine::SH4")
        } else if code == 0x01a8 {
            Some("Machine::SH5")
        } else if code == 0x01c0 {
            Some("Machine::ARM")
        } else if code == 0x01c2 {
            Some("Machine::THUMB")
        } else if code == 0x01c4 {
            Some("Machine::ARMNT")
        } else if code == 0x01d3 {
            Some("Machine::AM33")
        } else if code == 0x01f0 {
            Some("Machine::POWERPC")
        } else if code == 0x01f1 {
            Some("Machine::POWERPCFP")
        } else if code == 0x0200 {
            Some("Machine::IA64")
        } else if code == 0x0266 {
            Some("Machine::MIPS16")
        } else if code == 0x0284 {
            Some("Machine::ALPHA64")
        } else if code == 0x0366 {
            Some("Machine::MIPSFPU")
        } else if code == 0x0466 {
            Some("Machine::MIPSFPU16")
        } else if code == 0x0520 {
            Some("Machine::TRICORE")
        } else if code == 0x0cef {
            Some("Machine::CEF")
        } else if code == 0x0ebc {
            Some("Machine::EBC")
        } else if code == 0x8664 {
            Some("Machine::AMD64")
        } else if code == 0x9041 {
            Some("Machine::M32R")
        } else if code == 0xaa64 {
            Some("Machine::ARM64")
        } else if code == 0xc0ee {
            Some("Machine::CEE")
        } else {
            None
        }
    }

    /// The name of the code, for those that have one.
    pub fn name(self) -> (r: Option<&'static str>)
        ensures
            r == Self::spec_name(self.0),
    {
        let code: u16 = self.0;
        if code == 0 {
            Some("Machine::UNKNOWN")
        } else if code == 0x0001 {
            Some("Machine::TARGET_HOST")
        } else if code == 0x014c {
            Some("Machine::I386")
        } else if code == 0x0162 {
            Some("Machine::R3000")
        } else if code == 0x0166 {
            Some("Machine::R4000")
        } else if code == 0x0168 {
            Some("Machine::R10000")
        } else if code == 0x0169 {
            Some("Machine::WCEMIPSV2")
        } else if code == 0x0184 {
            Some("Machine::ALPHA")
        } else if code == 0x01a2 {
            Some("Machine::SH3")
        } else if code == 0x01a3 {
            Some("Machine::SH3DSP")
        } else if code == 0x01a4 {
            Some("Machine::SH3E")
        } else if code == 0x01a6 {
            Some("Machine::SH4")
        } else if code == 0x01a8 {
            Some("Machine::SH5")
        } else if code == 0x01c0 {
            Some("Machine::ARM")
        } else if code == 0x01c2 {
            Some("Machine::THUMB")
        } else if code == 0x01c4 {
            Some("Machine::ARMNT")
        } else if code == 0x01d3 {
            Some("Machine::AM33")
        } else if code == 0x01f0 {
            Some("Machine::POWERPC")
        } else if code == 0x01f1 {
            Some("Machine::POWERPCFP")
        } else if code == 0x0200 {
            Some("Machine::IA64")
        } else if code == 0x0266 {
            Some("Machine::MIPS16")
        } else if code == 0x0284 {
            Some("Machine::ALPHA64")
        } else if code == 0x0366 {
            Some("Machine::MIPSFPU")
        } else if code == 0x0466 {
            Some("Machine::MIPSFPU16")
        } else if code == 0x0520 {
            Some("Machine::TRICORE")
        } else if code == 0x0cef {
            Some("Machine::CEF")
        } else if code == 0x0ebc {
            Some("Machine::EBC")
        } else if code == 0x8664 {
            Some("Machine::AMD64")
        } else if code == 0x9041 {
            Some("Machine::M32R")
        } else if code == 0xaa64 {
            Some("Machine::ARM64")
        } else if code == 0xc0ee {
            Some("Machine::CEE")
        } else {
            None
        }
    }
}

impl Default for Machine {
    fn default() -> (r: Self)
        ensures
            r.0 == 0,
    {
        Self(0)
    }
}

} // verus!
