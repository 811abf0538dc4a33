use crate::from_memory::FromMemory;
use vstd::prelude::*;

verus! {

/// The environment that an image needs in order to run.
#[derive(Clone, Copy, Debug, PartialEq, Eq, Structural)]
pub struct Subsystem(pub u16);

impl FromMemory for Subsystem {
    open spec fn raw_size() -> nat {
        2
    }

    open spec fn decoded(bytes: Seq<u8>, at: int) -> Self {
        Subsystem(<u16 as FromMemory>::decoded(bytes, at))
    }

    proof fn decoded_is_local(a: Seq<u8>, at_a: int, b: Seq<u8>, at_b: int) {
        <u16 as FromMemory>::decoded_is_local(a, at_a, b, at_b);
    }

    fn size() -> (n: usize) {
        2
    }

    fn from_raw(bytes: &[u8], at: usize) -> (value: Self) {
        Subsystem(<u16 as FromMemory>::from_raw(bytes, at))
    }
}

impl Subsystem {
    /// Unknown subsystem.
    pub const UNKNOWN: u16 = 0;

    /// No subsystem: device drivers and native system processes.
    pub const NATIVE: u16 = 1;

    /// Windows graphical user interface.
    pub const WINDOWS_GUI: u16 = 2;

    /// Windows character-mode user interface.
    pub const WINDOWS_CUI: u16 = 3;

    /// OS/2 character-mode user interface.
    pub const OS2_CUI: u16 = 5;

    /// POSIX character-mode user interface.
    pub const POSIX_CUI: u16 = 7;

    /// Windows CE graphical user interface.
    pub const WINDOWS_CE_GUI: u16 = 9;

    /// EFI application.
    pub const EFI_APPLICATION: u16 = 10;

    /// EFI driver with boot services.
    pub const EFI_BOOT_SERVICE_DRIVER: u16 = 11;

    /// EFI driver with runtime services.
    pub const EFI_RUNTIME_DRIVER: u16 = 12;

    /// EFI ROM image.
    pub const EFI_ROM: u16 = 13;

    /// Xbox system.
    pub const XBOX: u16 = 14;

    /// Boot application.
    pub const WINDOWS_BOOT_APPLICATION: u16 = 16;

    pub const XBOX_CODE_CATALOG: u16 = 17;

    pub fn new(value: u16) -> (r: Self)
        ensures
            r.0 == value,
    {
        Self(value)
    }

    /// The code as a number.
    pub fn to_u16(self) -> (r: u16)
        ensures
            r == self.0,
    {
        self.0
    }

    /// The name of the code, for those that have one.
    pub open spec fn spec_name(code: u16) -> Option<&'static str> {
        if code == 0 {
            Some("Subsystem::UNKNOWN")
        } else if code == 1 {
            Some("Subsystem::NATIVE")
        } else if code == 2 {
            Some("Subsystem::WINDOWS_GUI")
        } else if code == 3 {
            Some("Subsystem::WINDOWS_CUI")
        } else if code == 5 {
            Some("Subsystem::OS2_CUI")
        } else if code == 7 {
            Some("Subsystem::POSIX_CUI")
        } else if code == 9 {
            Some("Subsystem::WINDOWS_CE_GUI")
        } else if code == 10 {
            Some("Subsystem::EFI_APPLICATION")
        } else if code == 11 {
            Some("Subsystem::EFI_BOOT_SERVICE_DRIVER")
        } else if code == 12 {
            Some("Subsystem::EFI_RUNTIME_DRIVER")
        } else if code == 13 {
            Some("Subsystem::EFI_ROM")
        } else if code == 14 {
            Some("Subsystem::XBOX")
        } else if code == 16 {
            Some("Subsystem::WINDOWS_BOOT_APPLICATION")
        } else if code == 17 {
            Some("Subsystem::XBOX_CODE_CATALOG")
        } else {
            None
        }
    }

    /// The name of the code, for those that have one.
    pub fn name(self) -> (r: Option<&'static str>)
        ensures
            r == Self::spec_name(self.0),
    {
        let code: u16 = self.0;
        if code == 0 {
            Some("Subsystem::UNKNOWN")
        } else if code == 1 {
            Some("Subsystem::NATIVE")
        } else if code == 2 {
            Some("Subsystem::WINDOWS_GUI")
        } else if code == 3 {
            Some("Subsystem::WINDOWS_CUI")
        } else if code == 5 {
            Some("Subsystem::OS2_CUI")
        } else if code == 7 {
            Some("Subsystem::POSIX_CUI")
        } else if code == 9 {
            Some("Subsystem::WINDOWS_CE_GUI")
        } else if code == 10 {
            Some("Subsystem::EFI_APPLICATION")
        } else if code == 11 {
            Some("Subsystem::EFI_BOOT_SERVICE_DRIVER")
        } else if code == 12 {
            Some("Subsystem::EFI_RUNTIME_DRIVER")
        } else if code == 13 {
            Some("Subsystem::EFI_ROM")
        } else if code == 14 {
            Some("Subsystem::XBOX")
        } else if code == 16 {
            Some("Subsystem::WINDOWS_BOOT_APPLICATION")
        } else if code == 17 {
            Some("Subsystem::XBOX_CODE_CATALOG")
        } else {
            None
        }
    }
}

impl Default for Subsystem {
    fn default() -> (r: Self)
        ensures
            r.0 == 0,
    {
        Self(0)
    }
}

} // verus!
