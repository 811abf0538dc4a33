use crate::pe::data_directories::DataDirectories;
use crate::pe::optional_header_32::OptionalHeader32;
use crate::pe::optional_header_64::OptionalHeader64;
use vstd::prelude::*;
use vstd::std_specs::convert::FromSpecImpl;

verus! {

/// The optional header of an image, in the variant that its magic selects.
#[derive(Clone, Copy, Debug, PartialEq, Eq)]
pub enum OptionalHeader {
    OptionalHeader32(OptionalHeader32),
    OptionalHeader64(OptionalHeader64),
}

impl OptionalHeader {
    /// The data directories of either variant.
    pub open spec fn spec_data_directory(self) -> DataDirectories {
        match self {
            Self::OptionalHeader32(oh) => oh.data_directory,
            Self::OptionalHeader64(oh) => oh.data_directory,
        }
    }

    /// The magic of either variant.
    pub open spec fn spec_magic(self) -> u16 {
        match self {
            Self::OptionalHeader32(oh) => oh.magic,
            Self::OptionalHeader64(oh) => oh.magic,
        }
    }

    /// How many bytes the variant takes in the file, data directories
    /// included.
    pub open spec fn raw_size(self) -> nat {
        match self {
            Self::OptionalHeader32(_) => 224,
            Self::OptionalHeader64(_) => 240,
        }
    }

    /// How many bytes a pointer of the image takes: 4 or 8.
    pub open spec fn spec_pointer_size(self) -> u32 {
        match self {
            Self::OptionalHeader32(_) => 4,
            Self::OptionalHeader64(_) => 8,
        }
    }

    /// The data directories of either variant.
    pub fn data_directory(&self) -> (r: &DataDirectories)
        ensures
            *r == self.spec_data_directory(),
    {
        match self {
            Self::OptionalHeader32(oh) => &oh.data_directory,
            Self::OptionalHeader64(oh) => &oh.data_directory,
        }
    }

    /// The magic of either variant.
    pub fn magic(&self) -> (r: u16)
        ensures
            r == self.spec_magic(),
    {
        match self {
            Self::OptionalHeader32(oh) => oh.magic,
            Self::OptionalHeader64(oh) => oh.magic,
        }
    }

    /// How many bytes a pointer of the image takes: 4 or 8.
    pub fn pointer_size(&self) -> (r: u32)
        ensures
            r == self.spec_pointer_size(),
    {
        match self {
            Self::OptionalHeader32(_) => 4,
            Self::OptionalHeader64(_) => 8,
        }
    }
}

impl From<OptionalHeader32> for OptionalHeader {
    fn from(header: OptionalHeader32) -> (r: Self) {
        Self::OptionalHeader32(header)
    }
}

impl FromSpecImpl<OptionalHeader32> for OptionalHeader {
    open spec fn obeys_from_spec() -> bool {
        true
    }

    open spec fn from_spec(header: OptionalHeader32) -> Self {
        Self::OptionalHeader32(header)
    }
}

impl From<OptionalHeader64> for OptionalHeader {
    fn from(header: OptionalHeader64) -> (r: Self) {
        Self::OptionalHeader64(header)
    }
}

impl FromSpecImpl<OptionalHeader64> for OptionalHeader {
    open spec fn obeys_from_spec() -> bool {
        true
    }

    open spec fn from_spec(header: OptionalHeader64) -> Self {
        Self::OptionalHeader64(header)
    }
}

} // verus!
