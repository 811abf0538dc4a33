use crate::from_memory::FromMemory;
use crate::pe::file_characteristics::FileCharacteristics;
use crate::pe::machine::Machine;
use crate::pe::time_date::TimeDate;
use vstd::prelude::*;

verus! {

/// The part of the PE header that every image has, whatever its pointer
/// width.
#[derive(Clone, Copy, Debug, Default, PartialEq, Eq, Structural)]
pub struct FileHeader {
    /// The machine that the image was built for.
    pub machine: Machine,
    /// How many section headers follow the headers.
    pub nsections: u16,
    /// When the image was linked.
    pub link_time_date: TimeDate,
    /// File offset of the COFF symbol table, or zero.
    pub symbols: u32,
    /// How many symbols the COFF symbol table holds.
    pub nsymbols: u32,
    /// How many bytes the optional header takes; zero where there is none.
    pub optional_header_size: u16,
    /// What kind of image this is.
    pub characteristics: FileCharacteristics,
}

impl FromMemory for FileHeader {
    open spec fn raw_size() -> nat {
        20
    }

    open spec fn decoded(bytes: Seq<u8>, at: int) -> Self {
        FileHeader {
            machine: <Machine as FromMemory>::decoded(bytes, at),
            nsections: <u16 as FromMemory>::decoded(bytes, at + 2),
            link_time_date: <TimeDate as FromMemory>::decoded(bytes, at + 4),
            symbols: <u32 as FromMemory>::decoded(bytes, at + 8),
            nsymbols: <u32 as FromMemory>::decoded(bytes, at + 12),
            optional_header_size: <u16 as FromMemory>::decoded(bytes, at + 16),
            characteristics: <FileCharacteristics as FromMemory>::decoded(bytes, at + 18),
        }
    }

    proof fn decoded_is_local(a: Seq<u8>, at_a: int, b: Seq<u8>, at_b: int) {
        <Machine as FromMemory>::decoded_is_local(a, at_a, b, at_b);
        <u16 as FromMemory>::decoded_is_local(a, at_a + 2, b, at_b + 2);
        <TimeDate as FromMemory>::decoded_is_local(a, at_a + 4, b, at_b + 4);
        <u32 as FromMemory>::decoded_is_local(a, at_a + 8, b, at_b + 8);
        <u32 as FromMemory>::decoded_is_local(a, at_a + 12, b, at_b + 12);
        <u16 as FromMemory>::decoded_is_local(a, at_a + 16, b, at_b + 16);
        <FileCharacteristics as FromMemory>::decoded_is_local(a, at_a + 18, b, at_b + 18);
    }

    fn size() -> (n: usize) {
        20
    }

    fn from_raw(bytes: &[u8], at: usize) -> (value: Self) {
        FileHeader {
            machine: <Machine as FromMemory>::from_raw(bytes, at),
            nsections: <u16 as FromMemory>::from_raw(bytes, at + 2),
            link_time_date: <TimeDate as FromMemory>::from_raw(bytes, at + 4),
            symbols: <u32 as FromMemory>::from_raw(bytes, at + 8),
            nsymbols: <u32 as FromMemory>::from_raw(bytes, at + 12),
            optional_header_size: <u16 as FromMemory>::from_raw(bytes, at + 16),
            characteristics: <FileCharacteristics as FromMemory>::from_raw(bytes, at + 18),
        }
    }
}
} // verus!
