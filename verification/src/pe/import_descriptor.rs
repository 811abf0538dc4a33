use crate::from_memory::FromMemory;
use crate::pe::rva::RVA;
use crate::pe::time_date::TimeDate;
use vstd::prelude::*;

verus! {

/// The import of one library, such as `KERNEL32.dll`.
#[derive(Clone, Copy, Debug, Default, PartialEq, Eq, Structural)]
pub struct ImportDescriptor {
    /// Where the lookup table of the imported symbols starts.
    pub import_lookup_table_rva: RVA,
    /// Zero unless the import is bound.
    pub time_date_stamp: TimeDate,
    /// Index of the first forwarder reference.
    pub forwarder_chain: u32,
    /// Where the name of the library lies. The null address ends the table.
    pub dll_ascii_name_rva: RVA,
    /// Where the import address table of this library starts.
    pub iat_rva: RVA,
}

impl FromMemory for ImportDescriptor {
    open spec fn raw_size() -> nat {
        20
    }

    open spec fn decoded(bytes: Seq<u8>, at: int) -> Self {
        ImportDescriptor {
            import_lookup_table_rva: <RVA as FromMemory>::decoded(bytes, at),
            time_date_stamp: <TimeDate as FromMemory>::decoded(bytes, at + 4),
            forwarder_chain: <u32 as FromMemory>::decoded(bytes, at + 8),
            dll_ascii_name_rva: <RVA as FromMemory>::decoded(bytes, at + 12),
            iat_rva: <RVA as FromMemory>::decoded(bytes, at + 16),
        }
    }

    proof fn decoded_is_local(a: Seq<u8>, at_a: int, b: Seq<u8>, at_b: int) {
        <RVA as FromMemory>::decoded_is_local(a, at_a, b, at_b);
        <TimeDate as FromMemory>::decoded_is_local(a, at_a + 4, b, at_b + 4);
        <u32 as FromMemory>::decoded_is_local(a, at_a + 8, b, at_b + 8);
        <RVA as FromMemory>::decoded_is_local(a, at_a + 12, b, at_b + 12);
        <RVA as FromMemory>::decoded_is_local(a, at_a + 16, b, at_b + 16);
    }

    fn size() -> (n: usize) {
        20
    }

    fn from_raw(bytes: &[u8], at: usize) -> (value: Self) {
        ImportDescriptor {
            import_lookup_table_rva: <RVA as FromMemory>::from_raw(bytes, at),
            time_date_stamp: <TimeDate as FromMemory>::from_raw(bytes, at + 4),
            forwarder_chain: <u32 as FromMemory>::from_raw(bytes, at + 8),
            dll_ascii_name_rva: <RVA as FromMemory>::from_raw(bytes, at + 12),
            iat_rva: <RVA as FromMemory>::from_raw(bytes, at + 16),
        }
    }
}
} // verus!
