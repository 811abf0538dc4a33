use crate::from_memory::FromMemory;
use crate::pe::rva::RVA;
use vstd::prelude::*;

verus! {

/// What one entry of an import lookup table says. An entry is exactly one
/// of the three.
#[derive(Clone, Copy, Debug, PartialEq, Eq, Structural)]
pub enum ImportLookup {
    /// The symbol is imported by its ordinal number.
    Ordinal(u16),
    /// The symbol is imported by name; the address is that of its entry in
    /// the hint/name table.
    Name(RVA),
    /// The entry is all zero: the table ends here.
    EndOfTable,
}

/// The reading of a 32-bit entry: zero ends the table; with bit 31 set the
/// low 16 bits are an ordinal; else the low 31 bits are an address.
pub open spec fn lookup_32(raw: u32) -> ImportLookup {
    if raw == 0 {
        ImportLookup::EndOfTable
    } else if raw >= 0x8000_0000 {
        ImportLookup::Ordinal((raw % 0x1_0000) as u16)
    } else {
        ImportLookup::Name(RVA(raw))
    }
}

/// The reading of a 64-bit entry: zero ends the table; with bit 63 set the
/// low 16 bits are an ordinal; else the low 31 bits are an address.
pub open spec fn lookup_64(raw: u64) -> ImportLookup {
    if raw == 0 {
        ImportLookup::EndOfTable
    } else if raw >= 0x8000_0000_0000_0000 {
        ImportLookup::Ordinal((raw % 0x1_0000) as u16)
    } else {
        ImportLookup::Name(RVA((raw % 0x8000_0000) as u32))
    }
}

/// An entry of an import lookup table, which describes the import of one
/// symbol of a library.
pub trait ImportLookupTableEntry {
    /// What the entry says.
    spec fn lookup(&self) -> ImportLookup;

    /// Decodes the entry.
    fn decode(&self) -> (r: ImportLookup)
        ensures
            r == self.lookup(),
    ;

    /// True of the all-zero entry that ends a table.
    fn is_eot(&self) -> (r: bool)
        ensures
            r == (self.lookup() is EndOfTable),
    {
        match self.decode() {
            ImportLookup::EndOfTable => true,
            _ => false,
        }
    }

    /// The address of the hint/name table entry, where the symbol is
    /// imported by name.
    fn name_table_rva(&self) -> (r: Option<RVA>)
        ensures
            r == (match self.lookup() {
                ImportLookup::Name(rva) => Some(rva),
                _ => None,
            }),
    {
        match self.decode() {
            ImportLookup::Name(rva) => Some(rva),
            _ => None,
        }
    }

    /// The ordinal, where the symbol is imported by ordinal.
    fn ordinal(&self) -> (r: Option<u16>)
        ensures
            r == (match self.lookup() {
                ImportLookup::Ordinal(ordinal) => Some(ordinal),
                _ => None,
            }),
    {
        match self.decode() {
            ImportLookup::Ordinal(ordinal) => Some(ordinal),
            _ => None,
        }
    }
}

/// An entry of the import lookup table of a 32-bit image.
#[derive(Clone, Copy, Debug, Default, PartialEq, Eq, Structural)]
pub struct ImportLookupTableEntry32(pub u32);

/// An entry of the import lookup table of a 64-bit image.
#[derive(Clone, Copy, Debug, Default, PartialEq, Eq, Structural)]
pub struct ImportLookupTableEntry64(pub u64);

impl ImportLookupTableEntry for ImportLookupTableEntry32 {
    open spec fn lookup(&self) -> ImportLookup {
        lookup_32(self.0)
    }

    fn decode(&self) -> (r: ImportLookup) {
        let raw: u32 = self.0;
        if raw == 0 {
            ImportLookup::EndOfTable
        } else if raw >= 0x8000_0000 {
            ImportLookup::Ordinal((raw % 0x1_0000) as u16)
        } else {
            ImportLookup::Name(RVA(raw))
        }
    }
}

impl ImportLookupTableEntry for ImportLookupTableEntry64 {
    open spec fn lookup(&self) -> ImportLookup {
        lookup_64(self.0)
    }

    fn decode(&self) -> (r: ImportLookup) {
        let raw: u64 = self.0;
        if raw == 0 {
            ImportLookup::EndOfTable
        } else if raw >= 0x8000_0000_0000_0000 {
            ImportLookup::Ordinal((raw % 0x1_0000) as u16)
        } else {
            ImportLookup::Name(RVA((raw % 0x8000_0000) as u32))
        }
    }
}

impl FromMemory for ImportLookupTableEntry32 {
    open spec fn raw_size() -> nat {
        4
    }

    open spec fn decoded(bytes: Seq<u8>, at: int) -> Self {
        ImportLookupTableEntry32(<u32 as FromMemory>::decoded(bytes, at))
    }

    proof fn decoded_is_local(a: Seq<u8>, at_a: int, b: Seq<u8>, at_b: int) {
        <u32 as FromMemory>::decoded_is_local(a, at_a, b, at_b);
    }

    fn size() -> (n: usize) {
        4
    }

    fn from_raw(bytes: &[u8], at: usize) -> (value: Self) {
        ImportLookupTableEntry32(<u32 as FromMemory>::from_raw(bytes, at))
    }
}

impl FromMemory for ImportLookupTableEntry64 {
    open spec fn raw_size() -> nat {
        8
    }

    open spec fn decoded(bytes: Seq<u8>, at: int) -> Self {
        ImportLookupTableEntry64(<u64 as FromMemory>::decoded(bytes, at))
    }

    proof fn decoded_is_local(a: Seq<u8>, at_a: int, b: Seq<u8>, at_b: int) {
        <u64 as FromMemory>::decoded_is_local(a, at_a, b, at_b);
    }

    fn size() -> (n: usize) {
        8
    }

    fn from_raw(bytes: &[u8], at: usize) -> (value: Self) {
        ImportLookupTableEntry64(<u64 as FromMemory>::from_raw(bytes, at))
    }
}

/// The masks of the format say what the arithmetic says: bit 31 (or 63) is
/// set in the values from `0x8000_0000` (or `0x8000_0000_0000_0000`) on, the
/// low 16 bits are the remainder by `0x1_0000`, the low 31 bits the
/// remainder by `0x8000_0000`.
pub proof fn lemma_lookup_masks(raw32: u32, raw64: u64)
    ensures
        (raw32 & 0x8000_0000 != 0) == (raw32 >= 0x8000_0000),
        raw32 & 0xffff == raw32 % 0x1_0000,
        raw32 < 0x8000_0000 ==> raw32 & 0x7fff_ffff == raw32,
        (raw64 & 0x8000_0000_0000_0000 != 0) == (raw64 >= 0x8000_0000_0000_0000),
        raw64 & 0xffff == raw64 % 0x1_0000,
        raw64 & 0x7fff_ffff == raw64 % 0x8000_0000,
{
    assert((raw32 & 0x8000_0000 != 0) == (raw32 >= 0x8000_0000)) by (bit_vector);
    assert(raw32 & 0xffff == raw32 % 0x1_0000) by (bit_vector);
    assert(raw32 < 0x8000_0000 ==> raw32 & 0x7fff_ffff == raw32) by (bit_vector);
    assert((raw64 & 0x8000_0000_0000_0000 != 0) == (raw64 >= 0x8000_0000_0000_0000))
        by (bit_vector);
    assert(raw64 & 0xffff == raw64 % 0x1_0000) by (bit_vector);
    assert(raw64 & 0x7fff_ffff == raw64 % 0x8000_0000) by (bit_vector);
}

} // verus!
