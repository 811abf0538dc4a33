use maulingmonkey_format_exe::error::{Error, Failure, Operation, Src};
use maulingmonkey_format_exe::pe::imports::{decode_lookups, Terminated};
use maulingmonkey_format_exe::pe::{
    ImportDescriptor, ImportLookup, ImportLookupTableEntry, ImportLookupTableEntry32,
    ImportLookupTableEntry64, Reader, TimeDate, RVA,
};
use maulingmonkey_format_exe::FromMemory;

fn put16(bytes: &mut [u8], at: usize, value: u16) {
    bytes[at..at + 2].copy_from_slice(&value.to_le_bytes());
}

fn put32(bytes: &mut [u8], at: usize, value: u32) {
    bytes[at..at + 4].copy_from_slice(&value.to_le_bytes());
}

fn put64(bytes: &mut [u8], at: usize, value: u64) {
    bytes[at..at + 8].copy_from_slice(&value.to_le_bytes());
}

/// An image with one section, which maps the file from offset 0x400 on to
/// the addresses from 0x1000 on, `virtual_size` bytes of them, of which
/// the file holds `raw` bytes. `wide` selects the 64-bit optional header.
fn image(wide: bool, import: (u32, u32), iat: (u32, u32), virtual_size: u32, raw: u32) -> Vec<u8> {
    let mut bytes = vec![0u8; 64];
    bytes[0] = b'M';
    bytes[1] = b'Z';
    put32(&mut bytes, 60, 64);
    let optional_size: usize = if wide { 240 } else { 224 };
    let mut pe = vec![0u8; 24 + optional_size];
    pe[..4].copy_from_slice(b"PE\0\0");
    put16(&mut pe, 4, if wide { 0x8664 } else { 0x014c });
    put16(&mut pe, 6, 1);
    put16(&mut pe, 20, optional_size as u16);
    put16(&mut pe, 24, if wide { 0x020b } else { 0x010b });
    let directories = 24 + optional_size - 128;
    put32(&mut pe, directories + 8, import.0);
    put32(&mut pe, directories + 12, import.1);
    put32(&mut pe, directories + 8 * 12, iat.0);
    put32(&mut pe, directories + 8 * 12 + 4, iat.1);
    bytes.extend_from_slice(&pe);
    let mut section = vec![0u8; 40];
    section[..6].copy_from_slice(b".idata");
    put32(&mut section, 8, virtual_size);
    put32(&mut section, 12, 0x1000);
    put32(&mut section, 16, raw);
    put32(&mut section, 20, if raw == 0 { 0 } else { 0x400 });
    bytes.extend_from_slice(&section);
    bytes.resize(0x400 + raw as usize, 0);
    bytes
}

fn descriptor(lookup: u32, name: u32, iat: u32) -> ImportDescriptor {
    ImportDescriptor {
        import_lookup_table_rva: RVA(lookup),
        time_date_stamp: TimeDate(0),
        forwarder_chain: 0,
        dll_ascii_name_rva: RVA(name),
        iat_rva: RVA(iat),
    }
}

fn put_descriptor(bytes: &mut [u8], at: usize, descriptor: &ImportDescriptor) {
    put32(bytes, at, descriptor.import_lookup_table_rva.0);
    put32(bytes, at + 4, descriptor.time_date_stamp.0);
    put32(bytes, at + 8, descriptor.forwarder_chain);
    put32(bytes, at + 12, descriptor.dll_ascii_name_rva.0);
    put32(bytes, at + 16, descriptor.iat_rva.0);
}

fn failure(error: Error) -> Failure {
    Failure { source: Src::Unknown, operation: Operation::ReadRva, error }
}

#[test]
fn lookup_entries_of_32_bits() {
    assert_eq!(ImportLookupTableEntry32(0x8000_0007).decode(), ImportLookup::Ordinal(7));
    assert_eq!(ImportLookupTableEntry32(0x0000_1234).decode(), ImportLookup::Name(RVA(0x1234)));
    assert_eq!(ImportLookupTableEntry32(0x0000_0000).decode(), ImportLookup::EndOfTable);
    assert_eq!(ImportLookupTableEntry32(0x8000_0007).ordinal(), Some(7));
    assert_eq!(ImportLookupTableEntry32(0x8000_0007).name_table_rva(), None);
    assert!(!ImportLookupTableEntry32(0x8000_0007).is_eot());
    assert_eq!(ImportLookupTableEntry32(0x0000_1234).ordinal(), None);
    assert_eq!(ImportLookupTableEntry32(0x0000_1234).name_table_rva(), Some(RVA(0x1234)));
    assert!(!ImportLookupTableEntry32(0x0000_1234).is_eot());
    assert_eq!(ImportLookupTableEntry32(0).ordinal(), None);
    assert_eq!(ImportLookupTableEntry32(0).name_table_rva(), None);
    assert!(ImportLookupTableEntry32(0).is_eot());
    assert_eq!(ImportLookupTableEntry32(0x8000_0000).decode(), ImportLookup::Ordinal(0));
    assert_eq!(ImportLookupTableEntry32(0xffff_ffff).decode(), ImportLookup::Ordinal(0xffff));
    assert_eq!(ImportLookupTableEntry32(0x8123_4567).decode(), ImportLookup::Ordinal(0x4567));
    assert_eq!(
        ImportLookupTableEntry32(0x7fff_ffff).decode(),
        ImportLookup::Name(RVA(0x7fff_ffff))
    );
}

#[test]
fn lookup_entries_of_64_bits() {
    assert_eq!(
        ImportLookupTableEntry64(0x8000_0000_0000_0007).decode(),
        ImportLookup::Ordinal(7)
    );
    assert_eq!(ImportLookupTableEntry64(0x1234).decode(), ImportLookup::Name(RVA(0x1234)));
    assert_eq!(ImportLookupTableEntry64(0).decode(), ImportLookup::EndOfTable);
    assert_eq!(
        ImportLookupTableEntry64(0x0000_0000_8000_0001).decode(),
        ImportLookup::Name(RVA(1))
    );
    assert_eq!(
        ImportLookupTableEntry64(0x7fff_ffff_ffff_ffff).decode(),
        ImportLookup::Name(RVA(0x7fff_ffff))
    );
    assert_eq!(
        ImportLookupTableEntry64(0xffff_ffff_ffff_ffff).decode(),
        ImportLookup::Ordinal(0xffff)
    );
    assert_eq!(ImportLookupTableEntry64(0x8000_0000_0000_0000).ordinal(), Some(0));
    assert_eq!(ImportLookupTableEntry64(0x8000_0000_0000_0000).name_table_rva(), None);
    assert!(ImportLookupTableEntry64(0).is_eot());
    assert!(!ImportLookupTableEntry64(1 << 63).is_eot());
}

#[test]
fn an_entry_is_exactly_one_of_three() {
    for raw in [0u64, 1, 0x1234, 0x7fff_ffff, 0x8000_0000, 0xffff_ffff, 1 << 62, 1 << 63, u64::MAX] {
        let wide = ImportLookupTableEntry64(raw);
        let kinds = [wide.is_eot(), wide.ordinal().is_some(), wide.name_table_rva().is_some()];
        assert_eq!(kinds.iter().filter(|k| **k).count(), 1);
        let narrow = ImportLookupTableEntry32(raw as u32);
        let kinds = [narrow.is_eot(), narrow.ordinal().is_some(), narrow.name_table_rva().is_some()];
        assert_eq!(kinds.iter().filter(|k| **k).count(), 1);
    }
}

#[test]
fn lookup_entries_are_decoded_from_their_bytes() {
    assert_eq!(
        ImportLookupTableEntry32::from_raw(&[0x07, 0, 0, 0x80], 0),
        ImportLookupTableEntry32(0x8000_0007)
    );
    assert_eq!(
        ImportLookupTableEntry64::from_raw(&[0x34, 0x12, 0, 0, 0, 0, 0, 0], 0),
        ImportLookupTableEntry64(0x1234)
    );
    assert_eq!(
        decode_lookups(&vec![ImportLookupTableEntry32(0x8000_0001), ImportLookupTableEntry32(0x20)]),
        vec![ImportLookup::Ordinal(1), ImportLookup::Name(RVA(0x20))]
    );
}

#[test]
fn terminators() {
    assert!(descriptor(0, 0, 0).ends_table());
    assert!(descriptor(0x1000, 0, 0x2000).ends_table());
    assert!(!descriptor(0, 0x1000, 0).ends_table());
    assert!(ImportLookupTableEntry32(0).ends_table());
    assert!(!ImportLookupTableEntry32(1).ends_table());
    assert!(ImportLookupTableEntry64(0).ends_table());
    assert!(!ImportLookupTableEntry64(1 << 40).ends_table());
}

#[test]
fn import_descriptor_is_five_words() {
    assert_eq!(<ImportDescriptor as FromMemory>::size(), 20);
    let mut bytes = vec![0u8; 21];
    put_descriptor(&mut bytes, 1, &descriptor(0x1100, 0x1200, 0x1300));
    put32(&mut bytes, 5, 0x5eed);
    put32(&mut bytes, 9, 0xffff_ffff);
    let decoded = ImportDescriptor::from_raw(&bytes, 1);
    assert_eq!(decoded.import_lookup_table_rva, RVA(0x1100));
    assert_eq!(decoded.time_date_stamp, TimeDate(0x5eed));
    assert_eq!(decoded.forwarder_chain, 0xffff_ffff);
    assert_eq!(decoded.dll_ascii_name_rva, RVA(0x1200));
    assert_eq!(decoded.iat_rva, RVA(0x1300));
}

#[test]
fn descriptors_end_at_the_first_terminator() {
    let first = descriptor(0x1100, 0x1200, 0x1300);
    let second = descriptor(0x1140, 0x1210, 0x1340);
    let third = descriptor(0x1180, 0x1220, 0x1380);
    for declared in [0u32, 20, 40, 60, 80, 4000] {
        let mut bytes = image(false, (0x1000, declared), (0, 0), 0x1000, 0x1000);
        put_descriptor(&mut bytes, 0x400, &first);
        put_descriptor(&mut bytes, 0x414, &second);
        put_descriptor(&mut bytes, 0x428, &third);
        put_descriptor(&mut bytes, 0x450, &first);
        let reader = Reader::read(bytes).unwrap();
        assert_eq!(reader.import_descriptors(), Ok(vec![first, second, third]));
    }
}

#[test]
fn terminator_at_each_index() {
    let entry = descriptor(0x1100, 0x1200, 0x1300);
    for n in 0usize..6 {
        let mut bytes = image(false, (0x1000, 20), (0, 0), 0x1000, 0x1000);
        for k in 0..8 {
            if k != n {
                put_descriptor(&mut bytes, 0x400 + 20 * k, &entry);
            }
        }
        let reader = Reader::read(bytes).unwrap();
        assert_eq!(reader.import_descriptors().unwrap().len(), n);
    }
}

#[test]
fn a_descriptor_with_a_null_name_ends_the_table_whatever_else_it_holds() {
    let mut bytes = image(false, (0x1000, 40), (0, 0), 0x1000, 0x1000);
    put_descriptor(&mut bytes, 0x400, &descriptor(0x1100, 0x1200, 0x1300));
    put_descriptor(&mut bytes, 0x414, &descriptor(0x1100, 0, 0x1300));
    put_descriptor(&mut bytes, 0x428, &descriptor(0x1100, 0x1200, 0x1300));
    let reader = Reader::read(bytes).unwrap();
    assert_eq!(reader.import_descriptors().unwrap().len(), 1);
}

#[test]
fn import_directory_in_a_section_without_raw_data() {
    let bytes = image(false, (0x1010, 40), (0, 0), 0x200, 0);
    let reader = Reader::read(bytes).unwrap();
    assert_eq!(reader.pe_section_headers()[0].pointer_to_raw_data, None);
    assert_eq!(reader.import_descriptors(), Ok(Vec::new()));
    let mut scratch = Vec::new();
    assert_eq!(reader.import_name(&descriptor(0, 0x1010, 0), &mut scratch), Ok(""));
    let bytes = reader.read_exact_rva(RVA(0x1010)..RVA(0x1200), &mut scratch).unwrap();
    assert_eq!(bytes.len(), 0x1f0);
    assert!(bytes.iter().all(|b| *b == 0));
}

#[test]
fn an_image_without_imports_has_no_descriptors() {
    let reader = Reader::read(image(true, (0, 0), (0, 0), 0x100, 0x100)).unwrap();
    assert_eq!(reader.import_descriptors(), Ok(Vec::new()));
    assert_eq!(reader.read_iat(), Ok(Vec::new()));
}

#[test]
fn a_directory_that_the_source_cuts_off_is_an_error() {
    let mut bytes = image(false, (0x1000, 40), (0, 0), 0x1000, 0x1000);
    for k in 0..3 {
        put_descriptor(&mut bytes, 0x400 + 20 * k, &descriptor(0x1100, 0x1200, 0x1300));
    }
    bytes.truncate(0x400 + 50);
    let reader = Reader::read(bytes).unwrap();
    assert_eq!(reader.import_descriptors(), Err(failure(Error::UnexpectedEof)));
}

#[test]
fn import_names() {
    let mut bytes = image(false, (0x1000, 40), (0, 0), 0x1000, 0x1000);
    let first = descriptor(0x1100, 0x1200, 0x1300);
    let second = descriptor(0x1140, 0x1210, 0x1340);
    put_descriptor(&mut bytes, 0x400, &first);
    put_descriptor(&mut bytes, 0x414, &second);
    bytes[0x600..0x60d].copy_from_slice(b"KERNEL32.dll\0");
    bytes[0x610..0x617].copy_from_slice(&[b'b', b'a', b'd', 0xe9, b'.', b'd', 0]);
    let reader = Reader::read(bytes).unwrap();
    let table = reader.import_descriptors().unwrap();
    let mut scratch = Vec::new();
    assert_eq!(reader.import_name(&table[0], &mut scratch), Ok("KERNEL32.dll"));
    assert_eq!(
        reader.import_name(&table[1], &mut scratch),
        Err(failure(Error::InvalidStringEncoding))
    );
}

#[test]
fn lookups_of_a_32_bit_image() {
    let mut bytes = image(false, (0x1000, 40), (0, 0), 0x1000, 0x1000);
    put32(&mut bytes, 0x500, 0x0000_1234);
    put32(&mut bytes, 0x504, 0x8000_0007);
    put32(&mut bytes, 0x508, 0x0000_2345);
    put32(&mut bytes, 0x510, 0x0000_3456);
    let reader = Reader::read(bytes).unwrap();
    assert_eq!(
        reader.import_lookups(&descriptor(0x1100, 0x1200, 0x1300)),
        Ok(vec![
            ImportLookup::Name(RVA(0x1234)),
            ImportLookup::Ordinal(7),
            ImportLookup::Name(RVA(0x2345)),
        ])
    );
    assert_eq!(reader.import_lookups(&descriptor(0x110c, 0x1200, 0x1300)), Ok(Vec::new()));
    assert_eq!(
        reader.read_table::<ImportLookupTableEntry32>(RVA(0x1108)),
        Ok(vec![ImportLookupTableEntry32(0x2345)])
    );
}

#[test]
fn lookups_of_a_64_bit_image() {
    let mut bytes = image(true, (0x1000, 40), (0, 0), 0x1000, 0x1000);
    put64(&mut bytes, 0x500, 0x0000_0000_0000_1234);
    put64(&mut bytes, 0x508, 0x8000_0000_0000_0007);
    put64(&mut bytes, 0x510, 0x0000_0001_0000_0000);
    put64(&mut bytes, 0x520, 0x0000_0000_0000_3456);
    let reader = Reader::read(bytes).unwrap();
    assert_eq!(
        reader.import_lookups(&descriptor(0x1100, 0x1200, 0x1300)),
        Ok(vec![
            ImportLookup::Name(RVA(0x1234)),
            ImportLookup::Ordinal(7),
            ImportLookup::Name(RVA(0)),
        ])
    );
}

#[test]
fn lookups_that_the_source_cuts_off_are_an_error() {
    let mut bytes = image(true, (0x1000, 40), (0, 0), 0x1000, 0x1000);
    put64(&mut bytes, 0x500, 0x1234);
    put64(&mut bytes, 0x508, 0x1234);
    bytes.truncate(0x50c);
    let reader = Reader::read(bytes).unwrap();
    assert_eq!(
        reader.import_lookups(&descriptor(0x1100, 0x1200, 0x1300)),
        Err(failure(Error::UnexpectedEof))
    );
}

#[test]
fn import_address_table_of_a_32_bit_image() {
    let mut bytes = image(false, (0, 0), (0x1300, 0x0e), 0x1000, 0x1000);
    put32(&mut bytes, 0x700, 0x0040_1000);
    put32(&mut bytes, 0x704, 0xffff_ffff);
    put32(&mut bytes, 0x708, 0x0000_0001);
    put32(&mut bytes, 0x70c, 0x0000_0002);
    let reader = Reader::read(bytes).unwrap();
    assert_eq!(reader.read_iat(), Ok(vec![0x0040_1000, 0xffff_ffff, 1]));
}

#[test]
fn import_address_table_of_a_64_bit_image() {
    let mut bytes = image(true, (0, 0), (0x1300, 0x10), 0x1000, 0x1000);
    put64(&mut bytes, 0x700, 0x0000_0001_4000_1000);
    put64(&mut bytes, 0x708, 0xffff_ffff_ffff_fffe);
    put64(&mut bytes, 0x710, 0x0000_0000_0000_0003);
    let reader = Reader::read(bytes).unwrap();
    assert_eq!(reader.read_iat(), Ok(vec![0x0000_0001_4000_1000, 0xffff_ffff_ffff_fffe]));
    assert_eq!(reader.read_array::<u16>(RVA(0x1300), 2), Ok(vec![0x1000, 0x4000]));
    assert_eq!(reader.read_array::<u16>(RVA(0x1300), 0), Ok(Vec::new()));
}

#[test]
fn import_address_table_behind_the_source_is_an_error() {
    let bytes = image(true, (0, 0), (0x1ff8, 0x10), 0x2000, 0x1000);
    let reader = Reader::read(bytes).unwrap();
    assert_eq!(reader.read_iat(), Ok(vec![0, 0]));
    let mut bytes = image(true, (0, 0), (0x1ff8, 0x10), 0x2000, 0x1000);
    bytes.truncate(0x13fc);
    let reader = Reader::read(bytes).unwrap();
    assert_eq!(reader.read_iat(), Err(failure(Error::UnexpectedEof)));
}
