use maulingmonkey_format_exe::error::{Error, Failure, Operation, Src};
use maulingmonkey_format_exe::io::SeekFrom;
use maulingmonkey_format_exe::pe::address_space::ADDRESS_LIMIT;
use maulingmonkey_format_exe::pe::{find_section, Position, Reader, RvaReader, SectionHeader, RVA};

fn put16(bytes: &mut [u8], at: usize, value: u16) {
    bytes[at..at + 2].copy_from_slice(&value.to_le_bytes());
}

fn put32(bytes: &mut [u8], at: usize, value: u32) {
    bytes[at..at + 4].copy_from_slice(&value.to_le_bytes());
}

fn header(virtual_address: u32, virtual_size: u32, raw: u32, pointer: Option<u32>) -> SectionHeader {
    SectionHeader {
        virtual_address: RVA(virtual_address),
        virtual_size,
        size_of_raw_data: raw,
        pointer_to_raw_data: pointer,
        ..SectionHeader::default()
    }
}

/// An image of `len` bytes with the given sections and no optional header.
/// Behind the headers the byte at file offset `i` is `i % 251 + 1`, which is
/// never zero.
fn image(sections: &[SectionHeader], len: usize) -> Vec<u8> {
    let mut bytes = vec![0u8; 64];
    bytes[0] = b'M';
    bytes[1] = b'Z';
    put32(&mut bytes, 60, 64);
    let mut pe = vec![0u8; 24];
    pe[..4].copy_from_slice(b"PE\0\0");
    put16(&mut pe, 4, 0x014c);
    put16(&mut pe, 6, sections.len() as u16);
    bytes.extend_from_slice(&pe);
    for section in sections {
        let mut raw = vec![0u8; 40];
        raw[..8].copy_from_slice(&section.name);
        put32(&mut raw, 8, section.virtual_size);
        put32(&mut raw, 12, section.virtual_address.0);
        put32(&mut raw, 16, section.size_of_raw_data);
        put32(&mut raw, 20, section.pointer_to_raw_data.unwrap_or(0));
        bytes.extend_from_slice(&raw);
    }
    let headers = bytes.len();
    assert!(headers <= len);
    bytes.resize(len, 0);
    for i in headers..len {
        bytes[i] = (i % 251) as u8 + 1;
    }
    bytes
}

fn content(at: usize, n: usize) -> Vec<u8> {
    (at..at + n).map(|i| (i % 251) as u8 + 1).collect()
}

fn failure(error: Error) -> Failure {
    Failure { source: Src::Unknown, operation: Operation::ReadRva, error }
}

fn in_section(rva: u64, index: usize, remaining: u64) -> Position {
    Position { rva, section: Some(index), remaining }
}

fn in_gap(rva: u64, remaining: u64) -> Position {
    Position { rva, section: None, remaining }
}

#[test]
fn section_range_is_half_open() {
    let section = header(0x1000, 0x500, 0, None);
    assert!(!section.contains_rva(RVA(0x1500)));
    assert!(section.contains_rva(RVA(0x14ff)));
    assert!(section.contains_rva(RVA(0x1000)));
    assert!(!section.contains_rva(RVA(0x0fff)));
    assert_eq!(section.virtual_address_range(), 0x1000..0x1500);
}

#[test]
fn section_range_ends_with_the_address_space() {
    let section = header(0xffff_ff00, 0x1000, 0, None);
    assert_eq!(section.virtual_address_range(), 0xffff_ff00..0x1_0000_0000);
    assert!(section.contains_rva(RVA(0xffff_ffff)));
    let empty = header(0x1000, 0, 0, None);
    assert!(!empty.contains_rva(RVA(0x1000)));
}

#[test]
fn first_address_resolves_to_offset_zero() {
    let sections = [header(0x1000, 0x500, 0x400, Some(0x400)), header(0x2000, 0x80, 0, None)];
    assert_eq!(find_section(&sections, 0x1000), in_section(0x1000, 0, 0x500));
    assert_eq!(find_section(&sections, 0x2000), in_section(0x2000, 1, 0x80));
    assert_eq!(find_section(&sections, 0x14ff), in_section(0x14ff, 0, 1));
}

#[test]
fn end_address_resolves_to_the_next_section_or_a_gap() {
    let sections = [header(0x1000, 0x500, 0, None), header(0x1500, 0x100, 0, None)];
    assert_eq!(find_section(&sections, 0x1500), in_section(0x1500, 1, 0x100));
    assert_eq!(find_section(&sections, 0x1600), in_gap(0x1600, ADDRESS_LIMIT - 0x1600));
    let apart = [header(0x1000, 0x500, 0, None), header(0x2000, 0x100, 0, None)];
    assert_eq!(find_section(&apart, 0x1500), in_gap(0x1500, 0xb00));
}

#[test]
fn resolving_twice_gives_the_same() {
    let sections = [header(0x3000, 0x10, 0, None), header(0x1000, 0x500, 0, None)];
    for rva in [0u64, 0xfff, 0x1000, 0x1234, 0x14ff, 0x1500, 0x3000, 0x300f, 0x3010, 1 << 32, u64::MAX] {
        assert_eq!(find_section(&sections, rva), find_section(&sections, rva));
    }
}

#[test]
fn first_section_of_the_table_wins() {
    let sections = [
        header(0x2000, 0x1000, 0, None),
        header(0x1000, 0x2000, 0, None),
        header(0x1800, 0x100, 0, None),
    ];
    assert_eq!(find_section(&sections, 0x2800), in_section(0x2800, 0, 0x800));
    assert_eq!(find_section(&sections, 0x1800), in_section(0x1800, 1, 0x1800));
    assert_eq!(find_section(&sections, 0x1fff), in_section(0x1fff, 1, 0x1001));
}

#[test]
fn gap_reaches_to_the_nearest_section_behind() {
    let sections = [
        header(0x5000, 0x100, 0, None),
        header(0x2000, 0x100, 0, None),
        header(0x3000, 0, 0, None),
    ];
    assert_eq!(find_section(&sections, 0), in_gap(0, 0x2000));
    assert_eq!(find_section(&sections, 0x1fff), in_gap(0x1fff, 1));
    assert_eq!(find_section(&sections, 0x2100), in_gap(0x2100, 0xf00));
    assert_eq!(find_section(&sections, 0x3000), in_gap(0x3000, 0x2000));
    assert_eq!(find_section(&sections, 0x5100), in_gap(0x5100, ADDRESS_LIMIT - 0x5100));
    assert_eq!(find_section(&[], 0x10), in_gap(0x10, ADDRESS_LIMIT - 0x10));
}

#[test]
fn addresses_past_32_bits_lie_in_no_section() {
    let sections = [header(0xffff_fff0, 0xffff_ffff, 0, None)];
    assert_eq!(find_section(&sections, 0xffff_ffff), in_section(0xffff_ffff, 0, 1));
    assert_eq!(find_section(&sections, 1 << 32), in_gap(1 << 32, ADDRESS_LIMIT - (1 << 32)));
    assert_eq!(find_section(&sections, ADDRESS_LIMIT), in_gap(ADDRESS_LIMIT, 0));
    assert_eq!(find_section(&sections, u64::MAX), in_gap(u64::MAX, 0));
}

#[test]
fn reads_inside_a_section_come_from_the_file() {
    let sections = [header(0x1000, 0x100, 0x100, Some(0x200))];
    let reader = Reader::read(image(&sections, 0x400)).unwrap();
    let mut scratch = Vec::new();
    let bytes = reader.read_exact_rva(RVA(0x1010)..RVA(0x1020), &mut scratch).unwrap();
    assert_eq!(bytes, &content(0x210, 0x10)[..]);
    let mut rva_reader = RvaReader::new(&reader, RVA(0x1000));
    let mut buf = [0u8; 8];
    assert_eq!(rva_reader.read(&mut buf), Ok(8));
    assert_eq!(&buf[..], &content(0x200, 8)[..]);
    assert_eq!(rva_reader.read(&mut buf), Ok(8));
    assert_eq!(&buf[..], &content(0x208, 8)[..]);
}

#[test]
fn the_image_start_is_added_to_file_offsets() {
    let sections = [header(0x1000, 0x100, 0x100, Some(0x200))];
    let mut bytes = vec![0u8; 0x30];
    bytes.extend_from_slice(&image(&sections, 0x400));
    let reader = Reader::read_src(bytes, Src::Unknown, 0x30).unwrap();
    let mut scratch = Vec::new();
    let read = reader.read_exact_rva(RVA(0x1001)..RVA(0x1005), &mut scratch).unwrap();
    assert_eq!(read, &content(0x201, 4)[..]);
    let data = reader.read_pe_section_data(&sections[0]).unwrap();
    assert_eq!(data, content(0x200, 0x100));
}

#[test]
fn bytes_behind_the_raw_data_read_as_zero() {
    let sections = [header(0x1000, 0x20, 0x8, Some(0x200))];
    let reader = Reader::read(image(&sections, 0x400)).unwrap();
    let mut scratch = Vec::new();
    let bytes = reader.read_exact_rva(RVA(0x1004)..RVA(0x1010), &mut scratch).unwrap();
    let mut expected = content(0x204, 4);
    expected.extend_from_slice(&[0u8; 8]);
    assert_eq!(bytes, &expected[..]);
    let mut rva_reader = RvaReader::new(&reader, RVA(0x1004));
    let mut buf = [0xeeu8; 64];
    assert_eq!(rva_reader.read(&mut buf), Ok(4));
    assert_eq!(rva_reader.read(&mut buf), Ok(0x18));
    assert!(buf[..0x18].iter().all(|b| *b == 0));
}

#[test]
fn gaps_read_as_zero() {
    let sections = [header(0x1000, 0x10, 0x10, Some(0x200)), header(0x1020, 0x10, 0x10, Some(0x300))];
    let reader = Reader::read(image(&sections, 0x400)).unwrap();
    let mut scratch = vec![1, 2, 3];
    let bytes = reader.read_exact_rva(RVA(0x0ffe)..RVA(0x1024), &mut scratch).unwrap();
    let mut expected = vec![0u8; 2];
    expected.extend_from_slice(&content(0x200, 0x10));
    expected.extend_from_slice(&[0u8; 0x10]);
    expected.extend_from_slice(&content(0x300, 4));
    assert_eq!(bytes, &expected[..]);
    assert_eq!(scratch, expected);
}

#[test]
fn empty_range_reads_nothing() {
    let reader = Reader::read(image(&[], 0x100)).unwrap();
    let mut scratch = vec![9u8; 5];
    let bytes = reader.read_exact_rva(RVA(0x1000)..RVA(0x1000), &mut scratch).unwrap();
    assert!(bytes.is_empty());
    assert!(scratch.is_empty());
}

#[test]
fn a_reader_stays_in_its_section_until_it_ends() {
    let sections = [
        header(0x1008, 0x8, 0x8, Some(0x300)),
        header(0x1000, 0x20, 0x20, Some(0x200)),
    ];
    let reader = Reader::read(image(&sections, 0x400)).unwrap();
    let mut scratch = Vec::new();
    let bytes = reader.read_exact_rva(RVA(0x1000)..RVA(0x1020), &mut scratch).unwrap();
    assert_eq!(bytes, &content(0x200, 0x20)[..]);
    let bytes = reader.read_exact_rva(RVA(0x1008)..RVA(0x1018), &mut scratch).unwrap();
    let mut expected = content(0x300, 8);
    expected.extend_from_slice(&content(0x210, 8));
    assert_eq!(bytes, &expected[..]);
}

#[test]
fn a_source_that_ends_early_is_an_error_for_exact_reads() {
    let sections = [header(0x1000, 0x100, 0x100, Some(0x200))];
    let reader = Reader::read(image(&sections, 0x280)).unwrap();
    let mut scratch = Vec::new();
    assert!(reader.read_exact_rva(RVA(0x1000)..RVA(0x1080), &mut scratch).is_ok());
    assert_eq!(
        reader.read_exact_rva(RVA(0x1000)..RVA(0x1081), &mut scratch),
        Err(failure(Error::UnexpectedEof))
    );
    let mut rva_reader = RvaReader::new(&reader, RVA(0x1080));
    let mut buf = [0u8; 4];
    assert_eq!(rva_reader.read(&mut buf), Ok(0));
    assert_eq!(rva_reader.read_exact(&mut buf), Err(failure(Error::UnexpectedEof)));
    assert_eq!(rva_reader.read_record::<u32>(), Err(failure(Error::UnexpectedEof)));
}

#[test]
fn absent_pointer_counts_as_zero() {
    let sections = [header(0x1000, 0x10, 0x10, None)];
    let bytes = image(&sections, 0x100);
    let reader = Reader::read(bytes.clone()).unwrap();
    let mut scratch = Vec::new();
    let read = reader.read_exact_rva(RVA(0x1000)..RVA(0x1010), &mut scratch).unwrap();
    assert_eq!(read, &bytes[..0x10]);
}

#[test]
fn section_without_raw_data_reads_as_zero_up_to_its_end() {
    let sections = [header(0x1000, 0x30, 0, None), header(0x1030, 0x10, 0x10, Some(0x200))];
    let reader = Reader::read(image(&sections, 0x400)).unwrap();
    let mut rva_reader = RvaReader::new(&reader, RVA(0x1004));
    let mut buf = [0xeeu8; 0x100];
    assert_eq!(rva_reader.read(&mut buf), Ok(0x2c));
    assert!(buf[..0x2c].iter().all(|b| *b == 0));
    assert_eq!(buf[0x2c], 0xee);
    assert_eq!(rva_reader.read(&mut buf), Ok(0x10));
    assert_eq!(&buf[..0x10], &content(0x200, 0x10)[..]);
    let mut scratch = vec![7u8];
    assert_eq!(reader.read_asciiz_rva(RVA(0x1004), &mut scratch), Ok(""));
    assert!(scratch.is_empty());
}

#[test]
fn strings_end_before_the_first_zero() {
    let sections = [header(0x1000, 0x40, 0x40, Some(0x200))];
    let mut bytes = image(&sections, 0x400);
    bytes[0x210..0x21d].copy_from_slice(b"KERNEL32.dll\0");
    let reader = Reader::read(bytes).unwrap();
    let mut scratch = Vec::new();
    assert_eq!(reader.read_strz_rva(RVA(0x1010), &mut scratch), Ok(&b"KERNEL32.dll"[..]));
    assert_eq!(scratch, b"KERNEL32.dll".to_vec());
    assert_eq!(reader.read_utf8z_rva(RVA(0x1010), &mut scratch), Ok("KERNEL32.dll"));
    assert_eq!(reader.read_asciiz_rva(RVA(0x1016), &mut scratch), Ok("32.dll"));
    assert_eq!(reader.read_asciiz_rva(RVA(0x101c), &mut scratch), Ok(""));
}

#[test]
fn strings_run_on_across_sections() {
    let sections = [header(0x1000, 0x4, 0x4, Some(0x200)), header(0x1004, 0x8, 0x8, Some(0x300))];
    let mut bytes = image(&sections, 0x400);
    bytes[0x200..0x204].copy_from_slice(b"abcd");
    bytes[0x300..0x308].copy_from_slice(b"efg\0hijk");
    let reader = Reader::read(bytes).unwrap();
    let mut scratch = Vec::new();
    assert_eq!(reader.read_asciiz_rva(RVA(0x1001), &mut scratch), Ok("bcdefg"));
    assert_eq!(reader.read_asciiz_rva(RVA(0x1008), &mut scratch), Ok("hijk"));
}

#[test]
fn long_strings_are_read_whole() {
    let sections = [header(0x1000, 0x2000, 0x2000, Some(0x200))];
    let mut bytes = image(&sections, 0x2400);
    bytes[0x200 + 3000] = 0;
    let reader = Reader::read(bytes).unwrap();
    let mut scratch = Vec::new();
    let text = reader.read_strz_rva(RVA(0x1000), &mut scratch).unwrap();
    assert_eq!(text, &content(0x200, 3000)[..]);
}

#[test]
fn strings_end_where_the_source_ends() {
    let sections = [header(0x1000, 0x100, 0x100, Some(0x200))];
    let mut bytes = image(&sections, 0x204);
    bytes[0x200..0x204].copy_from_slice(b"tail");
    let reader = Reader::read(bytes).unwrap();
    let mut scratch = Vec::new();
    assert_eq!(reader.read_asciiz_rva(RVA(0x1000), &mut scratch), Ok("tail"));
}

#[test]
fn strings_must_be_utf8() {
    let sections = [header(0x1000, 0x40, 0x40, Some(0x200))];
    let mut bytes = image(&sections, 0x400);
    bytes[0x200..0x204].copy_from_slice(&[b'a', 0xff, b'b', 0]);
    bytes[0x210..0x214].copy_from_slice(&[0xc3, 0xa9, b'!', 0]);
    bytes[0x220..0x223].copy_from_slice(&[0xc3, 0x28, 0]);
    let reader = Reader::read(bytes).unwrap();
    let mut scratch = Vec::new();
    assert_eq!(
        reader.read_utf8z_rva(RVA(0x1000), &mut scratch),
        Err(failure(Error::InvalidStringEncoding))
    );
    assert_eq!(scratch, vec![b'a', 0xff, b'b']);
    assert_eq!(reader.read_utf8z_rva(RVA(0x1010), &mut scratch), Ok("\u{e9}!"));
    assert_eq!(
        reader.read_utf8z_rva(RVA(0x1020), &mut scratch),
        Err(failure(Error::InvalidStringEncoding))
    );
    assert_eq!(reader.read_strz_rva(RVA(0x1000), &mut scratch), Ok(&[b'a', 0xff, b'b'][..]));
}

#[test]
fn ascii_strings_hold_no_byte_above_127() {
    let sections = [header(0x1000, 0x40, 0x40, Some(0x200))];
    let mut bytes = image(&sections, 0x400);
    bytes[0x210..0x214].copy_from_slice(&[0xc3, 0xa9, b'!', 0]);
    bytes[0x220..0x223].copy_from_slice(&[0x7f, 0x01, 0]);
    bytes[0x230..0x232].copy_from_slice(&[0x80, 0]);
    let reader = Reader::read(bytes).unwrap();
    let mut scratch = Vec::new();
    assert_eq!(
        reader.read_asciiz_rva(RVA(0x1010), &mut scratch),
        Err(failure(Error::InvalidStringEncoding))
    );
    assert_eq!(scratch, vec![0xc3, 0xa9, b'!']);
    assert_eq!(reader.read_asciiz_rva(RVA(0x1020), &mut scratch), Ok("\u{7f}\u{1}"));
    assert_eq!(
        reader.read_asciiz_rva(RVA(0x1030), &mut scratch),
        Err(failure(Error::InvalidStringEncoding))
    );
}

#[test]
fn raw_section_data() {
    let sections = [header(0x1000, 0x100, 0x20, Some(0x200)), header(0x2000, 0x100, 0x10, Some(0x3f8))];
    let reader = Reader::read(image(&sections, 0x400)).unwrap();
    assert_eq!(reader.read_pe_section_data(&sections[0]), Ok(content(0x200, 0x20)));
    assert_eq!(reader.read_pe_section_data_by_idx(0usize), Ok(content(0x200, 0x20)));
    assert_eq!(
        reader.read_pe_section_data(&sections[1]),
        Err(Failure {
            source: Src::Unknown,
            operation: Operation::ReadSection,
            error: Error::UnexpectedEof,
        })
    );
    assert_eq!(
        reader.read_pe_section_data_by_idx(2usize),
        Err(Failure {
            source: Src::Unknown,
            operation: Operation::ReadSection,
            error: Error::SectionIndexOutOfBounds,
        })
    );
    assert_eq!(
        reader.read_pe_section_data_by_idx(-1i64),
        Err(Failure {
            source: Src::Unknown,
            operation: Operation::ReadSection,
            error: Error::SectionIndexOutOfBounds,
        })
    );
}

#[test]
fn sections_by_index() {
    let sections = [header(0x1000, 0x100, 0x20, Some(0x200)), header(0x2000, 0x100, 0x10, Some(0x300))];
    let reader = Reader::read(image(&sections, 0x400)).unwrap();
    assert_eq!(reader.pe_section_header_at(Some(1)).map(|s| s.virtual_address), Some(RVA(0x2000)));
    assert_eq!(reader.pe_section_header_at(Some(2)), None);
    assert_eq!(reader.pe_section_header_at(None), None);
    assert_eq!(reader.read_pe_section_data_at(Some(1)), Ok(content(0x300, 0x10)));
    let out_of_bounds = Failure {
        source: Src::Unknown,
        operation: Operation::ReadSection,
        error: Error::SectionIndexOutOfBounds,
    };
    assert_eq!(reader.read_pe_section_data_at(Some(2)), Err(out_of_bounds.clone()));
    assert_eq!(reader.read_pe_section_data_at(None), Err(out_of_bounds));
}

#[test]
fn raw_section_data_in_place() {
    let sections = [header(0x1000, 0x100, 0x20, Some(0x200))];
    let reader = Reader::read(image(&sections, 0x400)).unwrap();
    let mut data = [0xeeu8; 0x10];
    assert_eq!(
        reader.read_pe_section_data_inplace(&sections[0], 4, &mut data),
        Ok(&content(0x204, 0x10)[..])
    );
    let mut data = [0xeeu8; 0x10];
    let read = reader.read_pe_section_data_inplace(&sections[0], 0x18, &mut data).unwrap();
    assert_eq!(read, &content(0x218, 8)[..]);
    assert_eq!(data[8], 0xee);
    let read = reader.read_pe_section_data_inplace(&sections[0], 0x20, &mut data).unwrap();
    assert!(read.is_empty());
    let read = reader.read_pe_section_data_inplace(&sections[0], 0x21, &mut data).unwrap();
    assert!(read.is_empty());
}

#[test]
fn seeking() {
    let sections = [header(0x1000, 0x100, 0x100, Some(0x200))];
    let reader = Reader::read(image(&sections, 0x400)).unwrap();
    let mut rva_reader = RvaReader::new(&reader, RVA(0x1000));
    let mut buf = [0u8; 2];
    assert_eq!(rva_reader.seek(SeekFrom::Start(0x1010)), Ok(0x1010));
    assert_eq!(rva_reader.read(&mut buf), Ok(2));
    assert_eq!(&buf[..], &content(0x210, 2)[..]);
    assert_eq!(rva_reader.seek(SeekFrom::Current(-2)), Ok(0x1010));
    assert_eq!(rva_reader.seek(SeekFrom::Current(0x10)), Ok(0x1020));
    assert_eq!(rva_reader.read(&mut buf), Ok(2));
    assert_eq!(&buf[..], &content(0x220, 2)[..]);
    assert_eq!(rva_reader.seek(SeekFrom::Current(-0x1023)), Err(Error::UnexpectedEof));
    assert_eq!(rva_reader.seek(SeekFrom::Current(0)), Ok(0x1022));
    assert_eq!(rva_reader.seek(SeekFrom::End(1)), Err(Error::UnexpectedEof));
    assert_eq!(rva_reader.seek(SeekFrom::End(0)), Ok(u64::MAX));
    assert_eq!(rva_reader.read(&mut buf), Ok(0));
    assert_eq!(rva_reader.seek(SeekFrom::Current(1)), Err(Error::UnexpectedEof));
    assert_eq!(rva_reader.seek(SeekFrom::End(-16)), Ok(u64::MAX - 16));
    assert_eq!(rva_reader.seek(SeekFrom::End(i64::MIN)), Ok(u64::MAX - (1 << 63)));
    assert_eq!(rva_reader.seek(SeekFrom::Start(0)), Ok(0));
    assert_eq!(rva_reader.read(&mut buf), Ok(2));
    assert_eq!(buf, [0, 0]);
}

#[test]
fn positioned_reads_leave_the_reader_where_it_is() {
    let sections = [header(0x1000, 0x100, 0x100, Some(0x200))];
    let reader = Reader::read(image(&sections, 0x400)).unwrap();
    let mut rva_reader = RvaReader::new(&reader, RVA(0x1000));
    let mut buf = [0u8; 4];
    assert_eq!(rva_reader.read_at(&mut buf, 0x1040), Ok(4));
    assert_eq!(&buf[..], &content(0x240, 4)[..]);
    assert_eq!(rva_reader.read_at(&mut buf, 0x10fe), Ok(2));
    assert_eq!(&buf[..2], &content(0x2fe, 2)[..]);
    assert_eq!(rva_reader.read(&mut buf), Ok(4));
    assert_eq!(&buf[..], &content(0x200, 4)[..]);
    let copy = rva_reader.clone();
    assert_eq!(copy.read_at(&mut buf, 0x1000), Ok(4));
    rva_reader.find_section();
    assert_eq!(rva_reader.read(&mut buf), Ok(4));
    assert_eq!(&buf[..], &content(0x204, 4)[..]);
}

#[test]
fn records_are_read_across_sections() {
    let sections = [header(0x1000, 0x2, 0x2, Some(0x200)), header(0x1002, 0x8, 0x8, Some(0x300))];
    let mut bytes = image(&sections, 0x400);
    bytes[0x200..0x202].copy_from_slice(&[0x78, 0x56]);
    bytes[0x300..0x302].copy_from_slice(&[0x34, 0x12]);
    let reader = Reader::read(bytes).unwrap();
    let mut rva_reader = RvaReader::new(&reader, RVA(0x1000));
    assert_eq!(rva_reader.read_record::<u32>(), Ok(0x1234_5678));
    assert_eq!(rva_reader.read_record::<RVA>(), Ok(RVA(u32::from_le_bytes([
        content(0x302, 1)[0],
        content(0x303, 1)[0],
        content(0x304, 1)[0],
        content(0x305, 1)[0],
    ]))));
}
