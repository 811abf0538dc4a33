use maulingmonkey_format_exe::error::{Error, Failure, IoError, IoErrorKind, Operation, Src};
use maulingmonkey_format_exe::io::{ReadAt, ReadAtExt, ReadAtReader};
use maulingmonkey_format_exe::pe::{Reader, RvaReader, RVA};
use maulingmonkey_format_exe::FromMemory;

/// A source that gives at most `step` bytes at a time and fails from the
/// offset `fails_from` on.
struct Grudging {
    bytes: Vec<u8>,
    step: usize,
    fails_from: u64,
}

impl ReadAt for Grudging {
    fn read_at(&self, buf: &mut [u8], offset: u64) -> Result<usize, IoError> {
        if offset >= self.fails_from {
            return Err(IoError { kind: IoErrorKind::PermissionDenied });
        }
        let room = buf.len().min(self.step);
        self.bytes.read_at(&mut buf[..room], offset)
    }
}

fn denied() -> Error {
    Error::Io { cause: IoError { kind: IoErrorKind::PermissionDenied } }
}

fn put16(bytes: &mut [u8], at: usize, value: u16) {
    bytes[at..at + 2].copy_from_slice(&value.to_le_bytes());
}

fn put32(bytes: &mut [u8], at: usize, value: u32) {
    bytes[at..at + 4].copy_from_slice(&value.to_le_bytes());
}

/// An image with one section that maps the 0x100 bytes of the file from
/// offset 0x200 on to the addresses from 0x1000 on.
fn image() -> Vec<u8> {
    let mut bytes = vec![0u8; 0x300];
    bytes[0] = b'M';
    bytes[1] = b'Z';
    put32(&mut bytes, 60, 64);
    bytes[64..68].copy_from_slice(b"PE\0\0");
    put16(&mut bytes, 70, 1);
    put32(&mut bytes, 88 + 8, 0x100);
    put32(&mut bytes, 88 + 12, 0x1000);
    put32(&mut bytes, 88 + 16, 0x100);
    put32(&mut bytes, 88 + 20, 0x200);
    for i in 0x200..0x300 {
        bytes[i] = (i % 251) as u8 + 1;
    }
    bytes
}

#[test]
fn exact_reads_put_short_reads_together() {
    let source = Grudging { bytes: (0u8..100).collect(), step: 3, fails_from: u64::MAX };
    let mut buf = [0u8; 10];
    assert_eq!(source.read_at(&mut buf, 0), Ok(3));
    assert_eq!(source.read_exact_at(&mut buf, 5), Ok(()));
    assert_eq!(buf, [5, 6, 7, 8, 9, 10, 11, 12, 13, 14]);
    assert_eq!(u64::from_read_at(&source, 1), Ok(0x0807_0605_0403_0201));
    let mut reader = ReadAtReader::new(&source, 96);
    assert_eq!(reader.read(&mut buf), Ok(3));
    assert_eq!(reader.read(&mut buf), Ok(1));
    assert_eq!(reader.read(&mut buf), Ok(0));
}

#[test]
fn terminated_reads_put_short_reads_together() {
    let mut bytes = vec![b'x'; 40];
    bytes[30] = 0;
    let source = Grudging { bytes, step: 7, fails_from: u64::MAX };
    let mut buf = Vec::new();
    assert_eq!(source.read_until_at(0, &mut buf, 2), Ok(29));
    assert_eq!(buf.len(), 29);
    let mut buf = Vec::new();
    assert_eq!(source.read_asciiz_at(&mut buf, 31), Ok(&b"xxxxxxxxx"[..]));
}

#[test]
fn failures_of_the_source_are_handed_on() {
    let source = Grudging { bytes: (0u8..100).collect(), step: 8, fails_from: 16 };
    let mut buf = [0u8; 12];
    assert_eq!(source.read_exact_at(&mut buf, 0), Ok(()));
    assert_eq!(source.read_exact_at(&mut buf, 8), Err(denied()));
    assert_eq!(u32::from_read_at(&source, 12), Ok(0x0f0e_0d0c));
    assert_eq!(u32::from_read_at(&source, 16), Err(denied()));
    let mut offset = 16u64;
    assert_eq!(u32::from_read_at_advance(&source, &mut offset), Err(denied()));
    assert_eq!(offset, 16);
    let mut text = vec![1u8];
    assert_eq!(source.read_until_at(200, &mut text, 0), Err(denied()));
    assert_eq!(text[0], 1);
    let mut text = vec![1u8];
    assert_eq!(source.read_asciiz_at(&mut text, 4), Err(denied()));
    assert_eq!(text, vec![1u8]);
}

#[test]
fn failures_name_the_step_that_failed() {
    for (fails_from, operation) in [
        (0u64, Operation::ReadMzHeader),
        (64, Operation::ReadPeHeader),
        (88, Operation::ReadSectionHeader { index: 0 }),
    ] {
        let source = Grudging { bytes: image(), step: 4096, fails_from };
        let failure = match Reader::read_src(source, Src::Path("x.dll".to_string()), 0) {
            Ok(_) => panic!("parsed"),
            Err(failure) => failure,
        };
        assert_eq!(
            failure,
            Failure { source: Src::Path("x.dll".to_string()), operation, error: denied() }
        );
    }
}

#[test]
fn reads_by_address_put_short_reads_together() {
    let source = Grudging { bytes: image(), step: 5, fails_from: u64::MAX };
    let reader = Reader::read(source).unwrap();
    let mut scratch = Vec::new();
    let bytes = reader.read_exact_rva(RVA(0x0ffc)..RVA(0x1010), &mut scratch).unwrap();
    let mut expected = vec![0u8; 4];
    expected.extend((0x200..0x210).map(|i| (i % 251) as u8 + 1));
    assert_eq!(bytes, &expected[..]);
    let mut rva_reader = RvaReader::new(&reader, RVA(0x1000));
    let mut buf = [0u8; 16];
    assert_eq!(rva_reader.read(&mut buf), Ok(5));
    assert_eq!(rva_reader.read_record::<u64>().unwrap().to_le_bytes()[0], (0x205 % 251) as u8 + 1);
}

#[test]
fn reads_by_address_hand_failures_on() {
    let source = Grudging { bytes: image(), step: 64, fails_from: 0x280 };
    let reader = Reader::read(source).unwrap();
    let failed = Failure { source: Src::Unknown, operation: Operation::ReadRva, error: denied() };
    let mut scratch = Vec::new();
    assert!(reader.read_exact_rva(RVA(0x1000)..RVA(0x1080), &mut scratch).is_ok());
    assert_eq!(reader.read_exact_rva(RVA(0x1000)..RVA(0x1081), &mut scratch), Err(failed.clone()));
    assert_eq!(reader.read_strz_rva(RVA(0x1070), &mut scratch), Err(failed.clone()));
    assert_eq!(reader.read_asciiz_rva(RVA(0x1090), &mut scratch), Err(failed.clone()));
    assert_eq!(reader.read_table::<RvaEntry>(RVA(0x1070)), Err(failed.clone()));
    assert_eq!(reader.read_array::<u32>(RVA(0x107c), 2), Err(failed.clone()));
    let mut rva_reader = RvaReader::new(&reader, RVA(0x1080));
    let mut buf = [0u8; 4];
    assert_eq!(rva_reader.read(&mut buf), Err(failed.clone()));
    assert_eq!(rva_reader.read_at(&mut buf, 0x1000), Ok(4));
    let section = reader.pe_section_headers()[0];
    assert_eq!(
        reader.read_pe_section_data(&section),
        Err(Failure { source: Src::Unknown, operation: Operation::ReadSection, error: denied() })
    );
}

type RvaEntry = maulingmonkey_format_exe::pe::ImportLookupTableEntry32;
