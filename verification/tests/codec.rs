use maulingmonkey_format_exe::error::{Eof, Error, Failure, IoError, IoErrorKind, Operation, Src};
use maulingmonkey_format_exe::le::{
    decode_i128, decode_i16, decode_i32, decode_i64, decode_i8, decode_u128, decode_u16,
    decode_u32, decode_u64, decode_u8,
};
use maulingmonkey_format_exe::FromMemory;

#[test]
fn u32_is_read_least_significant_byte_first() {
    assert_eq!(decode_u32(&[0x78, 0x56, 0x34, 0x12], 0), 0x1234_5678);
}

#[test]
fn unsigned_boundary_values() {
    assert_eq!(decode_u8(&[0x00], 0), 0);
    assert_eq!(decode_u8(&[0x01], 0), 1);
    assert_eq!(decode_u8(&[0xff], 0), u8::MAX);
    assert_eq!(decode_u16(&[0, 0], 0), 0);
    assert_eq!(decode_u16(&[1, 0], 0), 1);
    assert_eq!(decode_u16(&[0xff, 0xff], 0), u16::MAX);
    assert_eq!(decode_u16(&[0x34, 0x12], 0), 0x1234);
    assert_eq!(decode_u32(&[0; 4], 0), 0);
    assert_eq!(decode_u32(&[1, 0, 0, 0], 0), 1);
    assert_eq!(decode_u32(&[0xff; 4], 0), u32::MAX);
    assert_eq!(decode_u64(&[0; 8], 0), 0);
    assert_eq!(decode_u64(&[1, 0, 0, 0, 0, 0, 0, 0], 0), 1);
    assert_eq!(decode_u64(&[0xff; 8], 0), u64::MAX);
    assert_eq!(
        decode_u64(&[0xef, 0xcd, 0xab, 0x89, 0x67, 0x45, 0x23, 0x01], 0),
        0x0123_4567_89ab_cdef
    );
    assert_eq!(decode_u128(&[0; 16], 0), 0);
    let mut one = [0u8; 16];
    one[0] = 1;
    assert_eq!(decode_u128(&one, 0), 1);
    assert_eq!(decode_u128(&[0xff; 16], 0), u128::MAX);
}

#[test]
fn signed_boundary_values() {
    assert_eq!(decode_i8(&[0x00], 0), 0);
    assert_eq!(decode_i8(&[0x01], 0), 1);
    assert_eq!(decode_i8(&[0x7f], 0), i8::MAX);
    assert_eq!(decode_i8(&[0x80], 0), i8::MIN);
    assert_eq!(decode_i8(&[0xff], 0), -1);
    assert_eq!(decode_i16(&[0xff, 0x7f], 0), i16::MAX);
    assert_eq!(decode_i16(&[0x00, 0x80], 0), i16::MIN);
    assert_eq!(decode_i16(&[0xfe, 0xff], 0), -2);
    assert_eq!(decode_i32(&[0xff, 0xff, 0xff, 0x7f], 0), i32::MAX);
    assert_eq!(decode_i32(&[0, 0, 0, 0x80], 0), i32::MIN);
    assert_eq!(decode_i32(&[0xff; 4], 0), -1);
    assert_eq!(decode_i64(&[0xff, 0xff, 0xff, 0xff, 0xff, 0xff, 0xff, 0x7f], 0), i64::MAX);
    assert_eq!(decode_i64(&[0, 0, 0, 0, 0, 0, 0, 0x80], 0), i64::MIN);
    assert_eq!(decode_i64(&[0xff; 8], 0), -1);
    let mut least = [0u8; 16];
    least[15] = 0x80;
    assert_eq!(decode_i128(&least, 0), i128::MIN);
    assert_eq!(decode_i128(&[0xff; 16], 0), -1);
    let mut greatest = [0xffu8; 16];
    greatest[15] = 0x7f;
    assert_eq!(decode_i128(&greatest, 0), i128::MAX);
}

#[test]
fn decoding_starts_at_the_given_index() {
    let bytes = [0xaa, 0xbb, 0x78, 0x56, 0x34, 0x12, 0xcc];
    assert_eq!(decode_u32(&bytes, 2), 0x1234_5678);
    assert_eq!(decode_u16(&bytes, 5), 0xcc12);
    assert_eq!(<u32 as FromMemory>::from_raw(&bytes, 2), 0x1234_5678);
}

#[test]
fn zero_decodes_to_absent() {
    assert_eq!(<Option<u32> as FromMemory>::from_raw(&[0, 0, 0, 0], 0), None);
    assert_eq!(<Option<u32> as FromMemory>::from_raw(&[0, 2, 0, 0], 0), Some(0x200));
    assert_eq!(<Option<u16> as FromMemory>::from_raw(&[0, 0], 0), None);
    assert_eq!(<Option<u16> as FromMemory>::from_raw(&[1, 0], 0), Some(1));
    assert_eq!(<Option<u8> as FromMemory>::from_raw(&[0], 0), None);
    assert_eq!(<Option<u64> as FromMemory>::from_raw(&[0, 0, 0, 0, 0, 0, 0, 1], 0), Some(1 << 56));
}

#[test]
fn sizes_of_the_primitive_layouts() {
    assert_eq!(<() as FromMemory>::size(), 0);
    assert_eq!(<u8 as FromMemory>::size(), 1);
    assert_eq!(<u16 as FromMemory>::size(), 2);
    assert_eq!(<u32 as FromMemory>::size(), 4);
    assert_eq!(<u64 as FromMemory>::size(), 8);
    assert_eq!(<u128 as FromMemory>::size(), 16);
    assert_eq!(<i64 as FromMemory>::size(), 8);
    assert_eq!(<Option<u32> as FromMemory>::size(), 4);
    assert_eq!(<[u8; 8] as FromMemory>::size(), 8);
}

#[test]
fn from_memory_moves_past_the_record() {
    let bytes = [0x34u8, 0x12, 0x78, 0x56, 0x99];
    let mut mem: &[u8] = &bytes;
    assert_eq!(u16::from_memory(&mut mem), Ok(0x1234));
    assert_eq!(mem, &[0x78, 0x56, 0x99]);
    assert_eq!(u16::from_memory(&mut mem), Ok(0x5678));
    assert_eq!(mem, &[0x99]);
}

#[test]
fn from_memory_reports_a_short_input_and_keeps_it() {
    let bytes = [0x34u8, 0x12, 0x78];
    let mut mem: &[u8] = &bytes;
    assert_eq!(u32::from_memory(&mut mem), Err(Error::UnexpectedEof));
    assert_eq!(mem, &[0x34, 0x12, 0x78]);
    let mut none: &[u8] = &[];
    assert_eq!(u8::from_memory(&mut none), Err(Error::UnexpectedEof));
    assert_eq!(<()>::from_memory(&mut none), Ok(()));
}

#[test]
fn from_read_at_decodes_at_an_offset() {
    let source: Vec<u8> = vec![0, 1, 2, 3, 4, 5, 6, 7];
    assert_eq!(u32::from_read_at(&source, 2), Ok(0x0504_0302));
    assert_eq!(u32::from_read_at(&source, 4), Ok(0x0706_0504));
    assert_eq!(u32::from_read_at(&source, 5), Err(Error::UnexpectedEof));
    assert_eq!(u32::from_read_at(&source, u64::MAX), Err(Error::UnexpectedEof));
}

#[test]
fn from_read_at_advance_moves_the_offset_on_success_only() {
    let source: Vec<u8> = vec![0x11, 0x22, 0x33, 0x44, 0x55];
    let mut offset = 1u64;
    assert_eq!(u16::from_read_at_advance(&source, &mut offset), Ok(0x3322));
    assert_eq!(offset, 3);
    assert_eq!(u32::from_read_at_advance(&source, &mut offset), Err(Error::UnexpectedEof));
    assert_eq!(offset, 3);
    assert_eq!(u16::from_read_at_advance(&source, &mut offset), Ok(0x5544));
    assert_eq!(offset, 5);
}

#[test]
fn eof_becomes_the_eof_error() {
    assert_eq!(Error::from(Eof), Error::UnexpectedEof);
    let cause = IoError { kind: IoErrorKind::PermissionDenied };
    assert_eq!(Error::from(cause), Error::Io { cause });
}

#[test]
fn anno_keeps_successes_and_annotates_errors() {
    let src = Src::Path("a.exe".to_string());
    let ok: Result<u8, Error> = Ok(7);
    assert_eq!(src.anno(ok, Operation::ReadPeHeader), Ok(7));
    let failed: Result<u8, Error> = Err(Error::InvalidSignature);
    assert_eq!(
        src.anno(failed, Operation::ReadMzHeader),
        Err(Failure {
            source: Src::Path("a.exe".to_string()),
            operation: Operation::ReadMzHeader,
            error: Error::InvalidSignature,
        })
    );
    assert_eq!(Src::default(), Src::Unknown);
    assert_eq!(Src::Unknown.duplicate(), Src::Unknown);
}
