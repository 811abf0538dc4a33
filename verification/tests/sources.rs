use maulingmonkey_format_exe::error::Error;
use maulingmonkey_format_exe::io::{ReadAt, ReadAtExt, ReadAtReader};

fn source() -> Vec<u8> {
    (0u8..10).collect()
}

#[test]
fn read_at_gives_what_is_there() {
    let source = source();
    let mut buf = [0xeeu8; 4];
    assert_eq!(source.read_at(&mut buf, 3), Ok(4));
    assert_eq!(buf, [3, 4, 5, 6]);
    let mut buf = [0xeeu8; 4];
    assert_eq!(source.read_at(&mut buf, 8), Ok(2));
    assert_eq!(&buf[..2], &[8, 9]);
    assert_eq!(source.read_at(&mut buf, 10), Ok(0));
    assert_eq!(source.read_at(&mut buf, u64::MAX), Ok(0));
    let mut none = [0u8; 0];
    assert_eq!(source.read_at(&mut none, 0), Ok(0));
}

#[test]
fn read_at_through_a_reference() {
    let source = source();
    let by_ref = &source;
    let mut buf = [0u8; 3];
    assert_eq!(by_ref.read_at(&mut buf, 1), Ok(3));
    assert_eq!(buf, [1, 2, 3]);
}

#[test]
fn read_exact_at_fills_or_fails() {
    let source = source();
    let mut buf = [0u8; 4];
    assert_eq!(source.read_exact_at(&mut buf, 6), Ok(()));
    assert_eq!(buf, [6, 7, 8, 9]);
    assert_eq!(source.read_exact_at(&mut buf, 7), Err(Error::UnexpectedEof));
    assert_eq!(source.read_exact_at(&mut buf, u64::MAX), Err(Error::UnexpectedEof));
    let mut none = [0u8; 0];
    assert_eq!(source.read_exact_at(&mut none, 100), Ok(()));
}

#[test]
fn read_exact_at_advance_moves_on_success_only() {
    let source = source();
    let mut buf = [0u8; 4];
    let mut offset = 2u64;
    assert_eq!(source.read_exact_at_advance(&mut buf, &mut offset), Ok(()));
    assert_eq!((buf, offset), ([2, 3, 4, 5], 6));
    assert_eq!(source.read_exact_at_advance(&mut buf, &mut offset), Ok(()));
    assert_eq!((buf, offset), ([6, 7, 8, 9], 10));
    assert_eq!(source.read_exact_at_advance(&mut buf, &mut offset), Err(Error::UnexpectedEof));
    assert_eq!(offset, 10);
    let mut far = u64::MAX - 1;
    assert_eq!(source.read_exact_at_advance(&mut buf, &mut far), Err(Error::UnexpectedEof));
    assert_eq!(far, u64::MAX - 1);
}

#[test]
fn read_until_at_stops_behind_the_terminator() {
    let source: Vec<u8> = vec![b'a', b'b', 0, b'c', b'd', 0];
    let mut buf = vec![b'x'];
    assert_eq!(source.read_until_at(0, &mut buf, 0), Ok(3));
    assert_eq!(buf, vec![b'x', b'a', b'b', 0]);
    let mut buf = Vec::new();
    assert_eq!(source.read_until_at(0, &mut buf, 3), Ok(3));
    assert_eq!(buf, vec![b'c', b'd', 0]);
    let mut buf = Vec::new();
    assert_eq!(source.read_until_at(0, &mut buf, 2), Ok(1));
    assert_eq!(buf, vec![0]);
}

#[test]
fn read_until_at_stops_at_the_end_of_the_source() {
    let source: Vec<u8> = vec![b'a', b'b', b'c'];
    let mut buf = Vec::new();
    assert_eq!(source.read_until_at(0, &mut buf, 1), Ok(2));
    assert_eq!(buf, vec![b'b', b'c']);
    let mut buf = vec![1, 2];
    assert_eq!(source.read_until_at(0, &mut buf, 3), Ok(0));
    assert_eq!(buf, vec![1, 2]);
    assert_eq!(source.read_until_at(0, &mut buf, 1000), Ok(0));
}

#[test]
fn read_until_at_crosses_batches() {
    let mut source: Vec<u8> = vec![7u8; 3000];
    source.push(9);
    source.extend_from_slice(&[7u8; 50]);
    let mut buf = Vec::new();
    assert_eq!(source.read_until_at(9, &mut buf, 10), Ok(2991));
    assert_eq!(buf.len(), 2991);
    assert_eq!(buf[2990], 9);
    assert!(buf[..2990].iter().all(|b| *b == 7));
}

#[test]
fn read_asciiz_at_leaves_the_terminator_out() {
    let source: Vec<u8> = vec![b'K', b'E', b'R', b'N', 0, b'x'];
    let mut buf = Vec::new();
    assert_eq!(source.read_asciiz_at(&mut buf, 0), Ok(&b"KERN"[..]));
    assert_eq!(buf, b"KERN\0".to_vec());
    let mut buf = Vec::new();
    assert_eq!(source.read_asciiz_at(&mut buf, 5), Ok(&b"x"[..]));
    assert_eq!(buf, b"x".to_vec());
    let mut buf = Vec::new();
    assert_eq!(source.read_asciiz_at(&mut buf, 4), Ok(&b""[..]));
}

#[test]
fn read_at_reader_reads_front_to_back() {
    let mut reader = ReadAtReader::new(source(), 7);
    let mut buf = [0u8; 2];
    assert_eq!(reader.read(&mut buf), Ok(2));
    assert_eq!((buf, reader.pos), ([7, 8], 9));
    assert_eq!(reader.read(&mut buf), Ok(1));
    assert_eq!((buf[0], reader.pos), (9, 10));
    assert_eq!(reader.read(&mut buf), Ok(0));
    assert_eq!(reader.pos, 10);
}

#[test]
fn read_at_reader_read_exact_keeps_its_place_on_failure() {
    let mut reader = ReadAtReader::new(source(), 4);
    let mut buf = [0u8; 4];
    assert_eq!(reader.read_exact(&mut buf), Ok(()));
    assert_eq!((buf, reader.pos), ([4, 5, 6, 7], 8));
    assert_eq!(reader.read_exact(&mut buf), Err(Error::UnexpectedEof));
    assert_eq!(reader.pos, 8);
}
