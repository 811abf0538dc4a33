//! The MS-DOS executable format, called MZ after its signature.

use crate::error::Error;
use crate::from_memory::FromMemory;
use crate::io::read_at::{fits, ReadAt};
use crate::io::read_at_reader::ReadAtReader;
use crate::reserved::Reserved;
use vstd::prelude::*;
use vstd::std_specs::convert::FromSpec;

verus! {

/// The MZ header that every executable starts with. Of its fields a PE
/// image needs `pe_header_start`, the offset of the PE header.
#[derive(Clone, Copy, Debug, Default, PartialEq, Eq)]
pub struct Header {
    /// `"MZ"`.
    pub signature: [u8; 2],
    /// How many bytes of the last page are used.
    pub last_page: Bytes,
    /// How many pages the file takes.
    pub pages: Pages,
    /// How many relocations follow the header.
    pub nrelocs: u16,
    /// The size of the header with its relocations.
    pub hdrsize: Paragraphs,
    /// The memory that the program needs beyond its image.
    pub minalloc: Paragraphs,
    /// The memory that the program would like to have.
    pub maxalloc: Paragraphs,
    /// Initial stack segment.
    pub ss: u16,
    /// Initial stack pointer.
    pub sp: u16,
    /// Makes the sum of all words of the file zero.
    pub checksum: u16,
    /// Initial instruction pointer.
    pub ip: u16,
    /// Initial code segment.
    pub cs: u16,
    /// Offset of the first relocation.
    pub relocs: u16,
    /// Overlay number; zero for the main program.
    pub overlay: u16,
    pub reserved_a: Reserved<8>,
    pub oem_id: u16,
    pub oem_info: u16,
    pub reserved_b: Reserved<20>,
    /// Offset of the PE header from the start of this header.
    pub pe_header_start: u32,
}

impl FromMemory for Header {
    open spec fn raw_size() -> nat {
        64
    }

    open spec fn decoded(bytes: Seq<u8>, at: int) -> Self {
        Header {
            signature: <[u8; 2] as FromMemory>::decoded(bytes, at),
            last_page: <Bytes as FromMemory>::decoded(bytes, at + 2),
            pages: <Pages as FromMemory>::decoded(bytes, at + 4),
            nrelocs: <u16 as FromMemory>::decoded(bytes, at + 6),
            hdrsize: <Paragraphs as FromMemory>::decoded(bytes, at + 8),
            minalloc: <Paragraphs as FromMemory>::decoded(bytes, at + 10),
            maxalloc: <Paragraphs as FromMemory>::decoded(bytes, at + 12),
            ss: <u16 as FromMemory>::decoded(bytes, at + 14),
            sp: <u16 as FromMemory>::decoded(bytes, at + 16),
            checksum: <u16 as FromMemory>::decoded(bytes, at + 18),
            ip: <u16 as FromMemory>::decoded(bytes, at + 20),
            cs: <u16 as FromMemory>::decoded(bytes, at + 22),
            relocs: <u16 as FromMemory>::decoded(bytes, at + 24),
            overlay: <u16 as FromMemory>::decoded(bytes, at + 26),
            reserved_a: <Reserved<8> as FromMemory>::decoded(bytes, at + 28),
            oem_id: <u16 as FromMemory>::decoded(bytes, at + 36),
            oem_info: <u16 as FromMemory>::decoded(bytes, at + 38),
            reserved_b: <Reserved<20> as FromMemory>::decoded(bytes, at + 40),
            pe_header_start: <u32 as FromMemory>::decoded(bytes, at + 60),
        }
    }

    proof fn decoded_is_local(a: Seq<u8>, at_a: int, b: Seq<u8>, at_b: int) {
        <[u8; 2] as FromMemory>::decoded_is_local(a, at_a, b, at_b);
        <Bytes as FromMemory>::decoded_is_local(a, at_a + 2, b, at_b + 2);
        <Pages as FromMemory>::decoded_is_local(a, at_a + 4, b, at_b + 4);
        <u16 as FromMemory>::decoded_is_local(a, at_a + 6, b, at_b + 6);
        <Paragraphs as FromMemory>::decoded_is_local(a, at_a + 8, b, at_b + 8);
        <Paragraphs as FromMemory>::decoded_is_local(a, at_a + 10, b, at_b + 10);
        <Paragraphs as FromMemory>::decoded_is_local(a, at_a + 12, b, at_b + 12);
        <u16 as FromMemory>::decoded_is_local(a, at_a + 14, b, at_b + 14);
        <u16 as FromMemory>::decoded_is_local(a, at_a + 16, b, at_b + 16);
        <u16 as FromMemory>::decoded_is_local(a, at_a + 18, b, at_b + 18);
        <u16 as FromMemory>::decoded_is_local(a, at_a + 20, b, at_b + 20);
        <u16 as FromMemory>::decoded_is_local(a, at_a + 22, b, at_b + 22);
        <u16 as FromMemory>::decoded_is_local(a, at_a + 24, b, at_b + 24);
        <u16 as FromMemory>::decoded_is_local(a, at_a + 26, b, at_b + 26);
        <Reserved<8> as FromMemory>::decoded_is_local(a, at_a + 28, b, at_b + 28);
        <u16 as FromMemory>::decoded_is_local(a, at_a + 36, b, at_b + 36);
        <u16 as FromMemory>::decoded_is_local(a, at_a + 38, b, at_b + 38);
        <Reserved<20> as FromMemory>::decoded_is_local(a, at_a + 40, b, at_b + 40);
        <u32 as FromMemory>::decoded_is_local(a, at_a + 60, b, at_b + 60);
    }

    fn size() -> (n: usize) {
        64
    }

    fn from_raw(bytes: &[u8], at: usize) -> (value: Self) {
        Header {
            signature: <[u8; 2] as FromMemory>::from_raw(bytes, at),
            last_page: <Bytes as FromMemory>::from_raw(bytes, at + 2),
            pages: <Pages as FromMemory>::from_raw(bytes, at + 4),
            nrelocs: <u16 as FromMemory>::from_raw(bytes, at + 6),
            hdrsize: <Paragraphs as FromMemory>::from_raw(bytes, at + 8),
            minalloc: <Paragraphs as FromMemory>::from_raw(bytes, at + 10),
            maxalloc: <Paragraphs as FromMemory>::from_raw(bytes, at + 12),
            ss: <u16 as FromMemory>::from_raw(bytes, at + 14),
            sp: <u16 as FromMemory>::from_raw(bytes, at + 16),
            checksum: <u16 as FromMemory>::from_raw(bytes, at + 18),
            ip: <u16 as FromMemory>::from_raw(bytes, at + 20),
            cs: <u16 as FromMemory>::from_raw(bytes, at + 22),
            relocs: <u16 as FromMemory>::from_raw(bytes, at + 24),
            overlay: <u16 as FromMemory>::from_raw(bytes, at + 26),
            reserved_a: <Reserved<8> as FromMemory>::from_raw(bytes, at + 28),
            oem_id: <u16 as FromMemory>::from_raw(bytes, at + 36),
            oem_info: <u16 as FromMemory>::from_raw(bytes, at + 38),
            reserved_b: <Reserved<20> as FromMemory>::from_raw(bytes, at + 40),
            pe_header_start: <u32 as FromMemory>::from_raw(bytes, at + 60),
        }
    }
}

/// A relocation entry of a 16-bit MS-DOS program.
#[derive(Clone, Copy, Debug, Default, PartialEq, Eq, Structural)]
pub struct Relocation {
    pub offset: u16,
    pub segment: u16,
}

impl FromMemory for Relocation {
    open spec fn raw_size() -> nat {
        4
    }

    open spec fn decoded(bytes: Seq<u8>, at: int) -> Self {
        Relocation {
            offset: <u16 as FromMemory>::decoded(bytes, at),
            segment: <u16 as FromMemory>::decoded(bytes, at + 2),
        }
    }

    proof fn decoded_is_local(a: Seq<u8>, at_a: int, b: Seq<u8>, at_b: int) {
        <u16 as FromMemory>::decoded_is_local(a, at_a, b, at_b);
        <u16 as FromMemory>::decoded_is_local(a, at_a + 2, b, at_b + 2);
    }

    fn size() -> (n: usize) {
        4
    }

    fn from_raw(bytes: &[u8], at: usize) -> (value: Self) {
        Relocation {
            offset: <u16 as FromMemory>::from_raw(bytes, at),
            segment: <u16 as FromMemory>::from_raw(bytes, at + 2),
        }
    }
}

/// A count of pages of 512 bytes.
#[derive(Clone, Copy, Debug, Default, PartialEq, Eq, Structural)]
pub struct Pages(pub u16);

impl FromMemory for Pages {
    open spec fn raw_size() -> nat {
        2
    }

    open spec fn decoded(bytes: Seq<u8>, at: int) -> Self {
        Pages(<u16 as FromMemory>::decoded(bytes, at))
    }

    proof fn decoded_is_local(a: Seq<u8>, at_a: int, b: Seq<u8>, at_b: int) {
        <u16 as FromMemory>::decoded_is_local(a, at_a, b, at_b);
    }

    fn size() -> (n: usize) {
        2
    }

    fn from_raw(bytes: &[u8], at: usize) -> (value: Self) {
        Pages(<u16 as FromMemory>::from_raw(bytes, at))
    }
}

/// A count of paragraphs of 16 bytes.
#[derive(Clone, Copy, Debug, Default, PartialEq, Eq, Structural)]
pub struct Paragraphs(pub u16);

impl FromMemory for Paragraphs {
    open spec fn raw_size() -> nat {
        2
    }

    open spec fn decoded(bytes: Seq<u8>, at: int) -> Self {
        Paragraphs(<u16 as FromMemory>::decoded(bytes, at))
    }

    proof fn decoded_is_local(a: Seq<u8>, at_a: int, b: Seq<u8>, at_b: int) {
        <u16 as FromMemory>::decoded_is_local(a, at_a, b, at_b);
    }

    fn size() -> (n: usize) {
        2
    }

    fn from_raw(bytes: &[u8], at: usize) -> (value: Self) {
        Paragraphs(<u16 as FromMemory>::from_raw(bytes, at))
    }
}

/// A count of bytes.
#[derive(Clone, Copy, Debug, Default, PartialEq, Eq, Structural)]
pub struct Bytes(pub u16);

impl FromMemory for Bytes {
    open spec fn raw_size() -> nat {
        2
    }

    open spec fn decoded(bytes: Seq<u8>, at: int) -> Self {
        Bytes(<u16 as FromMemory>::decoded(bytes, at))
    }

    proof fn decoded_is_local(a: Seq<u8>, at_a: int, b: Seq<u8>, at_b: int) {
        <u16 as FromMemory>::decoded_is_local(a, at_a, b, at_b);
    }

    fn size() -> (n: usize) {
        2
    }

    fn from_raw(bytes: &[u8], at: usize) -> (value: Self) {
        Bytes(<u16 as FromMemory>::from_raw(bytes, at))
    }
}
impl Header {
    /// True when the signature is `"MZ"`.
    pub open spec fn has_signature(self) -> bool {
        self.signature[0] == 0x4d && self.signature[1] == 0x5a
    }

    /// What reading a header from `content` at `offset` comes to where the
    /// source itself does not fail: the end of the input where fewer than 64
    /// bytes are left, an invalid signature where the first two are not
    /// `"MZ"`, and else the decoded header.
    pub open spec fn parsed(content: Seq<u8>, offset: int) -> Result<Header, Error> {
        if !fits(content, offset, 64) {
            Err(Error::UnexpectedEof)
        } else if !Self::decoded(content, offset).has_signature() {
            Err(Error::InvalidSignature)
        } else {
            Ok(Self::decoded(content, offset))
        }
    }

    /// Tells whether the signature is `"MZ"`.
    pub fn check_signature(&self) -> (r: Result<(), Error>)
        ensures
            self.has_signature() ==> r == Ok::<(), Error>(()),
            !self.has_signature() ==> r == Err::<(), Error>(Error::InvalidSignature),
    {
        if self.signature[0] == 0x4d && self.signature[1] == 0x5a {
            Ok(())
        } else {
            Err(Error::InvalidSignature)
        }
    }

    /// Reads the header at the position of `read` and checks its signature.
    pub fn read_from<R: ReadAt>(read: &mut ReadAtReader<R>) -> (r: Result<Self, Error>)
        ensures
            final(read).read_at == old(read).read_at,
            r == Self::parsed(old(read).read_at.content(), old(read).pos as int) || (
            r matches Err(e) && e.is_io() && !old(read).read_at.infallible()),
            r is Ok ==> final(read).pos == old(read).pos + 64,
    {
        let header = Self::from_io(read)?;
        header.check_signature()?;
        Ok(header)
    }

    /// Reads the header that `read_at` holds at `offset` and checks its
    /// signature.
    pub fn read_at<R: ReadAt>(read_at: &R, offset: u64) -> (r: Result<Self, Error>)
        ensures
            r == Self::parsed(read_at.content(), offset as int) || (r matches Err(e) && e.is_io()
                && !read_at.infallible()),
    {
        let header = Self::from_read_at(read_at, offset)?;
        header.check_signature()?;
        Ok(header)
    }
}

impl Relocation {
    /// Reads the relocation at the position of `read`.
    pub fn read_from<R: ReadAt>(read: &mut ReadAtReader<R>) -> (r: Result<Self, Error>)
        ensures
            final(read).read_at == old(read).read_at,
            r == crate::from_memory::whole_or_eof(
                old(read).read_at.content(),
                old(read).pos as int,
                4,
                Self::decoded(old(read).read_at.content(), old(read).pos as int),
            ) || (r matches Err(e) && e.is_io() && !old(read).read_at.infallible()),
            r is Ok ==> final(read).pos == old(read).pos + 4,
            r is Err ==> final(read).pos == old(read).pos,
    {
        Self::from_io(read)
    }
}

impl Pages {
    /// The count in pages.
    pub fn pages<N: From<u16>>(&self) -> (r: N)
        ensures
            N::obeys_from_spec() ==> r == N::from_spec(self.0),
    {
        N::from(self.0)
    }

    /// The count in paragraphs: 32 to the page.
    pub fn paragraphs<N: From<u32>>(&self) -> (r: N)
        ensures
            N::obeys_from_spec() ==> r == N::from_spec((self.0 * 32) as u32),
    {
        let pages: u32 = self.0 as u32;
        N::from(pages * 32)
    }

    /// The count in bytes: 512 to the page.
    pub fn bytes<N: From<u32>>(&self) -> (r: N)
        ensures
            N::obeys_from_spec() ==> r == N::from_spec((self.0 * 512) as u32),
    {
        let pages: u32 = self.0 as u32;
        N::from(pages * 512)
    }
}

impl Paragraphs {
    /// The count in paragraphs.
    pub fn paragraphs<N: From<u16>>(&self) -> (r: N)
        ensures
            N::obeys_from_spec() ==> r == N::from_spec(self.0),
    {
        N::from(self.0)
    }

    /// The count in bytes: 16 to the paragraph.
    pub fn bytes<N: From<u32>>(&self) -> (r: N)
        ensures
            N::obeys_from_spec() ==> r == N::from_spec((self.0 * 16) as u32),
    {
        let paragraphs: u32 = self.0 as u32;
        N::from(paragraphs * 16)
    }
}

impl Bytes {
    /// The count in bytes.
    pub fn bytes<N: From<u16>>(&self) -> (r: N)
        ensures
            N::obeys_from_spec() ==> r == N::from_spec(self.0),
    {
        N::from(self.0)
    }
}

} // verus!
