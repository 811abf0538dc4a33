use crate::error::{Error, Failure, Operation, Src};
use crate::from_memory::FromMemory;
use crate::io::read_at::{fits, holds_at, ReadAt};
use crate::io::read_at_ext::ReadAtExt;
use crate::io::read_at_reader::ReadAtReader;
use crate::io::seek_from::{unsigned_abs, SeekFrom};
use crate::mz;
use crate::pe::address_space::{
    advance, find_section, lemma_advance_is_valid, lemma_position_is_bounded, locate,
    valid_position, Position,
};
use crate::pe::data_directories::DataDirectories;
use crate::pe::header::Header;
use crate::pe::image::{Backing, Image};
use crate::pe::rva::RVA;
use crate::pe::section_header::SectionHeader;
use core::ops::Range;
use core::str::Utf8Error;
use vstd::prelude::*;
use vstd::std_specs::convert::TryIntoSpec;
use vstd::string::StringSliceAdditionalSpecFns;
use vstd::utf8::{partial_valid_utf8, partial_valid_utf8_extend_ascii_block, valid_utf8};

verus! {

/// Why a sequence of bytes is not UTF-8, as `core::str::from_utf8` reports
/// it. Nothing is read from it.
#[verifier::external_type_specification]
#[verifier::external_body]
pub struct ExUtf8Error(Utf8Error);

/// `core::str::from_utf8` succeeds on the byte sequences that are valid
/// UTF-8 and on no others, and the string that it returns has the bytes
/// that it was given.
pub assume_specification[ core::str::from_utf8 ](v: &[u8]) -> (r: Result<&str, Utf8Error>)
    ensures
        r is Ok <==> valid_utf8(v@),
        r matches Ok(text) ==> text.spec_bytes() == v@,
;

/// The headers of an image.
pub ghost struct Headers {
    pub mz: mz::Header,
    pub pe: Header,
    pub sections: Seq<SectionHeader>,
}

/// The `count` section headers that `content` holds from `at` on, 40 bytes
/// each.
pub open spec fn section_table(content: Seq<u8>, at: int, count: nat) -> Seq<SectionHeader> {
    Seq::new(count, |i: int| <SectionHeader as FromMemory>::decoded(content, at + 40 * i))
}

/// How many whole section headers `content` holds from `at` on within
/// reach of a 64-bit offset.
pub open spec fn whole_section_headers(content: Seq<u8>, at: int) -> int {
    let end: int = if content.len() <= u64::MAX {
        content.len() as int
    } else {
        u64::MAX as int
    };
    if end <= at {
        0
    } else {
        (end - at) / 40
    }
}

/// Short of one header, the section table is as long as the source allows.
proof fn lemma_whole_section_headers(content: Seq<u8>, at: int, index: int)
    requires
        0 <= at,
        0 <= index,
        fits(content, at, (40 * index) as nat),
        !fits(content, at + 40 * index, 40),
    ensures
        whole_section_headers(content, at) == index,
        !fits(content, at, (40 * (index + 1)) as nat),
{
    let end: int = if content.len() <= u64::MAX {
        content.len() as int
    } else {
        u64::MAX as int
    };
    if end > at {
        let left = end - at;
        assert(40 * index <= left < 40 * index + 40);
        assert(left / 40 == index) by (nonlinear_arith)
            requires
                40 * index <= left < 40 * index + 40,
        ;
    }
}

/// A section table grows by the header that follows it.
proof fn lemma_section_table_push(content: Seq<u8>, at: int, index: nat)
    ensures
        section_table(content, at, index).push(
            <SectionHeader as FromMemory>::decoded(content, at + 40 * index),
        ) == section_table(content, at, index + 1),
{
    assert(section_table(content, at, index).push(
        <SectionHeader as FromMemory>::decoded(content, at + 40 * index),
    ) =~= section_table(content, at, index + 1));
}

/// What parsing the image that starts at `exe_start` of `content` comes to
/// where the source itself does not fail: the three parts of the headers,
/// or the first error together with the step that it came up in.
///
/// The MZ header lies at `exe_start` and names the offset of the PE header,
/// which the section headers follow at once, as many as the file header
/// says. Nothing is parsed unless all of it is.
pub open spec fn parsed_image(content: Seq<u8>, exe_start: int) -> Result<
    Headers,
    (Operation, Error),
> {
    match mz::Header::parsed(content, exe_start) {
        Err(e) => Err((Operation::ReadMzHeader, e)),
        Ok(mz) => {
            let pe_at = exe_start + mz.pe_header_start;
            match Header::parsed(content, pe_at) {
                Err(e) => Err((Operation::ReadPeHeader, e)),
                Ok(pe) => {
                    let table_at = pe_at + pe.raw_size();
                    let count = pe.file_header.nsections;
                    if fits(content, table_at, 40 * count as nat) {
                        Ok(
                            Headers {
                                mz,
                                pe,
                                sections: section_table(content, table_at, count as nat),
                            },
                        )
                    } else {
                        Err(
                            (
                                Operation::ReadSectionHeader {
                                    index: whole_section_headers(content, table_at) as u16,
                                },
                                Error::UnexpectedEof,
                            ),
                        )
                    }
                },
            }
        },
    }
}

/// An image whose headers were parsed when it was opened, and whose
/// contents are read on demand.
pub struct Reader<R> {
    src: Src,
    reader: R,
    exe_start: u64,
    mz_header: mz::Header,
    pe_header: Header,
    pe_section_headers: Vec<SectionHeader>,
}

impl<R: ReadAt> Reader<R> {
    /// The bytes of the source.
    pub closed spec fn content(&self) -> Seq<u8> {
        self.reader.content()
    }

    /// True when reads of the source cannot fail.
    pub closed spec fn infallible(&self) -> bool {
        self.reader.infallible()
    }

    /// The source.
    pub closed spec fn source(&self) -> R {
        self.reader
    }

    /// What the errors of this reader name as their source.
    pub closed spec fn src(&self) -> Src {
        self.src
    }

    /// Where in the source the image starts.
    pub closed spec fn exe_start(&self) -> u64 {
        self.exe_start
    }

    /// The headers that were parsed.
    pub closed spec fn headers(&self) -> Headers {
        Headers {
            mz: self.mz_header,
            pe: self.pe_header,
            sections: self.pe_section_headers@,
        }
    }

    /// What reads by address depend on.
    pub closed spec fn image(&self) -> Image {
        Image {
            content: self.reader.content(),
            exe_start: self.exe_start as int,
            sections: self.pe_section_headers@,
        }
    }

    /// The image is what its parts are.
    pub proof fn lemma_image(&self)
        ensures
            self.image().content == self.content(),
            self.image().exe_start == self.exe_start(),
            self.image().sections == self.headers().sections,
    {
    }

    /// Parses the headers of the image that `reader` holds from its start.
    pub fn read(reader: R) -> (r: Result<Self, Failure>)
        ensures
            r matches Ok(image) ==> image.source() == reader && image.src() == Src::Unknown
                && image.exe_start() == 0 && parsed_image(reader.content(), 0) == Ok::<
                Headers,
                (Operation, Error),
            >(image.headers()),
            r matches Err(failure) ==> failure.source == Src::Unknown && ((failure.error.is_io()
                && !reader.infallible()) || parsed_image(reader.content(), 0) == Err::<
                Headers,
                (Operation, Error),
            >((failure.operation, failure.error))),
            reader.infallible() ==> (r is Ok <==> parsed_image(reader.content(), 0) is Ok),
    {
        Self::read_src(reader, Src::Unknown, 0)
    }

    /// Parses the headers of the image that starts at `exe_start` of
    /// `reader`. Errors name `src` as their source.
    #[verifier::loop_isolation(false)]
    pub fn read_src(reader: R, src: Src, exe_start: u64) -> (r: Result<Self, Failure>)
        ensures
            r matches Ok(image) ==> image.source() == reader && image.src() == src
                && image.exe_start() == exe_start && parsed_image(
                reader.content(),
                exe_start as int,
            ) == Ok::<Headers, (Operation, Error)>(image.headers()),
            r matches Err(failure) ==> failure.source == src && ((failure.error.is_io()
                && !reader.infallible()) || parsed_image(reader.content(), exe_start as int)
                == Err::<Headers, (Operation, Error)>((failure.operation, failure.error))),
            reader.infallible() ==> (r is Ok <==> parsed_image(reader.content(), exe_start as int)
                is Ok),
    {
        let mz_header = match mz::Header::read_at(&reader, exe_start) {
            Ok(header) => header,
            Err(error) => {
                return Err(Failure { source: src, operation: Operation::ReadMzHeader, error });
            },
        };
        if mz_header.pe_header_start as u64 > u64::MAX - exe_start {
            return Err(
                Failure {
                    source: src,
                    operation: Operation::ReadPeHeader,
                    error: Error::UnexpectedEof,
                },
            );
        }
        let pe_at: u64 = exe_start + mz_header.pe_header_start as u64;
        let mut pe_reader = ReadAtReader::new(&reader, pe_at);
        let pe_header = match Header::read_from(&mut pe_reader) {
            Ok(header) => header,
            Err(error) => {
                return Err(Failure { source: src, operation: Operation::ReadPeHeader, error });
            },
        };
        let count: u16 = pe_header.file_header.nsections;
        let ghost table_at: int = pe_at + pe_header.raw_size();
        let mut pe_section_headers: Vec<SectionHeader> = Vec::new();
        let mut index: u16 = 0;
        while index < count
            invariant
                index <= count,
                pe_reader.read_at == &reader,
                pe_reader.pos == table_at + 40 * index,
                pe_section_headers@ == section_table(reader.content(), table_at, index as nat),
                fits(reader.content(), table_at, 40 * index as nat),
                table_at >= 0,
            decreases count - index,
        {
            let section = match SectionHeader::read_from(&mut pe_reader) {
                Ok(section) => section,
                Err(error) => {
                    proof {
                        if !error.is_io() {
                            lemma_whole_section_headers(
                                reader.content(),
                                table_at,
                                index as int,
                            );
                        }
                    }
                    return Err(
                        Failure {
                            source: src,
                            operation: Operation::ReadSectionHeader { index },
                            error,
                        },
                    );
                },
            };
            proof {
                lemma_section_table_push(reader.content(), table_at, index as nat);
            }
            pe_section_headers.push(section);
            index = index + 1;
        }
        Ok(Self { src, reader, exe_start, mz_header, pe_header, pe_section_headers })
    }

    /// The MZ header.
    pub fn mz_header(&self) -> (r: &mz::Header)
        ensures
            *r == self.headers().mz,
    {
        &self.mz_header
    }

    /// The PE header.
    pub fn pe_header(&self) -> (r: &Header)
        ensures
            *r == self.headers().pe,
    {
        &self.pe_header
    }

    /// The section headers, in the order of the file.
    pub fn pe_section_headers(&self) -> (r: &[SectionHeader])
        ensures
            r@ == self.headers().sections,
    {
        self.pe_section_headers.as_slice()
    }

    /// The data directories of the optional header; the empty ones where
    /// the image has no optional header.
    pub fn data_directory(&self) -> (r: DataDirectories)
        ensures
            r == (match self.headers().pe.optional_header {
                Some(optional_header) => optional_header.spec_data_directory(),
                None => DataDirectories::spec_empty(),
            }),
    {
        match &self.pe_header.optional_header {
            Some(optional_header) => *optional_header.data_directory(),
            None => DataDirectories::empty(),
        }
    }

    /// The section header with the index `index`, if there is one. No
    /// index has none.
    pub fn pe_section_header_at(&self, index: Option<usize>) -> (r: Option<&SectionHeader>)
        ensures
            r == (match index {
                Some(index) => if index < self.headers().sections.len() {
                    Some(&self.headers().sections[index as int])
                } else {
                    None
                },
                None => None,
            }),
    {
        match index {
            Some(index) => {
                if index < self.pe_section_headers.len() {
                    Some(&self.pe_section_headers[index])
                } else {
                    None
                }
            },
            None => None,
        }
    }

    /// The section header with the index `idx`, if there is one. An `idx`
    /// that is no `usize` is the index of no section.
    pub fn pe_section_header<I: TryInto<usize>>(&self, idx: I) -> (r: Option<&SectionHeader>)
        ensures
            I::obeys_try_into_spec() ==> r == (match I::try_into_spec(idx) {
                Ok(index) => if index < self.headers().sections.len() {
                    Some(&self.headers().sections[index as int])
                } else {
                    None
                },
                Err(_) => None,
            }),
            r matches Some(header) ==> exists|index: int|
                0 <= index < self.headers().sections.len() && *header
                    == #[trigger] self.headers().sections[index],
    {
        match idx.try_into() {
            Ok(index) => self.pe_section_header_at(Some(index)),
            Err(_) => self.pe_section_header_at(None),
        }
    }

    /// How many bytes a read of the raw data of `header`, `offset` bytes in,
    /// puts into a buffer of `room` bytes.
    pub open spec fn raw_data_len(header: SectionHeader, offset: u32, room: nat) -> nat {
        let left: nat = if header.size_of_raw_data >= offset {
            (header.size_of_raw_data - offset) as nat
        } else {
            0
        };
        if left < room {
            left
        } else {
            room
        }
    }

    /// Reads raw data of the section that `header` describes, from `offset`
    /// bytes into it, to the front of `data`, and returns what was read.
    /// That is as much as `data` has room for, but not more than the file
    /// holds for the section, so it may be less than `data.len()`.
    pub fn read_pe_section_data_inplace<'a>(
        &self,
        header: &SectionHeader,
        offset: u32,
        data: &'a mut [u8],
    ) -> (r: Result<&'a [u8], Failure>)
        ensures
            final(data)@.len() == old(data)@.len(),
            r matches Ok(read) ==> read@.len() == Self::raw_data_len(
                *header,
                offset,
                old(data)@.len(),
            ) && read@ == final(data)@.subrange(0, read@.len() as int) && final(data)@.subrange(
                read@.len() as int,
                old(data)@.len() as int,
            ) == old(data)@.subrange(read@.len() as int, old(data)@.len() as int)
                && holds_at(
                self.content(),
                self.exe_start() + header.raw_offset(offset as int),
                read@,
            ),
            r matches Err(failure) ==> failure.source == self.src() && failure.operation
                == Operation::ReadSection && ((failure.error.is_io() && !self.infallible()) || (
            failure.error == Error::UnexpectedEof && !fits(
                self.content(),
                self.exe_start() + header.raw_offset(offset as int),
                Self::raw_data_len(*header, offset, old(data)@.len()),
            ))),
            self.infallible() && fits(
                self.content(),
                self.exe_start() + header.raw_offset(offset as int),
                Self::raw_data_len(*header, offset, old(data)@.len()),
            ) ==> r is Ok,
    {
        let left: u32 = if header.size_of_raw_data >= offset {
            header.size_of_raw_data - offset
        } else {
            0
        };
        let n: usize = if (left as usize) < data.len() {
            left as usize
        } else {
            data.len()
        };
        let pointer: u64 = match header.pointer_to_raw_data {
            Some(pointer) => pointer as u64,
            None => 0,
        };
        let within: u64 = pointer + offset as u64;
        if within > u64::MAX - self.exe_start {
            if n == 0 {
                let (head, _rest) = data.split_at_mut(0);
                let read: &'a [u8] = head;
                return Ok(read);
            }
            return Err(
                Failure {
                    source: self.src.duplicate(),
                    operation: Operation::ReadSection,
                    error: Error::UnexpectedEof,
                },
            );
        }
        let at: u64 = self.exe_start + within;
        let (head, _rest) = data.split_at_mut(n);
        match self.reader.read_exact_at(head, at) {
            Err(error) => Err(
                Failure { source: self.src.duplicate(), operation: Operation::ReadSection, error },
            ),
            Ok(()) => {
                let read: &'a [u8] = head;
                Ok(read)
            },
        }
    }

    /// What reading the raw data of the section that `header` describes
    /// may come to: the `size_of_raw_data` bytes that the source holds from
    /// the start of the image plus the pointer to the raw data on; the end of
    /// the input where the source does not hold them all; or, of a source
    /// that can fail, its failure.
    pub open spec fn reads_section_data(
        &self,
        header: SectionHeader,
        r: Result<Vec<u8>, Failure>,
    ) -> bool {
        let at = self.exe_start() + header.raw_offset(0);
        let size = header.size_of_raw_data as nat;
        &&& r matches Ok(data) ==> data@.len() == size && holds_at(self.content(), at, data@)
        &&& r matches Err(failure) ==> failure.source == self.src() && failure.operation
            == Operation::ReadSection && ((failure.error.is_io() && !self.infallible()) || (
        failure.error == Error::UnexpectedEof && !fits(self.content(), at, size)))
        &&& self.infallible() && fits(self.content(), at, size) ==> r is Ok
    }

    /// Reads the raw data of the section that `header` describes, all
    /// `size_of_raw_data` bytes of it.
    pub fn read_pe_section_data(&self, header: &SectionHeader) -> (r: Result<Vec<u8>, Failure>)
        ensures
            self.reads_section_data(*header, r),
    {
        let mut data: Vec<u8> = vec![0u8; header.size_of_raw_data as usize];
        match self.read_pe_section_data_inplace(header, 0, data.as_mut_slice()) {
            Err(failure) => Err(failure),
            Ok(read) => {
                assert(read@ =~= data@);
                Ok(data)
            },
        }
    }

    /// Reads the raw data of the section with the index `index`. An index
    /// that the section table lacks, or no index, is an error.
    pub fn read_pe_section_data_at(&self, index: Option<usize>) -> (r: Result<Vec<u8>, Failure>)
        ensures
            match index {
                Some(index) if index < self.headers().sections.len() => self.reads_section_data(
                    self.headers().sections[index as int],
                    r,
                ),
                _ => r == Err::<Vec<u8>, Failure>(
                    Failure {
                        source: self.src(),
                        operation: Operation::ReadSection,
                        error: Error::SectionIndexOutOfBounds,
                    },
                ),
            },
    {
        match self.pe_section_header_at(index) {
            Some(header) => self.read_pe_section_data(header),
            None => Err(
                Failure {
                    source: self.src.duplicate(),
                    operation: Operation::ReadSection,
                    error: Error::SectionIndexOutOfBounds,
                },
            ),
        }
    }

    /// Reads the raw data of the section with the index `idx`. An `idx`
    /// that is no `usize` is the index of no section.
    pub fn read_pe_section_data_by_idx<I: TryInto<usize>>(&self, idx: I) -> (r: Result<
        Vec<u8>,
        Failure,
    >)
        ensures
            I::obeys_try_into_spec() ==> (match I::try_into_spec(idx) {
                Ok(index) if index < self.headers().sections.len() => self.reads_section_data(
                    self.headers().sections[index as int],
                    r,
                ),
                _ => r == Err::<Vec<u8>, Failure>(
                    Failure {
                        source: self.src(),
                        operation: Operation::ReadSection,
                        error: Error::SectionIndexOutOfBounds,
                    },
                ),
            }),
            r is Ok ==> exists|index: int|
                0 <= index < self.headers().sections.len() && self.reads_section_data(
                    #[trigger] self.headers().sections[index],
                    r,
                ),
    {
        match idx.try_into() {
            Ok(index) => self.read_pe_section_data_at(Some(index)),
            Err(_) => self.read_pe_section_data_at(None),
        }
    }
}

/// Reads the address space of an image front to back: sections give the
/// bytes that the file holds for them, and zeros where it holds none; gaps
/// between sections give zeros.
pub struct RvaReader<'r, R> {
    reader: &'r Reader<R>,
    rva: u64,
    section_idx: Option<usize>,
    section_remaining: u64,
}

impl<'r, R: ReadAt> RvaReader<'r, R> {
    /// Where the reader is.
    pub closed spec fn position(&self) -> Position {
        Position { rva: self.rva, section: self.section_idx, remaining: self.section_remaining }
    }

    /// The image that is read.
    pub closed spec fn image(&self) -> Image {
        self.reader.image()
    }

    /// True when reads of the source cannot fail.
    pub closed spec fn infallible(&self) -> bool {
        self.reader.infallible()
    }

    /// What the errors of this reader name as their source.
    pub closed spec fn src(&self) -> Src {
        self.reader.src()
    }

    /// True when the reader is at a position of its image: in a section
    /// that holds its address, or in a gap.
    pub closed spec fn wf(&self) -> bool {
        valid_position(self.reader.image().sections, self.position())
    }

    /// A reader of the address space of `reader` that starts at `rva`.
    pub fn new(reader: &'r Reader<R>, rva: RVA) -> (r: Self)
        ensures
            r.wf(),
            r.image() == reader.image(),
            r.infallible() == reader.infallible(),
            r.src() == reader.src(),
            r.position() == locate(reader.image().sections, rva.0 as u64),
    {
        let position = find_section(reader.pe_section_headers.as_slice(), rva.0 as u64);
        Self {
            reader,
            rva: position.rva,
            section_idx: position.section,
            section_remaining: position.remaining,
        }
    }

    /// Resolves the address that the reader is at afresh: to the first
    /// section that holds it, or to the gap that it lies in.
    pub fn find_section(&mut self)
        ensures
            final(self).wf(),
            final(self).image() == old(self).image(),
            final(self).infallible() == old(self).infallible(),
            final(self).src() == old(self).src(),
            final(self).position() == locate(old(self).image().sections, old(self).position().rva),
            final(self).position().rva == old(self).position().rva,
    {
        let position = find_section(self.reader.pe_section_headers.as_slice(), self.rva);
        self.section_idx = position.section;
        self.section_remaining = position.remaining;
    }

    /// Moves the reader on by `n` bytes of its section or gap.
    fn consume(&mut self, n: u64)
        requires
            old(self).wf(),
            0 < n <= old(self).position().remaining,
        ensures
            final(self).wf(),
            final(self).image() == old(self).image(),
            final(self).infallible() == old(self).infallible(),
            final(self).src() == old(self).src(),
            final(self).position() == advance(
                old(self).image().sections,
                old(self).position(),
                n as int,
            ),
            final(self).position().rva == old(self).position().rva + n,
    {
        proof {
            lemma_position_is_bounded(self.reader.image().sections, self.position());
        }
        self.rva = self.rva + n;
        self.section_remaining = self.section_remaining - n;
        if self.section_remaining == 0 {
            self.find_section();
        } else {
            proof {
                lemma_advance_is_valid(
                    old(self).reader.image().sections,
                    old(self).position(),
                    n as int,
                );
            }
        }
    }

    /// Reads up to `buf.len()` bytes from where the reader is into the
    /// front of `buf`, moves the reader past them, and says how many. A read
    /// does not pass the end of the raw data of a section, of the section
    /// or of the gap, so fewer bytes than asked may come. None comes for an
    /// empty buffer, at the end of the address space, and where the source
    /// ends before the raw data of a section does.
    pub fn read(&mut self, buf: &mut [u8]) -> (r: Result<usize, Failure>)
        requires
            old(self).wf(),
        ensures
            final(self).wf(),
            final(self).image() == old(self).image(),
            final(self).infallible() == old(self).infallible(),
            final(self).src() == old(self).src(),
            final(buf)@.len() == old(buf)@.len(),
            r matches Ok(n) ==> {
                &&& n <= old(buf)@.len()
                &&& n <= old(self).image().span(old(self).position())
                &&& old(self).image().bytes_from(old(self).position(), n as nat) == Some(
                    final(buf)@.subrange(0, n as int),
                )
                &&& final(self).position() == old(self).image().skip(
                    old(self).position(),
                    n as nat,
                )
                &&& final(self).position().rva == old(self).position().rva + n
                &&& n == 0 ==> old(buf)@.len() == 0 || old(self).image().byte_at(
                    old(self).position(),
                ) is None
            },
            old(self).image().backing(old(self).position()) is Zeros ==> r == Ok::<usize, Failure>(
                if old(buf)@.len() < old(self).position().remaining {
                    old(buf)@.len() as usize
                } else {
                    old(self).position().remaining as usize
                },
            ),
            r matches Err(failure) ==> failure.source == old(self).src() && failure.operation
                == Operation::ReadRva && failure.error.is_io() && !old(self).infallible()
                && final(self).position() == old(self).position(),
    {
        let ghost image = self.reader.image();
        let ghost start = self.position();
        proof {
            lemma_position_is_bounded(image.sections, start);
            assert(image.bytes_from(start, 0) == Some(Seq::<u8>::empty()));
        }
        let room: usize = buf.len();
        let want: usize = if (room as u64) < self.section_remaining {
            room
        } else {
            self.section_remaining as usize
        };
        if want == 0 {
            assert(buf@.subrange(0, 0) =~= Seq::<u8>::empty());
            return Ok(0);
        }
        let mut backed: Option<(u64, usize)> = None;
        let mut at_end: bool = false;
        match self.section_idx {
            None => {},
            Some(index) => {
                let section = &self.reader.pe_section_headers[index];
                let offset: u64 = self.rva - section.virtual_address.0 as u64;
                if offset < section.size_of_raw_data as u64 {
                    let left: u64 = section.size_of_raw_data as u64 - offset;
                    let cap: usize = if (want as u64) < left {
                        want
                    } else {
                        left as usize
                    };
                    let pointer: u64 = match section.pointer_to_raw_data {
                        Some(pointer) => pointer as u64,
                        None => 0,
                    };
                    let within: u64 = pointer + offset;
                    if within > u64::MAX - self.reader.exe_start {
                        at_end = true;
                    } else {
                        backed = Some((self.reader.exe_start + within, cap));
                    }
                }
            },
        }
        if at_end {
            assert(buf@.subrange(0, 0) =~= Seq::<u8>::empty());
            return Ok(0);
        }
        match backed {
            Some((at, cap)) => {
                let (head, _rest) = buf.split_at_mut(cap);
                match self.reader.reader.read_at(head, at) {
                    Err(cause) => Err(
                        Failure {
                            source: self.reader.src.duplicate(),
                            operation: Operation::ReadRva,
                            error: Error::Io { cause },
                        },
                    ),
                    Ok(n) => {
                        if n > 0 {
                            proof {
                                image.lemma_file(start, n as nat, at as int);
                                image.lemma_skip_within(start, n as nat);
                                assert(buf@.subrange(0, n as int) =~= image.content.subrange(
                                    at as int,
                                    at + n,
                                ));
                            }
                            self.consume(n as u64);
                        } else {
                            assert(buf@.subrange(0, 0) =~= Seq::<u8>::empty());
                        }
                        Ok(n)
                    },
                }
            },
            None => {
                let mut i: usize = 0;
                while i < want
                    invariant
                        i <= want,
                        want <= buf@.len(),
                        buf@.len() == old(buf)@.len(),
                        forall|k: int| 0 <= k < i ==> buf@[k] == 0,
                    decreases want - i,
                {
                    buf[i] = 0;
                    i = i + 1;
                }
                proof {
                    image.lemma_zeros(start, want as nat);
                    image.lemma_skip_within(start, want as nat);
                    assert(buf@.subrange(0, want as int) =~= Seq::new(want as nat, |i: int| 0u8));
                }
                self.consume(want as u64);
                Ok(want)
            },
        }
    }

    /// Fills `buf` from where the reader is, across sections and gaps, and
    /// moves the reader past what was read. Where a byte is missing, at the
    /// end of the address space or of the source, the read fails with
    /// [`Error::UnexpectedEof`].
    pub fn read_exact(&mut self, buf: &mut [u8]) -> (r: Result<(), Failure>)
        requires
            old(self).wf(),
        ensures
            final(self).wf(),
            final(self).image() == old(self).image(),
            final(self).infallible() == old(self).infallible(),
            final(self).src() == old(self).src(),
            final(buf)@.len() == old(buf)@.len(),
            r is Ok ==> old(self).image().bytes_from(old(self).position(), old(buf)@.len()) == Some(
                final(buf)@,
            ) && final(self).position() == old(self).image().skip(
                old(self).position(),
                old(buf)@.len(),
            ) && final(self).position().rva == old(self).position().rva + old(buf)@.len(),
            r matches Err(failure) ==> failure.source == old(self).src() && failure.operation
                == Operation::ReadRva && ((failure.error.is_io() && !old(self).infallible()) || (
            failure.error == Error::UnexpectedEof && old(self).image().bytes_from(
                old(self).position(),
                old(buf)@.len(),
            ) is None)),
            old(self).infallible() ==> (r is Ok <==> old(self).image().bytes_from(
                old(self).position(),
                old(buf)@.len(),
            ) is Some),
    {
        let ghost image = self.reader.image();
        let ghost start = self.position();
        let len: usize = buf.len();
        let mut filled: usize = 0;
        proof {
            assert(buf@.subrange(0, 0) =~= Seq::<u8>::empty());
            assert(image.bytes_from(start, 0) == Some(Seq::<u8>::empty()));
        }
        while filled < len
            invariant
                filled <= len,
                len == old(buf)@.len(),
                buf@.len() == len,
                self.wf(),
                self.image() == image,
                image == old(self).image(),
                start == old(self).position(),
                self.infallible() == old(self).infallible(),
                self.src() == old(self).src(),
                image.bytes_from(start, filled as nat) == Some(buf@.subrange(0, filled as int)),
                self.position() == image.skip(start, filled as nat),
                self.position().rva == start.rva + filled,
            decreases len - filled,
        {
            let ghost before = buf@;
            let ghost here = self.position();
            let (_head, tail) = buf.split_at_mut(filled);
            let n: usize = match self.read(tail) {
                Err(failure) => {
                    return Err(failure);
                },
                Ok(n) => n,
            };
            if n == 0 {
                proof {
                    image.lemma_bytes_missing(start, filled as nat, len as nat);
                }
                return Err(
                    Failure {
                        source: self.reader.src.duplicate(),
                        operation: Operation::ReadRva,
                        error: Error::UnexpectedEof,
                    },
                );
            }
            proof {
                image.lemma_bytes_append(start, filled as nat, n as nat);
                assert(buf@.subrange(0, filled + n) =~= before.subrange(0, filled as int)
                    + buf@.subrange(filled as int, buf@.len() as int).subrange(0, n as int));
            }
            filled = filled + n;
        }
        assert(buf@.subrange(0, len as int) =~= buf@);
        Ok(())
    }

    /// Reads the record at the position of the reader and moves the reader
    /// past it.
    pub fn read_record<T: FromMemory>(&mut self) -> (r: Result<T, Failure>)
        requires
            old(self).wf(),
        ensures
            final(self).wf(),
            final(self).image() == old(self).image(),
            final(self).infallible() == old(self).infallible(),
            final(self).src() == old(self).src(),
            r matches Ok(value) ==> old(self).image().bytes_from(
                old(self).position(),
                T::raw_size(),
            ) is Some && value == T::decoded(
                old(self).image().bytes_from(old(self).position(), T::raw_size()).unwrap(),
                0,
            ) && final(self).position() == old(self).image().skip(
                old(self).position(),
                T::raw_size(),
            ) && final(self).position().rva == old(self).position().rva + T::raw_size(),
            r matches Err(failure) ==> failure.source == old(self).src() && failure.operation
                == Operation::ReadRva && ((failure.error.is_io() && !old(self).infallible()) || (
            failure.error == Error::UnexpectedEof && old(self).image().bytes_from(
                old(self).position(),
                T::raw_size(),
            ) is None)),
            old(self).infallible() ==> (r is Ok <==> old(self).image().bytes_from(
                old(self).position(),
                T::raw_size(),
            ) is Some),
    {
        let size: usize = T::size();
        let mut raw: Vec<u8> = vec![0u8; size];
        match self.read_exact(raw.as_mut_slice()) {
            Err(failure) => Err(failure),
            Ok(()) => Ok(T::from_raw(raw.as_slice(), 0)),
        }
    }
}

impl<R: ReadAt> Reader<R> {
    /// Reads the bytes at the addresses from `rva.start` up to `rva.end`,
    /// across sections and gaps, into `scratch`, and returns them.
    pub fn read_exact_rva<'a>(&self, rva: Range<RVA>, scratch: &'a mut Vec<u8>) -> (r: Result<
        &'a [u8],
        Failure,
    >)
        requires
            rva.start.0 <= rva.end.0,
        ensures
            r matches Ok(bytes) ==> bytes@ == final(scratch)@ && self.image().bytes_from(
                locate(self.image().sections, rva.start.0 as u64),
                (rva.end.0 - rva.start.0) as nat,
            ) == Some(bytes@),
            r matches Err(failure) ==> failure.source == self.src() && failure.operation
                == Operation::ReadRva && ((failure.error.is_io() && !self.infallible()) || (
            failure.error == Error::UnexpectedEof && self.image().bytes_from(
                locate(self.image().sections, rva.start.0 as u64),
                (rva.end.0 - rva.start.0) as nat,
            ) is None)),
            self.infallible() ==> (r is Ok <==> self.image().bytes_from(
                locate(self.image().sections, rva.start.0 as u64),
                (rva.end.0 - rva.start.0) as nat,
            ) is Some),
    {
        let len: usize = (rva.end.0 - rva.start.0) as usize;
        scratch.clear();
        scratch.resize(len, 0u8);
        let mut reader = RvaReader::new(self, rva.start);
        match reader.read_exact(scratch.as_mut_slice()) {
            Err(failure) => Err(failure),
            Ok(()) => Ok(scratch.as_slice()),
        }
    }

    /// Reads the zero-terminated string at `rva` into `scratch`, across
    /// sections and gaps, and returns it without its terminator. The string
    /// ends before the first zero byte, or where the address space or the
    /// source ends.
    pub fn read_strz_rva<'a>(&self, rva: RVA, scratch: &'a mut Vec<u8>) -> (r: Result<
        &'a [u8],
        Failure,
    >)
        ensures
            r matches Ok(text) ==> text@ == final(scratch)@ && self.image().is_string_at(
                locate(self.image().sections, rva.0 as u64),
                text@,
            ),
            r matches Err(failure) ==> failure.source == self.src() && failure.operation
                == Operation::ReadRva && failure.error.is_io() && !self.infallible(),
    {
        scratch.clear();
        let mut reader = RvaReader::new(self, rva);
        let mut batch: Vec<u8> = vec![0u8; 1024];
        let ghost image = self.image();
        let ghost start = reader.position();
        proof {
            assert(image.bytes_from(start, 0) == Some(Seq::<u8>::empty()));
            assert(scratch@ =~= Seq::<u8>::empty());
        }
        loop
            invariant
                batch@.len() == 1024,
                reader.wf(),
                reader.image() == image,
                image == self.image(),
                reader.src() == self.src(),
                reader.infallible() == self.infallible(),
                start == locate(self.image().sections, rva.0 as u64),
                image.bytes_from(start, scratch@.len()) == Some(scratch@),
                reader.position() == image.skip(start, scratch@.len()),
                forall|k: int| 0 <= k < scratch@.len() ==> scratch@[k] != 0,
            decreases u64::MAX - reader.position().rva,
        {
            let ghost here = reader.position();
            let ghost had = scratch@;
            let n: usize = match reader.read(batch.as_mut_slice()) {
                Err(failure) => {
                    return Err(failure);
                },
                Ok(n) => n,
            };
            if n == 0 {
                return Ok(scratch.as_slice());
            }
            proof {
                image.lemma_bytes_append(start, had.len(), n as nat);
            }
            let ghost chunk = batch@.subrange(0, n as int);
            let mut i: usize = 0;
            while i < n
                invariant
                    i <= n,
                    n <= 1024,
                    batch@.len() == 1024,
                    chunk == batch@.subrange(0, n as int),
                    image == self.image(),
                    start == locate(self.image().sections, rva.0 as u64),
                    image.bytes_from(start, had.len() + n as nat) == Some(had + chunk),
                    scratch@ == had + chunk.subrange(0, i as int),
                    forall|k: int| 0 <= k < scratch@.len() ==> scratch@[k] != 0,
                decreases n - i,
            {
                let byte: u8 = batch[i];
                if byte == 0 {
                    proof {
                        image.lemma_bytes_prefix(start, had.len() + n as nat, had.len() + i as nat);
                        assert((had + chunk).subrange(0, had.len() + i) =~= scratch@);
                        assert((had + chunk)[had.len() + i] == chunk[i as int]);
                        assert(scratch@.len() == had.len() + i);
                    }
                    return Ok(scratch.as_slice());
                }
                scratch.push(byte);
                proof {
                    assert(scratch@ =~= had + chunk.subrange(0, i + 1));
                }
                i = i + 1;
            }
            proof {
                assert(chunk.subrange(0, n as int) =~= chunk);
            }
        }
    }

    /// Reads the zero-terminated string at `rva` and checks that it is
    /// UTF-8. The string is left in `scratch` in either case.
    pub fn read_utf8z_rva<'a>(&self, rva: RVA, scratch: &'a mut Vec<u8>) -> (r: Result<
        &'a str,
        Failure,
    >)
        ensures
            r matches Err(failure) ==> failure.source == self.src() && failure.operation
                == Operation::ReadRva && (failure.error.is_io() || failure.error
                == Error::InvalidStringEncoding),
            r matches Err(failure) && failure.error.is_io() ==> !self.infallible(),
            !(r matches Err(failure) && failure.error.is_io()) ==> self.image().is_string_at(
                locate(self.image().sections, rva.0 as u64),
                final(scratch)@,
            ) && (r is Ok <==> valid_utf8(final(scratch)@)),
            r matches Ok(text) ==> text.spec_bytes() == final(scratch)@,
    {
        let bytes: &'a [u8] = self.read_strz_rva(rva, scratch)?;
        match core::str::from_utf8(bytes) {
            Ok(text) => Ok(text),
            Err(_) => Err(
                Failure {
                    source: self.src.duplicate(),
                    operation: Operation::ReadRva,
                    error: Error::InvalidStringEncoding,
                },
            ),
        }
    }

    /// Reads the zero-terminated string at `rva` and checks that it is
    /// ASCII: that none of its bytes is above 127. The string is left in
    /// `scratch` in either case.
    #[verifier::loop_isolation(false)]
    pub fn read_asciiz_rva<'a>(&self, rva: RVA, scratch: &'a mut Vec<u8>) -> (r: Result<
        &'a str,
        Failure,
    >)
        ensures
            r matches Err(failure) ==> failure.source == self.src() && failure.operation
                == Operation::ReadRva && (failure.error.is_io() || failure.error
                == Error::InvalidStringEncoding),
            r matches Err(failure) && failure.error.is_io() ==> !self.infallible(),
            !(r matches Err(failure) && failure.error.is_io()) ==> self.image().is_string_at(
                locate(self.image().sections, rva.0 as u64),
                final(scratch)@,
            ) && (r is Ok <==> is_ascii_bytes(final(scratch)@)),
            r matches Ok(text) ==> text.spec_bytes() == final(scratch)@,
    {
        let bytes: &'a [u8] = self.read_strz_rva(rva, scratch)?;
        let n: usize = bytes.len();
        let mut i: usize = 0;
        while i < n
            invariant
                i <= n,
                n == bytes@.len(),
                forall|k: int| 0 <= k < i ==> bytes@[k] <= 0x7f,
            decreases n - i,
        {
            if bytes[i] > 0x7f {
                assert(!(bytes@[i as int] <= 0x7f));
                return Err(
                    Failure {
                        source: self.src.duplicate(),
                        operation: Operation::ReadRva,
                        error: Error::InvalidStringEncoding,
                    },
                );
            }
            i = i + 1;
        }
        proof {
            lemma_ascii_is_utf8(bytes@);
        }
        match core::str::from_utf8(bytes) {
            Ok(text) => Ok(text),
            Err(_) => Err(
                Failure {
                    source: self.src.duplicate(),
                    operation: Operation::ReadRva,
                    error: Error::InvalidStringEncoding,
                },
            ),
        }
    }
}

/// True when no byte of `bytes` is above 127.
pub open spec fn is_ascii_bytes(bytes: Seq<u8>) -> bool {
    forall|i: int| 0 <= i < bytes.len() ==> #[trigger] bytes[i] <= 0x7f
}

/// ASCII is UTF-8.
pub proof fn lemma_ascii_is_utf8(bytes: Seq<u8>)
    requires
        is_ascii_bytes(bytes),
    ensures
        valid_utf8(bytes),
{
    assert(bytes.subrange(0, 0) =~= Seq::<u8>::empty());
    assert(valid_utf8(bytes.subrange(0, 0)));
    assert(partial_valid_utf8(bytes, 0));
    partial_valid_utf8_extend_ascii_block(bytes, 0, bytes.len() as int);
    assert(bytes.subrange(0, bytes.len() as int) =~= bytes);
}

/// Where a seek from the address `rva` leads, the address space ending at
/// `u64::MAX`; none where that would be before its start or behind its end.
pub open spec fn seek_target(rva: u64, pos: SeekFrom) -> Option<u64> {
    match pos {
        SeekFrom::Start(target) => Some(target),
        SeekFrom::Current(delta) => if 0 <= rva + delta <= u64::MAX {
            Some((rva + delta) as u64)
        } else {
            None
        },
        SeekFrom::End(delta) => if delta <= 0 {
            Some((u64::MAX + delta) as u64)
        } else {
            None
        },
    }
}

impl<'r, R: ReadAt> RvaReader<'r, R> {
    /// Moves the reader to another address, resolves it, and returns it. A
    /// target outside the address space is an error and leaves the reader
    /// where it is.
    pub fn seek(&mut self, pos: SeekFrom) -> (r: Result<u64, Error>)
        ensures
            final(self).image() == old(self).image(),
            final(self).infallible() == old(self).infallible(),
            final(self).src() == old(self).src(),
            match seek_target(old(self).position().rva, pos) {
                Some(target) => {
                    &&& r == Ok::<u64, Error>(target)
                    &&& final(self).wf()
                    &&& final(self).position() == locate(old(self).image().sections, target)
                },
                None => {
                    &&& r == Err::<u64, Error>(Error::UnexpectedEof)
                    &&& final(self).position() == old(self).position()
                },
            },
    {
        let target: u64 = match pos {
            SeekFrom::Start(target) => target,
            SeekFrom::Current(delta) => {
                let size: u64 = unsigned_abs(delta);
                if delta < 0 {
                    if size > self.rva {
                        return Err(Error::UnexpectedEof);
                    }
                    self.rva - size
                } else {
                    if size > u64::MAX - self.rva {
                        return Err(Error::UnexpectedEof);
                    }
                    self.rva + size
                }
            },
            SeekFrom::End(delta) => {
                if delta > 0 {
                    return Err(Error::UnexpectedEof);
                }
                u64::MAX - unsigned_abs(delta)
            },
        };
        self.rva = target;
        self.find_section();
        Ok(target)
    }

    /// Reads up to `buf.len()` bytes at the address `offset`, as a reader
    /// does that was moved there. The reader itself stays where it is.
    pub fn read_at(&self, buf: &mut [u8], offset: u64) -> (r: Result<usize, Failure>)
        ensures
            final(buf)@.len() == old(buf)@.len(),
            r matches Ok(n) ==> {
                &&& n <= old(buf)@.len()
                &&& n <= self.image().span(locate(self.image().sections, offset))
                &&& self.image().bytes_from(locate(self.image().sections, offset), n as nat)
                    == Some(final(buf)@.subrange(0, n as int))
                &&& n == 0 ==> old(buf)@.len() == 0 || self.image().byte_at(
                    locate(self.image().sections, offset),
                ) is None
            },
            self.image().backing(locate(self.image().sections, offset)) is Zeros ==> r == Ok::<
                usize,
                Failure,
            >(
                if old(buf)@.len() < locate(self.image().sections, offset).remaining {
                    old(buf)@.len() as usize
                } else {
                    locate(self.image().sections, offset).remaining as usize
                },
            ),
            r matches Err(failure) ==> failure.source == self.src() && failure.operation
                == Operation::ReadRva && failure.error.is_io() && !self.infallible(),
    {
        let mut reader = self.clone();
        let _ = reader.seek(SeekFrom::Start(offset));
        reader.read(buf)
    }
}

impl<'r, R> Clone for RvaReader<'r, R> {
    fn clone(&self) -> (r: Self)
        ensures
            r == *self,
    {
        Self {
            reader: self.reader,
            rva: self.rva,
            section_idx: self.section_idx,
            section_remaining: self.section_remaining,
        }
    }
}

} // verus!
