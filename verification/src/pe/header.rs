use crate::error::Error;
use crate::from_memory::FromMemory;
use crate::io::read_at::{fits, ReadAt};
use crate::io::read_at_reader::ReadAtReader;
use crate::le::le_u16;
use crate::pe::file_header::FileHeader;
use crate::pe::optional_header::OptionalHeader;
use crate::pe::optional_header_32::OptionalHeader32;
use crate::pe::optional_header_64::OptionalHeader64;
use vstd::prelude::*;

verus! {

/// The magic of an optional header for ROM images, which are not supported.
pub const ROM_MAGIC: u16 = 0x0107;

/// The PE header: the signature, the file header, and the optional header
/// where the image has one.
#[derive(Clone, Copy, Debug, Default, PartialEq, Eq)]
pub struct Header {
    /// `"PE\0\0"`.
    pub signature: [u8; 4],
    /// What every image has: machine, number of sections and so on.
    pub file_header: FileHeader,
    /// Image base, subsystem, data directories and more. Object files have
    /// none.
    pub optional_header: Option<OptionalHeader>,
}

/// The part of the PE header that does not depend on the pointer width.
#[derive(Clone, Copy, Debug, Default, PartialEq, Eq)]
pub struct RawHeader {
    pub signature: [u8; 4],
    pub file_header: FileHeader,
}

impl FromMemory for RawHeader {
    open spec fn raw_size() -> nat {
        24
    }

    open spec fn decoded(bytes: Seq<u8>, at: int) -> Self {
        RawHeader {
            signature: <[u8; 4] as FromMemory>::decoded(bytes, at),
            file_header: <FileHeader as FromMemory>::decoded(bytes, at + 4),
        }
    }

    proof fn decoded_is_local(a: Seq<u8>, at_a: int, b: Seq<u8>, at_b: int) {
        <[u8; 4] as FromMemory>::decoded_is_local(a, at_a, b, at_b);
        <FileHeader as FromMemory>::decoded_is_local(a, at_a + 4, b, at_b + 4);
    }

    fn size() -> (n: usize) {
        24
    }

    fn from_raw(bytes: &[u8], at: usize) -> (value: Self) {
        RawHeader {
            signature: <[u8; 4] as FromMemory>::from_raw(bytes, at),
            file_header: <FileHeader as FromMemory>::from_raw(bytes, at + 4),
        }
    }
}

/// True when `signature` is `"PE\0\0"`.
pub open spec fn is_pe_signature(signature: [u8; 4]) -> bool {
    signature[0] == 0x50 && signature[1] == 0x45 && signature[2] == 0 && signature[3] == 0
}

impl Header {
    /// How many bytes the header takes in the file.
    pub open spec fn raw_size(self) -> nat {
        match self.optional_header {
            None => 24,
            Some(optional_header) => 24 + optional_header.raw_size(),
        }
    }

    /// What reading a header from `content` at `offset` comes to where the
    /// source itself does not fail.
    ///
    /// The signature and the file header take 24 bytes. A declared optional
    /// header size of zero means that there is none; a size of one cannot
    /// hold the magic. Else the magic, the two bytes that follow the file
    /// header, selects the 32-bit or the 64-bit variant, whose fields before
    /// the data directories the declared size must cover. The variant is
    /// then decoded whole, data directories included.
    pub open spec fn parsed(content: Seq<u8>, offset: int) -> Result<Header, Error> {
        let signature = <[u8; 4] as FromMemory>::decoded(content, offset);
        let file_header = <FileHeader as FromMemory>::decoded(content, offset + 4);
        let declared = file_header.optional_header_size;
        let at = offset + 24;
        let magic = le_u16(content, at);
        if !fits(content, offset, 24) {
            Err(Error::UnexpectedEof)
        } else if !is_pe_signature(signature) {
            Err(Error::InvalidSignature)
        } else if declared == 0 {
            Ok(Header { signature, file_header, optional_header: None })
        } else if declared == 1 {
            Err(Error::InsufficientOptionalHeaderSize { declared: 1, required: 2 })
        } else if !fits(content, at, 2) {
            Err(Error::UnexpectedEof)
        } else if magic == OptionalHeader32::MAGIC {
            if declared < OptionalHeader32::FIXED_SIZE {
                Err(
                    Error::InsufficientOptionalHeaderSize {
                        declared,
                        required: OptionalHeader32::FIXED_SIZE,
                    },
                )
            } else if !fits(content, at, 224) {
                Err(Error::UnexpectedEof)
            } else {
                Ok(
                    Header {
                        signature,
                        file_header,
                        optional_header: Some(
                            OptionalHeader::OptionalHeader32(
                                <OptionalHeader32 as FromMemory>::decoded(content, at),
                            ),
                        ),
                    },
                )
            }
        } else if magic == OptionalHeader64::MAGIC {
            if declared < OptionalHeader64::FIXED_SIZE {
                Err(
                    Error::InsufficientOptionalHeaderSize {
                        declared,
                        required: OptionalHeader64::FIXED_SIZE,
                    },
                )
            } else if !fits(content, at, 240) {
                Err(Error::UnexpectedEof)
            } else {
                Ok(
                    Header {
                        signature,
                        file_header,
                        optional_header: Some(
                            OptionalHeader::OptionalHeader64(
                                <OptionalHeader64 as FromMemory>::decoded(content, at),
                            ),
                        ),
                    },
                )
            }
        } else {
            Err(Error::UnsupportedOptionalHeaderMagic { magic })
        }
    }

    /// Reads the header at the position of `read` and leaves `read` behind
    /// the last byte of it.
    pub fn read_from<R: ReadAt>(read: &mut ReadAtReader<R>) -> (r: Result<Self, Error>)
        ensures
            final(read).read_at == old(read).read_at,
            r == Self::parsed(old(read).read_at.content(), old(read).pos as int) || (
            r matches Err(e) && e.is_io() && !old(read).read_at.infallible()),
            r matches Ok(header) ==> final(read).pos == old(read).pos + header.raw_size(),
    {
        let raw = RawHeader::from_io(read)?;
        let signature = raw.signature;
        let file_header = raw.file_header;
        if !(signature[0] == 0x50 && signature[1] == 0x45 && signature[2] == 0 && signature[3]
            == 0) {
            return Err(Error::InvalidSignature);
        }
        let declared: u16 = file_header.optional_header_size;
        if declared == 0 {
            return Ok(Header { signature, file_header, optional_header: None });
        }
        if declared == 1 {
            return Err(Error::InsufficientOptionalHeaderSize { declared: 1, required: 2 });
        }
        let at: u64 = read.pos;
        let magic: u16 = u16::from_io(read)?;
        if magic == OptionalHeader32::MAGIC {
            if declared < OptionalHeader32::FIXED_SIZE {
                return Err(
                    Error::InsufficientOptionalHeaderSize {
                        declared,
                        required: OptionalHeader32::FIXED_SIZE,
                    },
                );
            }
            read.pos = at;
            let optional_header = OptionalHeader32::from_io(read)?;
            Ok(
                Header {
                    signature,
                    file_header,
                    optional_header: Some(OptionalHeader::OptionalHeader32(optional_header)),
                },
            )
        } else if magic == OptionalHeader64::MAGIC {
            if declared < OptionalHeader64::FIXED_SIZE {
                return Err(
                    Error::InsufficientOptionalHeaderSize {
                        declared,
                        required: OptionalHeader64::FIXED_SIZE,
                    },
                );
            }
            read.pos = at;
            let optional_header = OptionalHeader64::from_io(read)?;
            Ok(
                Header {
                    signature,
                    file_header,
                    optional_header: Some(OptionalHeader::OptionalHeader64(optional_header)),
                },
            )
        } else {
            Err(Error::UnsupportedOptionalHeaderMagic { magic })
        }
    }
}

/// A header that parses has the signature `"PE\0\0"`, and no optional
/// header, or one whose magic is that of the 32-bit or of the 64-bit variant
/// and selects the variant that was decoded, and whose declared size covers
/// the fields of that variant before its data directories. With any other
/// magic after the file header, an image that declares an optional header
/// does not parse.
pub proof fn lemma_parsed_magic(content: Seq<u8>, offset: int)
    ensures
        Header::parsed(content, offset) matches Ok(header) ==> is_pe_signature(header.signature)
            && (match header.optional_header {
            None => header.file_header.optional_header_size == 0,
            Some(OptionalHeader::OptionalHeader32(optional_header)) => optional_header.magic
                == 0x010b && header.file_header.optional_header_size >= 96,
            Some(OptionalHeader::OptionalHeader64(optional_header)) => optional_header.magic
                == 0x020b && header.file_header.optional_header_size >= 112,
        }),
        <FileHeader as FromMemory>::decoded(content, offset + 4).optional_header_size != 0
            && le_u16(content, offset + 24) != 0x010b && le_u16(content, offset + 24) != 0x020b
            ==> Header::parsed(content, offset) is Err,
{
}

} // verus!
