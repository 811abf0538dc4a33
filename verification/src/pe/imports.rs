//! The import directory: which libraries an image imports, and which of
//! their symbols.

use crate::error::{Error, Failure, Operation};
use crate::from_memory::FromMemory;
use crate::io::read_at::ReadAt;
use crate::pe::address_space::{locate, Position};
use crate::pe::image::Image;
use crate::pe::import_descriptor::ImportDescriptor;
use crate::pe::import_lookup_table::{
    ImportLookup, ImportLookupTableEntry, ImportLookupTableEntry32, ImportLookupTableEntry64,
};
use crate::pe::optional_header::OptionalHeader;
use crate::pe::reader::{Reader, RvaReader};
use crate::pe::rva::RVA;
use vstd::prelude::*;
use vstd::string::StringSliceAdditionalSpecFns;

verus! {

/// A record of a table that a terminator ends: a record that is read like
/// the others and says that none follows.
pub trait Terminated: FromMemory {
    /// True of the record that ends a table.
    spec fn is_terminator(&self) -> bool;

    /// A record takes at least one byte.
    proof fn record_is_not_empty()
        ensures
            Self::raw_size() > 0,
    ;

    /// Tells whether the record ends its table.
    fn ends_table(&self) -> (r: bool)
        ensures
            r == self.is_terminator(),
    ;
}

/// The descriptor whose library name has the null address ends the import
/// directory.
impl Terminated for ImportDescriptor {
    open spec fn is_terminator(&self) -> bool {
        self.dll_ascii_name_rva == RVA(0)
    }

    proof fn record_is_not_empty() {
    }

    fn ends_table(&self) -> (r: bool) {
        self.dll_ascii_name_rva.0 == 0
    }
}

/// The entry that is all zero ends an import lookup table.
impl Terminated for ImportLookupTableEntry32 {
    open spec fn is_terminator(&self) -> bool {
        self.0 == 0
    }

    proof fn record_is_not_empty() {
    }

    fn ends_table(&self) -> (r: bool) {
        self.0 == 0
    }
}

/// The entry that is all zero ends an import lookup table.
impl Terminated for ImportLookupTableEntry64 {
    open spec fn is_terminator(&self) -> bool {
        self.0 == 0
    }

    proof fn record_is_not_empty() {
    }

    fn ends_table(&self) -> (r: bool) {
        self.0 == 0
    }
}

impl Image {
    /// The record with the index `k` of the table that starts at
    /// `position`, or none where a byte of it is missing.
    pub open spec fn record_at<T: FromMemory>(self, position: Position, k: nat) -> Option<T> {
        match self.bytes_from(self.skip(position, T::raw_size() * k), T::raw_size()) {
            Some(raw) => Some(T::decoded(raw, 0)),
            None => None,
        }
    }

    /// True when `table` holds the records of the table at `position`: all
    /// those before the first terminator, in their order.
    pub open spec fn is_table_at<T: Terminated>(self, position: Position, table: Seq<T>) -> bool {
        &&& forall|k: int|
            0 <= k < table.len() ==> self.record_at::<T>(position, k as nat) == Some(
                #[trigger] table[k],
            ) && !table[k].is_terminator()
        &&& self.record_at::<T>(position, table.len()) is Some
        &&& self.record_at::<T>(position, table.len()).unwrap().is_terminator()
    }

    /// True when the table at `position` breaks off at the record with the
    /// index `n`: that record is missing, and none before it is a
    /// terminator.
    pub open spec fn table_breaks_off_at<T: Terminated>(self, position: Position, n: nat) -> bool {
        &&& forall|k: nat|
            k < n ==> (#[trigger] self.record_at::<T>(position, k)) is Some && !self.record_at::<
                T,
            >(position, k).unwrap().is_terminator()
        &&& self.record_at::<T>(position, n) is None
    }

    /// A table whose record `n` is the first terminator has `n` records,
    /// whatever its directory says of its size.
    pub proof fn lemma_table_ends_at_first_terminator<T: Terminated>(
        self,
        position: Position,
        table: Seq<T>,
        n: nat,
    )
        requires
            self.is_table_at(position, table),
            forall|k: nat|
                k < n ==> (#[trigger] self.record_at::<T>(position, k)) is Some
                    && !self.record_at::<T>(position, k).unwrap().is_terminator(),
            self.record_at::<T>(position, n) is Some,
            self.record_at::<T>(position, n).unwrap().is_terminator(),
        ensures
            table.len() == n,
    {
        if table.len() < n {
            assert(self.record_at::<T>(position, table.len()) is Some);
        } else if table.len() > n {
            assert(!table[n as int].is_terminator());
        }
    }

    /// A table that has a terminator does not break off.
    pub proof fn lemma_table_does_not_break_off<T: Terminated>(
        self,
        position: Position,
        table: Seq<T>,
        n: nat,
    )
        requires
            self.is_table_at(position, table),
        ensures
            !self.table_breaks_off_at::<T>(position, n),
    {
        if self.table_breaks_off_at::<T>(position, n) {
            if table.len() < n {
                assert(self.record_at::<T>(position, table.len()) is Some);
            } else if table.len() > n {
                assert(self.record_at::<T>(position, n) == Some(table[n as int]));
            }
        }
    }
}

impl<R: ReadAt> Reader<R> {
    /// Reads the table of records that starts at `rva`: one record after
    /// the other up to the first terminator, which is left out.
    pub fn read_table<T: Terminated>(&self, rva: RVA) -> (r: Result<Vec<T>, Failure>)
        ensures
            r matches Ok(table) ==> self.image().is_table_at(
                locate(self.image().sections, rva.0 as u64),
                table@,
            ),
            r matches Err(failure) ==> failure.source == self.src() && failure.operation
                == Operation::ReadRva && ((failure.error.is_io() && !self.infallible()) || (
            failure.error == Error::UnexpectedEof && exists|n: nat|
                #[trigger] self.image().table_breaks_off_at::<T>(
                    locate(self.image().sections, rva.0 as u64),
                    n,
                ))),
            self.infallible() && (exists|table: Seq<T>|
                #[trigger] self.image().is_table_at(
                    locate(self.image().sections, rva.0 as u64),
                    table,
                )) ==> r is Ok,
    {
        let mut reader = RvaReader::new(self, rva);
        let mut table: Vec<T> = Vec::new();
        let ghost image = self.image();
        let ghost start = reader.position();
        proof {
            T::record_is_not_empty();
            assert(image.bytes_from(start, 0) == Some(Seq::<u8>::empty()));
            assert(T::raw_size() * 0 == 0);
        }
        loop
            invariant
                T::raw_size() > 0,
                reader.wf(),
                reader.image() == image,
                image == self.image(),
                reader.src() == self.src(),
                reader.infallible() == self.infallible(),
                start == locate(self.image().sections, rva.0 as u64),
                image.bytes_from(start, T::raw_size() * table@.len()) is Some,
                reader.position() == image.skip(start, T::raw_size() * table@.len()),
                forall|k: int|
                    0 <= k < table@.len() ==> image.record_at::<T>(start, k as nat) == Some(
                        #[trigger] table@[k],
                    ) && !table@[k].is_terminator(),
            decreases u64::MAX - reader.position().rva,
        {
            let ghost count = table@.len();
            let record: T = match reader.read_record::<T>() {
                Ok(record) => record,
                Err(failure) => {
                    proof {
                        if !failure.error.is_io() {
                            assert(image.record_at::<T>(start, count) is None);
                            assert forall|k: nat| k < count implies (#[trigger] image.record_at::<
                                T,
                            >(start, k)) is Some && !image.record_at::<T>(
                                start,
                                k,
                            ).unwrap().is_terminator() by {
                                assert(image.record_at::<T>(start, k) == Some(table@[k as int]));
                            }
                            assert(image.table_breaks_off_at::<T>(start, count));
                        }
                        if self.infallible() && exists|table: Seq<T>|
                            #[trigger] image.is_table_at(start, table) {
                            let whole = choose|table: Seq<T>|
                                #[trigger] image.is_table_at(start, table);
                            image.lemma_table_does_not_break_off::<T>(start, whole, count);
                        }
                    }
                    return Err(failure);
                },
            };
            assert(image.record_at::<T>(start, count) == Some(record));
            if record.ends_table() {
                return Ok(table);
            }
            proof {
                image.lemma_bytes_append(start, T::raw_size() * count, T::raw_size());
                assert(T::raw_size() * count + T::raw_size() == T::raw_size() * (count + 1))
                    by (nonlinear_arith);
            }
            table.push(record);
        }
    }

    /// The import descriptors of the image: those that the import
    /// directory holds before its terminator, the descriptor whose library
    /// name has the null address. The size that the data directory declares
    /// plays no part.
    pub fn import_descriptors(&self) -> (r: Result<Vec<ImportDescriptor>, Failure>)
        ensures
            r matches Ok(table) ==> self.image().is_table_at(self.import_directory_start(), table@),
            r matches Err(failure) ==> failure.source == self.src() && failure.operation
                == Operation::ReadRva && ((failure.error.is_io() && !self.infallible()) || (
            failure.error == Error::UnexpectedEof && exists|n: nat|
                #[trigger] self.image().table_breaks_off_at::<ImportDescriptor>(
                    self.import_directory_start(),
                    n,
                ))),
            self.infallible() && (exists|table: Seq<ImportDescriptor>|
                #[trigger] self.image().is_table_at(self.import_directory_start(), table))
                ==> r is Ok,
    {
        let directories = self.data_directory();
        self.read_table::<ImportDescriptor>(directories.import.virtual_address)
    }

    /// Where the import directory starts: at the address that the import
    /// data directory names, which is zero where the image has no optional
    /// header.
    pub open spec fn import_directory_start(&self) -> Position {
        let directories = match self.headers().pe.optional_header {
            Some(optional_header) => optional_header.spec_data_directory(),
            None => crate::pe::data_directories::DataDirectories::spec_empty(),
        };
        locate(self.image().sections, directories.import.virtual_address.0 as u64)
    }

    /// The name of the library that `descriptor` imports: the
    /// zero-terminated ASCII string at the address that it names.
    pub fn import_name<'a>(&self, descriptor: &ImportDescriptor, scratch: &'a mut Vec<u8>) -> (r:
        Result<&'a str, Failure>)
        ensures
            r matches Err(failure) ==> failure.source == self.src() && failure.operation
                == Operation::ReadRva && (failure.error.is_io() || failure.error
                == Error::InvalidStringEncoding),
            r matches Err(failure) && failure.error.is_io() ==> !self.infallible(),
            !(r matches Err(failure) && failure.error.is_io()) ==> self.image().is_string_at(
                locate(self.image().sections, descriptor.dll_ascii_name_rva.0 as u64),
                final(scratch)@,
            ) && (r is Ok <==> crate::pe::reader::is_ascii_bytes(final(scratch)@)),
            r matches Ok(text) ==> text.spec_bytes() == final(scratch)@,
    {
        self.read_asciiz_rva(descriptor.dll_ascii_name_rva, scratch)
    }

    /// Reads the `count` records that follow one another from `rva` on.
    pub fn read_array<T: FromMemory>(&self, rva: RVA, count: u32) -> (r: Result<Vec<T>, Failure>)
        ensures
            r matches Ok(list) ==> list@.len() == count && forall|k: int|
                0 <= k < count ==> self.image().record_at::<T>(
                    locate(self.image().sections, rva.0 as u64),
                    k as nat,
                ) == Some(#[trigger] list@[k]),
            r matches Err(failure) ==> failure.source == self.src() && failure.operation
                == Operation::ReadRva && ((failure.error.is_io() && !self.infallible()) || (
            failure.error == Error::UnexpectedEof && exists|k: nat|
                k < count && (#[trigger] self.image().record_at::<T>(
                    locate(self.image().sections, rva.0 as u64),
                    k,
                )) is None)),
            self.infallible() && (forall|k: nat|
                k < count ==> (#[trigger] self.image().record_at::<T>(
                    locate(self.image().sections, rva.0 as u64),
                    k,
                )) is Some) ==> r is Ok,
    {
        let mut reader = RvaReader::new(self, rva);
        let mut list: Vec<T> = Vec::new();
        let ghost image = self.image();
        let ghost start = reader.position();
        let mut index: u32 = 0;
        proof {
            assert(image.bytes_from(start, 0) == Some(Seq::<u8>::empty()));
            assert(T::raw_size() * 0 == 0);
        }
        while index < count
            invariant
                index <= count,
                list@.len() == index,
                reader.wf(),
                reader.image() == image,
                image == self.image(),
                reader.src() == self.src(),
                reader.infallible() == self.infallible(),
                start == locate(self.image().sections, rva.0 as u64),
                image.bytes_from(start, T::raw_size() * index as nat) is Some,
                reader.position() == image.skip(start, T::raw_size() * index as nat),
                forall|k: int|
                    0 <= k < index ==> image.record_at::<T>(start, k as nat) == Some(
                        #[trigger] list@[k],
                    ),
            decreases count - index,
        {
            let record: T = match reader.read_record::<T>() {
                Ok(record) => record,
                Err(failure) => {
                    proof {
                        if !failure.error.is_io() {
                            assert(image.record_at::<T>(start, index as nat) is None);
                        }
                    }
                    return Err(failure);
                },
            };
            assert(image.record_at::<T>(start, index as nat) == Some(record));
            proof {
                image.lemma_bytes_append(start, T::raw_size() * index as nat, T::raw_size());
                assert(T::raw_size() * index as nat + T::raw_size() == T::raw_size() * ((index
                    + 1) as nat)) by (nonlinear_arith);
            }
            list.push(record);
            index = index + 1;
        }
        Ok(list)
    }

    /// Where the import lookup table of `descriptor` starts.
    pub open spec fn lookup_table_start(&self, descriptor: ImportDescriptor) -> Position {
        locate(self.image().sections, descriptor.import_lookup_table_rva.0 as u64)
    }

    /// The symbols that `descriptor` imports, as the import lookup table
    /// names them: the entries before the all-zero one, each decoded, in
    /// the entry width of the optional header that was parsed. An image
    /// without an optional header has no entry width, and no symbols are
    /// read from it.
    pub fn import_lookups(&self, descriptor: &ImportDescriptor) -> (r: Result<
        Vec<ImportLookup>,
        Failure,
    >)
        ensures
            r matches Ok(list) ==> (match self.headers().pe.optional_header {
                None => list@.len() == 0,
                Some(OptionalHeader::OptionalHeader32(_)) => exists|
                    table: Seq<ImportLookupTableEntry32>,
                |
                    #[trigger] self.image().is_table_at(
                        self.lookup_table_start(*descriptor),
                        table,
                    ) && list@ == decoded_lookups(table),
                Some(OptionalHeader::OptionalHeader64(_)) => exists|
                    table: Seq<ImportLookupTableEntry64>,
                |
                    #[trigger] self.image().is_table_at(
                        self.lookup_table_start(*descriptor),
                        table,
                    ) && list@ == decoded_lookups(table),
            }),
            r matches Ok(list) ==> forall|k: int|
                0 <= k < list@.len() ==> !(#[trigger] list@[k] is EndOfTable),
            self.infallible() ==> (match self.headers().pe.optional_header {
                None => r is Ok,
                Some(OptionalHeader::OptionalHeader32(_)) => (exists|
                    table: Seq<ImportLookupTableEntry32>,
                |
                    #[trigger] self.image().is_table_at(
                        self.lookup_table_start(*descriptor),
                        table,
                    )) ==> r is Ok,
                Some(OptionalHeader::OptionalHeader64(_)) => (exists|
                    table: Seq<ImportLookupTableEntry64>,
                |
                    #[trigger] self.image().is_table_at(
                        self.lookup_table_start(*descriptor),
                        table,
                    )) ==> r is Ok,
            }),
            r matches Err(failure) ==> failure.source == self.src() && failure.operation
                == Operation::ReadRva && ((failure.error.is_io() && !self.infallible()) || (
            failure.error == Error::UnexpectedEof && (match self.headers().pe.optional_header {
                None => false,
                Some(OptionalHeader::OptionalHeader32(_)) => exists|n: nat|
                    #[trigger] self.image().table_breaks_off_at::<ImportLookupTableEntry32>(
                        self.lookup_table_start(*descriptor),
                        n,
                    ),
                Some(OptionalHeader::OptionalHeader64(_)) => exists|n: nat|
                    #[trigger] self.image().table_breaks_off_at::<ImportLookupTableEntry64>(
                        self.lookup_table_start(*descriptor),
                        n,
                    ),
            }))),
    {
        match self.pe_header().optional_header {
            None => Ok(Vec::new()),
            Some(OptionalHeader::OptionalHeader32(_)) => {
                let table = self.read_table::<ImportLookupTableEntry32>(
                    descriptor.import_lookup_table_rva,
                )?;
                Ok(decode_lookups(&table))
            },
            Some(OptionalHeader::OptionalHeader64(_)) => {
                let table = self.read_table::<ImportLookupTableEntry64>(
                    descriptor.import_lookup_table_rva,
                )?;
                Ok(decode_lookups(&table))
            },
        }
    }

    /// Where the import address table starts.
    pub open spec fn iat_start(&self) -> Position {
        let directories = match self.headers().pe.optional_header {
            Some(optional_header) => optional_header.spec_data_directory(),
            None => crate::pe::data_directories::DataDirectories::spec_empty(),
        };
        locate(self.image().sections, directories.iat.virtual_address.0 as u64)
    }

    /// How many entries the import address table has: the size that its
    /// data directory declares over the width of a pointer.
    pub open spec fn iat_len(&self) -> nat {
        match self.headers().pe.optional_header {
            Some(optional_header) => (optional_header.spec_data_directory().iat.size
                / optional_header.spec_pointer_size()) as nat,
            None => 0,
        }
    }

    /// The import address table as the file holds it: an array of entries
    /// of the width of a pointer, 4 bytes or 8, with no structure beyond
    /// that. An image without an optional header has none.
    pub fn read_iat(&self) -> (r: Result<Vec<u64>, Failure>)
        ensures
            r matches Ok(list) ==> list@.len() == self.iat_len() && (
            match self.headers().pe.optional_header {
                None => true,
                Some(OptionalHeader::OptionalHeader32(_)) => forall|k: int|
                    0 <= k < list@.len() ==> self.image().record_at::<u32>(
                        self.iat_start(),
                        k as nat,
                    ) == Some((#[trigger] list@[k]) as u32) && list@[k] <= u32::MAX,
                Some(OptionalHeader::OptionalHeader64(_)) => forall|k: int|
                    0 <= k < list@.len() ==> self.image().record_at::<u64>(
                        self.iat_start(),
                        k as nat,
                    ) == Some(#[trigger] list@[k]),
            }),
            r matches Err(failure) ==> failure.source == self.src() && failure.operation
                == Operation::ReadRva && ((failure.error.is_io() && !self.infallible()) || (
            failure.error == Error::UnexpectedEof && (match self.headers().pe.optional_header {
                None => false,
                Some(OptionalHeader::OptionalHeader32(_)) => exists|k: nat|
                    k < self.iat_len() && (#[trigger] self.image().record_at::<u32>(
                        self.iat_start(),
                        k,
                    )) is None,
                Some(OptionalHeader::OptionalHeader64(_)) => exists|k: nat|
                    k < self.iat_len() && (#[trigger] self.image().record_at::<u64>(
                        self.iat_start(),
                        k,
                    )) is None,
            }))),
            self.infallible() ==> (match self.headers().pe.optional_header {
                None => r is Ok,
                Some(OptionalHeader::OptionalHeader32(_)) => (forall|k: nat|
                    k < self.iat_len() ==> (#[trigger] self.image().record_at::<u32>(
                        self.iat_start(),
                        k,
                    )) is Some) ==> r is Ok,
                Some(OptionalHeader::OptionalHeader64(_)) => (forall|k: nat|
                    k < self.iat_len() ==> (#[trigger] self.image().record_at::<u64>(
                        self.iat_start(),
                        k,
                    )) is Some) ==> r is Ok,
            }),
    {
        let directories = self.data_directory();
        match self.pe_header().optional_header {
            None => Ok(Vec::new()),
            Some(OptionalHeader::OptionalHeader32(_)) => {
                let narrow = self.read_array::<u32>(
                    directories.iat.virtual_address,
                    directories.iat.size / 4,
                )?;
                let mut list: Vec<u64> = Vec::new();
                let mut i: usize = 0;
                while i < narrow.len()
                    invariant
                        i <= narrow@.len(),
                        list@.len() == i,
                        forall|k: int| 0 <= k < i ==> (#[trigger] list@[k]) == narrow@[k],
                    decreases narrow@.len() - i,
                {
                    list.push(narrow[i] as u64);
                    i = i + 1;
                }
                Ok(list)
            },
            Some(OptionalHeader::OptionalHeader64(_)) => {
                self.read_array::<u64>(directories.iat.virtual_address, directories.iat.size / 8)
            },
        }
    }
}

/// What the entries of an import lookup table say, one by one.
pub open spec fn decoded_lookups<E: ImportLookupTableEntry>(table: Seq<E>) -> Seq<ImportLookup> {
    Seq::new(table.len(), |k: int| table[k].lookup())
}

/// Decodes the entries of an import lookup table one by one.
pub fn decode_lookups<E: ImportLookupTableEntry>(table: &Vec<E>) -> (list: Vec<ImportLookup>)
    ensures
        list@ == decoded_lookups(table@),
{
    let mut list: Vec<ImportLookup> = Vec::new();
    let mut i: usize = 0;
    while i < table.len()
        invariant
            i <= table@.len(),
            list@.len() == i,
            forall|k: int| 0 <= k < i ==> (#[trigger] list@[k]) == table@[k].lookup(),
        decreases table@.len() - i,
    {
        list.push(table[i].decode());
        i = i + 1;
    }
    assert(list@ =~= decoded_lookups(table@));
    list
}

} // verus!
