use crate::from_memory::FromMemory;
use crate::pe::data_directories::DataDirectories;
use crate::pe::dll_characteristics::DllCharacteristics;
use crate::pe::subsystem::Subsystem;
use crate::pe::version::MajorMinorVersion;
use vstd::prelude::*;

verus! {

/// The optional header of a 64-bit image.
///
/// It differs from the 32-bit one in its wider image base, stack and heap
/// sizes, and in having no `base_of_data`.
#[derive(Clone, Copy, Debug, Default, PartialEq, Eq)]
pub struct OptionalHeader64 {
    /// The magic that selects this variant.
    pub magic: u16,
    pub linker_version: MajorMinorVersion<u8>,
    pub size_of_code: u32,
    pub size_of_initialized_data: u32,
    pub size_of_uninitialized_data: u32,
    pub address_of_entry_point: u32,
    pub base_of_code: u32,
    /// The address that the image prefers to be loaded at.
    pub image_base: u64,
    pub section_alignment: u32,
    pub file_alignment: u32,
    pub operating_system_version: MajorMinorVersion<u16>,
    pub image_version: MajorMinorVersion<u16>,
    pub subsystem_version: MajorMinorVersion<u16>,
    pub win32_version: u32,
    pub size_of_image: u32,
    pub size_of_headers: u32,
    pub checksum: u32,
    pub subsystem: Subsystem,
    pub dll_characteristics: DllCharacteristics,
    pub size_of_stack_reserve: u64,
    pub size_of_stack_commit: u64,
    pub size_of_heap_reserve: u64,
    pub size_of_heap_commit: u64,
    pub loader_flags: u32,
    pub number_of_rva_and_sizes: u32,
    /// The sixteen data directories.
    pub data_directory: DataDirectories,
}

impl FromMemory for OptionalHeader64 {
    open spec fn raw_size() -> nat {
        240
    }

    open spec fn decoded(bytes: Seq<u8>, at: int) -> Self {
        OptionalHeader64 {
            magic: <u16 as FromMemory>::decoded(bytes, at),
            linker_version: <MajorMinorVersion<u8> as FromMemory>::decoded(bytes, at + 2),
            size_of_code: <u32 as FromMemory>::decoded(bytes, at + 4),
            size_of_initialized_data: <u32 as FromMemory>::decoded(bytes, at + 8),
            size_of_uninitialized_data: <u32 as FromMemory>::decoded(bytes, at + 12),
            address_of_entry_point: <u32 as FromMemory>::decoded(bytes, at + 16),
            base_of_code: <u32 as FromMemory>::decoded(bytes, at + 20),
            image_base: <u64 as FromMemory>::decoded(bytes, at + 24),
            section_alignment: <u32 as FromMemory>::decoded(bytes, at + 32),
            file_alignment: <u32 as FromMemory>::decoded(bytes, at + 36),
            operating_system_version: <MajorMinorVersion<u16> as FromMemory>::decoded(
                bytes,
                at + 40,
            ),
            image_version: <MajorMinorVersion<u16> as FromMemory>::decoded(bytes, at + 44),
            subsystem_version: <MajorMinorVersion<u16> as FromMemory>::decoded(bytes, at + 48),
            win32_version: <u32 as FromMemory>::decoded(bytes, at + 52),
            size_of_image: <u32 as FromMemory>::decoded(bytes, at + 56),
            size_of_headers: <u32 as FromMemory>::decoded(bytes, at + 60),
            checksum: <u32 as FromMemory>::decoded(bytes, at + 64),
            subsystem: <Subsystem as FromMemory>::decoded(bytes, at + 68),
            dll_characteristics: <DllCharacteristics as FromMemory>::decoded(bytes, at + 70),
            size_of_stack_reserve: <u64 as FromMemory>::decoded(bytes, at + 72),
            size_of_stack_commit: <u64 as FromMemory>::decoded(bytes, at + 80),
            size_of_heap_reserve: <u64 as FromMemory>::decoded(bytes, at + 88),
            size_of_heap_commit: <u64 as FromMemory>::decoded(bytes, at + 96),
            loader_flags: <u32 as FromMemory>::decoded(bytes, at + 104),
            number_of_rva_and_sizes: <u32 as FromMemory>::decoded(bytes, at + 108),
            data_directory: <DataDirectories as FromMemory>::decoded(bytes, at + 112),
        }
    }

    #[verifier::rlimit(100)]
    proof fn decoded_is_local(a: Seq<u8>, at_a: int, b: Seq<u8>, at_b: int) {
        <u16 as FromMemory>::decoded_is_local(a, at_a, b, at_b);
        <MajorMinorVersion<u8> as FromMemory>::decoded_is_local(a, at_a + 2, b, at_b + 2);
        <u32 as FromMemory>::decoded_is_local(a, at_a + 4, b, at_b + 4);
        <u32 as FromMemory>::decoded_is_local(a, at_a + 8, b, at_b + 8);
        <u32 as FromMemory>::decoded_is_local(a, at_a + 12, b, at_b + 12);
        <u32 as FromMemory>::decoded_is_local(a, at_a + 16, b, at_b + 16);
        <u32 as FromMemory>::decoded_is_local(a, at_a + 20, b, at_b + 20);
        <u64 as FromMemory>::decoded_is_local(a, at_a + 24, b, at_b + 24);
        <u32 as FromMemory>::decoded_is_local(a, at_a + 32, b, at_b + 32);
        <u32 as FromMemory>::decoded_is_local(a, at_a + 36, b, at_b + 36);
        <MajorMinorVersion<u16> as FromMemory>::decoded_is_local(a, at_a + 40, b, at_b + 40);
        <MajorMinorVersion<u16> as FromMemory>::decoded_is_local(a, at_a + 44, b, at_b + 44);
        <MajorMinorVersion<u16> as FromMemory>::decoded_is_local(a, at_a + 48, b, at_b + 48);
        <u32 as FromMemory>::decoded_is_local(a, at_a + 52, b, at_b + 52);
        <u32 as FromMemory>::decoded_is_local(a, at_a + 56, b, at_b + 56);
        <u32 as FromMemory>::decoded_is_local(a, at_a + 60, b, at_b + 60);
        <u32 as FromMemory>::decoded_is_local(a, at_a + 64, b, at_b + 64);
        <Subsystem as FromMemory>::decoded_is_local(a, at_a + 68, b, at_b + 68);
        <DllCharacteristics as FromMemory>::decoded_is_local(a, at_a + 70, b, at_b + 70);
        <u64 as FromMemory>::decoded_is_local(a, at_a + 72, b, at_b + 72);
        <u64 as FromMemory>::decoded_is_local(a, at_a + 80, b, at_b + 80);
        <u64 as FromMemory>::decoded_is_local(a, at_a + 88, b, at_b + 88);
        <u64 as FromMemory>::decoded_is_local(a, at_a + 96, b, at_b + 96);
        <u32 as FromMemory>::decoded_is_local(a, at_a + 104, b, at_b + 104);
        <u32 as FromMemory>::decoded_is_local(a, at_a + 108, b, at_b + 108);
        <DataDirectories as FromMemory>::decoded_is_local(a, at_a + 112, b, at_b + 112);
    }

    fn size() -> (n: usize) {
        240
    }

    fn from_raw(bytes: &[u8], at: usize) -> (value: Self) {
        OptionalHeader64 {
            magic: <u16 as FromMemory>::from_raw(bytes, at),
            linker_version: <MajorMinorVersion<u8> as FromMemory>::from_raw(bytes, at + 2),
            size_of_code: <u32 as FromMemory>::from_raw(bytes, at + 4),
            size_of_initialized_data: <u32 as FromMemory>::from_raw(bytes, at + 8),
            size_of_uninitialized_data: <u32 as FromMemory>::from_raw(bytes, at + 12),
            address_of_entry_point: <u32 as FromMemory>::from_raw(bytes, at + 16),
            base_of_code: <u32 as FromMemory>::from_raw(bytes, at + 20),
            image_base: <u64 as FromMemory>::from_raw(bytes, at + 24),
            section_alignment: <u32 as FromMemory>::from_raw(bytes, at + 32),
            file_alignment: <u32 as FromMemory>::from_raw(bytes, at + 36),
            operating_system_version: <MajorMinorVersion<u16> as FromMemory>::from_raw(
                bytes,
                at + 40,
            ),
            image_version: <MajorMinorVersion<u16> as FromMemory>::from_raw(bytes, at + 44),
            subsystem_version: <MajorMinorVersion<u16> as FromMemory>::from_raw(bytes, at + 48),
            win32_version: <u32 as FromMemory>::from_raw(bytes, at + 52),
            size_of_image: <u32 as FromMemory>::from_raw(bytes, at + 56),
            size_of_headers: <u32 as FromMemory>::from_raw(bytes, at + 60),
            checksum: <u32 as FromMemory>::from_raw(bytes, at + 64),
            subsystem: <Subsystem as FromMemory>::from_raw(bytes, at + 68),
            dll_characteristics: <DllCharacteristics as FromMemory>::from_raw(bytes, at + 70),
            size_of_stack_reserve: <u64 as FromMemory>::from_raw(bytes, at + 72),
            size_of_stack_commit: <u64 as FromMemory>::from_raw(bytes, at + 80),
            size_of_heap_reserve: <u64 as FromMemory>::from_raw(bytes, at + 88),
            size_of_heap_commit: <u64 as FromMemory>::from_raw(bytes, at + 96),
            loader_flags: <u32 as FromMemory>::from_raw(bytes, at + 104),
            number_of_rva_and_sizes: <u32 as FromMemory>::from_raw(bytes, at + 108),
            data_directory: <DataDirectories as FromMemory>::from_raw(bytes, at + 112),
        }
    }
}

impl OptionalHeader64 {
    /// The magic of this variant.
    pub const MAGIC: u16 = 0x020b;

    /// How many bytes the header takes before its data directories.
    pub const FIXED_SIZE: u16 = 112;
}

} // verus!
