//! The Windows Portable Executable format.

pub mod address_space;
pub mod data_directories;
pub mod data_directory;
pub mod dll_characteristics;
pub mod file_characteristics;
pub mod file_header;
pub mod header;
pub mod image;
pub mod import_descriptor;
pub mod import_lookup_table;
pub mod imports;
pub mod machine;
pub mod optional_header;
pub mod optional_header_32;
pub mod optional_header_64;
pub mod reader;
pub mod rva;
pub mod section_characteristics;
pub mod section_header;
pub mod subsystem;
pub mod time_date;
pub mod version;

pub use address_space::{find_section, Position};
pub use data_directories::DataDirectories;
pub use data_directory::DataDirectory;
pub use dll_characteristics::DllCharacteristics;
pub use file_characteristics::FileCharacteristics;
pub use file_header::FileHeader;
pub use header::Header;
pub use import_descriptor::ImportDescriptor;
pub use import_lookup_table::{
    ImportLookup, ImportLookupTableEntry, ImportLookupTableEntry32, ImportLookupTableEntry64,
};
pub use machine::Machine;
pub use optional_header::OptionalHeader;
pub use optional_header_32::OptionalHeader32;
pub use optional_header_64::OptionalHeader64;
pub use reader::{Reader, RvaReader};
pub use rva::RVA;
pub use section_characteristics::SectionCharacteristics;
pub use section_header::SectionHeader;
pub use subsystem::Subsystem;
pub use time_date::TimeDate;
pub use version::MajorMinorVersion;
