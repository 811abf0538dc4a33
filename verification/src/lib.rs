//! Decoding of the MS-DOS (MZ) and Windows Portable Executable (PE/COFF)
//! formats from untrusted bytes, with a resolver from relative virtual
//! addresses to file contents.

pub mod error;
pub mod from_memory;
pub mod io;
pub mod le;
pub mod mz;
pub mod pe;
pub mod reserved;

pub use from_memory::FromMemory;
