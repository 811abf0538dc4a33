//! Random-access byte sources.

pub mod read_at;
pub mod read_at_ext;
pub mod read_at_reader;
pub mod seek_from;

pub use read_at::ReadAt;
pub use read_at_ext::ReadAtExt;
pub use read_at_reader::ReadAtReader;
pub use seek_from::SeekFrom;
