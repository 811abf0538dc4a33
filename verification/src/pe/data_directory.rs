use crate::from_memory::FromMemory;
use crate::pe::rva::RVA;
use vstd::prelude::*;

verus! {

/// A region of the loaded image: where it starts and how long it is.
#[derive(Clone, Copy, Debug, PartialEq, Eq, Structural)]
pub struct DataDirectory {
    pub virtual_address: RVA,
    pub size: u32,
}

impl FromMemory for DataDirectory {
    open spec fn raw_size() -> nat {
        8
    }

    open spec fn decoded(bytes: Seq<u8>, at: int) -> Self {
        DataDirectory {
            virtual_address: <RVA as FromMemory>::decoded(bytes, at),
            size: <u32 as FromMemory>::decoded(bytes, at + 4),
        }
    }

    proof fn decoded_is_local(a: Seq<u8>, at_a: int, b: Seq<u8>, at_b: int) {
        <RVA as FromMemory>::decoded_is_local(a, at_a, b, at_b);
        <u32 as FromMemory>::decoded_is_local(a, at_a + 4, b, at_b + 4);
    }

    fn size() -> (n: usize) {
        8
    }

    fn from_raw(bytes: &[u8], at: usize) -> (value: Self) {
        DataDirectory {
            virtual_address: <RVA as FromMemory>::from_raw(bytes, at),
            size: <u32 as FromMemory>::from_raw(bytes, at + 4),
        }
    }
}

impl DataDirectory {
    /// The directory that describes nothing: address zero, size zero.
    pub fn empty() -> (r: Self)
        ensures
            r == (DataDirectory { virtual_address: RVA(0), size: 0 }),
    {
        DataDirectory { virtual_address: RVA(0), size: 0 }
    }

    /// True of the directory that describes nothing.
    pub fn is_empty(&self) -> (r: bool)
        ensures
            r == (*self == DataDirectory { virtual_address: RVA(0), size: 0 }),
    {
        self.virtual_address.0 == 0 && self.size == 0
    }
}

impl Default for DataDirectory {
    fn default() -> (r: Self)
        ensures
            r == (DataDirectory { virtual_address: RVA(0), size: 0 }),
    {
        DataDirectory { virtual_address: RVA(0), size: 0 }
    }
}

} // verus!
