use crate::from_memory::FromMemory;
use vstd::prelude::*;
use vstd::std_specs::convert::FromSpec;

verus! {

/// A version number of two parts, such as `10.0`.
#[derive(Copy, Debug, Default, PartialEq, Eq)]
pub struct MajorMinorVersion<C> {
    pub major: C,
    pub minor: C,
}

impl<C: Copy> Clone for MajorMinorVersion<C> {
    fn clone(&self) -> (r: Self)
        ensures
            r == *self,
    {
        *self
    }
}

impl<C> MajorMinorVersion<C> {
    /// The same version with both parts converted to `O`.
    pub fn into<O: From<C>>(self) -> (r: MajorMinorVersion<O>)
        ensures
            O::obeys_from_spec() ==> r.major == O::from_spec(self.major) && r.minor == O::from_spec(
                self.minor,
            ),
    {
        MajorMinorVersion { major: O::from(self.major), minor: O::from(self.minor) }
    }
}

impl FromMemory for MajorMinorVersion<u8> {
    open spec fn raw_size() -> nat {
        2
    }

    open spec fn decoded(bytes: Seq<u8>, at: int) -> Self {
        MajorMinorVersion {
            major: <u8 as FromMemory>::decoded(bytes, at),
            minor: <u8 as FromMemory>::decoded(bytes, at + 1),
        }
    }

    proof fn decoded_is_local(a: Seq<u8>, at_a: int, b: Seq<u8>, at_b: int) {
        <u8 as FromMemory>::decoded_is_local(a, at_a, b, at_b);
        <u8 as FromMemory>::decoded_is_local(a, at_a + 1, b, at_b + 1);
    }

    fn size() -> (n: usize) {
        2
    }

    fn from_raw(bytes: &[u8], at: usize) -> (value: Self) {
        MajorMinorVersion {
            major: <u8 as FromMemory>::from_raw(bytes, at),
            minor: <u8 as FromMemory>::from_raw(bytes, at + 1),
        }
    }
}

impl FromMemory for MajorMinorVersion<u16> {
    open spec fn raw_size() -> nat {
        4
    }

    open spec fn decoded(bytes: Seq<u8>, at: int) -> Self {
        MajorMinorVersion {
            major: <u16 as FromMemory>::decoded(bytes, at),
            minor: <u16 as FromMemory>::decoded(bytes, at + 2),
        }
    }

    proof fn decoded_is_local(a: Seq<u8>, at_a: int, b: Seq<u8>, at_b: int) {
        <u16 as FromMemory>::decoded_is_local(a, at_a, b, at_b);
        <u16 as FromMemory>::decoded_is_local(a, at_a + 2, b, at_b + 2);
    }

    fn size() -> (n: usize) {
        4
    }

    fn from_raw(bytes: &[u8], at: usize) -> (value: Self) {
        MajorMinorVersion {
            major: <u16 as FromMemory>::from_raw(bytes, at),
            minor: <u16 as FromMemory>::from_raw(bytes, at + 2),
        }
    }
}

} // verus!
