use crate::from_memory::FromMemory;
use vstd::prelude::*;

verus! {

/// Bytes that the format sets aside and gives no meaning to.
#[derive(Clone, Copy, Debug, PartialEq, Eq)]
pub struct Reserved<const N: usize>(pub [u8; N]);

impl<const N: usize> Default for Reserved<N> {
    fn default() -> (r: Self)
        ensures
            forall|i: int| 0 <= i < N ==> r.0[i] == 0,
    {
        Reserved([0u8; N])
    }
}

impl FromMemory for Reserved<8> {
    open spec fn raw_size() -> nat {
        8
    }

    open spec fn decoded(bytes: Seq<u8>, at: int) -> Self {
        Reserved(
            [
                bytes[at], bytes[at + 1], bytes[at + 2], bytes[at + 3], bytes[at + 4],
                bytes[at + 5], bytes[at + 6], bytes[at + 7],
            ],
        )
    }

    proof fn decoded_is_local(a: Seq<u8>, at_a: int, b: Seq<u8>, at_b: int) {
    }

    fn size() -> (n: usize) {
        8
    }

    fn from_raw(bytes: &[u8], at: usize) -> (value: Self) {
        Reserved(
            [
                bytes[at], bytes[at + 1], bytes[at + 2], bytes[at + 3], bytes[at + 4],
                bytes[at + 5], bytes[at + 6], bytes[at + 7],
            ],
        )
    }
}

impl FromMemory for Reserved<20> {
    open spec fn raw_size() -> nat {
        20
    }

    open spec fn decoded(bytes: Seq<u8>, at: int) -> Self {
        Reserved(
            [
                bytes[at], bytes[at + 1], bytes[at + 2], bytes[at + 3], bytes[at + 4],
                bytes[at + 5], bytes[at + 6], bytes[at + 7], bytes[at + 8], bytes[at + 9],
                bytes[at + 10], bytes[at + 11], bytes[at + 12], bytes[at + 13], bytes[at + 14],
                bytes[at + 15], bytes[at + 16], bytes[at + 17], bytes[at + 18], bytes[at + 19],
            ],
        )
    }

    proof fn decoded_is_local(a: Seq<u8>, at_a: int, b: Seq<u8>, at_b: int) {
    }

    fn size() -> (n: usize) {
        20
    }

    fn from_raw(bytes: &[u8], at: usize) -> (value: Self) {
        Reserved(
            [
                bytes[at], bytes[at + 1], bytes[at + 2], bytes[at + 3], bytes[at + 4],
                bytes[at + 5], bytes[at + 6], bytes[at + 7], bytes[at + 8], bytes[at + 9],
                bytes[at + 10], bytes[at + 11], bytes[at + 12], bytes[at + 13], bytes[at + 14],
                bytes[at + 15], bytes[at + 16], bytes[at + 17], bytes[at + 18], bytes[at + 19],
            ],
        )
    }
}

} // verus!
