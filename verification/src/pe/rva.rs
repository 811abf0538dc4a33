use crate::from_memory::FromMemory;
use crate::le::{decode_u32, le_u32, lemma_le_u32_is_local};
use core::ops::{Add, AddAssign, Sub, SubAssign};
use vstd::prelude::*;
use vstd::std_specs::convert::FromSpecImpl;
use vstd::std_specs::ops::{AddSpecImpl, SubSpecImpl};

verus! {

/// A relative virtual address: a 32-bit offset from the base address of the
/// loaded image.
#[derive(Clone, Copy, Debug, PartialEq, Eq, PartialOrd, Ord, Hash, Structural)]
pub struct RVA(pub u32);

impl RVA {
    /// The address zero, which ends lists of addresses.
    pub fn null() -> (r: Self)
        ensures
            r == RVA(0),
    {
        Self(0)
    }

    /// True of the address zero.
    pub fn is_null(self) -> (r: bool)
        ensures
            r == (self == RVA(0)),
    {
        self.0 == 0
    }

    pub fn new(rva: u32) -> (r: Self)
        ensures
            r.0 == rva,
    {
        Self(rva)
    }

    pub fn to_u32(self) -> (r: u32)
        ensures
            r == self.0,
    {
        self.0
    }

    pub fn to_u64(self) -> (r: u64)
        ensures
            r == self.0,
    {
        self.0 as u64
    }

    pub fn to_usize(self) -> (r: usize)
        ensures
            r == self.0,
    {
        self.0 as usize
    }
}

impl Default for RVA {
    fn default() -> (r: Self)
        ensures
            r == RVA(0),
    {
        RVA(0)
    }
}

impl Add<u32> for RVA {
    type Output = RVA;

    fn add(self, rhs: u32) -> (r: RVA) {
        RVA(self.0 + rhs)
    }
}

impl AddSpecImpl<u32> for RVA {
    open spec fn obeys_add_spec() -> bool {
        true
    }

    open spec fn add_req(self, rhs: u32) -> bool {
        self.0 + rhs <= u32::MAX
    }

    open spec fn add_spec(self, rhs: u32) -> RVA {
        RVA((self.0 + rhs) as u32)
    }
}

impl AddAssign<u32> for RVA {
    fn add_assign(&mut self, rhs: u32)
        requires
            old(self).0 + rhs <= u32::MAX,
        ensures
            final(self).0 == old(self).0 + rhs,
    {
        self.0 = self.0 + rhs;
    }
}

impl SubAssign<u32> for RVA {
    fn sub_assign(&mut self, rhs: u32)
        requires
            old(self).0 - rhs >= 0,
        ensures
            final(self).0 == old(self).0 - rhs,
    {
        self.0 = self.0 - rhs;
    }
}

impl Add<RVA> for u32 {
    type Output = RVA;

    fn add(self, rhs: RVA) -> (r: RVA) {
        RVA(self + rhs.0)
    }
}

impl AddSpecImpl<RVA> for u32 {
    open spec fn obeys_add_spec() -> bool {
        true
    }

    open spec fn add_req(self, rhs: RVA) -> bool {
        self + rhs.0 <= u32::MAX
    }

    open spec fn add_spec(self, rhs: RVA) -> RVA {
        RVA((self + rhs.0) as u32)
    }
}

impl Sub<u32> for RVA {
    type Output = RVA;

    fn sub(self, rhs: u32) -> (r: RVA) {
        RVA(self.0 - rhs)
    }
}

impl SubSpecImpl<u32> for RVA {
    open spec fn obeys_sub_spec() -> bool {
        true
    }

    open spec fn sub_req(self, rhs: u32) -> bool {
        self.0 - rhs >= 0
    }

    open spec fn sub_spec(self, rhs: u32) -> RVA {
        RVA((self.0 - rhs) as u32)
    }
}

impl Sub<RVA> for RVA {
    type Output = u32;

    fn sub(self, rhs: RVA) -> (r: u32) {
        self.0 - rhs.0
    }
}

impl SubSpecImpl<RVA> for RVA {
    open spec fn obeys_sub_spec() -> bool {
        true
    }

    open spec fn sub_req(self, rhs: RVA) -> bool {
        self.0 - rhs.0 >= 0
    }

    open spec fn sub_spec(self, rhs: RVA) -> u32 {
        (self.0 - rhs.0) as u32
    }
}

impl From<RVA> for u32 {
    fn from(rva: RVA) -> (r: u32) {
        rva.0
    }
}

impl FromSpecImpl<RVA> for u32 {
    open spec fn obeys_from_spec() -> bool {
        true
    }

    open spec fn from_spec(rva: RVA) -> u32 {
        rva.0
    }
}

impl From<RVA> for u64 {
    fn from(rva: RVA) -> (r: u64) {
        rva.0 as u64
    }
}

impl FromSpecImpl<RVA> for u64 {
    open spec fn obeys_from_spec() -> bool {
        true
    }

    open spec fn from_spec(rva: RVA) -> u64 {
        rva.0 as u64
    }
}

impl From<RVA> for usize {
    fn from(rva: RVA) -> (r: usize) {
        rva.0 as usize
    }
}

impl FromSpecImpl<RVA> for usize {
    open spec fn obeys_from_spec() -> bool {
        true
    }

    open spec fn from_spec(rva: RVA) -> usize {
        rva.0 as usize
    }
}

impl From<u32> for RVA {
    fn from(rva: u32) -> (r: RVA) {
        RVA(rva)
    }
}

impl FromSpecImpl<u32> for RVA {
    open spec fn obeys_from_spec() -> bool {
        true
    }

    open spec fn from_spec(rva: u32) -> RVA {
        RVA(rva)
    }
}

impl FromMemory for RVA {
    open spec fn raw_size() -> nat {
        4
    }

    open spec fn decoded(bytes: Seq<u8>, at: int) -> Self {
        RVA(le_u32(bytes, at))
    }

    proof fn decoded_is_local(a: Seq<u8>, at_a: int, b: Seq<u8>, at_b: int) {
        lemma_le_u32_is_local(a, at_a, b, at_b);
    }

    fn size() -> (n: usize) {
        4
    }

    fn from_raw(bytes: &[u8], at: usize) -> (value: Self) {
        RVA(decode_u32(bytes, at))
    }
}

} // verus!
