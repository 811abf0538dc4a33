use vstd::prelude::*;

verus! {

/// Where to move a reader to.
#[derive(Clone, Copy, Debug, PartialEq, Eq, Structural)]
pub enum SeekFrom {
    /// To this offset from the start.
    Start(u64),
    /// To the end plus this many bytes.
    End(i64),
    /// To the current position plus this many bytes.
    Current(i64),
}

/// The size of `delta`, whatever its sign.
pub open spec fn magnitude(delta: i64) -> int {
    if delta < 0 {
        -(delta as int)
    } else {
        delta as int
    }
}

/// The size of `delta`, whatever its sign.
pub fn unsigned_abs(delta: i64) -> (r: u64)
    ensures
        r == magnitude(delta),
{
    if delta >= 0 {
        delta as u64
    } else if delta == i64::MIN {
        0x8000_0000_0000_0000
    } else {
        (-delta) as u64
    }
}

} // verus!
