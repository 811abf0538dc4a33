use crate::error::IoError;
use vstd::prelude::*;

verus! {

/// True when `content` holds `n` bytes from `offset` on, all of them within
/// reach of a 64-bit offset. No bytes fit anywhere.
pub open spec fn fits(content: Seq<u8>, offset: int, n: nat) -> bool {
    n == 0 || (0 <= offset && offset + n <= content.len() && offset + n <= u64::MAX)
}

/// True when `bytes` are the bytes of `content` from `offset` on.
pub open spec fn holds_at(content: Seq<u8>, offset: int, bytes: Seq<u8>) -> bool {
    &&& fits(content, offset, bytes.len())
    &&& forall|i: int| 0 <= i < bytes.len() ==> #[trigger] bytes[i] == content[offset + i]
}

/// What a positioned read of up to `before.len()` bytes at `offset` may
/// leave in the buffer when it reports `n` bytes: the first `n` bytes of the
/// buffer are those of `content` from `offset` on, none of them behind the
/// reach of a 64-bit offset, and `n` is zero only for an empty buffer or at
/// the end of `content`.
pub open spec fn delivers(
    content: Seq<u8>,
    before: Seq<u8>,
    after: Seq<u8>,
    offset: int,
    n: int,
) -> bool {
    &&& after.len() == before.len()
    &&& 0 <= n <= before.len()
    &&& n > 0 ==> offset + n <= content.len() && offset + n <= u64::MAX
    &&& n == 0 <==> (before.len() == 0 || offset >= content.len())
    &&& forall|i: int| 0 <= i < n ==> #[trigger] after[i] == content[offset + i]
}

/// A source of bytes that can be read at any offset without a cursor.
///
/// The source is modelled as a fixed sequence of bytes, `content()`. A read
/// never changes it, so two reads of the same range deliver the same bytes.
///
/// `content` and `infallible` have bodies so that an implementation that is
/// not verified need not name them. Nothing is proved from these bodies: a
/// verified implementation states its own.
pub trait ReadAt {
    /// The bytes that the source holds.
    open spec fn content(&self) -> Seq<u8> {
        Seq::empty()
    }

    /// True of a source whose reads cannot fail, such as one held in memory.
    open spec fn infallible(&self) -> bool {
        false
    }

    /// Reads up to `buf.len()` bytes from `offset` into the front of `buf`
    /// and says how many. Fewer than asked may come; none comes only at the
    /// end of the source or for an empty buffer.
    fn read_at(&self, buf: &mut [u8], offset: u64) -> (r: Result<usize, IoError>)
        ensures
            final(buf)@.len() == old(buf)@.len(),
            r is Err ==> !self.infallible(),
            r matches Ok(n) ==> delivers(
                self.content(),
                old(buf)@,
                final(buf)@,
                offset as int,
                n as int,
            ),
    ;
}

impl ReadAt for Vec<u8> {
    open spec fn content(&self) -> Seq<u8> {
        self@
    }

    open spec fn infallible(&self) -> bool {
        true
    }

    /// Reads as many bytes as `buf` has room for and the vector holds from
    /// `offset` on.
    fn read_at(&self, buf: &mut [u8], offset: u64) -> (r: Result<usize, IoError>)
        ensures
            r matches Ok(n) && n == (if offset >= self@.len() {
                0
            } else if old(buf)@.len() < self@.len() - offset {
                old(buf)@.len() as int
            } else {
                self@.len() - offset
            }),
    {
        let len: usize = self.len();
        if offset >= len as u64 {
            return Ok(0);
        }
        let start: usize = offset as usize;
        let available: usize = len - start;
        let n: usize = if buf.len() < available {
            buf.len()
        } else {
            available
        };
        let mut i: usize = 0;
        while i < n
            invariant
                i <= n,
                n <= buf@.len(),
                buf@.len() == old(buf)@.len(),
                start + n <= self.len(),
                forall|k: int| 0 <= k < i ==> buf@[k] == self@[start + k],
            decreases n - i,
        {
            buf[i] = self[start + i];
            i = i + 1;
        }
        Ok(n)
    }
}

impl<R: ReadAt> ReadAt for &R {
    open spec fn content(&self) -> Seq<u8> {
        (**self).content()
    }

    open spec fn infallible(&self) -> bool {
        (**self).infallible()
    }

    fn read_at(&self, buf: &mut [u8], offset: u64) -> (r: Result<usize, IoError>) {
        (**self).read_at(buf, offset)
    }
}

} // verus!
