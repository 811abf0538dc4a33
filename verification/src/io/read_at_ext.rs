use crate::error::Error;
use crate::io::read_at::{fits, holds_at, ReadAt};
use vstd::prelude::*;

verus! {

/// The index of the first `byte` in `bytes`, or `bytes.len()` if it holds none.
pub open spec fn first_index_of(bytes: Seq<u8>, byte: u8) -> int
    decreases bytes.len(),
{
    if bytes.len() == 0 {
        0
    } else if bytes[0] == byte {
        0
    } else {
        1 + first_index_of(bytes.drop_first(), byte)
    }
}

/// The bytes of `content` from `offset` up to and including the first
/// `byte`, or up to the end of `content` where no `byte` follows.
pub open spec fn through_first(content: Seq<u8>, offset: int, byte: u8) -> Seq<u8> {
    if offset >= content.len() {
        Seq::empty()
    } else {
        let tail = content.subrange(offset, content.len() as int);
        let at = first_index_of(tail, byte);
        if at < tail.len() {
            tail.subrange(0, at + 1)
        } else {
            tail
        }
    }
}

/// `bytes` without its last byte where that is zero, else `bytes` itself.
pub open spec fn without_terminator(bytes: Seq<u8>) -> Seq<u8> {
    if bytes.len() > 0 && bytes.last() == 0 {
        bytes.drop_last()
    } else {
        bytes
    }
}

/// Where `bytes[at]` is the first `byte` of `bytes`, `first_index_of` finds it.
pub proof fn lemma_first_index_of_found(bytes: Seq<u8>, byte: u8, at: int)
    requires
        0 <= at < bytes.len(),
        bytes[at] == byte,
        forall|k: int| 0 <= k < at ==> bytes[k] != byte,
    ensures
        first_index_of(bytes, byte) == at,
    decreases at,
{
    if at > 0 {
        lemma_first_index_of_found(bytes.drop_first(), byte, at - 1);
    }
}

/// Where `bytes` holds no `byte`, `first_index_of` is its length.
pub proof fn lemma_first_index_of_none(bytes: Seq<u8>, byte: u8)
    requires
        forall|k: int| 0 <= k < bytes.len() ==> bytes[k] != byte,
    ensures
        first_index_of(bytes, byte) == bytes.len(),
    decreases bytes.len(),
{
    if bytes.len() > 0 {
        lemma_first_index_of_none(bytes.drop_first(), byte);
    }
}

proof fn lemma_through_first_found(content: Seq<u8>, offset: int, byte: u8, at: int)
    requires
        0 <= offset <= at < content.len(),
        content[at] == byte,
        forall|k: int| offset <= k < at ==> content[k] != byte,
    ensures
        through_first(content, offset, byte) == content.subrange(offset, at + 1),
{
    let tail = content.subrange(offset, content.len() as int);
    lemma_first_index_of_found(tail, byte, at - offset);
    assert(tail.subrange(0, at - offset + 1) =~= content.subrange(offset, at + 1));
}

proof fn lemma_through_first_none(content: Seq<u8>, offset: int, byte: u8)
    requires
        0 <= offset,
        forall|k: int| offset <= k < content.len() ==> content[k] != byte,
    ensures
        offset < content.len() ==> through_first(content, offset, byte) == content.subrange(
            offset,
            content.len() as int,
        ),
        offset >= content.len() ==> through_first(content, offset, byte) == Seq::<u8>::empty(),
{
    if offset < content.len() {
        let tail = content.subrange(offset, content.len() as int);
        lemma_first_index_of_none(tail, byte);
    }
}

/// True when `after` is `before` followed by the bytes of `content` from
/// `from` up to `to`.
pub open spec fn extends(
    before: Seq<u8>,
    after: Seq<u8>,
    content: Seq<u8>,
    from: int,
    to: int,
) -> bool {
    &&& from <= to
    &&& after.len() == before.len() + (to - from)
    &&& forall|k: int| 0 <= k < before.len() ==> after[k] == before[k]
    &&& forall|k: int|
        from <= k < to ==> 0 <= k < content.len() && after[before.len() + k - from]
            == content[k]
}

/// Convenience reads on top of [`ReadAt`].
pub trait ReadAtExt: ReadAt {
    /// Fills `buf` with the bytes from `offset` on, or fails. A source that
    /// ends before `buf` is full gives [`Error::UnexpectedEof`].
    fn read_exact_at(&self, buf: &mut [u8], offset: u64) -> (r: Result<(), Error>)
        ensures
            final(buf)@.len() == old(buf)@.len(),
            r is Ok ==> holds_at(self.content(), offset as int, final(buf)@),
            r matches Err(e) ==> (e.is_io() && !self.infallible()) || (e == Error::UnexpectedEof
                && !fits(self.content(), offset as int, old(buf)@.len())),
            (self.infallible() || old(buf)@.len() == 0) && fits(
                self.content(),
                offset as int,
                old(buf)@.len(),
            ) ==> r is Ok,
    {
        let len: usize = buf.len();
        let mut filled: usize = 0;
        if len as u64 > u64::MAX - offset {
            return Err(Error::UnexpectedEof);
        }
        while filled < len
            invariant
                filled <= len,
                len == old(buf)@.len(),
                buf@.len() == len,
                offset + len <= u64::MAX,
                filled > 0 ==> offset + filled <= self.content().len(),
                forall|k: int| 0 <= k < filled ==> buf@[k] == self.content()[offset + k],
            decreases len - filled,
        {
            let (head, tail) = buf.split_at_mut(filled);
            match self.read_at(tail, offset + filled as u64) {
                Err(cause) => {
                    return Err(Error::Io { cause });
                },
                Ok(n) => {
                    if n == 0 {
                        return Err(Error::UnexpectedEof);
                    }
                    filled = filled + n;
                },
            }
        }
        Ok(())
    }

    /// Fills `buf` as [`read_exact_at`](Self::read_exact_at) does and, on
    /// success only, moves `*offset` past the bytes read.
    fn read_exact_at_advance(&self, buf: &mut [u8], offset: &mut u64) -> (r: Result<(), Error>)
        ensures
            final(buf)@.len() == old(buf)@.len(),
            r is Ok ==> holds_at(self.content(), *old(offset) as int, final(buf)@) && *final(offset)
                == *old(offset) + old(buf)@.len(),
            r is Err ==> *final(offset) == *old(offset),
            r matches Err(e) ==> (e.is_io() && !self.infallible()) || (e == Error::UnexpectedEof
                && !fits(self.content(), *old(offset) as int, old(buf)@.len())),
            (self.infallible() || old(buf)@.len() == 0) && fits(
                self.content(),
                *old(offset) as int,
                old(buf)@.len(),
            ) ==> r is Ok,
    {
        let len: usize = buf.len();
        if len as u64 > u64::MAX - *offset {
            return Err(Error::UnexpectedEof);
        }
        let final_offset: u64 = *offset + len as u64;
        match self.read_exact_at(buf, *offset) {
            Err(e) => Err(e),
            Ok(()) => {
                *offset = final_offset;
                Ok(())
            },
        }
    }

    /// Appends to `buf` the bytes from `offset` up to and including the
    /// first `byte`, or up to the end of the source if no `byte` follows,
    /// and returns how many were appended. The source is read in batches, so
    /// more of it may be read than is kept.
    fn read_until_at(&self, byte: u8, buf: &mut Vec<u8>, offset: u64) -> (r: Result<usize, Error>)
        ensures
            r matches Ok(count) ==> final(buf)@ == old(buf)@ + through_first(
                self.content(),
                offset as int,
                byte,
            ) && count == through_first(self.content(), offset as int, byte).len(),
            r matches Err(e) ==> e.is_io() && !self.infallible(),
            r is Err ==> old(buf)@.is_prefix_of(final(buf)@),
    {
        let start: usize = buf.len();
        let mut batch: Vec<u8> = vec![0u8; 1024];
        let mut position: u64 = offset;
        loop
            invariant
                batch@.len() == 1024,
                start == old(buf)@.len(),
                offset <= position,
                position > offset ==> position <= self.content().len(),
                extends(old(buf)@, buf@, self.content(), offset as int, position as int),
                forall|k: int| offset <= k < position ==> self.content()[k] != byte,
            decreases self.content().len() - position,
        {
            let n: usize = match self.read_at(batch.as_mut_slice(), position) {
                Err(cause) => {
                    return Err(Error::Io { cause });
                },
                Ok(n) => n,
            };
            if n == 0 {
                proof {
                    lemma_through_first_none(self.content(), offset as int, byte);
                    assert(buf@ =~= old(buf)@ + through_first(self.content(), offset as int, byte));
                }
                return Ok(buf.len() - start);
            }
            let mut i: usize = 0;
            while i < n
                invariant
                    i <= n,
                    n <= 1024,
                    batch@.len() == 1024,
                    start == old(buf)@.len(),
                    offset <= position,
                    position + n <= self.content().len(),
                    position + n <= u64::MAX,
                    forall|k: int| 0 <= k < n ==> batch@[k] == self.content()[position + k],
                    extends(old(buf)@, buf@, self.content(), offset as int, position + i),
                    forall|k: int| offset <= k < position + i ==> self.content()[k] != byte,
                decreases n - i,
            {
                let b: u8 = batch[i];
                buf.push(b);
                if b == byte {
                    proof {
                        lemma_through_first_found(
                            self.content(),
                            offset as int,
                            byte,
                            position + i,
                        );
                        assert(buf@ =~= old(buf)@ + through_first(
                            self.content(),
                            offset as int,
                            byte,
                        ));
                    }
                    return Ok(buf.len() - start);
                }
                i = i + 1;
            }
            position = position + n as u64;
        }
    }

    /// Appends to `buf` the zero-terminated string that starts at `offset`,
    /// terminator included where the source holds one, and returns the
    /// string without it.
    fn read_asciiz_at<'b>(&self, buf: &'b mut Vec<u8>, offset: u64) -> (r: Result<&'b [u8], Error>)
        ensures
            final(buf)@ == old(buf)@ || r is Ok,
            r matches Ok(text) ==> final(buf)@ == old(buf)@ + through_first(
                self.content(),
                offset as int,
                0,
            ) && text@ == without_terminator(final(buf)@),
            r matches Err(e) ==> e.is_io() && !self.infallible(),
            self.infallible() ==> r is Ok,
    {
        let start: usize = buf.len();
        match self.read_until_at(0, buf, offset) {
            Err(e) => {
                buf.truncate(start);
                Err(e)
            },
            Ok(_) => {
                let n: usize = buf.len();
                let all: &'b [u8] = buf.as_slice();
                if n > 0 && all[n - 1] == 0 {
                    Ok(vstd::slice::slice_subrange(all, 0, n - 1))
                } else {
                    assert(all@.subrange(0, n as int) =~= all@);
                    Ok(all)
                }
            },
        }
    }
}

impl<R: ReadAt> ReadAtExt for R {
}

} // verus!
