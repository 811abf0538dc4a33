use crate::error::{Error, IoError};
use crate::io::read_at::{delivers, fits, holds_at, ReadAt};
use crate::io::read_at_ext::ReadAtExt;
use vstd::prelude::*;

verus! {

/// Reads a [`ReadAt`] source front to back, from a position of its own.
pub struct ReadAtReader<R: ReadAt> {
    pub read_at: R,
    pub pos: u64,
}

impl<R: ReadAt> ReadAtReader<R> {
    /// A reader of `read_at` that starts at `pos`.
    pub fn new(read_at: R, pos: u64) -> (reader: Self)
        ensures
            reader.read_at == read_at,
            reader.pos == pos,
    {
        Self { read_at, pos }
    }

    /// Reads up to `buf.len()` bytes from the current position and moves
    /// the position past them.
    pub fn read(&mut self, buf: &mut [u8]) -> (r: Result<usize, IoError>)
        ensures
            final(self).read_at == old(self).read_at,
            final(buf)@.len() == old(buf)@.len(),
            r is Err ==> !old(self).read_at.infallible() && final(self).pos == old(self).pos,
            r matches Ok(n) ==> delivers(
                old(self).read_at.content(),
                old(buf)@,
                final(buf)@,
                old(self).pos as int,
                n as int,
            ) && final(self).pos == old(self).pos + n,
    {
        match self.read_at.read_at(buf, self.pos) {
            Err(e) => Err(e),
            Ok(n) => {
                self.pos = self.pos + n as u64;
                Ok(n)
            },
        }
    }

    /// Fills `buf` from the current position and moves the position past
    /// what was read. On failure the position stays where it was.
    pub fn read_exact(&mut self, buf: &mut [u8]) -> (r: Result<(), Error>)
        ensures
            final(self).read_at == old(self).read_at,
            final(buf)@.len() == old(buf)@.len(),
            r is Ok ==> holds_at(old(self).read_at.content(), old(self).pos as int, final(buf)@)
                && final(self).pos == old(self).pos + old(buf)@.len(),
            r is Err ==> final(self).pos == old(self).pos,
            r matches Err(e) ==> (e.is_io() && !old(self).read_at.infallible()) || (e
                == Error::UnexpectedEof && !fits(
                old(self).read_at.content(),
                old(self).pos as int,
                old(buf)@.len(),
            )),
            (old(self).read_at.infallible() || old(buf)@.len() == 0) && fits(
                old(self).read_at.content(),
                old(self).pos as int,
                old(buf)@.len(),
            ) ==> r is Ok,
    {
        let mut pos: u64 = self.pos;
        let r = self.read_at.read_exact_at_advance(buf, &mut pos);
        self.pos = pos;
        r
    }
}

} // verus!
