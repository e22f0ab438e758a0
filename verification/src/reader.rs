//! A cursor over the bytes of a file, read front to back.

use crate::endian::{read_u16_le, read_u32_le, u16_from_le, u32_from_le};
use crate::error::{Error, ErrorView};
use vstd::prelude::*;

verus! {

/// The bytes of a file and how many of them were read.
pub struct Reader<'a> {
    data: &'a [u8],
    pos: usize,
}

impl<'a> Reader<'a> {
    /// The position lies within the file.
    pub closed spec fn wf(&self) -> bool {
        self.pos <= self.data@.len()
    }

    /// All bytes of the file.
    pub closed spec fn source(&self) -> Seq<u8> {
        self.data@
    }

    /// The number of bytes read so far.
    pub closed spec fn position(&self) -> nat {
        self.pos as nat
    }

    /// A reader at the start of `data`.
    pub fn new(data: &'a [u8]) -> (r: Reader<'a>)
        ensures
            r.wf(),
            r.source() == data@,
            r.position() == 0,
    {
        Reader { data, pos: 0 }
    }

    /// The next `n` bytes, or the error of a truncated file where fewer are
    /// left; the reader then stays where it was.
    pub fn take(&mut self, n: usize) -> (r: Result<&'a [u8], Error>)
        requires
            old(self).wf(),
        ensures
            final(self).wf(),
            final(self).source() == old(self).source(),
            match r {
                Ok(bytes) => {
                    &&& old(self).position() + n <= old(self).source().len()
                    &&& final(self).position() == old(self).position() + n
                    &&& bytes@ == old(self).source().subrange(
                        old(self).position() as int,
                        old(self).position() + n,
                    )
                },
                Err(e) => {
                    &&& old(self).position() + n > old(self).source().len()
                    &&& final(self).position() == old(self).position()
                    &&& e@ == ErrorView::IO
                },
            },
    {
        if n > self.data.len() - self.pos {
            return Err(Error::truncated());
        }
        let start = self.pos;
        self.pos = start + n;
        Ok(&self.data[start..start + n])
    }

    /// The next two bytes as a little-endian number.
    pub fn read_u16(&mut self) -> (r: Result<u16, Error>)
        requires
            old(self).wf(),
        ensures
            final(self).wf(),
            final(self).source() == old(self).source(),
            match r {
                Ok(n) => {
                    &&& old(self).position() + 2 <= old(self).source().len()
                    &&& final(self).position() == old(self).position() + 2
                    &&& n == u16_from_le(
                        old(self).source().subrange(
                            old(self).position() as int,
                            old(self).position() + 2int,
                        ),
                    )
                },
                Err(e) => {
                    &&& old(self).position() + 2 > old(self).source().len()
                    &&& final(self).position() == old(self).position()
                    &&& e@ == ErrorView::IO
                },
            },
    {
        let bytes = self.take(2)?;
        Ok(read_u16_le(bytes))
    }

    /// The next four bytes as a little-endian number.
    pub fn read_u32(&mut self) -> (r: Result<u32, Error>)
        requires
            old(self).wf(),
        ensures
            final(self).wf(),
            final(self).source() == old(self).source(),
            match r {
                Ok(n) => {
                    &&& old(self).position() + 4 <= old(self).source().len()
                    &&& final(self).position() == old(self).position() + 4
                    &&& n == u32_from_le(
                        old(self).source().subrange(
                            old(self).position() as int,
                            old(self).position() + 4int,
                        ),
                    )
                },
                Err(e) => {
                    &&& old(self).position() + 4 > old(self).source().len()
                    &&& final(self).position() == old(self).position()
                    &&& e@ == ErrorView::IO
                },
            },
    {
        let bytes = self.take(4)?;
        Ok(read_u32_le(bytes))
    }

    /// All bytes that were not read yet.
    pub fn rest(self) -> (bytes: &'a [u8])
        requires
            self.wf(),
        ensures
            bytes@ == self.source().subrange(self.position() as int, self.source().len() as int),
    {
        &self.data[self.pos..self.data.len()]
    }
}

} // verus!
