//! An xgcode file in memory, the bytes it is stored as, and the codec between
//! the two.

use crate::endian::{put_u32, read_u32_le, u32_from_le, u32_le};
use crate::error::{Error, ErrorView};
use crate::header::Header;
use crate::reader::Reader;
use vstd::prelude::*;
use vstd::slice::slice_to_vec;

verus! {

/// The number of bytes of the magic at the start of a file.
pub const MAGIC_LEN: usize = 16;

/// Where the thumbnail starts in a file: behind the magic, three offsets and
/// the header.
pub const THUMB_OFFSET: u32 = 0x3A;

/// The bytes `"xgcode 1.0\n"`, padded with NUL to sixteen.
pub const XGCODE_MAGIC: [u8; 16] = [
    0x78,
    0x67,
    0x63,
    0x6f,
    0x64,
    0x65,
    0x20,
    0x31,
    0x2e,
    0x30,
    0x0a,
    0,
    0,
    0,
    0,
    0,
];

/// The magic as a sequence.
pub open spec fn magic() -> Seq<u8> {
    seq![0x78u8, 0x67, 0x63, 0x6f, 0x64, 0x65, 0x20, 0x31, 0x2e, 0x30, 0x0a, 0, 0, 0, 0, 0]
}

/// What an xgcode file holds: the model of [`XGCode`] and of [`XGCodeRef`].
pub struct Document {
    pub header: Header,
    pub thumbnail: Seq<u8>,
    pub gcode: Seq<u8>,
}

impl Document {
    /// The thumbnail is short enough for the g-code offset to fit in 32 bits.
    pub open spec fn fits(self) -> bool {
        THUMB_OFFSET + self.thumbnail.len() <= u32::MAX
    }

    /// Where the g-code starts in the file.
    pub open spec fn gcode_offset(self) -> u32
        recommends
            self.fits(),
    {
        (THUMB_OFFSET + self.thumbnail.len()) as u32
    }

    /// The file: the magic, the thumbnail's offset, the g-code's offset twice,
    /// the header, the thumbnail and the g-code.
    pub open spec fn encoded(self) -> Seq<u8>
        recommends
            self.fits(),
    {
        magic() + u32_le(THUMB_OFFSET) + u32_le(self.gcode_offset()) + u32_le(self.gcode_offset())
            + self.header.bytes() + self.thumbnail + self.gcode
    }

    /// What reading `bytes` front to back gives: the first check that fails
    /// names the error, and a file that ends before the field that is due is
    /// an `IO` error.
    pub open spec fn decoded(bytes: Seq<u8>) -> Result<Document, ErrorView> {
        let thumb_offset = u32_from_le(bytes.subrange(16, 20));
        let gcode_offset = u32_from_le(bytes.subrange(20, 24));
        let gcode_offset2 = u32_from_le(bytes.subrange(24, 28));
        if bytes.len() < 16 {
            Err(ErrorView::IO)
        } else if bytes.subrange(0, 16) != magic() {
            Err(ErrorView::BadMagic(bytes.subrange(0, 16)))
        } else if bytes.len() < 20 {
            Err(ErrorView::IO)
        } else if thumb_offset != THUMB_OFFSET {
            Err(ErrorView::BadHeaderSize(thumb_offset))
        } else if bytes.len() < 24 {
            Err(ErrorView::IO)
        } else if gcode_offset < THUMB_OFFSET {
            Err(ErrorView::ThumbSizeNegative((gcode_offset - THUMB_OFFSET) as i32))
        } else if bytes.len() < 28 {
            Err(ErrorView::IO)
        } else if gcode_offset2 != gcode_offset {
            Err(ErrorView::SecondGOffsetNotFound)
        } else if bytes.len() < gcode_offset {
            Err(ErrorView::IO)
        } else {
            Ok(
                Document {
                    header: Header::parse(bytes.subrange(28, 58)),
                    thumbnail: bytes.subrange(58, gcode_offset as int),
                    gcode: bytes.subrange(gcode_offset as int, bytes.len() as int),
                },
            )
        }
    }

    /// What is due when `bytes` were read from the start of a stream: the
    /// error, where a field that is complete fails its check; else the bytes
    /// that the field in turn still lacks; else, with the thumbnail complete,
    /// the rest of the stream.
    pub open spec fn next_read(bytes: Seq<u8>) -> Result<NextRead, ErrorView> {
        let thumb_offset = u32_from_le(bytes.subrange(16, 20));
        let gcode_offset = u32_from_le(bytes.subrange(20, 24));
        let gcode_offset2 = u32_from_le(bytes.subrange(24, 28));
        if bytes.len() < 16 {
            Ok(NextRead::Bytes((16 - bytes.len()) as usize))
        } else if bytes.subrange(0, 16) != magic() {
            Err(ErrorView::BadMagic(bytes.subrange(0, 16)))
        } else if bytes.len() < 20 {
            Ok(NextRead::Bytes((20 - bytes.len()) as usize))
        } else if thumb_offset != THUMB_OFFSET {
            Err(ErrorView::BadHeaderSize(thumb_offset))
        } else if bytes.len() < 24 {
            Ok(NextRead::Bytes((24 - bytes.len()) as usize))
        } else if gcode_offset < THUMB_OFFSET {
            Err(ErrorView::ThumbSizeNegative((gcode_offset - THUMB_OFFSET) as i32))
        } else if bytes.len() < 28 {
            Ok(NextRead::Bytes((28 - bytes.len()) as usize))
        } else if gcode_offset2 != gcode_offset {
            Err(ErrorView::SecondGOffsetNotFound)
        } else if bytes.len() < 58 {
            Ok(NextRead::Bytes((58 - bytes.len()) as usize))
        } else if bytes.len() < gcode_offset {
            Ok(NextRead::Bytes((gcode_offset - bytes.len()) as usize))
        } else {
            Ok(NextRead::ToEnd)
        }
    }
}

/// What a reader of a stream does next.
#[derive(Clone, Copy, Debug, PartialEq, Eq, Structural)]
pub enum NextRead {
    /// Read exactly this many bytes: they end the field that is due.
    Bytes(usize),
    /// Read whatever is left: it is g-code.
    ToEnd,
}

/// An xgcode file that owns its thumbnail and g-code.
#[derive(Clone, Debug, PartialEq, Eq)]
pub struct XGCode {
    /// XGcode header
    pub header: Header,
    /// Print thumbnail (BMP file, 80x60, 8-bit RGB)
    pub thumbnail: Vec<u8>,
    /// GCode file
    pub gcode: Vec<u8>,
}

/// An xgcode file that borrows its thumbnail and g-code.
#[derive(Copy, Clone, Debug, PartialEq, Eq)]
pub struct XGCodeRef<'a> {
    /// XGcode header
    pub header: Header,
    /// Print thumbnail (BMP file, 80x60, 8-bit RGB)
    pub thumbnail: &'a [u8],
    /// GCode file
    pub gcode: &'a [u8],
}

impl View for XGCode {
    type V = Document;

    open spec fn view(&self) -> Document {
        Document { header: self.header, thumbnail: self.thumbnail@, gcode: self.gcode@ }
    }
}

impl<'a> View for XGCodeRef<'a> {
    type V = Document;

    open spec fn view(&self) -> Document {
        Document { header: self.header, thumbnail: self.thumbnail@, gcode: self.gcode@ }
    }
}

/// Whether sixteen bytes are the magic.
fn is_magic(found: &[u8; 16]) -> (b: bool)
    ensures
        b == (found@ == magic()),
{
    let mut i: usize = 0;
    while i < 16
        invariant
            i <= 16,
            forall|j: int| 0 <= j < i ==> found@[j] == magic()[j],
        decreases 16 - i,
    {
        if found[i] != XGCODE_MAGIC[i] {
            return false;
        }
        i += 1;
    }
    assert(found@ =~= magic());
    true
}

/// A copy of sixteen bytes as an array.
fn magic_array(bytes: &[u8]) -> (found: [u8; 16])
    requires
        bytes@.len() == 16,
    ensures
        found@ == bytes@,
{
    let mut found = [0u8; 16];
    let mut i: usize = 0;
    while i < 16
        invariant
            i <= 16,
            bytes@.len() == 16,
            forall|j: int| 0 <= j < i ==> found@[j] == bytes@[j],
        decreases 16 - i,
    {
        found[i] = bytes[i];
        i += 1;
    }
    assert(found@ =~= bytes@);
    found
}

impl XGCode {
    /// Decodes a file from its bytes.
    pub fn read(source: &[u8]) -> (r: Result<XGCode, Error>)
        ensures
            match r {
                Ok(doc) => Document::decoded(source@) == Ok::<Document, ErrorView>(doc@),
                Err(e) => Document::decoded(source@) == Err::<Document, ErrorView>(e@),
            },
    {
        let mut reader = Reader::new(source);
        let found = magic_array(reader.take(MAGIC_LEN)?);
        if !is_magic(&found) {
            return Err(Error::BadMagic(Box::new(found)));
        }
        let thumb_offset = reader.read_u32()?;
        if thumb_offset != THUMB_OFFSET {
            return Err(Error::BadHeaderSize(thumb_offset));
        }
        let gcode_offset = reader.read_u32()?;
        if gcode_offset < THUMB_OFFSET {
            return Err(Error::ThumbSizeNegative(gcode_offset as i32 - THUMB_OFFSET as i32));
        }
        let thumb_size = (gcode_offset - THUMB_OFFSET) as usize;
        let gcode_offset2 = reader.read_u32()?;
        if gcode_offset != gcode_offset2 {
            return Err(Error::SecondGOffsetNotFound);
        }
        let header = Header::read(&mut reader)?;
        let thumbnail = slice_to_vec(reader.take(thumb_size)?);
        let gcode = slice_to_vec(reader.rest());
        Ok(XGCode { header, thumbnail, gcode })
    }

    /// Tells a reader of a stream what to read next, from the bytes that it
    /// has read so far, or why the stream is no xgcode file. With
    /// [`NextRead::ToEnd`] answered and the rest read, [`XGCode::read`] decodes
    /// the bytes.
    pub fn next_read(prefix: &[u8]) -> (r: Result<NextRead, Error>)
        ensures
            match r {
                Ok(next) => Document::next_read(prefix@) == Ok::<NextRead, ErrorView>(next),
                Err(e) => Document::next_read(prefix@) == Err::<NextRead, ErrorView>(e@),
            },
    {
        let len = prefix.len();
        if len < 16 {
            return Ok(NextRead::Bytes(16 - len));
        }
        let found = magic_array(&prefix[0..16]);
        if !is_magic(&found) {
            return Err(Error::BadMagic(Box::new(found)));
        }
        if len < 20 {
            return Ok(NextRead::Bytes(20 - len));
        }
        let thumb_offset = read_u32_le(&prefix[16..20]);
        if thumb_offset != THUMB_OFFSET {
            return Err(Error::BadHeaderSize(thumb_offset));
        }
        if len < 24 {
            return Ok(NextRead::Bytes(24 - len));
        }
        let gcode_offset = read_u32_le(&prefix[20..24]);
        if gcode_offset < THUMB_OFFSET {
            return Err(Error::ThumbSizeNegative(gcode_offset as i32 - THUMB_OFFSET as i32));
        }
        if len < 28 {
            return Ok(NextRead::Bytes(28 - len));
        }
        let gcode_offset2 = read_u32_le(&prefix[24..28]);
        if gcode_offset != gcode_offset2 {
            return Err(Error::SecondGOffsetNotFound);
        }
        if len < 58 {
            return Ok(NextRead::Bytes(58 - len));
        }
        if len < gcode_offset as usize {
            return Ok(NextRead::Bytes(gcode_offset as usize - len));
        }
        Ok(NextRead::ToEnd)
    }

    /// The file with its thumbnail and g-code borrowed.
    pub fn as_ref(&self) -> (r: XGCodeRef<'_>)
        ensures
            r@ == self@,
    {
        XGCodeRef {
            header: self.header,
            thumbnail: self.thumbnail.as_slice(),
            gcode: self.gcode.as_slice(),
        }
    }

    /// Appends the bytes of the file to `writer`, or leaves it as it is where
    /// the thumbnail is too long.
    pub fn write(&self, writer: &mut Vec<u8>) -> (r: Result<(), Error>)
        ensures
            match r {
                Ok(()) => self@.fits() && final(writer)@ == old(writer)@ + self@.encoded(),
                Err(e) => {
                    &&& !self@.fits()
                    &&& e@ == ErrorView::ThumbnailTooLarge(self.thumbnail@.len() as usize)
                    &&& final(writer)@ == old(writer)@
                },
            },
    {
        self.as_ref().write(writer)
    }
}

impl<'a> XGCodeRef<'a> {
    /// Appends the bytes of the file to `writer`, or leaves it as it is where
    /// the thumbnail is too long.
    pub fn write(&self, writer: &mut Vec<u8>) -> (r: Result<(), Error>)
        ensures
            match r {
                Ok(()) => self@.fits() && final(writer)@ == old(writer)@ + self@.encoded(),
                Err(e) => {
                    &&& !self@.fits()
                    &&& e@ == ErrorView::ThumbnailTooLarge(self.thumbnail@.len() as usize)
                    &&& final(writer)@ == old(writer)@
                },
            },
    {
        if self.thumbnail.len() > (u32::MAX - THUMB_OFFSET) as usize {
            return Err(Error::ThumbnailTooLarge(self.thumbnail.len()));
        }
        let gcode_offset = THUMB_OFFSET + self.thumbnail.len() as u32;
        writer.extend_from_slice(XGCODE_MAGIC.as_slice());
        put_u32(writer, THUMB_OFFSET);
        put_u32(writer, gcode_offset);
        put_u32(writer, gcode_offset);
        self.header.write(writer);
        writer.extend_from_slice(self.thumbnail);
        writer.extend_from_slice(self.gcode);
        assert(writer@ =~= old(writer)@ + self@.encoded());
        Ok(())
    }
}

} // verus!
