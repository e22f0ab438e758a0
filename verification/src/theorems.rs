//! What holds of the format: reading undoes writing, writing undoes reading,
//! and each malformed file gets the error that names its first fault.

use crate::document::{magic, Document, NextRead, THUMB_OFFSET};
use crate::endian::{lemma_u32_le_bytes, lemma_u32_le_value, u32_from_le, u32_le};
use crate::error::ErrorView;
use crate::header::Header;
use vstd::prelude::*;

verus! {

/// The bytes of a document that fits decode to that document, and encoding
/// what was decoded gives the same bytes again.
pub proof fn lemma_decode_encoded(doc: Document)
    requires
        doc.fits(),
    ensures
        Document::decoded(doc.encoded()) == Ok::<Document, ErrorView>(doc),
        Document::decoded(doc.encoded())->Ok_0.encoded() == doc.encoded(),
{
    let bytes = doc.encoded();
    let offset = doc.gcode_offset();
    lemma_u32_le_value(THUMB_OFFSET);
    lemma_u32_le_value(offset);
    doc.header.lemma_parse_bytes(Seq::empty());
    assert(doc.header.bytes() + Seq::<u8>::empty() =~= doc.header.bytes());
    assert(bytes.len() == 58 + doc.thumbnail.len() + doc.gcode.len());
    assert(bytes.subrange(0, 16) =~= magic());
    assert(bytes.subrange(16, 20) =~= u32_le(THUMB_OFFSET));
    assert(bytes.subrange(20, 24) =~= u32_le(offset));
    assert(bytes.subrange(24, 28) =~= u32_le(offset));
    assert(bytes.subrange(28, 58) =~= doc.header.bytes());
    assert(bytes.subrange(58, offset as int) =~= doc.thumbnail);
    assert(bytes.subrange(offset as int, bytes.len() as int) =~= doc.gcode);
}

/// A file that decodes holds a document that fits, and encoding that document
/// gives the file back byte for byte.
pub proof fn lemma_encode_decoded(bytes: Seq<u8>)
    requires
        Document::decoded(bytes) is Ok,
    ensures
        Document::decoded(bytes)->Ok_0.fits(),
        Document::decoded(bytes)->Ok_0.encoded() == bytes,
{
    let doc = Document::decoded(bytes)->Ok_0;
    let offset = u32_from_le(bytes.subrange(20, 24));
    lemma_u32_le_bytes(bytes.subrange(16, 20));
    lemma_u32_le_bytes(bytes.subrange(20, 24));
    lemma_u32_le_bytes(bytes.subrange(24, 28));
    Header::lemma_bytes_parse(bytes.subrange(28, 58));
    assert(bytes.subrange(28, 58).subrange(0, 30) =~= bytes.subrange(28, 58));
    assert(doc.gcode_offset() == offset);
    assert(doc.encoded() =~= bytes);
}

/// A file whose first sixteen bytes differ from the magic in some byte is
/// refused for its magic, with the sixteen bytes found, whatever follows
/// them: no later field is looked at.
pub proof fn lemma_bad_magic(bytes: Seq<u8>, i: int)
    requires
        bytes.len() >= 16,
        0 <= i < 16,
        bytes[i] != magic()[i],
    ensures
        Document::decoded(bytes) == Err::<Document, ErrorView>(
            ErrorView::BadMagic(bytes.subrange(0, 16)),
        ),
        Document::decoded(bytes) == Document::decoded(bytes.subrange(0, 16)),
{
    assert(bytes.subrange(0, 16)[i] == bytes[i]);
    assert(bytes.subrange(0, 16).subrange(0, 16) =~= bytes.subrange(0, 16));
}

/// A file that starts as it should and says that the g-code starts before the
/// end of the header is refused for a negative thumbnail size, with the
/// difference, before any byte behind that offset is looked at.
pub proof fn lemma_thumb_size_negative(bytes: Seq<u8>)
    requires
        bytes.len() >= 24,
        bytes.subrange(0, 16) == magic(),
        u32_from_le(bytes.subrange(16, 20)) == THUMB_OFFSET,
        u32_from_le(bytes.subrange(20, 24)) < THUMB_OFFSET,
    ensures
        Document::decoded(bytes) == Err::<Document, ErrorView>(
            ErrorView::ThumbSizeNegative(
                (u32_from_le(bytes.subrange(20, 24)) - THUMB_OFFSET) as i32,
            ),
        ),
        Document::decoded(bytes) == Document::decoded(bytes.subrange(0, 24)),
{
    let head = bytes.subrange(0, 24);
    assert(head.subrange(0, 16) =~= bytes.subrange(0, 16));
    assert(head.subrange(16, 20) =~= bytes.subrange(16, 20));
    assert(head.subrange(20, 24) =~= bytes.subrange(20, 24));
}

/// A file that starts as it should, and whose two copies of the g-code offset
/// differ in some byte, is refused for the second copy.
pub proof fn lemma_offsets_differ(bytes: Seq<u8>)
    requires
        bytes.len() >= 28,
        bytes.subrange(0, 16) == magic(),
        u32_from_le(bytes.subrange(16, 20)) == THUMB_OFFSET,
        u32_from_le(bytes.subrange(20, 24)) >= THUMB_OFFSET,
        bytes.subrange(20, 24) != bytes.subrange(24, 28),
    ensures
        Document::decoded(bytes) == Err::<Document, ErrorView>(ErrorView::SecondGOffsetNotFound),
{
    lemma_u32_le_bytes(bytes.subrange(20, 24));
    lemma_u32_le_bytes(bytes.subrange(24, 28));
}

/// The reserved fields of a header come back from the file as they went in.
pub proof fn lemma_reserved_preserved(doc: Document)
    requires
        doc.fits(),
    ensures
        Document::decoded(doc.encoded()) is Ok,
        Document::decoded(doc.encoded())->Ok_0.header.reserved0 == doc.header.reserved0,
        Document::decoded(doc.encoded())->Ok_0.header.reserved1 == doc.header.reserved1,
{
    lemma_decode_encoded(doc);
}

/// What is due after some bytes settles what decoding them gives: a fault is
/// the error of decoding, bytes that are due leave the file truncated, and
/// with only g-code to come the bytes decode.
pub proof fn lemma_next_read_decides(bytes: Seq<u8>)
    ensures
        match Document::next_read(bytes) {
            Err(e) => e != ErrorView::IO && Document::decoded(bytes) == Err::<Document, ErrorView>(e),
            Ok(NextRead::Bytes(n)) => {
                &&& n > 0
                &&& bytes.len() + n <= u32::MAX
                &&& Document::decoded(bytes) == Err::<Document, ErrorView>(ErrorView::IO)
            },
            Ok(NextRead::ToEnd) => Document::decoded(bytes) is Ok,
        },
{
}

/// A fault found after some bytes stays the verdict whatever is read behind
/// them, so a reader that stops there loses nothing.
pub proof fn lemma_fault_is_final(bytes: Seq<u8>, more: Seq<u8>)
    requires
        Document::next_read(bytes) is Err,
    ensures
        Document::next_read(bytes + more) == Document::next_read(bytes),
        Document::decoded(bytes + more) == Document::decoded(bytes),
{
    let all = bytes + more;
    lemma_next_read_decides(bytes);
    assert(all.subrange(0, 16) =~= bytes.subrange(0, 16));
    if bytes.len() >= 20 {
        assert(all.subrange(16, 20) =~= bytes.subrange(16, 20));
    }
    if bytes.len() >= 24 {
        assert(all.subrange(20, 24) =~= bytes.subrange(20, 24));
    }
    if bytes.len() >= 28 {
        assert(all.subrange(24, 28) =~= bytes.subrange(24, 28));
    }
}

} // verus!
