//! What can go wrong when an xgcode file is read or written.

use vstd::prelude::*;

verus! {

/// `std::io::Error`, carried as the cause of [`Error::IO`]. Nothing is known of
/// what a value of it holds.
#[verifier::external_type_specification]
#[verifier::external_body]
pub struct ExIoError(std::io::Error);

/// A failure of [`crate::XGCode::read`] or of a `write`.
#[derive(Debug)]
pub enum Error {
    /// The file does not start with the xgcode magic; the sixteen bytes found.
    BadMagic(Box<[u8; 16]>),
    /// The thumbnail does not start where this format puts it; the offset found.
    BadHeaderSize(u32),
    /// The g-code is said to start before the thumbnail; by how many bytes.
    ThumbSizeNegative(i32),
    /// The thumbnail is too long for a 32-bit g-code offset; its length.
    ThumbnailTooLarge(usize),
    /// The second copy of the g-code offset differs from the first.
    SecondGOffsetNotFound,
    /// A reserved field holds data. Kept for strict readers; the codec of this
    /// crate passes reserved fields through and never reports it.
    DataInReservedField { offset: u16, value: u16 },
    /// The input ended early, or the stream behind it failed.
    IO(std::io::Error),
}

/// An [`Error`] as contracts speak of it: the variant and its numbers, the
/// magic as a sequence, and no cause for `IO`.
pub enum ErrorView {
    BadMagic(Seq<u8>),
    BadHeaderSize(u32),
    ThumbSizeNegative(i32),
    ThumbnailTooLarge(usize),
    SecondGOffsetNotFound,
    DataInReservedField { offset: u16, value: u16 },
    IO,
}

impl View for Error {
    type V = ErrorView;

    open spec fn view(&self) -> ErrorView {
        match *self {
            Error::BadMagic(found) => ErrorView::BadMagic(found@),
            Error::BadHeaderSize(offset) => ErrorView::BadHeaderSize(offset),
            Error::ThumbSizeNegative(size) => ErrorView::ThumbSizeNegative(size),
            Error::ThumbnailTooLarge(len) => ErrorView::ThumbnailTooLarge(len),
            Error::SecondGOffsetNotFound => ErrorView::SecondGOffsetNotFound,
            Error::DataInReservedField { offset, value } => ErrorView::DataInReservedField {
                offset,
                value,
            },
            Error::IO(_) => ErrorView::IO,
        }
    }
}

/// `std::io::Error::from` on `ErrorKind::UnexpectedEof`: the error with which a
/// reader reports that its input ended before a read was complete.
#[verifier::external_body]
fn unexpected_eof() -> std::io::Error {
    std::io::Error::from(std::io::ErrorKind::UnexpectedEof)
}

impl Error {
    /// The error for an input that ends before the bytes asked of it.
    pub fn truncated() -> (e: Error)
        ensures
            e@ == ErrorView::IO,
    {
        Error::IO(unexpected_eof())
    }
}

} // verus!
