//! The errors that building, encoding and decoding a message can report.

use vstd::prelude::*;

verus! {

/// What can go wrong with a message.
#[derive(Debug, Clone, PartialEq, Eq)]
pub enum BitcoinMessageError {
    /// A command name takes more than twelve bytes.
    CommandNameTooLong,
    /// A command name holds a byte outside ASCII.
    CommandNameNonAscii,
    /// A command name is well formed but names no command of this crate; the
    /// name is carried along.
    CommandNameUnknown(String),
    /// The input ended before the value did.
    SerializationError,
    /// A payload is larger than the protocol allows.
    PayloadTooBig,
    /// The checksum in a header is not the checksum of the payload.
    ChecksumMismatch,
    /// Bytes that should spell a string are not UTF-8.
    Utf8DeserializationError,
    /// A user agent takes more bytes than a `version` message may carry.
    UserAgentTooLong,
}

/// The mathematical value of a [`BitcoinMessageError`]: the same cases, with
/// the carried name as a sequence of characters.
pub enum ErrorView {
    CommandNameTooLong,
    CommandNameNonAscii,
    CommandNameUnknown(Seq<char>),
    SerializationError,
    PayloadTooBig,
    ChecksumMismatch,
    Utf8DeserializationError,
    UserAgentTooLong,
}

impl View for BitcoinMessageError {
    type V = ErrorView;

    open spec fn view(&self) -> ErrorView {
        match self {
            BitcoinMessageError::CommandNameTooLong => ErrorView::CommandNameTooLong,
            BitcoinMessageError::CommandNameNonAscii => ErrorView::CommandNameNonAscii,
            BitcoinMessageError::CommandNameUnknown(name) => ErrorView::CommandNameUnknown(name@),
            BitcoinMessageError::SerializationError => ErrorView::SerializationError,
            BitcoinMessageError::PayloadTooBig => ErrorView::PayloadTooBig,
            BitcoinMessageError::ChecksumMismatch => ErrorView::ChecksumMismatch,
            BitcoinMessageError::Utf8DeserializationError => ErrorView::Utf8DeserializationError,
            BitcoinMessageError::UserAgentTooLong => ErrorView::UserAgentTooLong,
        }
    }
}

/// The mathematical value of a result that carries a [`BitcoinMessageError`].
pub open spec fn result_view<T: View>(r: Result<T, BitcoinMessageError>) -> Result<T::V, ErrorView> {
    match r {
        Ok(value) => Ok(value@),
        Err(e) => Err(e@),
    }
}

} // verus!
