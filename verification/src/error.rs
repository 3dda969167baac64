//! The error type shared by the parser, the store and the transport around
//! them.

use vstd::prelude::*;

verus! {

/// `std::string::FromUtf8Error`, carried through as an opaque value.
#[verifier::external_type_specification]
#[verifier::external_body]
pub struct ExFromUtf8Error(std::string::FromUtf8Error);

/// Everything that can go wrong between receiving bytes and touching the
/// store.
#[derive(Debug, PartialEq)]
pub enum Error {
    /// Not enough input has arrived to decide on a command.
    IncompleteMessage,
    /// A publish payload spans more than one line.
    TrailingData,
    /// The input is a bare newline; also reported when the store's lock cannot
    /// be acquired for a retrieve.
    EmptyMessage,
    /// The listener could not be started.
    ListernerStartFail(String),
    /// The first token names no command.
    UnknownCommand,
    /// A retrieve command was followed by a payload.
    UnexpectedPayload,
    /// A publish command was not followed by a payload.
    MissingPayload,
    /// The received bytes are not valid UTF-8.
    BytesConversion(std::string::FromUtf8Error),
    /// Reading from or writing to a stream failed.
    TcpStreamError(String),
    /// The store's lock could not be acquired for a publish.
    WriteLockError(String),
    /// Any other failure.
    Other(String),
}

impl Error {
    /// The human-readable text of the error.
    pub open spec fn message_text(&self) -> Seq<char> {
        match self {
            Error::IncompleteMessage => "Incomplete message"@,
            Error::TrailingData => "Trailing data"@,
            Error::EmptyMessage => "Empty message"@,
            Error::ListernerStartFail(e) => e@,
            Error::UnknownCommand => "Unknown command"@,
            Error::UnexpectedPayload => "Unexpected payload"@,
            Error::MissingPayload => "Missing payload"@,
            Error::BytesConversion(_) => "Byte conversion error"@,
            Error::TcpStreamError(e) => e@,
            Error::WriteLockError(e) => e@,
            Error::Other(e) => e@,
        }
    }

    /// Whether the error is one of the six framing errors, which the parser
    /// reports and which never touch the store.
    pub open spec fn is_framing(&self) -> bool {
        ||| self is IncompleteMessage
        ||| self is TrailingData
        ||| self is EmptyMessage
        ||| self is UnknownCommand
        ||| self is UnexpectedPayload
        ||| self is MissingPayload
    }

    /// The human-readable text of the error, as an owned string.
    pub fn message(&self) -> (r: String)
        ensures
            r@ == self.message_text(),
    {
        match self {
            Error::IncompleteMessage => "Incomplete message".to_owned(),
            Error::TrailingData => "Trailing data".to_owned(),
            Error::EmptyMessage => "Empty message".to_owned(),
            Error::ListernerStartFail(e) => e.clone(),
            Error::UnknownCommand => "Unknown command".to_owned(),
            Error::UnexpectedPayload => "Unexpected payload".to_owned(),
            Error::MissingPayload => "Missing payload".to_owned(),
            Error::BytesConversion(_) => "Byte conversion error".to_owned(),
            Error::TcpStreamError(e) => e.clone(),
            Error::WriteLockError(e) => e.clone(),
            Error::Other(e) => e.clone(),
        }
    }
}

} // verus!
