use vstd::prelude::*;

verus! {

/// Declares `FromUtf8Error`, the error that `String::from_utf8` returns, so that
/// it can be carried inside [NetCommsErrorKind::OtherSource].
#[verifier::external_type_specification]
#[verifier::external_body]
pub struct ExFromUtf8Error(std::string::FromUtf8Error);

/// All kinds of errors that can occur in and while using this library.
#[derive(Debug)]
pub enum NetCommsErrorKind {
    /// Used if given command does not exist.
    UnknownCommand,
    /// Used if given command is not a valid command -- does not have proper structure or is missing its parts.
    InvalidCommand,
    /// Used if a packet kind was not expected, or an operation was used on a wrong packet kind.
    InvalidPacketKind,
    /// Used if serializing a struct fails.
    SerializingFailed,
    /// Used if deserializing a struct fails.
    DeserializingFailed,
    /// Used if a buffer does not have a valid size for the operation.
    InvalidBufferSize,
    /// Used if an error occurs during writing to a stream.
    WritingToStreamFailed,
    /// Used if an error occurs during reading from a stream.
    ReadingFromStreamFailed,
    /// Used if an error occurs while trying to open a file.
    OpeningFileFailed,
    /// Used if an error occurs while trying to create a file.
    CreatingFileFailed,
    /// Used if an error occurs while trying to write to a file.
    WritingToFileFailed,
    /// Used if an error occurs while trying to read from a file.
    ReadingFromFileFailed,
    /// Used if the system clock cannot be read as a time that this library represents.
    ReadingClockFailed,
    /// Used if the metadata of a message are not complete.
    IncompleteMetaData,
    /// Used if a received packet has a kind that is not recognised.
    UnknownMessageKind,
    /// Wrapper around an error that does not originate from this library.
    OtherSource(std::string::FromUtf8Error),
}

} // verus!
