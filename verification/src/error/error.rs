use vstd::prelude::*;

use super::NetCommsErrorKind;

verus! {

/// Used as an error type throughout this library.
///
/// * `kind` -- kind of the error.
/// * `message` -- optional additional information about the error.
#[derive(Debug)]
pub struct NetCommsError {
    pub kind: NetCommsErrorKind,
    pub message: Option<String>,
}

impl NetCommsError {
    /// Constructs a new `NetCommsError`.
    pub fn new(kind: NetCommsErrorKind, message: Option<String>) -> (e: NetCommsError)
        ensures
            e.kind == kind,
            e.message == message,
    {
        NetCommsError { kind, message }
    }
}


/// Name of an error kind as it appears in an error's text.
pub open spec fn kind_title(kind: NetCommsErrorKind) -> Seq<char> {
    match kind {
        NetCommsErrorKind::UnknownCommand => "Unknown Command"@,
        NetCommsErrorKind::InvalidCommand => "Invalid Command"@,
        NetCommsErrorKind::InvalidPacketKind => "Invalid Packet Kind"@,
        NetCommsErrorKind::SerializingFailed => "Serializing Failed"@,
        NetCommsErrorKind::DeserializingFailed => "Deserializing Failed"@,
        NetCommsErrorKind::InvalidBufferSize => "Invalid Buffer Size"@,
        NetCommsErrorKind::WritingToStreamFailed => "Writing To Stream Failed"@,
        NetCommsErrorKind::ReadingFromStreamFailed => "Reading From Stream Failed"@,
        NetCommsErrorKind::OpeningFileFailed => "Opening File Failed"@,
        NetCommsErrorKind::CreatingFileFailed => "Creating File Failed"@,
        NetCommsErrorKind::WritingToFileFailed => "Writing To File Failed"@,
        NetCommsErrorKind::ReadingFromFileFailed => "Reading From File Failed"@,
        NetCommsErrorKind::ReadingClockFailed => "Reading Clock Failed"@,
        NetCommsErrorKind::IncompleteMetaData => "Incomplete MetaData"@,
        NetCommsErrorKind::UnknownMessageKind => "Unknown MessageKind"@,
        NetCommsErrorKind::OtherSource(_) => "Other Source"@,
    }
}

/// The blank lines and indentation before the header of an error's text: one line
/// more for a deserializing error than for the other kinds.
pub open spec fn header_lead(kind: NetCommsErrorKind) -> Seq<char> {
    if kind is DeserializingFailed {
        "\n\n                    "@
    } else {
        "\n                    \n\n                    "@
    }
}

/// Text of an error. With a message: blank lines, a header that names the kind,
/// the message, and a `source:` section, each indented; the section ends where a
/// stack trace would follow, which this library does not record. Without a
/// message: a space and the kind's name.
pub open spec fn error_text(kind: NetCommsErrorKind, message: Option<Seq<char>>) -> Seq<char> {
    match message {
        Some(m) => header_lead(kind) + "NetCommsError("@ + kind_title(kind) + "):\n\n                    "@ + m
            + "\n\n                    source:\n\n                    "@,
        None => " "@ + kind_title(kind),
    }
}

impl NetCommsErrorKind {
    /// Whether this is the kind of a failed deserialization.
    fn is_deserializing_failed(&self) -> (r: bool)
        ensures
            r == (*self is DeserializingFailed),
    {
        match self {
            NetCommsErrorKind::DeserializingFailed => true,
            _ => false,
        }
    }

    /// Name of the kind as it appears in an error's text.
    pub fn title(&self) -> (t: &'static str)
        ensures
            t@ == kind_title(*self),
    {
        match self {
            NetCommsErrorKind::UnknownCommand => "Unknown Command",
            NetCommsErrorKind::InvalidCommand => "Invalid Command",
            NetCommsErrorKind::InvalidPacketKind => "Invalid Packet Kind",
            NetCommsErrorKind::SerializingFailed => "Serializing Failed",
            NetCommsErrorKind::DeserializingFailed => "Deserializing Failed",
            NetCommsErrorKind::InvalidBufferSize => "Invalid Buffer Size",
            NetCommsErrorKind::WritingToStreamFailed => "Writing To Stream Failed",
            NetCommsErrorKind::ReadingFromStreamFailed => "Reading From Stream Failed",
            NetCommsErrorKind::OpeningFileFailed => "Opening File Failed",
            NetCommsErrorKind::CreatingFileFailed => "Creating File Failed",
            NetCommsErrorKind::WritingToFileFailed => "Writing To File Failed",
            NetCommsErrorKind::ReadingFromFileFailed => "Reading From File Failed",
            NetCommsErrorKind::ReadingClockFailed => "Reading Clock Failed",
            NetCommsErrorKind::IncompleteMetaData => "Incomplete MetaData",
            NetCommsErrorKind::UnknownMessageKind => "Unknown MessageKind",
            NetCommsErrorKind::OtherSource(_) => "Other Source",
        }
    }

    /// Text of the kind itself.
    pub fn to_string(&self) -> (s: String)
        ensures
            s@ == "NetCommsErrorKind"@,
    {
        String::from_str("NetCommsErrorKind")
    }
}

impl NetCommsError {
    /// Text of the error: with a message, a header that names the kind followed
    /// by the message; without one, a space and the kind's name.
    pub fn output(&self) -> (s: String)
        ensures
            s@ == error_text(self.kind, match self.message {
                Some(m) => Some(m@),
                None => None,
            }),
    {
        let title = self.kind.title();
        match &self.message {
            Some(message) => {
                let mut s = if self.kind.is_deserializing_failed() {
                    String::from_str("\n\n                    ")
                } else {
                    String::from_str("\n                    \n\n                    ")
                };
                s.append("NetCommsError(");
                s.append(title);
                s.append("):\n\n                    ");
                s.append(message.as_str());
                s.append("\n\n                    source:\n\n                    ");
                s
            },
            None => {
                let mut s = String::from_str(" ");
                s.append(title);
                s
            },
        }
    }

    /// Text of the error, the same as [NetCommsError::output].
    pub fn to_string(&self) -> (s: String)
        ensures
            s@ == error_text(self.kind, match self.message {
                Some(m) => Some(m@),
                None => None,
            }),
    {
        self.output()
    }
}

} // verus!
