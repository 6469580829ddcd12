use vstd::prelude::*;

use crate::buffer::{FromBuffer, ToBuffer};
use crate::error::{NetCommsError, NetCommsErrorKind};

verus! {

/// Kind of every message to be sent or received.
#[derive(Debug, Clone, Copy, PartialEq, Eq, Structural)]
pub enum MessageKind {
    Empty,
    Request,
    Text,
    File,
    Unknown,
}

/// The two bytes that stand for `kind`.
pub open spec fn message_kind_bytes(kind: MessageKind) -> Seq<u8> {
    match kind {
        MessageKind::Empty => seq![0u8, 0u8],
        MessageKind::Request => seq![1u8, 0u8],
        MessageKind::Text => seq![2u8, 0u8],
        MessageKind::File => seq![3u8, 0u8],
        MessageKind::Unknown => seq![255u8, 0u8],
    }
}

/// The kind that a buffer starting with the byte `b0` stands for.
pub open spec fn message_kind_of(b0: u8) -> MessageKind {
    if b0 == 0 {
        MessageKind::Empty
    } else if b0 == 1 {
        MessageKind::Request
    } else if b0 == 2 {
        MessageKind::Text
    } else if b0 == 3 {
        MessageKind::File
    } else {
        MessageKind::Unknown
    }
}

impl ToBuffer for MessageKind {
    open spec fn spec_to_buff(self) -> Seq<u8> {
        message_kind_bytes(self)
    }

    fn to_buff(self) -> (r: Result<Vec<u8>, NetCommsError>) {
        let b0: u8 = match self {
            MessageKind::Empty => 0,
            MessageKind::Request => 1,
            MessageKind::Text => 2,
            MessageKind::File => 3,
            MessageKind::Unknown => 255,
        };
        let v = vec![b0, 0u8];
        assert(v@ =~= message_kind_bytes(self));
        assert(v@ == self.spec_to_buff());
        Ok(v)
    }
}

impl FromBuffer for MessageKind {
    open spec fn from_buff_accepts(buff: Seq<u8>) -> bool {
        true
    }

    /// At least two bytes are needed, of which the first decides the kind; the
    /// rest is discarded.
    open spec fn from_buff_result(buff: Seq<u8>, r: Result<MessageKind, NetCommsError>) -> bool {
        match r {
            Ok(kind) => buff.len() >= 2 && kind == message_kind_of(buff[0]),
            Err(e) => buff.len() < 2 && e.kind is InvalidBufferSize,
        }
    }

    fn from_buff(buff: Vec<u8>) -> (r: Result<MessageKind, NetCommsError>) {
        if buff.len() < 2 {
            return Err(NetCommsError::new(
                NetCommsErrorKind::InvalidBufferSize,
                Some(String::from_str("Converting a buffer to a message kind requires at least 2 bytes.")),
            ));
        }
        let kind = match buff[0] {
            0 => MessageKind::Empty,
            1 => MessageKind::Request,
            2 => MessageKind::Text,
            3 => MessageKind::File,
            _ => MessageKind::Unknown,
        };
        Ok(kind)
    }
}

/// Turning a message kind into a buffer and back gives the same kind.
pub proof fn law_message_kind_roundtrip(kind: MessageKind)
    ensures
        MessageKind::from_buff_accepts(kind.spec_to_buff()),
        forall|r: Result<MessageKind, NetCommsError>|
            MessageKind::from_buff_result(kind.spec_to_buff(), r) ==> (r matches Ok(k) && k
                == kind),
{
}

} // verus!
