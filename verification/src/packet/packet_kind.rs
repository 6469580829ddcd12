use vstd::prelude::*;

use crate::bytes::{Bytes, FromBytes, IntoBytes};
use crate::error::{NetCommsError, NetCommsErrorKind};

verus! {

/// Determines the kind of a [Packet](super::Packet).
#[derive(Debug, Clone, Copy, PartialEq, Eq, Structural)]
pub enum PacketKind {
    /// Empty packet, usually used only for testing or as a placeholder.
    Empty,
    /// Part of the metadata of a message.
    MetaData,
    /// Same as `MetaData`, but marks the last part of the metadata.
    MetaDataEnd,
    /// Content packet; what it holds depends on the kind of the message.
    Content,
    /// Marks the end of a message.
    End,
    /// Used if the kind is not recognised.
    Unknown,
}

/// The kind that the two bytes `b0`, `b1` denote.
pub open spec fn packet_kind_of(b0: u8, b1: u8) -> PacketKind {
    if b0 == 0 {
        PacketKind::Empty
    } else if b0 == 1 {
        if b1 == 0 {
            PacketKind::MetaData
        } else if b1 == 1 {
            PacketKind::MetaDataEnd
        } else {
            PacketKind::Unknown
        }
    } else if b0 == 2 {
        PacketKind::Content
    } else if b0 == 3 {
        PacketKind::End
    } else {
        PacketKind::Unknown
    }
}

/// The two bytes that stand for `kind`.
pub open spec fn packet_kind_bytes(kind: PacketKind) -> Seq<u8> {
    match kind {
        PacketKind::Empty => seq![0u8, 0u8],
        PacketKind::MetaData => seq![1u8, 0u8],
        PacketKind::MetaDataEnd => seq![1u8, 1u8],
        PacketKind::Content => seq![2u8, 0u8],
        PacketKind::End => seq![3u8, 0u8],
        PacketKind::Unknown => seq![255u8, 0u8],
    }
}

fn packet_kind_from_two(b0: u8, b1: u8) -> (kind: PacketKind)
    ensures
        kind == packet_kind_of(b0, b1),
{
    match b0 {
        0 => PacketKind::Empty,
        1 => match b1 {
            0 => PacketKind::MetaData,
            1 => PacketKind::MetaDataEnd,
            _ => PacketKind::Unknown,
        },
        2 => PacketKind::Content,
        3 => PacketKind::End,
        _ => PacketKind::Unknown,
    }
}

impl FromBytes for PacketKind {
    open spec fn from_bytes_accepts(bytes: Seq<u8>) -> bool {
        true
    }

    /// The first two bytes decide the kind; fewer than two bytes are an error.
    open spec fn from_bytes_result(bytes: Seq<u8>, r: Result<PacketKind, NetCommsError>) -> bool {
        match r {
            Ok(kind) => bytes.len() >= 2 && kind == packet_kind_of(bytes[0], bytes[1]),
            Err(e) => bytes.len() < 2 && e.kind is InvalidBufferSize,
        }
    }

    fn from_bytes(bytes: Bytes) -> (r: Result<PacketKind, NetCommsError>) {
        PacketKind::from_buff(bytes.as_slice())
    }

    fn from_buff(buff: &[u8]) -> (r: Result<PacketKind, NetCommsError>) {
        if buff.len() < 2 {
            return Err(NetCommsError::new(
                NetCommsErrorKind::InvalidBufferSize,
                Some(String::from_str("Converting bytes to a packet kind requires at least two bytes.")),
            ));
        }
        Ok(packet_kind_from_two(buff[0], buff[1]))
    }
}

impl IntoBytes for PacketKind {
    open spec fn spec_into_bytes(self) -> Seq<u8> {
        packet_kind_bytes(self)
    }

    fn into_bytes(self) -> (b: Bytes) {
        let (b0, b1): (u8, u8) = match self {
            PacketKind::Empty => (0, 0),
            PacketKind::MetaData => (1, 0),
            PacketKind::MetaDataEnd => (1, 1),
            PacketKind::Content => (2, 0),
            PacketKind::End => (3, 0),
            PacketKind::Unknown => (255, 0),
        };
        assert(seq![b0, b1] =~= packet_kind_bytes(self));
        assert(packet_kind_bytes(self) == self.spec_into_bytes());
        let b = two_bytes(b0, b1);
        assert(b@ == self.spec_into_bytes());
        b
    }
}

fn two_bytes(b0: u8, b1: u8) -> (b: Bytes)
    ensures
        b@ == seq![b0, b1],
{
    let mut bytes = Bytes::new();
    bytes.push(b0);
    bytes.push(b1);
    assert(bytes@ =~= seq![b0, b1]);
    bytes
}

/// Converting a packet kind into bytes and back gives the same kind.
pub proof fn law_packet_kind_roundtrip(kind: PacketKind)
    ensures
        packet_kind_bytes(kind).len() == 2,
        packet_kind_of(packet_kind_bytes(kind)[0], packet_kind_bytes(kind)[1]) == kind,
{
}

/// The byte pairs that are written back unchanged after being read as a kind are
/// exactly the six pairs that the kinds are written as.
pub proof fn law_packet_kind_canonical_bytes(b0: u8, b1: u8)
    ensures
        packet_kind_bytes(packet_kind_of(b0, b1)) == seq![b0, b1] <==> ((b0 == 0 && b1 == 0) || (
        b0 == 1 && b1 == 0) || (b0 == 1 && b1 == 1) || (b0 == 2 && b1 == 0) || (b0 == 3 && b1
            == 0) || (b0 == 255 && b1 == 0)),
{
    if packet_kind_bytes(packet_kind_of(b0, b1)) == seq![b0, b1] {
        assert(packet_kind_bytes(packet_kind_of(b0, b1))[0] == b0);
        assert(packet_kind_bytes(packet_kind_of(b0, b1))[1] == b1);
    }
    if (b0 == 0 && b1 == 0) || (b0 == 1 && b1 == 0) || (b0 == 1 && b1 == 1) || (b0 == 2 && b1
        == 0) || (b0 == 3 && b1 == 0) || (b0 == 255 && b1 == 0) {
        assert(packet_kind_bytes(packet_kind_of(b0, b1)) =~= seq![b0, b1]);
    }
}

} // verus!
