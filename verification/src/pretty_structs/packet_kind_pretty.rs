use vstd::prelude::*;

use crate::packet::PacketKind;

verus! {

/// Packet kind in a form meant to be read by people.
#[derive(Debug, Clone, Copy, PartialEq, Eq, Structural)]
pub enum PacketKindPretty {
    Empty,
    MetaData,
    MetaDataEnd,
    Content,
    End,
    Unknown,
}

/// The readable form of `kind`; an end packet is shown as a content packet.
pub open spec fn pretty_packet_kind(kind: PacketKind) -> PacketKindPretty {
    match kind {
        PacketKind::Empty => PacketKindPretty::Empty,
        PacketKind::MetaData => PacketKindPretty::MetaData,
        PacketKind::MetaDataEnd => PacketKindPretty::MetaDataEnd,
        PacketKind::Content => PacketKindPretty::Content,
        PacketKind::End => PacketKindPretty::Content,
        PacketKind::Unknown => PacketKindPretty::Unknown,
    }
}

impl PacketKindPretty {
    /// The readable form of `packet_kind`.
    pub fn from_packet_kind(packet_kind: &PacketKind) -> (k: PacketKindPretty)
        ensures
            k == pretty_packet_kind(*packet_kind),
    {
        match packet_kind {
            PacketKind::Empty => PacketKindPretty::Empty,
            PacketKind::MetaData => PacketKindPretty::MetaData,
            PacketKind::MetaDataEnd => PacketKindPretty::MetaDataEnd,
            PacketKind::Content => PacketKindPretty::Content,
            PacketKind::End => PacketKindPretty::Content,
            PacketKind::Unknown => PacketKindPretty::Unknown,
        }
    }
}


/// The packet kind that a readable kind names.
pub open spec fn named_packet_kind(p: PacketKindPretty) -> PacketKind {
    match p {
        PacketKindPretty::Empty => PacketKind::Empty,
        PacketKindPretty::MetaData => PacketKind::MetaData,
        PacketKindPretty::MetaDataEnd => PacketKind::MetaDataEnd,
        PacketKindPretty::Content => PacketKind::Content,
        PacketKindPretty::End => PacketKind::End,
        PacketKindPretty::Unknown => PacketKind::Unknown,
    }
}

/// The readable form of every kind but the end kind names that very kind, so
/// that different kinds other than the end kind are shown differently; the end
/// kind is shown as a content kind.
pub proof fn law_pretty_kind_names_the_kind(k: PacketKind, other: PacketKind)
    ensures
        k != PacketKind::End ==> named_packet_kind(pretty_packet_kind(k)) == k,
        k == PacketKind::End ==> named_packet_kind(pretty_packet_kind(k)) == PacketKind::Content,
        k != PacketKind::End && other != PacketKind::End && k != other ==> pretty_packet_kind(k)
            != pretty_packet_kind(other),
{
}

} // verus!
