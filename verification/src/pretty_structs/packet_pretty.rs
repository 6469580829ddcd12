use vstd::prelude::*;
use vstd::utf8::{decode_utf8, valid_utf8};

use crate::buffer::FromBuffer;
use crate::packet::{Packet, PacketKind};
use crate::pretty_structs::{PacketKindPretty, pretty_packet_kind};

verus! {

/// Packet in a form meant to be read by people: its content is shown as text.
#[derive(Debug, Clone)]
pub struct PacketPretty {
    pub size: usize,
    pub kind: PacketKindPretty,
    pub content: String,
}

/// Whether the content of a packet with the view `p` is shown: it is for metadata
/// and content packets.
pub open spec fn shows_content(kind: PacketKind) -> bool {
    kind == PacketKind::MetaData || kind == PacketKind::MetaDataEnd || kind == PacketKind::Content
}

/// Whether `p` is the readable form of a packet with the view `packet`.
pub open spec fn is_packet_pretty(packet: (u16, PacketKind, Seq<u8>), p: PacketPretty) -> bool {
    &&& p.size == packet.0
    &&& p.kind == pretty_packet_kind(packet.1)
    &&& shows_content(packet.1) ==> p.content@ == decode_utf8(packet.2)
    &&& !shows_content(packet.1) ==> p.content@ == Seq::<char>::empty()
}

impl PacketPretty {
    /// The readable form of `packet`. The content of metadata and content packets
    /// is decoded as UTF-8; other packets show no content.
    pub fn from_packet(packet: &Packet) -> (p: PacketPretty)
        requires
            shows_content(packet@.1) ==> valid_utf8(packet@.2),
        ensures
            is_packet_pretty(packet@, p),
    {
        let kind = packet.kind();
        let content = match kind {
            PacketKind::MetaData | PacketKind::MetaDataEnd | PacketKind::Content => {
                match String::from_buff(packet.content().into_vec()) {
                    Ok(text) => text,
                    Err(_) => String::new(),
                }
            },
            _ => String::new(),
        };
        PacketPretty {
            size: packet.size() as usize,
            kind: PacketKindPretty::from_packet_kind(&kind),
            content,
        }
    }
}

} // verus!
