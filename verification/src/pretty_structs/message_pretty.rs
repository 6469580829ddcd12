use vstd::prelude::*;
use vstd::utf8::{decode_utf8, valid_utf8};

use crate::buffer::FromBuffer;
use crate::bytes::u64_from_be;
use crate::datetime::timestamp_in_range;
use crate::message::MessageKind;
use crate::packet::{MetaData, Packet};
use crate::pretty_structs::{
    MetaDataPretty, PacketPretty, shows_content, is_metadata_pretty, is_packet_pretty,
};

verus! {

/// Message in a form meant to be read by people.
#[derive(Debug, Clone)]
pub struct MessagePretty {
    pub kind: MessageKind,
    pub metadata: MetaDataPretty,
    pub content: String,
    pub end_data: PacketPretty,
}

impl MessagePretty {
    /// The readable form of a message of kind `kind` with `metadata`, `content` and
    /// `end_data`; the content is decoded as UTF-8.
    pub fn from_message(
        kind: MessageKind,
        metadata: &MetaData,
        content: Vec<u8>,
        end_data: &Packet,
    ) -> (p: MessagePretty)
        requires
            valid_utf8(content@),
            shows_content(end_data@.1) ==> valid_utf8(end_data@.2),
        ensures
            p.kind == kind,
            p.content@ == decode_utf8(content@),
            is_metadata_pretty(metadata@, p.metadata),
            is_packet_pretty(end_data@, p.end_data),
    {
        let content = match String::from_buff(content) {
            Ok(text) => text,
            Err(_) => String::new(),
        };
        MessagePretty {
            kind,
            metadata: MetaDataPretty::from_metadata(metadata),
            content,
            end_data: PacketPretty::from_packet(end_data),
        }
    }
}

} // verus!
