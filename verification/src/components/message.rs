use vstd::prelude::*;

use crate::components::buffer::{FromBuffer, ToBuffer};
use crate::components::packet::{Packet, PacketKind};
use crate::message::MessageKind;

verus! {

/// The two bytes that `kind` is written as in the components protocol.
pub open spec fn comp_message_kind_bytes(kind: MessageKind) -> Seq<u8> {
    match kind {
        MessageKind::Empty => seq![0u8, 0u8],
        MessageKind::Request => seq![1u8, 0u8],
        MessageKind::Text => seq![2u8, 0u8],
        MessageKind::File => seq![3u8, 0u8],
        MessageKind::Unknown => seq![255u8, 0u8],
    }
}

/// The kind that a buffer starting with `b0` is read as.
pub open spec fn comp_message_kind_of(b0: u8) -> MessageKind {
    if b0 == 0 {
        MessageKind::Empty
    } else if b0 == 1 {
        MessageKind::Request
    } else if b0 == 2 {
        MessageKind::Text
    } else if b0 == 3 {
        MessageKind::File
    } else {
        MessageKind::Unknown
    }
}

impl ToBuffer for MessageKind {
    open spec fn spec_to_buff(self) -> Seq<u8> {
        comp_message_kind_bytes(self)
    }

    fn to_buff(self) -> (buff: Vec<u8>) {
        let b0: u8 = match self {
            MessageKind::Empty => 0,
            MessageKind::Request => 1,
            MessageKind::Text => 2,
            MessageKind::File => 3,
            MessageKind::Unknown => 255,
        };
        let v = vec![b0, 0u8];
        assert(v@ =~= comp_message_kind_bytes(self));
        assert(v@ == self.spec_to_buff());
        v
    }
}

/// The first byte decides the kind.
impl FromBuffer for MessageKind {
    open spec fn from_buff_accepts(buff: Seq<u8>) -> bool {
        buff.len() >= 1
    }

    open spec fn from_buff_result(buff: Seq<u8>, r: MessageKind) -> bool {
        r == comp_message_kind_of(buff[0])
    }

    fn from_buff(buff: Vec<u8>) -> (r: MessageKind) {
        match buff[0] {
            0 => MessageKind::Empty,
            1 => MessageKind::Request,
            2 => MessageKind::Text,
            3 => MessageKind::File,
            _ => MessageKind::Unknown,
        }
    }
}


/// A message in the components protocol: its kind, its metadata packet,
/// its additional information packets and its content packets.
#[derive(Debug)]
pub struct Message {
    pub kind: MessageKind,
    pub metadata: Packet,
    pub add_info: Vec<Packet>,
    pub content: Vec<Packet>,
}

/// The content carried by `packets`: the data of their content packets, joined in
/// order; other packets carry none.
pub open spec fn comp_content_of(packets: Seq<Packet>) -> Seq<u8>
    decreases packets.len(),
{
    if packets.len() == 0 {
        seq![]
    } else {
        comp_content_of(packets.drop_last()) + match packets.last().spec_kind() {
            PacketKind::Content(_, data) => data@,
            _ => Seq::<u8>::empty(),
        }
    }
}

/// Whether a message whose metadata packet has kind `metadata` is complete after
/// `received` packets: the metadata say how many packets the message has.
pub open spec fn comp_message_complete(metadata: PacketKind, received: usize) -> bool {
    metadata matches PacketKind::MetaData(length, ..) && received == length
}

impl Message {
    /// A new message of unknown kind, with an empty metadata packet and no other
    /// packets.
    pub fn new() -> (m: Message)
        ensures
            m.kind == MessageKind::Unknown,
            m.metadata.spec_size() == 10,
            m.metadata.spec_kind() matches PacketKind::Empty(s, c) && s == 0 && c@.len() == 0,
            m.add_info@.len() == 0,
            m.content@.len() == 0,
    {
        Message {
            kind: MessageKind::Unknown,
            metadata: Packet::new_empty(),
            add_info: Vec::new(),
            content: Vec::new(),
        }
    }

    /// Sets the kind of the message.
    pub fn set_kind(&mut self, kind: MessageKind)
        ensures
            final(self).kind == kind,
            final(self).metadata == old(self).metadata,
            final(self).add_info == old(self).add_info,
            final(self).content == old(self).content,
    {
        self.kind = kind
    }

    /// Sets the metadata packet; if it is a metadata packet, the kind of the
    /// message becomes the kind that it records.
    pub fn set_metadata(&mut self, metadata: Packet)
        ensures
            final(self).metadata == metadata,
            final(self).kind == match metadata.spec_kind() {
                PacketKind::MetaData(_, kind, ..) => kind,
                _ => old(self).kind,
            },
            final(self).add_info == old(self).add_info,
            final(self).content == old(self).content,
    {
        if let PacketKind::MetaData(_, kind, ..) = metadata.kind_ref() {
            self.kind = *kind;
        }
        self.metadata = metadata
    }

    /// Adds an additional information packet.
    pub fn push_add_info(&mut self, add_info: Packet)
        ensures
            final(self).add_info@ == old(self).add_info@.push(add_info),
            final(self).kind == old(self).kind,
            final(self).metadata == old(self).metadata,
            final(self).content == old(self).content,
    {
        self.add_info.push(add_info)
    }

    /// Adds a content packet.
    pub fn push_content(&mut self, content: Packet)
        ensures
            final(self).content@ == old(self).content@.push(content),
            final(self).kind == old(self).kind,
            final(self).metadata == old(self).metadata,
            final(self).add_info == old(self).add_info,
    {
        self.content.push(content)
    }

    /// Takes ownership of `self` and returns the data of its content packets,
    /// joined in order.
    pub fn get_content(self) -> (content: Vec<u8>)
        ensures
            content@ == comp_content_of(self.content@),
    {
        let mut content: Vec<u8> = Vec::new();
        let packets = self.content;
        let ghost all = packets@;
        let mut packets = packets;
        let mut i: usize = 0;
        let mut taken: Vec<Packet> = Vec::new();
        while i < packets.len()
            invariant
                i <= all.len(),
                packets@.len() == all.len(),
                forall|j: int| i <= j < all.len() ==> packets@[j] == all[j],
                content@ == comp_content_of(all.subrange(0, i as int)),
            decreases all.len() - i,
        {
            let packet = packets.remove(i);
            packets.insert(i, Packet::new_empty());
            assert(packet == all[i as int]);
            proof {
                assert(all.subrange(0, i + 1).drop_last() =~= all.subrange(0, i as int));
                assert(all.subrange(0, i + 1).last() == packet);
            }
            if let PacketKind::Content(_, data) = packet.get_contents() {
                crate::components::buffer::write_to_buff(&mut content, data.as_slice());
            }
            i = i + 1;
        }
        assert(all.subrange(0, all.len() as int) =~= all);
        content
    }

    /// Handles `packet`, the `received`-th packet of the message, and tells
    /// whether the message is complete. Metadata packets become the metadata,
    /// additional information and content packets are added, end packets are added
    /// to the content, and other packets are passed over. The message is complete
    /// when its metadata say that it has `received` packets.
    pub fn receive_packet(&mut self, packet: Packet, received: usize) -> (complete: bool)
        ensures
            match packet.spec_kind() {
                PacketKind::MetaData(_, kind, ..) => final(self).metadata == packet && final(self).kind
                    == kind && final(self).add_info == old(self).add_info && final(self).content
                    == old(self).content,
                PacketKind::AddInfo(..) => final(self).add_info@ == old(self).add_info@.push(packet)
                    && final(self).kind == old(self).kind && final(self).metadata == old(self).metadata
                    && final(self).content == old(self).content,
                PacketKind::Content(..) | PacketKind::End => final(self).content@ == old(
                    self,
                ).content@.push(packet) && final(self).kind == old(self).kind
                    && final(self).metadata == old(self).metadata && final(self).add_info == old(
                    self,
                ).add_info,
                _ => *final(self) == *old(self),
            },
            complete == comp_message_complete(final(self).metadata.spec_kind(), received),
    {
        match packet.kind_ref() {
            PacketKind::Empty(..) => {},
            PacketKind::MetaData(..) => {
                self.set_metadata(packet);
            },
            PacketKind::AddInfo(..) => {
                self.push_add_info(packet);
            },
            PacketKind::Content(..) => {
                self.push_content(packet);
            },
            PacketKind::Request => {},
            PacketKind::End => {
                self.push_content(packet);
            },
            PacketKind::Unknown => {},
        }
        if let PacketKind::MetaData(length, ..) = self.metadata.kind_ref() {
            received == *length
        } else {
            false
        }
    }
}

} // verus!
