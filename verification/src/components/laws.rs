use vstd::prelude::*;

use crate::bytes::{be_u64, lemma_u64_roundtrip};
use crate::components::buffer::{FromBuffer, ToBuffer};
use crate::components::message::{comp_content_of, comp_message_kind_bytes, comp_message_kind_of};
use crate::components::packet::{
    Packet, PacketKind, comp_packet_bytes, comp_packet_kind_accepts, comp_packet_kind_bytes,
    comp_packet_kind_read, lemma_padded_eight, comp_kind_size,
};
use crate::datetime::timestamp_in_range;
use crate::message::MessageKind;

verus! {

/// Whether `r` holds what `kind` holds once read back from its bytes: the same
/// variant with the same data, where the size of an empty, additional or content
/// kind becomes the length of its bytes (its content and the two kind bytes).
pub open spec fn comp_kind_read_back(kind: PacketKind, r: PacketKind) -> bool {
    match kind {
        PacketKind::Empty(_, c) => r matches PacketKind::Empty(s, c2) && c2@ == c@ && s == c@.len()
            + 2,
        PacketKind::MetaData(length, msg_kind, author_id, recipient_id, datetime) => r matches PacketKind::MetaData(
            length2,
            msg_kind2,
            author_id2,
            recipient_id2,
            datetime2,
        ) && length2 == length && msg_kind2 == msg_kind && author_id2 == author_id && recipient_id2
            == recipient_id && datetime2@ == datetime@,
        PacketKind::AddInfo(_, c) => r matches PacketKind::AddInfo(s, c2) && c2@ == c@ && s
            == c@.len() + 2,
        PacketKind::Content(_, c) => r matches PacketKind::Content(s, c2) && c2@ == c@ && s
            == c@.len() + 2,
        PacketKind::Request => r is Request,
        PacketKind::End => r is End,
        PacketKind::Unknown => r is Unknown,
    }
}

/// Writing a message kind in the components protocol and reading it back gives the same
/// kind.
pub proof fn law_comp_message_kind_roundtrip(kind: MessageKind)
    ensures
        MessageKind::from_buff_accepts(kind.spec_to_buff()),
        forall|r: MessageKind| MessageKind::from_buff_result(kind.spec_to_buff(), r) ==> r == kind,
{
}

/// Writing a `usize` in the components protocol and reading it back gives the same number.
pub proof fn law_comp_usize_roundtrip(x: usize)
    ensures
        usize::from_buff_accepts(x.spec_to_buff()),
        forall|r: usize| usize::from_buff_result(x.spec_to_buff(), r) ==> r == x,
{
    lemma_u64_roundtrip(x as u64);
    lemma_padded_eight(x.spec_to_buff());
}

/// Writing a packet kind in the components protocol and reading it back gives the same
/// variant with the same data; a time must be one that chrono represents.
pub proof fn law_comp_packet_kind_roundtrip(kind: PacketKind)
    requires
        kind matches PacketKind::MetaData(_, _, _, _, d) ==> timestamp_in_range(d@),
    ensures
        comp_packet_kind_accepts(comp_packet_kind_bytes(kind)),
        forall|r: PacketKind|
            comp_packet_kind_read(comp_packet_kind_bytes(kind), r) ==> comp_kind_read_back(kind, r),
{
    let b = comp_packet_kind_bytes(kind);
    match kind {
        PacketKind::MetaData(length, msg_kind, author_id, recipient_id, datetime) => {
            let t = datetime@;
            lemma_u64_roundtrip(length as u64);
            lemma_u64_roundtrip(author_id as u64);
            lemma_u64_roundtrip(recipient_id as u64);
            lemma_u64_roundtrip(t as u64);
            assert((t as u64) as i64 == t) by (bit_vector);
            assert(b.subrange(2, 10) =~= be_u64(length as u64));
            assert(b.subrange(12, 20) =~= be_u64(author_id as u64));
            assert(b.subrange(20, 28) =~= be_u64(recipient_id as u64));
            assert(b.subrange(28, 36) =~= be_u64(t as u64));
            assert(b[10] == comp_message_kind_bytes(msg_kind)[0]);
            assert(comp_message_kind_of(comp_message_kind_bytes(msg_kind)[0]) == msg_kind);
        },
        PacketKind::Empty(_, c) => {
            assert(b.subrange(2, b.len() as int) =~= c@);
        },
        PacketKind::AddInfo(_, c) => {
            assert(b.subrange(2, b.len() as int) =~= c@);
        },
        PacketKind::Content(_, c) => {
            assert(b.subrange(2, b.len() as int) =~= c@);
        },
        _ => {},
    }
}

/// Writing a packet in the components protocol and reading it back gives a packet whose size
/// is the number of bytes written and whose kind holds what the packet's kind held.
pub proof fn law_comp_packet_roundtrip(p: Packet)
    requires
        p.spec_kind() matches PacketKind::MetaData(_, _, _, _, d) ==> timestamp_in_range(d@),
    ensures
        Packet::from_buff_accepts(p.spec_to_buff()),
        forall|r: Packet|
            Packet::from_buff_result(p.spec_to_buff(), r) ==> r.spec_size() == p.spec_to_buff().len()
                && comp_kind_read_back(p.spec_kind(), r.spec_kind()),
{
    let b = comp_packet_bytes(p.spec_size(), p.spec_kind());
    law_comp_packet_kind_roundtrip(p.spec_kind());
    assert(b.subrange(8, b.len() as int) =~= comp_packet_kind_bytes(p.spec_kind()));
}


/// Whether the size recorded in `kind` is the length of its content, as for every
/// kind that `PacketKind::new_empty`, `new_add_info` and `new_content` make, and
/// for every kind without content.
pub open spec fn comp_kind_consistent(kind: PacketKind) -> bool {
    match kind {
        PacketKind::Empty(s, c) => s == c@.len(),
        PacketKind::AddInfo(s, c) => s == c@.len(),
        PacketKind::Content(s, c) => s == c@.len(),
        _ => true,
    }
}

/// A packet made by `Packet::new` from a kind whose recorded size is the length
/// of its content is written as exactly as many bytes as its size records.
pub proof fn law_comp_packet_length(p: Packet)
    requires
        p.spec_size() == comp_kind_size(p.spec_kind()) + 10,
        comp_kind_consistent(p.spec_kind()),
    ensures
        p.spec_to_buff().len() == p.spec_size(),
{
}


/// A message's content grows by the data of each content packet added to it,
/// whatever size that packet records, and stays the same when any other packet
/// is added: the content is the data of all content packets, joined in order.
pub proof fn law_comp_content_joins_content_data(packets: Seq<Packet>, p: Packet)
    ensures
        p.spec_kind() matches PacketKind::Content(_, data) ==> comp_content_of(packets.push(p))
            == comp_content_of(packets) + data@,
        !(p.spec_kind() is Content) ==> comp_content_of(packets.push(p)) == comp_content_of(packets),
        comp_content_of(Seq::<Packet>::empty()) == Seq::<u8>::empty(),
{
    assert(packets.push(p).drop_last() =~= packets);
    assert(comp_content_of(packets.push(p)) == comp_content_of(packets) + match p.spec_kind() {
        PacketKind::Content(_, data) => data@,
        _ => Seq::<u8>::empty(),
    });
    if !(p.spec_kind() is Content) {
        assert(comp_content_of(packets) + Seq::<u8>::empty() =~= comp_content_of(packets));
    }
}

} // verus!
