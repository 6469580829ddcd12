use vstd::prelude::*;

use crate::bytes::{be_u16, u16_from_be, lemma_u16_roundtrip, lemma_u16_bytes_roundtrip};
use crate::packet::{
    PacketKind, packet_bytes, packet_of_bytes, packet_kind_bytes, packet_kind_of,
    packet_size_for, law_packet_kind_roundtrip,
};

verus! {

/// A packet whose recorded size is its content length plus the four description
/// bytes, as every packet made by `Packet::new` from fewer than 65532 content
/// bytes is.
pub open spec fn size_consistent(p: (u16, PacketKind, Seq<u8>)) -> bool {
    p.0 as int == p.2.len() + 4
}

/// A packet made from `len` content bytes records its true size when `len` is
/// below 65532.
pub proof fn law_new_packet_size(kind: PacketKind, content: Seq<u8>)
    requires
        content.len() + 4 <= u16::MAX,
    ensures
        size_consistent((packet_size_for(content.len()), kind, content)),
{
}

/// A packet with a consistent size is written as exactly `size` bytes, and
/// reading those bytes gives back the same packet.
pub proof fn law_packet_bytes_roundtrip(p: (u16, PacketKind, Seq<u8>))
    requires
        size_consistent(p),
    ensures
        packet_bytes(p).len() == p.0,
        packet_bytes(p).len() >= 4,
        packet_of_bytes(packet_bytes(p)) == p,
{
    let b = packet_bytes(p);
    lemma_u16_roundtrip(p.0);
    law_packet_kind_roundtrip(p.1);
    assert(b[2] == packet_kind_bytes(p.1)[0]);
    assert(b[3] == packet_kind_bytes(p.1)[1]);
    assert(b.subrange(4, b.len() as int) =~= p.2);
    assert((b.len() % 0x10000) as u16 == p.0);
}

/// Bytes that begin with their own length and a kind's two bytes are read as a
/// packet that is written back as the same bytes.
pub proof fn law_bytes_packet_roundtrip(b: Seq<u8>)
    requires
        4 <= b.len() <= u16::MAX,
        u16_from_be(b) as int == b.len(),
        packet_kind_bytes(packet_kind_of(b[2], b[3])) == seq![b[2], b[3]],
    ensures
        packet_bytes(packet_of_bytes(b)) == b,
{
    let p = packet_of_bytes(b);
    assert(p.0 == u16_from_be(b));
    lemma_u16_bytes_roundtrip(b.subrange(0, 2));
    assert(u16_from_be(b.subrange(0, 2)) == u16_from_be(b));
    assert(packet_bytes(p) =~= b);
}

} // verus!
