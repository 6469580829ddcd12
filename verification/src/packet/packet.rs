use vstd::prelude::*;
use vstd::slice::slice_subrange;

use crate::bytes::{Bytes, FromBytes, IntoBytes, be_u16, u16_to_be};
use crate::config::{MAX_PACKET_CONTENT_SIZE, MAX_PACKET_SIZE, PACKET_DESCRIPTION_SIZE};
use crate::error::{NetCommsError, NetCommsErrorKind};
use crate::packet::{PacketKind, packet_kind_bytes, packet_kind_of};
use crate::packet::chunks::{chunks_of, chunk_count, itertools_chunks};

verus! {

/// Gives structure to data to be sent or received from a stream.
///
/// * `size` -- size of the whole packet in bytes, description included.
/// * `kind` -- kind of the packet.
/// * `content` -- data stored in the packet.
///
/// Its view is the triple `(size, kind, content)`.
#[derive(Debug, Clone)]
pub struct Packet {
    size: u16,
    kind: PacketKind,
    content: Bytes,
}

impl View for Packet {
    type V = (u16, PacketKind, Seq<u8>);

    closed spec fn view(&self) -> (u16, PacketKind, Seq<u8>) {
        (self.size, self.kind, self.content@)
    }
}

/// Size that a packet with `content_len` content bytes records: the description
/// plus the content length, both taken as a `u16`.
pub open spec fn packet_size_for(content_len: nat) -> u16 {
    (PACKET_DESCRIPTION_SIZE + (content_len % 0x10000)) as u16
}

/// The bytes that a packet is written as: its size in two big-endian bytes, its
/// kind in two bytes, then its content.
pub open spec fn packet_bytes(p: (u16, PacketKind, Seq<u8>)) -> Seq<u8> {
    be_u16(p.0) + packet_kind_bytes(p.1) + p.2
}

/// The packet that `bytes` is read as: its size is the number of bytes, its kind
/// the bytes at 2 and 3, its content what follows.
pub open spec fn packet_of_bytes(bytes: Seq<u8>) -> (u16, PacketKind, Seq<u8>) {
    ((bytes.len() % 0x10000) as u16, packet_kind_of(bytes[2], bytes[3]), bytes.subrange(4, bytes.len() as int))
}

/// Number of packets needed to carry `length` bytes of content, as a `u32`.
pub open spec fn packets_needed(length: nat) -> u32 {
    (chunk_count(length, MAX_PACKET_CONTENT_SIZE as nat) % 0x1_0000_0000) as u32
}

impl Default for Packet {
    fn default() -> (p: Packet)
        ensures
            p@ == (PACKET_DESCRIPTION_SIZE, PacketKind::Empty, Seq::<u8>::empty()),
    {
        Packet { size: PACKET_DESCRIPTION_SIZE, kind: PacketKind::Empty, content: Bytes::new() }
    }
}

impl FromBytes for Packet {
    open spec fn from_bytes_accepts(bytes: Seq<u8>) -> bool {
        true
    }

    /// At least four bytes are needed; otherwise the result is an error.
    open spec fn from_bytes_result(bytes: Seq<u8>, r: Result<Packet, NetCommsError>) -> bool {
        match r {
            Ok(p) => bytes.len() >= 4 && p@ == packet_of_bytes(bytes),
            Err(e) => bytes.len() < 4 && e.kind is InvalidBufferSize,
        }
    }

    fn from_bytes(bytes: Bytes) -> (r: Result<Packet, NetCommsError>) {
        Packet::from_buff(bytes.as_slice())
    }

    fn from_buff(buff: &[u8]) -> (r: Result<Packet, NetCommsError>) {
        if buff.len() < PACKET_DESCRIPTION_SIZE as usize {
            return Err(NetCommsError::new(
                NetCommsErrorKind::InvalidBufferSize,
                Some(String::from_str("Converting bytes to a packet requires at least 4 bytes.")),
            ));
        }
        let size = buff.len();
        let kind = match PacketKind::from_buff(slice_subrange(buff, 2, 4)) {
            Ok(kind) => kind,
            Err(e) => return Err(e),
        };
        let content = vstd::slice::slice_to_vec(slice_subrange(buff, 4, size));
        assert(size as u16 == size % 0x10000) by (bit_vector);
        Ok(Packet { size: size as u16, kind, content: Bytes::from_vec(content) })
    }
}

impl IntoBytes for Packet {
    open spec fn spec_into_bytes(self) -> Seq<u8> {
        packet_bytes(self@)
    }

    fn into_bytes(self) -> (b: Bytes) {
        let mut bytes = Bytes::new();
        let mut size = Bytes::from_vec(u16_to_be(self.size));
        bytes.append(&mut size);
        let mut kind = self.kind.into_bytes();
        bytes.append(&mut kind);
        let mut content = self.content;
        bytes.append(&mut content);
        bytes
    }
}

impl Packet {
    /// Creates a new packet; its size is derived from its content.
    pub fn new(kind: PacketKind, content: Bytes) -> (p: Packet)
        requires
            content@.len() % 0x10000 + PACKET_DESCRIPTION_SIZE <= u16::MAX,
        ensures
            p@ == (packet_size_for(content@.len()), kind, content@),
    {
        let len = content.len();
        assert(len as u16 == len % 0x10000) by (bit_vector);
        let size = PACKET_DESCRIPTION_SIZE + len as u16;
        Packet { size, kind, content }
    }

    /// Creates a packet from its size, kind and content as they are given.
    pub fn from_parts(size: u16, kind: PacketKind, content: Bytes) -> (p: Packet)
        ensures
            p@ == (size, kind, content@),
    {
        Packet { size, kind, content }
    }

    /// Number of packets needed to carry `length` bytes of content.
    pub fn number_of_packets(length: usize) -> (n: u32)
        ensures
            n == packets_needed(length as nat),
    {
        let max = Packet::max_content_size() as usize;
        let mut number_of_packets = length / max;
        if length % max != 0 {
            number_of_packets = number_of_packets + 1;
        }
        assert(number_of_packets == chunk_count(length as nat, MAX_PACKET_CONTENT_SIZE as nat));
        proof {
            let n = number_of_packets;
            let n64 = n as u64;
            assert(n64 as u32 == n64 % 0x1_0000_0000u64) by (bit_vector);
            assert((n as u64) as u32 == n as u32) by (bit_vector);
        }
        number_of_packets as u32
    }

    /// Splits `buffer` into consecutive pieces that each fit into one packet.
    pub fn split_to_max_packet_size(buffer: Bytes) -> (pieces: Vec<Bytes>)
        ensures
            pieces@.map_values(|b: Bytes| b@) == chunks_of(buffer@, MAX_PACKET_CONTENT_SIZE as nat),
    {
        let chunks = itertools_chunks(buffer.into_vec(), Packet::max_content_size() as usize);
        let ghost expected = chunks_of(buffer@, MAX_PACKET_CONTENT_SIZE as nat);
        let mut pieces: Vec<Bytes> = Vec::new();
        let mut i: usize = 0;
        let mut chunks = chunks;
        let ghost all = chunks@;
        proof {
            assert(all.map_values(|c: Vec<u8>| c@).len() == all.len());
        }
        while i < chunks.len()
            invariant
                i <= chunks@.len(),
                chunks@ == all,
                all.map_values(|c: Vec<u8>| c@) == expected,
                pieces@.len() == i,
                forall|j: int| 0 <= j < i ==> #[trigger] pieces@[j]@ == expected[j],
            decreases chunks@.len() - i,
        {
            let chunk = chunks[i].clone();
            proof {
                assert(all.map_values(|c: Vec<u8>| c@)[i as int] == all[i as int]@);
                assert(chunk@ =~= all[i as int]@);
            }
            pieces.push(Bytes::from_vec(chunk));
            i = i + 1;
        }
        proof {
            assert(all.map_values(|c: Vec<u8>| c@).len() == all.len());
            assert(pieces@.map_values(|b: Bytes| b@) =~= expected);
        }
        pieces
    }

    /// Returns `size`.
    pub fn size(&self) -> (size: u16)
        ensures
            size == self@.0,
    {
        self.size
    }

    /// Returns `kind`.
    pub fn kind(&self) -> (kind: PacketKind)
        ensures
            kind == self@.1,
    {
        self.kind
    }

    /// Returns a copy of `content`.
    pub fn content(&self) -> (content: Bytes)
        ensures
            content@ == self@.2,
    {
        Bytes::from_vec(self.content.vec())
    }

    /// Returns a reference to `content`.
    pub fn content_ref(&self) -> (content: &Bytes)
        ensures
            content@ == self@.2,
    {
        &self.content
    }

    /// Returns a mutable reference to `content`.
    pub fn content_mut(&mut self) -> (content: &mut Bytes)
        ensures
            content@ == old(self)@.2,
            final(self)@ == (old(self)@.0, old(self)@.1, final(content)@),
    {
        &mut self.content
    }

    /// Consumes `self` and returns `content`.
    pub fn content_move(self) -> (content: Bytes)
        ensures
            content@ == self@.2,
    {
        self.content
    }

    /// Maximum number of bytes that one packet can hold.
    pub fn max_size() -> (size: u16)
        ensures
            size == MAX_PACKET_SIZE,
    {
        MAX_PACKET_SIZE
    }

    /// Maximum number of content bytes that one packet can hold: the maximum size
    /// less the description.
    pub fn max_content_size() -> (size: u16)
        ensures
            size == MAX_PACKET_CONTENT_SIZE,
    {
        MAX_PACKET_SIZE - PACKET_DESCRIPTION_SIZE
    }
}

} // verus!
