use vstd::prelude::*;

use crate::bytes::Bytes;
use crate::config::{MAX_PACKET_CONTENT_SIZE, MAX_PACKET_SIZE};
use crate::error::{NetCommsError, NetCommsErrorKind};
use crate::packet::{
    Packet, PacketKind, chunk_count, chunks_of, join_chunks, lemma_chunks_of_shape, lemma_join_chunks_of,
    packet_size_for, packets_needed, size_consistent,
};

verus! {

/// The packets, as views, in which `content` is sent: one content packet for each
/// piece of at most [MAX_PACKET_CONTENT_SIZE] bytes, in order.
pub open spec fn content_packets_of(content: Seq<u8>) -> Seq<(u16, PacketKind, Seq<u8>)> {
    chunks_of(content, MAX_PACKET_CONTENT_SIZE as nat).map_values(
        |piece: Seq<u8>| (packet_size_for(piece.len()), PacketKind::Content, piece),
    )
}

/// What receiving the packets `packets` in order makes of the content `acc`
/// received before them: content packets add their content, an end packet
/// finishes with the content gathered so far, any other packet is an error, and
/// running out of packets before an end packet gives nothing.
pub open spec fn received_content(acc: Seq<u8>, packets: Seq<(u16, PacketKind, Seq<u8>)>) -> Option<
    Seq<u8>,
>
    decreases packets.len(),
{
    if packets.len() == 0 {
        None
    } else {
        match packets[0].1 {
            PacketKind::Content => received_content(acc + packets[0].2, packets.drop_first()),
            PacketKind::End => Some(acc),
            _ => None,
        }
    }
}

/// Builds the packets in which `content` is sent: it is split into pieces that fit
/// into one packet each, and every piece becomes a content packet.
pub fn content_packets(content: Bytes) -> (packets: Vec<Packet>)
    ensures
        packets@.map_values(|p: Packet| p@) == content_packets_of(content@),
{
    let pieces = Packet::split_to_max_packet_size(content);
    let ghost expected = content_packets_of(content@);
    let ghost chunks = chunks_of(content@, MAX_PACKET_CONTENT_SIZE as nat);
    proof {
        lemma_chunks_of_shape(content@, MAX_PACKET_CONTENT_SIZE as nat);
        assert(pieces@.map_values(|b: Bytes| b@).len() == pieces@.len());
    }
    let mut packets: Vec<Packet> = Vec::new();
    let mut pieces = pieces;
    let ghost all = pieces@;
    let mut i: usize = 0;
    while i < pieces.len()
        invariant
            i <= pieces@.len(),
            pieces@ == all,
            all.map_values(|b: Bytes| b@) == chunks,
            chunks.len() == all.len(),
            forall|j: int| 0 <= j < chunks.len() ==> #[trigger] chunks[j].len() <= MAX_PACKET_CONTENT_SIZE,
            expected == chunks.map_values(
                |piece: Seq<u8>| (packet_size_for(piece.len()), PacketKind::Content, piece),
            ),
            packets@.len() == i,
            forall|j: int| 0 <= j < i ==> #[trigger] packets@[j]@ == expected[j],
        decreases pieces@.len() - i,
    {
        let piece = Bytes::from_vec(pieces[i].vec());
        proof {
            assert(all.map_values(|b: Bytes| b@)[i as int] == all[i as int]@);
            assert(chunks[i as int].len() <= MAX_PACKET_CONTENT_SIZE);
        }
        packets.push(Packet::new(PacketKind::Content, piece));
        i = i + 1;
    }
    proof {
        assert(packets@.map_values(|p: Packet| p@) =~= expected);
    }
    packets
}

/// Decides what to do with `packet` while receiving the content of a message:
///
/// * a content packet: its content is added to `content`, and receiving goes on
///   (`Ok(None)`);
/// * an end packet: receiving is finished, and the packet is handed back as the
///   end data of the message (`Ok(Some(packet))`);
/// * an empty or metadata packet: an `InvalidPacketKind` error;
/// * an unknown packet: an `UnknownMessageKind` error.
pub fn receive_content_packet(content: &mut Bytes, packet: Packet) -> (r: Result<
    Option<Packet>,
    NetCommsError,
>)
    ensures
        packet@.1 == PacketKind::Content ==> (r matches Ok(None) && final(content)@ == old(
            content,
        )@ + packet@.2),
        packet@.1 != PacketKind::Content ==> final(content)@ == old(content)@,
        packet@.1 == PacketKind::End ==> (r matches Ok(Some(p)) && p@ == packet@),
        (packet@.1 == PacketKind::Empty || packet@.1 == PacketKind::MetaData || packet@.1
            == PacketKind::MetaDataEnd) ==> (r matches Err(e) && e.kind is InvalidPacketKind),
        packet@.1 == PacketKind::Unknown ==> (r matches Err(e) && e.kind is UnknownMessageKind),
{
    let mut packet = packet;
    match packet.kind() {
        PacketKind::Empty => Err(NetCommsError::new(
            NetCommsErrorKind::InvalidPacketKind,
            Some(String::from_str("Expected content packet, got empty.")),
        )),
        PacketKind::MetaData | PacketKind::MetaDataEnd => Err(NetCommsError::new(
            NetCommsErrorKind::InvalidPacketKind,
            Some(String::from_str("Expected content packet, got metadata.")),
        )),
        PacketKind::Content => {
            content.append(packet.content_mut());
            Ok(None)
        },
        PacketKind::End => Ok(Some(packet)),
        PacketKind::Unknown => Err(NetCommsError::new(NetCommsErrorKind::UnknownMessageKind, None)),
    }
}

proof fn lemma_received_chunks(acc: Seq<u8>, chunks: Seq<Seq<u8>>, end: (u16, PacketKind, Seq<u8>))
    requires
        end.1 == PacketKind::End,
    ensures
        received_content(
            acc,
            chunks.map_values(
                |piece: Seq<u8>| (packet_size_for(piece.len()), PacketKind::Content, piece),
            ).push(end),
        ) == Some(acc + join_chunks(chunks)),
    decreases chunks.len(),
{
    let f = |piece: Seq<u8>| (packet_size_for(piece.len()), PacketKind::Content, piece);
    let ps = chunks.map_values(f).push(end);
    if chunks.len() == 0 {
        assert(ps =~= seq![end]);
        assert(acc + join_chunks(chunks) =~= acc);
    } else {
        lemma_received_chunks(acc + chunks[0], chunks.drop_first(), end);
        assert(ps.drop_first() =~= chunks.drop_first().map_values(f).push(end));
        assert(ps[0] == f(chunks[0]));
        assert(acc + chunks[0] + join_chunks(chunks.drop_first()) =~= acc + join_chunks(chunks));
    }
}

/// Receiving the packets in which a content is sent, followed by an end packet,
/// gives back exactly that content.
pub proof fn law_content_send_receive(content: Seq<u8>, end: (u16, PacketKind, Seq<u8>))
    requires
        end.1 == PacketKind::End,
    ensures
        received_content(Seq::empty(), content_packets_of(content).push(end)) == Some(content),
{
    let chunks = chunks_of(content, MAX_PACKET_CONTENT_SIZE as nat);
    lemma_received_chunks(Seq::empty(), chunks, end);
    lemma_join_chunks_of(content, MAX_PACKET_CONTENT_SIZE as nat);
    assert(Seq::<u8>::empty() + join_chunks(chunks) =~= content);
}


/// What to do with a packet received while a file is received.
#[derive(Debug)]
pub enum FileStep {
    /// Write `content` to the file; `received` content packets have arrived so far.
    Write { content: Bytes, received: usize },
    /// The file is complete after `received` content packets; `end` is the end
    /// packet of the message.
    Finish { received: usize, end: Packet },
}

/// What receiving the packets `packets` in order makes of a file into which
/// `written` was written from `count` content packets before them: content packets
/// are written and counted, an end packet finishes with the count and what was
/// written, any other packet is an error, and running out of packets before an end
/// packet gives nothing.
pub open spec fn received_file(count: nat, written: Seq<u8>, packets: Seq<(u16, PacketKind, Seq<u8>)>) -> Option<
    (nat, Seq<u8>),
>
    decreases packets.len(),
{
    if packets.len() == 0 {
        None
    } else {
        match packets[0].1 {
            PacketKind::Content => received_file(count + 1, written + packets[0].2, packets.drop_first()),
            PacketKind::End => Some((count, written)),
            _ => None,
        }
    }
}

/// Decides what to do with `packet` while a file is received, after `received`
/// content packets:
///
/// * a content packet: its content is to be written, and it is counted;
/// * an end packet: the file is complete, and the packet is the end data of the
///   message;
/// * an empty or metadata packet: an `InvalidPacketKind` error;
/// * an unknown packet: an `UnknownMessageKind` error.
pub fn receive_file_packet(received: usize, packet: Packet) -> (r: Result<FileStep, NetCommsError>)
    requires
        received < usize::MAX,
    ensures
        packet@.1 == PacketKind::Content ==> (r matches Ok(FileStep::Write { content, received: n })
            && content@ == packet@.2 && n == received + 1),
        packet@.1 == PacketKind::End ==> (r matches Ok(FileStep::Finish { received: n, end }) && n
            == received && end@ == packet@),
        (packet@.1 == PacketKind::Empty || packet@.1 == PacketKind::MetaData || packet@.1
            == PacketKind::MetaDataEnd) ==> (r matches Err(e) && e.kind is InvalidPacketKind),
        packet@.1 == PacketKind::Unknown ==> (r matches Err(e) && e.kind is UnknownMessageKind),
{
    match packet.kind() {
        PacketKind::Empty => Err(NetCommsError::new(
            NetCommsErrorKind::InvalidPacketKind,
            Some(String::from_str("Expected content packet, got empty.")),
        )),
        PacketKind::MetaData | PacketKind::MetaDataEnd => Err(NetCommsError::new(
            NetCommsErrorKind::InvalidPacketKind,
            Some(String::from_str("Expected content packet, got metadata.")),
        )),
        PacketKind::Content => Ok(FileStep::Write { content: packet.content_move(), received: received + 1 }),
        PacketKind::End => Ok(FileStep::Finish { received, end: packet }),
        PacketKind::Unknown => Err(NetCommsError::new(NetCommsErrorKind::UnknownMessageKind, None)),
    }
}

proof fn lemma_received_file_chunks(
    count: nat,
    written: Seq<u8>,
    chunks: Seq<Seq<u8>>,
    end: (u16, PacketKind, Seq<u8>),
)
    requires
        end.1 == PacketKind::End,
    ensures
        received_file(
            count,
            written,
            chunks.map_values(
                |piece: Seq<u8>| (packet_size_for(piece.len()), PacketKind::Content, piece),
            ).push(end),
        ) == Some((count + chunks.len(), written + join_chunks(chunks))),
    decreases chunks.len(),
{
    let f = |piece: Seq<u8>| (packet_size_for(piece.len()), PacketKind::Content, piece);
    let ps = chunks.map_values(f).push(end);
    if chunks.len() == 0 {
        assert(ps =~= seq![end]);
        assert(written + join_chunks(chunks) =~= written);
    } else {
        lemma_received_file_chunks(count + 1, written + chunks[0], chunks.drop_first(), end);
        assert(ps.drop_first() =~= chunks.drop_first().map_values(f).push(end));
        assert(ps[0] == f(chunks[0]));
        assert(written + chunks[0] + join_chunks(chunks.drop_first()) =~= written + join_chunks(
            chunks,
        ));
    }
}

/// Receiving, as a file, the packets in which a content is sent, followed by an
/// end packet, writes exactly that content and counts one packet for each content
/// packet sent.
pub proof fn law_file_send_receive(content: Seq<u8>, end: (u16, PacketKind, Seq<u8>))
    requires
        end.1 == PacketKind::End,
    ensures
        received_file(0, Seq::empty(), content_packets_of(content).push(end)) == Some(
            (content_packets_of(content).len(), content),
        ),
{
    let chunks = chunks_of(content, MAX_PACKET_CONTENT_SIZE as nat);
    lemma_received_file_chunks(0, Seq::empty(), chunks, end);
    lemma_join_chunks_of(content, MAX_PACKET_CONTENT_SIZE as nat);
    assert(Seq::<u8>::empty() + join_chunks(chunks) =~= content);
}


/// Every packet in which a content is sent records its true size, which is at
/// most the maximum packet size.
pub proof fn law_content_packets_fit(content: Seq<u8>)
    ensures
        forall|i: int|
            0 <= i < content_packets_of(content).len() ==> {
                &&& size_consistent(#[trigger] content_packets_of(content)[i])
                &&& content_packets_of(content)[i].0 <= MAX_PACKET_SIZE
            },
{
    lemma_chunks_of_shape(content, MAX_PACKET_CONTENT_SIZE as nat);
}

/// `Packet::number_of_packets` counts exactly the packets in which a content of
/// that length is sent, as long as the count fits into a `u32`.
pub proof fn law_number_of_packets_matches_split(content: Seq<u8>)
    requires
        chunk_count(content.len(), MAX_PACKET_CONTENT_SIZE as nat) < 0x1_0000_0000,
    ensures
        packets_needed(content.len()) == content_packets_of(content).len(),
{
    lemma_chunks_of_shape(content, MAX_PACKET_CONTENT_SIZE as nat);
}


/// How much of a file is read for one of the packets that it is sent in.
#[derive(Debug, PartialEq, Eq, Structural)]
pub enum FileRead {
    /// Exactly this many bytes.
    Exact(usize),
    /// Everything that is left.
    Rest,
}

/// Decides how much of a file is read for part `part` of `parts` (counted from
/// 1): a full packet's content for every part but the last, which takes the rest.
pub fn file_read_for_part(part: u32, parts: u32) -> (r: FileRead)
    requires
        1 <= part <= parts,
    ensures
        part < parts ==> r == FileRead::Exact(MAX_PACKET_CONTENT_SIZE as usize),
        part == parts ==> r == FileRead::Rest,
{
    if part == parts {
        FileRead::Rest
    } else {
        FileRead::Exact(Packet::max_content_size() as usize)
    }
}

/// The pieces in which a file with the bytes `content` is read when it is sent in
/// `parts` packets: a full packet's content for every part but the last, which
/// takes the rest.
pub open spec fn file_parts(content: Seq<u8>, parts: nat) -> Seq<Seq<u8>>
    decreases parts,
{
    if parts == 0 {
        seq![]
    } else if parts == 1 {
        seq![content]
    } else {
        seq![content.take(MAX_PACKET_CONTENT_SIZE as int)] + file_parts(
            content.skip(MAX_PACKET_CONTENT_SIZE as int),
            (parts - 1) as nat,
        )
    }
}

/// A file read in as many parts as `Packet::number_of_packets` counts for its
/// length is read in exactly the pieces in which its bytes are sent as content,
/// and the file holds a full packet's content for every part but the last.
pub proof fn law_file_parts_are_chunks(content: Seq<u8>)
    requires
        chunk_count(content.len(), MAX_PACKET_CONTENT_SIZE as nat) < 0x1_0000_0000,
    ensures
        file_parts(content, packets_needed(content.len()) as nat) == chunks_of(
            content,
            MAX_PACKET_CONTENT_SIZE as nat,
        ),
        packets_needed(content.len()) > 0 ==> (packets_needed(content.len()) - 1)
            * MAX_PACKET_CONTENT_SIZE <= content.len(),
{
    lemma_file_parts_are_chunks(content);
    let n = MAX_PACKET_CONTENT_SIZE as int;
    let len = content.len() as int;
    let c = packets_needed(content.len()) as int;
    if c > 0 {
        assert(c - 1 <= len / n);
        assert((c - 1) * n <= (len / n) * n) by (nonlinear_arith)
            requires
                c - 1 <= len / n,
                n > 0,
        ;
        assert((len / n) * n <= len) by (nonlinear_arith)
            requires
                n > 0,
                len >= 0,
        ;
    }
}

proof fn lemma_file_parts_are_chunks(content: Seq<u8>)
    ensures
        file_parts(content, chunk_count(content.len(), MAX_PACKET_CONTENT_SIZE as nat)) == chunks_of(
            content,
            MAX_PACKET_CONTENT_SIZE as nat,
        ),
    decreases content.len(),
{
    let n = MAX_PACKET_CONTENT_SIZE as nat;
    let len = content.len();
    if len == 0 {
        assert(chunk_count(len, n) == 0);
    } else if len <= n {
        assert(chunk_count(len, n) == 1) by {
            if len == n {
                assert(len / n == 1 && len % n == 0) by (nonlinear_arith)
                    requires
                        len == n,
                        n > 0,
                ;
            } else {
                assert(len / n == 0 && len % n != 0) by (nonlinear_arith)
                    requires
                        0 < len < n,
                ;
            }
        }
    } else {
        let rest = content.skip(n as int);
        lemma_file_parts_are_chunks(rest);
        assert(chunk_count(len, n) == chunk_count(rest.len(), n) + 1) by {
            let l = len as int;
            let m = n as int;
            assert(l / m == (l - m) / m + 1 && l % m == (l - m) % m) by (nonlinear_arith)
                requires
                    l > m,
                    m > 0,
            ;
        }
        assert(chunk_count(len, n) >= 2) by {
            assert(rest.len() > 0);
            if rest.len() % n == 0 {
                assert(rest.len() / n >= 1) by (nonlinear_arith)
                    requires
                        rest.len() > 0,
                        rest.len() % n == 0,
                        n > 0,
                ;
            }
        }
    }
}

} // verus!
