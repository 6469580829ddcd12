use net_comms::bytes::Bytes;
use net_comms::error::NetCommsErrorKind;
use net_comms::message::{
    content_packets, file_read_for_part, receive_content_packet, receive_file_packet, FileRead,
    FileStep,
};
use net_comms::packet::{Packet, PacketKind};

fn sample(len: u32) -> Vec<u8> {
    (0..len).map(|i| (i * 7 % 256) as u8).collect()
}

#[test]
fn content_is_sent_in_content_packets() {
    let data = sample(2100);
    let packets = content_packets(Bytes::from_vec(data.clone()));
    assert_eq!(packets.len(), 3);
    assert!(packets.iter().all(|p| p.kind() == PacketKind::Content));
    assert_eq!(packets[0].size(), 1024);
    assert_eq!(packets[1].size(), 1024);
    assert_eq!(packets[2].size(), 64);
    assert!(content_packets(Bytes::new()).is_empty());
}

#[test]
fn content_sent_then_received_is_the_same() {
    let data = sample(3000);
    let mut packets = content_packets(Bytes::from_vec(data.clone()));
    packets.push(Packet::new(PacketKind::End, Bytes::from_vec(vec![42])));
    let mut content = Bytes::new();
    let mut end = None;
    for p in packets {
        if let Some(e) = receive_content_packet(&mut content, p).unwrap() {
            end = Some(e);
            break;
        }
    }
    assert_eq!(content.into_vec(), data);
    let end = end.unwrap();
    assert_eq!(end.kind(), PacketKind::End);
    assert_eq!(end.content().into_vec(), vec![42]);
}

#[test]
fn receiving_content_rejects_other_kinds() {
    let mut content = Bytes::from_vec(vec![1]);
    let e = receive_content_packet(&mut content, Packet::new(PacketKind::Empty, Bytes::new()))
        .unwrap_err();
    assert!(matches!(e.kind, NetCommsErrorKind::InvalidPacketKind));
    assert_eq!(e.message.as_deref(), Some("Expected content packet, got empty."));
    let e = receive_content_packet(&mut content, Packet::new(PacketKind::MetaDataEnd, Bytes::new()))
        .unwrap_err();
    assert!(matches!(e.kind, NetCommsErrorKind::InvalidPacketKind));
    assert_eq!(e.message.as_deref(), Some("Expected content packet, got metadata."));
    let e = receive_content_packet(&mut content, Packet::new(PacketKind::Unknown, Bytes::new()))
        .unwrap_err();
    assert!(matches!(e.kind, NetCommsErrorKind::UnknownMessageKind));
    assert_eq!(content.into_vec(), vec![1]);
}

#[test]
fn file_received_packet_by_packet() {
    let data = sample(1500);
    let mut packets = content_packets(Bytes::from_vec(data.clone()));
    packets.push(Packet::new(PacketKind::End, Bytes::new()));
    let mut written: Vec<u8> = Vec::new();
    let mut received = 0usize;
    let mut finished = None;
    for p in packets {
        match receive_file_packet(received, p).unwrap() {
            FileStep::Write { content, received: n } => {
                written.extend(content.into_vec());
                received = n;
            }
            FileStep::Finish { received: n, end } => {
                finished = Some((n, end));
                break;
            }
        }
    }
    assert_eq!(written, data);
    let (n, end) = finished.unwrap();
    assert_eq!(n, 2);
    assert_eq!(end.kind(), PacketKind::End);
}

#[test]
fn receiving_file_rejects_other_kinds() {
    let e = receive_file_packet(0, Packet::new(PacketKind::MetaData, Bytes::new())).unwrap_err();
    assert!(matches!(e.kind, NetCommsErrorKind::InvalidPacketKind));
    let e = receive_file_packet(3, Packet::new(PacketKind::Unknown, Bytes::new())).unwrap_err();
    assert!(matches!(e.kind, NetCommsErrorKind::UnknownMessageKind));
}

#[test]
fn file_is_read_in_full_parts_then_the_rest() {
    assert_eq!(file_read_for_part(1, 3), FileRead::Exact(1020));
    assert_eq!(file_read_for_part(2, 3), FileRead::Exact(1020));
    assert_eq!(file_read_for_part(3, 3), FileRead::Rest);
    assert_eq!(file_read_for_part(1, 1), FileRead::Rest);
}
