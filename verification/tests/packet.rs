use net_comms::bytes::{Bytes, FromBytes, IntoBytes};
use net_comms::error::NetCommsErrorKind;
use net_comms::prelude::{Packet, PacketKind};

#[test]
fn packet_from_bytes() {
    let packet_bytes = Bytes::from_arr([0, 4, 0, 0]);

    let empty_packet = Packet::new(PacketKind::Empty, Bytes::new()).into_bytes();

    assert_eq!(packet_bytes.into_vec(), empty_packet.into_vec());
}

#[test]
fn new_packet_size_counts_description_and_content() {
    let p = Packet::new(PacketKind::Content, Bytes::from_vec(vec![9; 10]));
    assert_eq!(p.size(), 14);
    assert_eq!(p.kind(), PacketKind::Content);
    assert_eq!(p.content().into_vec(), vec![9; 10]);
}

#[test]
fn packet_bytes_layout() {
    let p = Packet::new(PacketKind::MetaDataEnd, Bytes::from_vec(vec![7, 8]));
    assert_eq!(p.into_bytes().into_vec(), vec![0, 6, 1, 1, 7, 8]);
    let p = Packet::new(PacketKind::End, Bytes::new());
    assert_eq!(p.into_bytes().into_vec(), vec![0, 4, 3, 0]);
}

#[test]
fn packet_read_back_from_bytes() {
    let p = Packet::new(PacketKind::Content, Bytes::from_vec(vec![1, 2, 3]));
    let back = Packet::from_bytes(p.into_bytes()).unwrap();
    assert_eq!(back.size(), 7);
    assert_eq!(back.kind(), PacketKind::Content);
    assert_eq!(back.content_move().into_vec(), vec![1, 2, 3]);
}

#[test]
fn packet_from_too_few_bytes_fails() {
    let e = Packet::from_buff(&[0, 4, 0]).unwrap_err();
    assert!(matches!(e.kind, NetCommsErrorKind::InvalidBufferSize));
}

#[test]
fn packet_kinds_from_bytes() {
    assert_eq!(PacketKind::from_buff(&[0, 0]).unwrap(), PacketKind::Empty);
    assert_eq!(PacketKind::from_buff(&[1, 0]).unwrap(), PacketKind::MetaData);
    assert_eq!(PacketKind::from_buff(&[1, 1]).unwrap(), PacketKind::MetaDataEnd);
    assert_eq!(PacketKind::from_buff(&[1, 7]).unwrap(), PacketKind::Unknown);
    assert_eq!(PacketKind::from_buff(&[2, 0]).unwrap(), PacketKind::Content);
    assert_eq!(PacketKind::from_buff(&[3, 0]).unwrap(), PacketKind::End);
    assert_eq!(PacketKind::from_buff(&[9, 0]).unwrap(), PacketKind::Unknown);
    assert!(PacketKind::from_buff(&[2]).is_err());
}

#[test]
fn packet_kinds_into_bytes() {
    assert_eq!(PacketKind::MetaDataEnd.into_bytes().into_vec(), vec![1, 1]);
    assert_eq!(PacketKind::Unknown.into_bytes().into_vec(), vec![255, 0]);
    for kind in [
        PacketKind::Empty,
        PacketKind::MetaData,
        PacketKind::MetaDataEnd,
        PacketKind::Content,
        PacketKind::End,
        PacketKind::Unknown,
    ] {
        assert_eq!(PacketKind::from_bytes(kind.into_bytes()).unwrap(), kind);
    }
}

#[test]
fn number_of_packets_rounds_up() {
    assert_eq!(Packet::max_size(), 1024);
    assert_eq!(Packet::max_content_size(), 1020);
    assert_eq!(Packet::number_of_packets(0), 0);
    assert_eq!(Packet::number_of_packets(1), 1);
    assert_eq!(Packet::number_of_packets(1020), 1);
    assert_eq!(Packet::number_of_packets(1021), 2);
    assert_eq!(Packet::number_of_packets(3060), 3);
}

#[test]
fn split_to_max_packet_size_cuts_in_order() {
    let data: Vec<u8> = (0..2500u32).map(|i| (i % 251) as u8).collect();
    let pieces = Packet::split_to_max_packet_size(Bytes::from_vec(data.clone()));
    assert_eq!(pieces.len(), 3);
    assert_eq!(pieces[0].len(), 1020);
    assert_eq!(pieces[1].len(), 1020);
    assert_eq!(pieces[2].len(), 460);
    let joined: Vec<u8> = pieces.into_iter().flat_map(|b| b.into_vec()).collect();
    assert_eq!(joined, data);
    assert!(Packet::split_to_max_packet_size(Bytes::new()).is_empty());
}

#[test]
fn default_packet_is_empty() {
    let p = Packet::default();
    assert_eq!(p.size(), 4);
    assert_eq!(p.kind(), PacketKind::Empty);
    assert_eq!(p.content_ref().len(), 0);
}

#[test]
fn content_mut_changes_content_only() {
    let mut p = Packet::new(PacketKind::Content, Bytes::from_vec(vec![1]));
    p.content_mut().push(2);
    assert_eq!(p.size(), 5);
    assert_eq!(p.content().into_vec(), vec![1, 2]);
}
