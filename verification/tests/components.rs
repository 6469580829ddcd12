use net_comms::components::{
    write_to_buff, Command, CommandRaw, FromBuffer, Message, Packet, PacketError, PacketKind,
    ToBuffer, User,
};
use net_comms::datetime::DateTimeUtc;
use net_comms::message::MessageKind;

#[test]
fn write_to_buff_appends() {
    let mut buff = vec![1u8];
    write_to_buff(&mut buff, &[2, 3]);
    assert_eq!(buff, vec![1, 2, 3]);
}

#[test]
fn components_usize_buffer_pads_short_input() {
    assert_eq!(5usize.to_buff(), vec![0, 0, 0, 0, 0, 0, 0, 5]);
    assert_eq!(usize::from_buff(vec![0, 0, 0, 0, 0, 0, 0, 5]), 5);
    assert_eq!(usize::from_buff(vec![0, 0, 0, 0, 0, 0, 1]), 256);
}

#[test]
fn components_string_buffer() {
    assert_eq!(String::from("ab").to_buff(), vec![0x61, 0x62]);
    assert_eq!(String::from_buff(vec![0x61, 0xff]), "a\u{fffd}");
}

#[test]
fn components_message_kind_buffer() {
    assert_eq!(MessageKind::File.to_buff(), vec![3, 0]);
    assert!(matches!(MessageKind::from_buff(vec![2]), MessageKind::Text));
    assert!(matches!(MessageKind::from_buff(vec![200, 0]), MessageKind::Unknown));
}

#[test]
fn components_packet_kinds_to_buffer() {
    assert_eq!(PacketKind::new_content(vec![7, 8]).to_buff(), vec![3, 0, 7, 8]);
    assert_eq!(PacketKind::new_add_info(vec![9]).to_buff(), vec![2, 0, 9]);
    assert_eq!(PacketKind::new_empty(2).to_buff(), vec![0, 0, 0, 0]);
    assert_eq!(PacketKind::End.to_buff(), vec![5, 0]);
    assert_eq!(PacketKind::Request.to_buff(), vec![4, 0]);
    let meta = PacketKind::MetaData(3, MessageKind::Text, 1, 2, DateTimeUtc::from_timestamp(60).unwrap());
    let buff = meta.to_buff();
    assert_eq!(buff.len(), 36);
    assert_eq!(&buff[0..2], &[1, 0]);
    assert_eq!(&buff[2..10], &[0, 0, 0, 0, 0, 0, 0, 3]);
    assert_eq!(&buff[10..12], &[2, 0]);
    assert_eq!(&buff[28..36], &[0, 0, 0, 0, 0, 0, 0, 60]);
}

#[test]
fn components_packet_kind_read_back() {
    let meta = PacketKind::MetaData(3, MessageKind::File, 11, 12, DateTimeUtc::from_timestamp(5).unwrap());
    match PacketKind::from_buff(meta.to_buff()) {
        PacketKind::MetaData(l, k, a, r, d) => {
            assert_eq!((l, a, r, d.timestamp()), (3, 11, 12, 5));
            assert!(matches!(k, MessageKind::File));
        }
        other => panic!("unexpected {:?}", other),
    }
    match PacketKind::from_buff(PacketKind::new_content(vec![4, 5, 6]).to_buff()) {
        PacketKind::Content(size, data) => {
            assert_eq!(size, 5);
            assert_eq!(data, vec![4, 5, 6]);
        }
        other => panic!("unexpected {:?}", other),
    }
    assert!(matches!(PacketKind::from_buff(vec![42, 0]), PacketKind::Unknown));
}

#[test]
fn components_packet_kind_accessors() {
    let meta = PacketKind::new_metadata(4, MessageKind::Text, 1, 2).unwrap();
    assert_eq!(meta.get_size(), 34);
    assert_eq!(meta.get_message_length().unwrap(), 4);
    assert!(matches!(meta.get_message_kind().unwrap(), MessageKind::Text));
    assert_eq!(meta.get_author_id().unwrap(), 1);
    assert_eq!(meta.get_recipient_id().unwrap(), 2);
    assert!(meta.get_time().is_ok());
    assert!(matches!(meta.get_kind().unwrap(), PacketKind::MetaData(0, MessageKind::Empty, 0, 0, _)));
    assert!(matches!(PacketKind::new_content(vec![5]).get_kind().unwrap(), PacketKind::Content(0, ref c) if c.is_empty()));
    let content = PacketKind::new_content(vec![1, 2]);
    assert_eq!(content.get_size(), 2);
    assert!(content.get_message_length().is_err());
    assert_eq!(content.get_content().unwrap(), vec![1, 2]);
    let e = PacketKind::End.get_content().unwrap_err();
    assert_eq!(e.to_string(), "PacketKindError");
    assert_eq!(PacketError {}.to_string(), "PacketError");
}

#[test]
fn components_packet_size_and_bytes() {
    let p = Packet::new(PacketKind::new_content(vec![1, 2, 3]));
    assert_eq!(p.get_size(), 13);
    let buff = p.clone().to_buff();
    assert_eq!(buff, vec![0, 0, 0, 0, 0, 0, 0, 13, 3, 0, 1, 2, 3]);
    let back = Packet::from_buff(buff);
    assert_eq!(back.get_size(), 13);
    assert!(matches!(back.get_contents(), PacketKind::Content(5, ref d) if *d == vec![1, 2, 3]));
    assert_eq!(Packet::new_empty().get_size(), 10);
}

#[test]
fn components_message_receives_packets_until_complete() {
    let mut msg = Message::new();
    let meta = Packet::new(PacketKind::new_metadata(3, MessageKind::Text, 1, 2).unwrap());
    assert!(!msg.receive_packet(meta, 1));
    assert!(matches!(msg.kind, MessageKind::Text));
    assert!(!msg.receive_packet(Packet::new(PacketKind::new_content(b"hi ".to_vec())), 2));
    assert!(msg.receive_packet(Packet::new(PacketKind::new_content(b"you".to_vec())), 3));
    assert!(!msg.receive_packet(Packet::new(PacketKind::new_add_info(vec![1])), 4));
    assert_eq!(msg.add_info.len(), 1);
    assert_eq!(msg.get_content(), b"hi you".to_vec());
}

#[test]
fn components_message_setters() {
    let mut msg = Message::new();
    msg.set_kind(MessageKind::File);
    msg.push_content(Packet::new(PacketKind::End));
    msg.push_add_info(Packet::new_empty());
    assert!(matches!(msg.kind, MessageKind::File));
    assert_eq!(msg.content.len(), 1);
    assert!(msg.get_content().is_empty());
}

#[test]
fn components_commands_are_split_on_white_space() {
    match CommandRaw::from_input("  register \t alice  secret\n").process_cmd().unwrap() {
        Command::Register(u) => {
            assert_eq!(u.username, "alice");
            assert_eq!(u.password, "secret");
        }
        _ => panic!("expected a register command"),
    }
    assert!(matches!(CommandRaw::from_input("login a b").process_cmd().unwrap(), Command::Login(_)));
    assert!(matches!(CommandRaw::from_input("y").process_cmd().unwrap(), Command::Yes));
    assert!(matches!(CommandRaw::from_input(" n").process_cmd().unwrap(), Command::No));
    assert!(matches!(CommandRaw::from_input("what").process_cmd().unwrap(), Command::Unknown));
}

#[test]
fn components_commands_missing_words_are_errors() {
    assert!(CommandRaw::from_input("   ").process_cmd().is_err());
    assert!(CommandRaw::from_input("register alice").process_cmd().is_err());
    assert!(CommandRaw::from_input("send bob").process_cmd().is_err());
    assert!(matches!(CommandRaw::from_input("y").process_cmd().unwrap(), Command::Yes));
}

#[test]
fn components_packet_written_as_its_size() {
    for kind in [
        PacketKind::new_empty(3),
        PacketKind::new_metadata(1, MessageKind::Text, 2, 3).unwrap(),
        PacketKind::new_add_info(vec![1, 2]),
        PacketKind::new_content(vec![9; 100]),
        PacketKind::Request,
        PacketKind::End,
        PacketKind::Unknown,
    ] {
        let p = Packet::new(kind);
        let size = p.get_size();
        assert_eq!(p.to_buff().len(), size);
    }
}

#[test]
fn components_metadata_is_stamped_with_the_clock() {
    let m = net_comms::components::MetaData::new(MessageKind::Text, 2, 1, 0, vec![], None).unwrap();
    assert_eq!(m.message_length, 2);
    assert_eq!(m.datetime.len(), 8);
    assert!(DateTimeUtc::from_timestamp(i64::from_be_bytes(m.datetime.clone().try_into().unwrap())).is_some());
}

#[test]
fn components_send_command() {
    match CommandRaw::from_input("send bob hello").process_cmd().unwrap() {
        Command::Send(kind, recipients, content) => {
            assert!(matches!(kind, MessageKind::Text));
            assert_eq!(recipients, vec![String::from("bob")]);
            assert_eq!(content, b"hello".to_vec());
        }
        _ => panic!("expected a send command"),
    }
}

#[test]
fn components_user() {
    let u = User::new([1, 2, 3, 4], String::from("a"), String::from("b"));
    assert!(format!("{:?}", u).contains("username: \"a\""));
}

#[test]
fn components_metadata_at_a_given_time() {
    let now = DateTimeUtc::from_timestamp(77).unwrap();
    match PacketKind::metadata_at(3, MessageKind::Text, 1, 2, now) {
        PacketKind::MetaData(l, k, a, r, d) => {
            assert_eq!((l, a, r, d.timestamp()), (3, 1, 2, 77));
            assert!(matches!(k, MessageKind::Text));
        }
        other => panic!("unexpected {:?}", other),
    }
    let m = net_comms::components::MetaData::new_at(now, MessageKind::File, 4, 1, 2, vec![], None);
    assert_eq!(m.datetime, vec![0, 0, 0, 0, 0, 0, 0, 77]);
    assert_eq!(m.message_length, 4);
}
