use net_comms::bytes::Bytes;
use net_comms::datetime::DateTimeUtc;
use net_comms::error::{NetCommsError, NetCommsErrorKind};
use net_comms::message::MessageKind;
use net_comms::packet::{MetaData, Packet, PacketKind};
use net_comms::pretty_structs::{MessagePretty, MetaDataPretty, PacketKindPretty, PacketPretty};
use net_comms::request::RequestKind;
use net_comms::user::{User, UserUnchecked};

#[test]
fn metadata_length_counts_metadata_content_and_end_packets() {
    let author = User::new(5, String::from("ann"), String::from("pw"));
    let content = vec![0u8; 2041];
    let m = MetaData::new(
        &content,
        MessageKind::Text,
        author,
        9,
        vec![String::from("bob")],
        None,
        |_m: &MetaData| Ok(vec![0u8; 1500]),
    )
    .unwrap();
    // 2 packets of metadata, 3 of content and 1 end packet.
    assert_eq!(m.message_length(), 6);
    assert_eq!(m.message_kind(), MessageKind::Text);
    assert_eq!(m.author_id(), 5);
    assert_eq!(m.author_name(), "ann");
    assert_eq!(m.recipient_id(), 9);
    assert_eq!(m.recipients(), vec![String::from("bob")]);
    assert_eq!(m.file_name(), None);
    assert_eq!(m.datetime_bytes().len(), 8);
}

#[test]
fn metadata_encoder_error_is_returned() {
    let r = MetaData::new(
        &vec![],
        MessageKind::File,
        User::default(),
        0,
        vec![],
        Some(String::from("a.txt")),
        |_m: &MetaData| Err(NetCommsError::new(NetCommsErrorKind::SerializingFailed, None)),
    );
    assert!(matches!(r.unwrap_err().kind, NetCommsErrorKind::SerializingFailed));
}

#[test]
fn empty_metadata_and_setters() {
    let mut m = MetaData::new_empty().unwrap();
    assert_eq!(m.message_kind(), MessageKind::Empty);
    assert_eq!(m.message_length(), 0);
    assert!(m.datetime().is_ok());
    m.set_message_length(4);
    m.set_author_id(2);
    m.set_recipient_id(3);
    m.set_recipients(vec![String::from("x"), String::from("y")]);
    m.set_file_name(Some(String::from("f")));
    assert_eq!(m.message_length(), 4);
    assert_eq!(m.author_id(), 2);
    assert_eq!(m.recipient_id(), 3);
    assert_eq!(m.recipients().len(), 2);
    assert_eq!(m.file_name(), Some(String::from("f")));
}

#[test]
fn metadata_pretty_shows_time_as_text() {
    let m = MetaData::from_parts(
        MessageKind::Request,
        3,
        vec![0, 0, 0, 0, 0, 0, 0, 0],
        1,
        String::from("ann"),
        2,
        vec![String::from("bob")],
        None,
    );
    assert_eq!(m.datetime().unwrap().timestamp(), 0);
    let p = MetaDataPretty::from_metadata(&m);
    assert_eq!(p.datetime, "1970-01-01 00:00:00 UTC");
    assert_eq!(p.message_length, 3);
    assert_eq!(p.author_username, "ann");
    let short = MetaData::from_parts(MessageKind::Text, 0, vec![1], 0, String::new(), 0, vec![], None);
    assert!(matches!(short.datetime().unwrap_err().kind, NetCommsErrorKind::InvalidBufferSize));
    assert_eq!(MetaDataPretty::from_metadata(&short).datetime, "");
    let far = MetaData::from_parts(MessageKind::Text, 0, vec![0x7f; 8], 0, String::new(), 0, vec![], None);
    assert!(matches!(far.datetime().unwrap_err().kind, NetCommsErrorKind::DeserializingFailed));
    assert_eq!(MetaDataPretty::from_metadata(&far).datetime, "");
    let long = MetaData::from_parts(MessageKind::Text, 0, vec![0, 0, 0, 0, 0, 0, 0, 1, 5], 0, String::new(), 0, vec![], None);
    assert_eq!(long.datetime().unwrap().timestamp(), 1);
}

#[test]
fn packet_pretty_forms() {
    assert_eq!(PacketKindPretty::from_packet_kind(&PacketKind::End), PacketKindPretty::Content);
    assert_eq!(PacketKindPretty::from_packet_kind(&PacketKind::MetaDataEnd), PacketKindPretty::MetaDataEnd);
    let p = PacketPretty::from_packet(&Packet::new(PacketKind::Content, Bytes::from_vec(b"hey".to_vec())));
    assert_eq!(p.size, 7);
    assert_eq!(p.content, "hey");
    let p = PacketPretty::from_packet(&Packet::new(PacketKind::End, Bytes::from_vec(vec![0xff])));
    assert_eq!(p.kind, PacketKindPretty::Content);
    assert_eq!(p.content, "");
}

#[test]
fn message_pretty_decodes_content() {
    let m = MetaData::from_parts(MessageKind::Text, 1, vec![0; 8], 0, String::new(), 0, vec![], None);
    let end = Packet::new(PacketKind::End, Bytes::new());
    let p = MessagePretty::from_message(MessageKind::Text, &m, "ahoj".as_bytes().to_vec(), &end);
    assert_eq!(p.content, "ahoj");
    assert_eq!(p.end_data.size, 4);
    assert_eq!(p.metadata.message_length, 1);
}

#[test]
fn datetime_from_timestamp_and_text() {
    let d = DateTimeUtc::from_timestamp(1_600_000_000).unwrap();
    assert_eq!(d.to_string(), "2020-09-13 12:26:40 UTC");
    assert!(DateTimeUtc::from_timestamp(i64::MAX).is_none());
    assert!(DateTimeUtc::from_timestamp(i64::MIN).is_none());
    assert!(DateTimeUtc::from_timestamp(8_210_266_876_799).is_some());
    assert!(DateTimeUtc::from_timestamp(8_210_266_876_800).is_none());
    assert!(DateTimeUtc::from_timestamp(-8_334_601_228_800).is_some());
    assert!(DateTimeUtc::from_timestamp(-8_334_601_228_801).is_none());
    assert!(DateTimeUtc::now().unwrap().timestamp() > 1_600_000_000);
}

#[test]
fn default_user() {
    let u = User::default();
    assert_eq!(u.id(), 1);
    assert_eq!(u.username(), "UNKNOWN");
    assert_eq!(u.password(), "None");
}

#[test]
fn request_kind_names() {
    let u = UserUnchecked { username: String::from("a"), password: String::from("b") };
    assert_eq!(RequestKind::Register(u.clone()).to_string(), "Register");
    assert_eq!(RequestKind::Login(u.clone()).to_string(), "Login");
    assert_eq!(RequestKind::Unknown.to_string(), "Unknown");
    assert_eq!(RequestKind::GetId(Box::new(RequestKind::Login(u))).to_string(), "GetId(Login)");
    assert_eq!(RequestKind::GetId(Box::new(RequestKind::Unknown)).to_string(), "GetId(Wrong request)");
}

#[test]
fn metadata_stamped_with_a_given_time() {
    let now = DateTimeUtc::from_timestamp(1_000).unwrap();
    let author = User::new(5, String::from("ann"), String::from("pw"));
    let m = MetaData::new_at(
        now,
        &vec![0u8; 10],
        MessageKind::File,
        author,
        2,
        vec![String::from("bob")],
        Some(String::from("a.txt")),
        |m: &MetaData| {
            assert_eq!(m.message_length(), 0);
            Ok(vec![1u8; 5])
        },
    )
    .unwrap();
    assert_eq!(m.datetime().unwrap().timestamp(), 1_000);
    assert_eq!(m.datetime_bytes(), vec![0, 0, 0, 0, 0, 0, 3, 0xe8]);
    assert_eq!(m.message_length(), 3);
    assert_eq!(m.file_name(), Some(String::from("a.txt")));
    let r = MetaData::new_at(now, &vec![], MessageKind::Text, User::default(), 0, vec![], None, |m: &MetaData| {
        Err(NetCommsError::new(NetCommsErrorKind::SerializingFailed, Some(m.author_name())))
    });
    let e = r.unwrap_err();
    assert!(matches!(e.kind, NetCommsErrorKind::SerializingFailed));
    assert_eq!(e.message.as_deref(), Some("UNKNOWN"));
}

#[test]
fn empty_metadata_stamped_with_a_given_time() {
    let m = MetaData::empty_at(DateTimeUtc::from_timestamp(42).unwrap());
    assert_eq!(m.datetime().unwrap().timestamp(), 42);
    assert_eq!(m.message_kind(), MessageKind::Empty);
    assert_eq!(m.author_name(), "");
    assert!(m.recipients().is_empty());
}

#[test]
fn clock_seconds_become_times() {
    assert_eq!(DateTimeUtc::from_clock_secs(5).unwrap().timestamp(), 5);
    assert!(DateTimeUtc::from_clock_secs(8_210_266_876_799).is_some());
    assert!(DateTimeUtc::from_clock_secs(8_210_266_876_800).is_none());
    assert!(DateTimeUtc::from_clock_secs(u64::MAX).is_none());
}
