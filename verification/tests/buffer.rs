use net_comms::buffer::{FromBuffer, IntoBuffer, ToBuffer};
use net_comms::datetime::DateTimeUtc;
use net_comms::error::NetCommsErrorKind;
use net_comms::message::MessageKind;

#[test]
fn usize_from_buffer_doc_example() {
    assert_eq!(5, usize::from_buff(vec![0, 0, 0, 0, 0, 0, 0, 5]).unwrap());
}

#[test]
fn usize_into_buffer_doc_example() {
    assert_eq!(5usize.into_buff().unwrap(), vec![0, 0, 0, 0, 0, 0, 0, 5]);
}

#[test]
fn fixed_width_reads_leading_bytes() {
    assert_eq!(u16::from_buff(vec![1, 2, 3]).unwrap(), 0x0102);
    assert_eq!(u32::from_buff(vec![0, 0, 0, 9]).unwrap(), 9);
    assert_eq!(usize::from_buff(vec![0, 0, 0, 0, 0, 0, 1, 0]).unwrap(), 256);
    assert_eq!(u32::from_buff(vec![0, 0, 0, 9, 1]).unwrap(), 9);
    assert_eq!(usize::from_buff(vec![0, 0, 0, 0, 0, 0, 1, 0, 0xff]).unwrap(), 256);
    let d = DateTimeUtc::from_buff(vec![0, 0, 0, 0, 0, 0, 0, 7, 1, 2]).unwrap();
    assert_eq!(d.timestamp(), 7);
}

#[test]
fn datetime_buffer_out_of_range_is_an_error() {
    let e = DateTimeUtc::from_buff(vec![0x7f, 0xff, 0xff, 0xff, 0xff, 0xff, 0xff, 0xff]).unwrap_err();
    assert!(matches!(e.kind, NetCommsErrorKind::DeserializingFailed));
}

#[test]
fn fixed_width_short_buffer_fails() {
    let e = usize::from_buff(vec![0, 0, 5]).unwrap_err();
    assert!(matches!(e.kind, NetCommsErrorKind::InvalidBufferSize));
    let e = u16::from_buff(vec![1]).unwrap_err();
    assert!(matches!(e.kind, NetCommsErrorKind::InvalidBufferSize));
    let e = u32::from_buff(vec![]).unwrap_err();
    assert!(matches!(e.kind, NetCommsErrorKind::InvalidBufferSize));
}

#[test]
fn numbers_into_buffer() {
    assert_eq!(0x0102u16.into_buff().unwrap(), vec![1, 2]);
    assert_eq!(0x01020304u32.into_buff().unwrap(), vec![1, 2, 3, 4]);
    assert_eq!(u32::from_buff(0xdeadbeefu32.into_buff().unwrap()).unwrap(), 0xdeadbeef);
}

#[test]
fn string_buffer_roundtrip_and_invalid_utf8() {
    let buff = String::from("zpráva").into_buff().unwrap();
    assert_eq!(buff, "zpráva".as_bytes().to_vec());
    assert_eq!(String::from_buff(buff).unwrap(), "zpráva");
    let e = String::from_buff(vec![0xc3, 0x28]).unwrap_err();
    assert!(matches!(e.kind, NetCommsErrorKind::OtherSource(_)));
}

#[test]
fn datetime_buffer_roundtrip() {
    let d = DateTimeUtc::from_timestamp(86_400).unwrap();
    let buff = d.into_buff().unwrap();
    assert_eq!(buff, vec![0, 0, 0, 0, 0, 1, 0x51, 0x80]);
    assert_eq!(DateTimeUtc::from_buff(buff).unwrap().timestamp(), 86_400);
    let e = DateTimeUtc::from_buff(vec![1, 2]).unwrap_err();
    assert!(matches!(e.kind, NetCommsErrorKind::InvalidBufferSize));
}

#[test]
fn message_kind_buffer() {
    assert_eq!(MessageKind::Text.to_buff().unwrap(), vec![2, 0]);
    assert_eq!(MessageKind::Unknown.to_buff().unwrap(), vec![255, 0]);
    assert!(matches!(MessageKind::from_buff(vec![3, 0]).unwrap(), MessageKind::File));
    assert!(matches!(MessageKind::from_buff(vec![1, 9, 9]).unwrap(), MessageKind::Request));
    assert!(matches!(MessageKind::from_buff(vec![77, 0]).unwrap(), MessageKind::Unknown));
    let e = MessageKind::from_buff(vec![0]).unwrap_err();
    assert!(matches!(e.kind, NetCommsErrorKind::InvalidBufferSize));
    for kind in [
        MessageKind::Empty,
        MessageKind::Request,
        MessageKind::Text,
        MessageKind::File,
        MessageKind::Unknown,
    ] {
        let back = MessageKind::from_buff(kind.clone().to_buff().unwrap()).unwrap();
        assert_eq!(format!("{:?}", back), format!("{:?}", kind));
    }
}
