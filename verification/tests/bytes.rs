use net_comms::bytes::{Bytes, FromBytes, IntoBytes};
use net_comms::datetime::DateTimeUtc;
use net_comms::error::NetCommsErrorKind;

#[test]
fn bytes_slice() {
    let vec = vec![1, 2, 3, 4, 5, 6, 7, 8, 9, 10];
    let bytes = Bytes::from_vec(vec.clone());
    assert_eq!(vec[0..4], bytes[0..4]);
}

#[test]
fn bytes_from_arr_push_append() {
    let mut bytes = Bytes::from_arr([1u8, 2, 3]);
    bytes.push(4);
    let mut more = Bytes::from_vec(vec![5, 6]);
    bytes.append(&mut more);
    assert_eq!(bytes.len(), 6);
    assert_eq!(bytes.into_vec(), vec![1, 2, 3, 4, 5, 6]);
    assert_eq!(more.len(), 0);
}

#[test]
fn bytes_get_in_and_out_of_range() {
    let bytes = Bytes::from_vec(vec![7, 8]);
    assert_eq!(bytes.get(1), Some(8));
    assert_eq!(bytes.get(2), None);
}

#[test]
fn bytes_to_string_lossy() {
    assert_eq!(Bytes::from_vec(b"hello".to_vec()).to_string(), "hello");
    assert_eq!(Bytes::from_vec(vec![0x61, 0xff, 0x62]).to_string(), "a\u{fffd}b");
}

#[test]
fn numbers_into_bytes_are_big_endian() {
    assert_eq!(5usize.into_bytes().into_vec(), vec![0, 0, 0, 0, 0, 0, 0, 5]);
    assert_eq!(0x0102u16.into_bytes().into_vec(), vec![1, 2]);
    assert_eq!(0x01020304u32.into_bytes().into_vec(), vec![1, 2, 3, 4]);
    assert_eq!(IntoBytes::into_buff(0x0a0bu16), vec![0x0a, 0x0b]);
}

#[test]
fn numbers_from_bytes_need_exact_length() {
    assert_eq!(usize::from_bytes(Bytes::from_vec(vec![0, 0, 0, 0, 0, 0, 1, 0])).unwrap(), 256);
    assert_eq!(u16::from_bytes(Bytes::from_vec(vec![1, 2])).unwrap(), 0x0102);
    assert_eq!(u32::from_bytes(Bytes::from_vec(vec![0, 0, 1, 2])).unwrap(), 0x0102);
    let e = u16::from_bytes(Bytes::from_vec(vec![1])).unwrap_err();
    assert!(matches!(e.kind, NetCommsErrorKind::InvalidBufferSize));
    let e = u32::from_buff(&[1, 2, 3]).unwrap_err();
    assert!(matches!(e.kind, NetCommsErrorKind::InvalidBufferSize));
}

#[test]
fn numbers_from_longer_bytes_read_the_first_ones() {
    assert_eq!(usize::from_buff(&[0, 0, 0, 0, 0, 0, 0, 5, 9, 9]).unwrap(), 5);
    assert_eq!(u16::from_bytes(Bytes::from_vec(vec![1, 2, 3])).unwrap(), 0x0102);
    assert_eq!(u32::from_buff(&[0, 0, 0, 3, 4]).unwrap(), 3);
    assert_eq!(DateTimeUtc::from_buff(&[0, 0, 0, 0, 0, 0, 0, 2, 1]).unwrap().timestamp(), 2);
    let e = DateTimeUtc::from_buff(&[0x7f, 0xff, 0xff, 0xff, 0xff, 0xff, 0xff, 0xff]).unwrap_err();
    assert!(matches!(e.kind, NetCommsErrorKind::DeserializingFailed));
}

#[test]
fn string_through_bytes() {
    let bytes = IntoBytes::into_bytes(String::from("čau"));
    assert_eq!(bytes.vec(), "čau".as_bytes().to_vec());
    assert_eq!(String::from_bytes(bytes).unwrap(), "čau");
}

#[test]
fn datetime_through_bytes() {
    let d = DateTimeUtc::from_timestamp(1_000_000).unwrap();
    let bytes = d.into_bytes();
    assert_eq!(bytes.vec(), vec![0, 0, 0, 0, 0, 0x0f, 0x42, 0x40]);
    let back = DateTimeUtc::from_bytes(bytes).unwrap();
    assert_eq!(back.timestamp(), 1_000_000);
}

#[test]
fn bytes_vec_access() {
    let mut bytes = Bytes::from_vec(vec![1, 2]);
    bytes.vec_mut().push(3);
    assert_eq!(bytes.vec_ref(), &vec![1, 2, 3]);
    assert_eq!(bytes.as_slice(), &[1, 2, 3]);
}

#[test]
fn bytes_iterate_in_order() {
    let collected: Vec<u8> = Bytes::from_vec(vec![3, 1, 2]).into_iter().collect();
    assert_eq!(collected, vec![3, 1, 2]);
}

#[test]
fn default_bytes_are_empty() {
    assert_eq!(Bytes::default().len(), 0);
}
