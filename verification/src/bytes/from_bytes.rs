use vstd::prelude::*;

use crate::bytes::{Bytes, u16_from_be, u32_from_be, u64_from_be, u16_of_be, u32_of_be, u64_of_be};
use crate::datetime::{DateTimeUtc, timestamp_in_range};
use crate::buffer::{read_timestamp, timestamp_read_result};
use crate::error::{NetCommsError, NetCommsErrorKind};
use crate::utf8::{string_from_utf8_lossy, utf8_lossy};
use vstd::utf8::{decode_utf8, valid_utf8};

verus! {

/// Allows implementors to be created from [Bytes] or from a slice of bytes.
pub trait FromBytes: Sized {
    /// The byte strings on which the conversion is defined.
    spec fn from_bytes_accepts(bytes: Seq<u8>) -> bool;

    /// Whether `r` is what the conversion returns for `bytes`.
    spec fn from_bytes_result(bytes: Seq<u8>, r: Result<Self, NetCommsError>) -> bool;

    /// Converts `bytes` into `Self`.
    ///
    /// # Errors
    /// * This operation fails if `bytes` are not valid data to create `Self`.
    fn from_bytes(bytes: Bytes) -> (r: Result<Self, NetCommsError>)
        requires
            Self::from_bytes_accepts(bytes@),
        ensures
            Self::from_bytes_result(bytes@, r),
    ;

    /// Converts `buff` into `Self`.
    ///
    /// # Errors
    /// * This operation fails if `buff` is not valid data to create `Self`.
    fn from_buff(buff: &[u8]) -> (r: Result<Self, NetCommsError>)
        requires
            Self::from_bytes_accepts(buff@),
        ensures
            Self::from_bytes_result(buff@, r),
    ;
}

/// Result of reading a fixed-width integer of `width` bytes from `bytes`: too few
/// bytes give an `InvalidBufferSize` error, and otherwise `value` is read from the
/// first `width` bytes; the bytes after them are ignored.
pub open spec fn fixed_width_result<T>(
    bytes: Seq<u8>,
    width: nat,
    value: T,
    r: Result<T, NetCommsError>,
) -> bool {
    match r {
        Ok(v) => bytes.len() >= width && v == value,
        Err(e) => bytes.len() < width && e.kind is InvalidBufferSize,
    }
}

fn buffer_too_short() -> (e: NetCommsError)
    ensures
        e.kind is InvalidBufferSize,
{
    NetCommsError::new(
        NetCommsErrorKind::InvalidBufferSize,
        Some(String::from_str("Converting from bytes requires a buffer of a greater length.")),
    )
}

impl FromBytes for usize {
    open spec fn from_bytes_accepts(bytes: Seq<u8>) -> bool {
        true
    }

    open spec fn from_bytes_result(bytes: Seq<u8>, r: Result<usize, NetCommsError>) -> bool {
        fixed_width_result(bytes, 8, u64_from_be(bytes) as usize, r)
    }

    fn from_bytes(bytes: Bytes) -> (r: Result<usize, NetCommsError>) {
        usize::from_buff(bytes.as_slice())
    }

    fn from_buff(buff: &[u8]) -> (r: Result<usize, NetCommsError>) {
        if buff.len() < 8 {
            return Err(buffer_too_short());
        }
        Ok(u64_of_be(buff) as usize)
    }
}

impl FromBytes for u16 {
    open spec fn from_bytes_accepts(bytes: Seq<u8>) -> bool {
        true
    }

    open spec fn from_bytes_result(bytes: Seq<u8>, r: Result<u16, NetCommsError>) -> bool {
        fixed_width_result(bytes, 2, u16_from_be(bytes), r)
    }

    fn from_bytes(bytes: Bytes) -> (r: Result<u16, NetCommsError>) {
        u16::from_buff(bytes.as_slice())
    }

    fn from_buff(buff: &[u8]) -> (r: Result<u16, NetCommsError>) {
        if buff.len() < 2 {
            return Err(buffer_too_short());
        }
        Ok(u16_of_be(buff))
    }
}

impl FromBytes for u32 {
    open spec fn from_bytes_accepts(bytes: Seq<u8>) -> bool {
        true
    }

    open spec fn from_bytes_result(bytes: Seq<u8>, r: Result<u32, NetCommsError>) -> bool {
        fixed_width_result(bytes, 4, u32_from_be(bytes), r)
    }

    fn from_bytes(bytes: Bytes) -> (r: Result<u32, NetCommsError>) {
        u32::from_buff(bytes.as_slice())
    }

    fn from_buff(buff: &[u8]) -> (r: Result<u32, NetCommsError>) {
        if buff.len() < 4 {
            return Err(buffer_too_short());
        }
        Ok(u32_of_be(buff))
    }
}

impl FromBytes for String {
    open spec fn from_bytes_accepts(bytes: Seq<u8>) -> bool {
        true
    }

    /// Invalid UTF-8 sequences are replaced, so the conversion never fails.
    open spec fn from_bytes_result(bytes: Seq<u8>, r: Result<String, NetCommsError>) -> bool {
        &&& r matches Ok(s)
        &&& r->Ok_0@ == utf8_lossy(bytes)
        &&& valid_utf8(bytes) ==> r->Ok_0@ == decode_utf8(bytes)
    }

    fn from_bytes(bytes: Bytes) -> (r: Result<String, NetCommsError>) {
        Ok(string_from_utf8_lossy(bytes.as_slice()))
    }

    fn from_buff(buff: &[u8]) -> (r: Result<String, NetCommsError>) {
        Ok(string_from_utf8_lossy(buff))
    }
}

/// Eight bytes or more are read as a timestamp from their first eight bytes.
impl FromBytes for DateTimeUtc {
    open spec fn from_bytes_accepts(bytes: Seq<u8>) -> bool {
        true
    }

    open spec fn from_bytes_result(bytes: Seq<u8>, r: Result<DateTimeUtc, NetCommsError>) -> bool {
        timestamp_read_result(bytes, r)
    }

    fn from_bytes(bytes: Bytes) -> (r: Result<DateTimeUtc, NetCommsError>) {
        DateTimeUtc::from_buff(bytes.as_slice())
    }

    fn from_buff(buff: &[u8]) -> (r: Result<DateTimeUtc, NetCommsError>) {
        read_timestamp(buff)
    }
}

} // verus!
