use vstd::prelude::*;
use vstd::utf8::{decode_utf8, valid_utf8};

use crate::bytes::{u16_from_be, u32_from_be, u64_from_be, u16_of_be, u32_of_be, u64_of_be};
use crate::datetime::{DateTimeUtc, timestamp_in_range};
use crate::error::{NetCommsError, NetCommsErrorKind};
use crate::utf8::string_from_utf8;

verus! {

/// Implementors can use `from_buff` to turn a buffer into a value of their type.
pub trait FromBuffer: Sized {
    /// The buffers on which the conversion is defined.
    spec fn from_buff_accepts(buff: Seq<u8>) -> bool;

    /// Whether `r` is what the conversion returns for `buff`.
    spec fn from_buff_result(buff: Seq<u8>, r: Result<Self, NetCommsError>) -> bool;

    /// Takes ownership of `buff` and turns it into the implementor type.
    ///
    /// # Errors
    ///
    /// * `InvalidBufferSize` if the buffer is too short to be converted.
    /// * Other kinds where the implementor's conversion can fail.
    fn from_buff(buff: Vec<u8>) -> (r: Result<Self, NetCommsError>)
        requires
            Self::from_buff_accepts(buff@),
        ensures
            Self::from_buff_result(buff@, r),
    ;
}

/// Result of reading a fixed-width integer of `width` bytes from a buffer: a
/// shorter buffer gives an `InvalidBufferSize` error, a longer one is read from its
/// first `width` bytes.
pub open spec fn leading_width_result<T>(
    buff: Seq<u8>,
    width: nat,
    value: T,
    r: Result<T, NetCommsError>,
) -> bool {
    match r {
        Ok(v) => buff.len() >= width && v == value,
        Err(e) => buff.len() < width && e.kind is InvalidBufferSize,
    }
}

fn buffer_too_short() -> (e: NetCommsError)
    ensures
        e.kind is InvalidBufferSize,
{
    NetCommsError::new(
        NetCommsErrorKind::InvalidBufferSize,
        Some(String::from_str("The buffer is too short for this conversion.")),
    )
}

impl FromBuffer for usize {
    open spec fn from_buff_accepts(buff: Seq<u8>) -> bool {
        true
    }

    open spec fn from_buff_result(buff: Seq<u8>, r: Result<usize, NetCommsError>) -> bool {
        leading_width_result(buff, 8, u64_from_be(buff) as usize, r)
    }

    fn from_buff(buff: Vec<u8>) -> (r: Result<usize, NetCommsError>) {
        if buff.len() < 8 {
            return Err(buffer_too_short());
        }
        Ok(u64_of_be(buff.as_slice()) as usize)
    }
}

impl FromBuffer for u16 {
    open spec fn from_buff_accepts(buff: Seq<u8>) -> bool {
        true
    }

    open spec fn from_buff_result(buff: Seq<u8>, r: Result<u16, NetCommsError>) -> bool {
        leading_width_result(buff, 2, u16_from_be(buff), r)
    }

    fn from_buff(buff: Vec<u8>) -> (r: Result<u16, NetCommsError>) {
        if buff.len() < 2 {
            return Err(buffer_too_short());
        }
        Ok(u16_of_be(buff.as_slice()))
    }
}

impl FromBuffer for u32 {
    open spec fn from_buff_accepts(buff: Seq<u8>) -> bool {
        true
    }

    open spec fn from_buff_result(buff: Seq<u8>, r: Result<u32, NetCommsError>) -> bool {
        leading_width_result(buff, 4, u32_from_be(buff), r)
    }

    fn from_buff(buff: Vec<u8>) -> (r: Result<u32, NetCommsError>) {
        if buff.len() < 4 {
            return Err(buffer_too_short());
        }
        Ok(u32_of_be(buff.as_slice()))
    }
}

impl FromBuffer for String {
    open spec fn from_buff_accepts(buff: Seq<u8>) -> bool {
        true
    }

    /// Valid UTF-8 is decoded; anything else is an `OtherSource` error.
    open spec fn from_buff_result(buff: Seq<u8>, r: Result<String, NetCommsError>) -> bool {
        match r {
            Ok(s) => valid_utf8(buff) && s@ == decode_utf8(buff),
            Err(e) => !valid_utf8(buff) && e.kind is OtherSource,
        }
    }

    fn from_buff(buff: Vec<u8>) -> (r: Result<String, NetCommsError>) {
        match string_from_utf8(buff) {
            Ok(string) => Ok(string),
            Err(e) => Err(NetCommsError::new(NetCommsErrorKind::OtherSource(e), None)),
        }
    }
}

/// Result of reading a time from `buff`: too few bytes give an `InvalidBufferSize`
/// error; otherwise the first eight bytes are read as a timestamp, and one that
/// chrono does not represent gives a `DeserializingFailed` error.
pub open spec fn timestamp_read_result(buff: Seq<u8>, r: Result<DateTimeUtc, NetCommsError>) -> bool {
    match r {
        Ok(d) => buff.len() >= 8 && timestamp_in_range(u64_from_be(buff) as i64) && d@ == u64_from_be(
            buff,
        ) as i64,
        Err(e) => {
            ||| buff.len() < 8 && e.kind is InvalidBufferSize
            ||| buff.len() >= 8 && !timestamp_in_range(u64_from_be(buff) as i64)
                && e.kind is DeserializingFailed
        },
    }
}

/// Reads a time from the first eight bytes of `buff`.
pub(crate) fn read_timestamp(buff: &[u8]) -> (r: Result<DateTimeUtc, NetCommsError>)
    ensures
        timestamp_read_result(buff@, r),
{
    if buff.len() < 8 {
        return Err(buffer_too_short());
    }
    let secs = u64_of_be(buff) as i64;
    match DateTimeUtc::from_timestamp(secs) {
        Some(d) => Ok(d),
        None => Err(NetCommsError::new(
            NetCommsErrorKind::DeserializingFailed,
            Some(String::from_str("The bytes hold no time that can be represented.")),
        )),
    }
}

impl FromBuffer for DateTimeUtc {
    open spec fn from_buff_accepts(buff: Seq<u8>) -> bool {
        true
    }

    open spec fn from_buff_result(buff: Seq<u8>, r: Result<DateTimeUtc, NetCommsError>) -> bool {
        timestamp_read_result(buff, r)
    }

    fn from_buff(buff: Vec<u8>) -> (r: Result<DateTimeUtc, NetCommsError>) {
        read_timestamp(buff.as_slice())
    }
}

} // verus!
