use vstd::prelude::*;
use vstd::utf8::{encode_utf8_valid_utf8, encode_utf8_decode_utf8};

use crate::buffer::{FromBuffer, IntoBuffer};
use crate::bytes::{lemma_u16_roundtrip, lemma_u32_roundtrip, lemma_u64_roundtrip};
use crate::datetime::{DateTimeUtc, timestamp_in_range};
use crate::error::NetCommsError;

verus! {

/// Turning a `usize` into a buffer and back gives the same `usize`.
pub proof fn law_usize_buffer_roundtrip(x: usize)
    ensures
        usize::from_buff_accepts(x.spec_into_buff()),
        forall|r: Result<usize, NetCommsError>|
            usize::from_buff_result(x.spec_into_buff(), r) ==> (r matches Ok(v) && v == x),
{
    lemma_u64_roundtrip(x as u64);
}

/// Turning a `u16` into a buffer and back gives the same `u16`.
pub proof fn law_u16_buffer_roundtrip(x: u16)
    ensures
        u16::from_buff_accepts(x.spec_into_buff()),
        forall|r: Result<u16, NetCommsError>|
            u16::from_buff_result(x.spec_into_buff(), r) ==> (r matches Ok(v) && v == x),
{
    lemma_u16_roundtrip(x);
}

/// Turning a `u32` into a buffer and back gives the same `u32`.
pub proof fn law_u32_buffer_roundtrip(x: u32)
    ensures
        u32::from_buff_accepts(x.spec_into_buff()),
        forall|r: Result<u32, NetCommsError>|
            u32::from_buff_result(x.spec_into_buff(), r) ==> (r matches Ok(v) && v == x),
{
    lemma_u32_roundtrip(x);
}

/// Turning a time into a buffer and back gives the same time.
pub proof fn law_datetime_buffer_roundtrip(d: DateTimeUtc)
    requires
        timestamp_in_range(d@),
    ensures
        DateTimeUtc::from_buff_accepts(d.spec_into_buff()),
        forall|r: Result<DateTimeUtc, NetCommsError>|
            DateTimeUtc::from_buff_result(d.spec_into_buff(), r) ==> (r matches Ok(v) && v@
                == d@),
{
    let t = d@;
    lemma_u64_roundtrip(t as u64);
    assert((t as u64) as i64 == t) by (bit_vector);
}

/// Turning a `String` into a buffer and back gives the same text, never an error.
pub proof fn law_string_buffer_roundtrip(s: String)
    ensures
        String::from_buff_accepts(s.spec_into_buff()),
        forall|r: Result<String, NetCommsError>|
            String::from_buff_result(s.spec_into_buff(), r) ==> (r matches Ok(v) && v@ == s@),
{
    encode_utf8_valid_utf8(s@);
    encode_utf8_decode_utf8(s@);
}

} // verus!
