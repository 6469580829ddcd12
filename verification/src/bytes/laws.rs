use vstd::prelude::*;
use vstd::utf8::{encode_utf8, encode_utf8_valid_utf8, encode_utf8_decode_utf8};

use crate::bytes::{
    FromBytes, IntoBytes, lemma_u16_roundtrip, lemma_u32_roundtrip, lemma_u64_roundtrip,
};
use crate::datetime::{DateTimeUtc, timestamp_in_range};
use crate::error::NetCommsError;

verus! {

/// Converting a `usize` into bytes and back gives the same `usize`.
pub proof fn law_usize_bytes_roundtrip(x: usize)
    ensures
        usize::from_bytes_accepts(x.spec_into_bytes()),
        forall|r: Result<usize, NetCommsError>|
            usize::from_bytes_result(x.spec_into_bytes(), r) ==> (r matches Ok(v) && v == x),
{
    lemma_u64_roundtrip(x as u64);
}

/// Converting a `u16` into bytes and back gives the same `u16`.
pub proof fn law_u16_bytes_roundtrip(x: u16)
    ensures
        u16::from_bytes_accepts(x.spec_into_bytes()),
        forall|r: Result<u16, NetCommsError>|
            u16::from_bytes_result(x.spec_into_bytes(), r) ==> (r matches Ok(v) && v == x),
{
    lemma_u16_roundtrip(x);
}

/// Converting a `u32` into bytes and back gives the same `u32`.
pub proof fn law_u32_bytes_roundtrip(x: u32)
    ensures
        u32::from_bytes_accepts(x.spec_into_bytes()),
        forall|r: Result<u32, NetCommsError>|
            u32::from_bytes_result(x.spec_into_bytes(), r) ==> (r matches Ok(v) && v == x),
{
    lemma_u32_roundtrip(x);
}

/// Converting a time into bytes and back gives the same time.
pub proof fn law_datetime_bytes_roundtrip(d: DateTimeUtc)
    requires
        timestamp_in_range(d@),
    ensures
        DateTimeUtc::from_bytes_accepts(d.spec_into_bytes()),
        forall|r: Result<DateTimeUtc, NetCommsError>|
            DateTimeUtc::from_bytes_result(d.spec_into_bytes(), r) ==> (r matches Ok(v)
                && v@ == d@),
{
    let t = d@;
    lemma_u64_roundtrip(t as u64);
    assert((t as u64) as i64 == t) by (bit_vector);
}

/// Converting a `String` into bytes and back gives the same text.
pub proof fn law_string_bytes_roundtrip(s: String)
    ensures
        String::from_bytes_accepts(s.spec_into_bytes()),
        forall|r: Result<String, NetCommsError>|
            String::from_bytes_result(s.spec_into_bytes(), r) ==> (r matches Ok(v) && v@ == s@),
{
    encode_utf8_valid_utf8(s@);
    encode_utf8_decode_utf8(s@);
}

} // verus!
