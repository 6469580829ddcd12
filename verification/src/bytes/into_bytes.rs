use vstd::prelude::*;
use vstd::slice::slice_to_vec;
use vstd::utf8::encode_utf8;

use crate::bytes::{Bytes, be_u16, be_u32, be_u64, u16_to_be, u32_to_be, u64_to_be};
use crate::datetime::DateTimeUtc;

verus! {

/// Allows implementors to be converted into [Bytes].
pub trait IntoBytes: Sized {
    /// The bytes that `self` is converted into.
    spec fn spec_into_bytes(self) -> Seq<u8>;

    /// Performs a conversion from `Self` into [Bytes].
    fn into_bytes(self) -> (b: Bytes)
        ensures
            b@ == self.spec_into_bytes(),
    ;

    /// Uses [into_bytes](IntoBytes::into_bytes) to convert `Self` into a `Vec<u8>`.
    fn into_buff(self) -> (v: Vec<u8>)
        ensures
            v@ == self.spec_into_bytes(),
    {
        self.into_bytes().into_vec()
    }
}

impl IntoBytes for Vec<u8> {
    open spec fn spec_into_bytes(self) -> Seq<u8> {
        self@
    }

    fn into_bytes(self) -> (b: Bytes) {
        Bytes::from_vec(self)
    }
}

/// A `usize` is written as eight big-endian bytes.
impl IntoBytes for usize {
    open spec fn spec_into_bytes(self) -> Seq<u8> {
        be_u64(self as u64)
    }

    fn into_bytes(self) -> (b: Bytes) {
        Bytes::from_vec(u64_to_be(self as u64))
    }
}

impl IntoBytes for u16 {
    open spec fn spec_into_bytes(self) -> Seq<u8> {
        be_u16(self)
    }

    fn into_bytes(self) -> (b: Bytes) {
        Bytes::from_vec(u16_to_be(self))
    }
}

impl IntoBytes for u32 {
    open spec fn spec_into_bytes(self) -> Seq<u8> {
        be_u32(self)
    }

    fn into_bytes(self) -> (b: Bytes) {
        Bytes::from_vec(u32_to_be(self))
    }
}

/// A `String` is written as its UTF-8 encoding.
impl IntoBytes for String {
    open spec fn spec_into_bytes(self) -> Seq<u8> {
        encode_utf8(self@)
    }

    fn into_bytes(self) -> (b: Bytes) {
        Bytes::from_vec(slice_to_vec(self.as_str().as_bytes()))
    }
}

/// A time is written as its timestamp, in eight big-endian bytes.
impl IntoBytes for DateTimeUtc {
    open spec fn spec_into_bytes(self) -> Seq<u8> {
        be_u64(self@ as u64)
    }

    fn into_bytes(self) -> (b: Bytes) {
        Bytes::from_vec(u64_to_be(self.timestamp() as u64))
    }
}

} // verus!
