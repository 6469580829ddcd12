use vstd::prelude::*;
use vstd::slice::slice_to_vec;
use vstd::utf8::encode_utf8;

use crate::bytes::{be_u16, be_u32, be_u64, u16_to_be, u32_to_be, u64_to_be};
use crate::datetime::DateTimeUtc;
use crate::error::NetCommsError;

verus! {

/// Implementors can use `into_buff` to turn themselves into a buffer.
pub trait IntoBuffer: Sized {
    /// The buffer that `self` is turned into.
    spec fn spec_into_buff(self) -> Seq<u8>;

    /// Takes ownership of `self` and turns it into a buffer.
    ///
    /// The implementations in this library never fail.
    fn into_buff(self) -> (r: Result<Vec<u8>, NetCommsError>)
        ensures
            r matches Ok(v) && v@ == self.spec_into_buff(),
    ;
}

impl IntoBuffer for usize {
    open spec fn spec_into_buff(self) -> Seq<u8> {
        be_u64(self as u64)
    }

    fn into_buff(self) -> (r: Result<Vec<u8>, NetCommsError>) {
        Ok(u64_to_be(self as u64))
    }
}

impl IntoBuffer for u16 {
    open spec fn spec_into_buff(self) -> Seq<u8> {
        be_u16(self)
    }

    fn into_buff(self) -> (r: Result<Vec<u8>, NetCommsError>) {
        Ok(u16_to_be(self))
    }
}

impl IntoBuffer for u32 {
    open spec fn spec_into_buff(self) -> Seq<u8> {
        be_u32(self)
    }

    fn into_buff(self) -> (r: Result<Vec<u8>, NetCommsError>) {
        Ok(u32_to_be(self))
    }
}

impl IntoBuffer for String {
    open spec fn spec_into_buff(self) -> Seq<u8> {
        encode_utf8(self@)
    }

    fn into_buff(self) -> (r: Result<Vec<u8>, NetCommsError>) {
        Ok(slice_to_vec(self.as_str().as_bytes()))
    }
}

impl IntoBuffer for DateTimeUtc {
    open spec fn spec_into_buff(self) -> Seq<u8> {
        be_u64(self@ as u64)
    }

    fn into_buff(self) -> (r: Result<Vec<u8>, NetCommsError>) {
        Ok(u64_to_be(self.timestamp() as u64))
    }
}

} // verus!
