use vstd::prelude::*;
use vstd::slice::slice_to_vec;
use vstd::utf8::{decode_utf8, encode_utf8, valid_utf8};

use crate::bytes::{be_u64, u64_from_be, u64_of_be, u64_to_be};
use crate::datetime::{DateTimeUtc, timestamp_in_range};
use crate::utf8::{string_from_utf8_lossy, utf8_lossy};

verus! {

/// Implementors can turn themselves into a buffer. This takes ownership of `self`.
pub trait ToBuffer: Sized {
    /// The buffer that `self` is turned into.
    spec fn spec_to_buff(self) -> Seq<u8>;

    fn to_buff(self) -> (buff: Vec<u8>)
        ensures
            buff@ == self.spec_to_buff(),
    ;
}

/// Implementors can be made from a buffer.
pub trait FromBuffer: Sized {
    /// The buffers on which the conversion is defined.
    spec fn from_buff_accepts(buff: Seq<u8>) -> bool;

    /// Whether `r` is what `buff` is turned into.
    spec fn from_buff_result(buff: Seq<u8>, r: Self) -> bool;

    fn from_buff(buff: Vec<u8>) -> (r: Self)
        requires
            Self::from_buff_accepts(buff@),
        ensures
            Self::from_buff_result(buff@, r),
    ;
}

/// Appends every byte of `slice` to `buff`.
pub fn write_to_buff(buff: &mut Vec<u8>, slice: &[u8])
    ensures
        final(buff)@ == old(buff)@ + slice@,
{
    let mut i: usize = 0;
    while i < slice.len()
        invariant
            i <= slice@.len(),
            buff@ == old(buff)@ + slice@.take(i as int),
        decreases slice@.len() - i,
    {
        buff.push(slice[i]);
        assert(slice@.take(i + 1) =~= slice@.take(i as int).push(slice@[i as int]));
        i = i + 1;
    }
    assert(slice@.take(slice@.len() as int) =~= slice@);
}

/// `buff` filled up with zero bytes at its end to eight bytes.
pub open spec fn padded_to_eight(buff: Seq<u8>) -> Seq<u8> {
    buff + Seq::new((8 - buff.len()) as nat, |i: int| 0u8)
}

fn pad_to_eight(buff: &Vec<u8>) -> (padded: Vec<u8>)
    requires
        buff@.len() <= 8,
    ensures
        padded@ == padded_to_eight(buff@),
{
    let mut padded: Vec<u8> = Vec::new();
    write_to_buff(&mut padded, buff.as_slice());
    while padded.len() < 8
        invariant
            buff@.len() <= padded@.len() <= 8,
            padded@.subrange(0, buff@.len() as int) == buff@,
            forall|j: int| buff@.len() <= j < padded@.len() ==> padded@[j] == 0u8,
        decreases 8 - padded@.len(),
    {
        padded.push(0u8);
    }
    assert(padded@ =~= padded_to_eight(buff@));
    padded
}

/// A `usize` is written as eight big-endian bytes.
impl ToBuffer for usize {
    open spec fn spec_to_buff(self) -> Seq<u8> {
        be_u64(self as u64)
    }

    fn to_buff(self) -> (buff: Vec<u8>) {
        u64_to_be(self as u64)
    }
}

/// At most eight bytes are read as the big-endian bytes of a `usize`, missing
/// bytes at the end taken as zero.
impl FromBuffer for usize {
    open spec fn from_buff_accepts(buff: Seq<u8>) -> bool {
        buff.len() <= 8
    }

    open spec fn from_buff_result(buff: Seq<u8>, r: usize) -> bool {
        r == u64_from_be(padded_to_eight(buff)) as usize
    }

    fn from_buff(buff: Vec<u8>) -> (r: usize) {
        let padded = pad_to_eight(&buff);
        u64_of_be(padded.as_slice()) as usize
    }
}

/// A time is written as its timestamp, in eight big-endian bytes.
impl ToBuffer for DateTimeUtc {
    open spec fn spec_to_buff(self) -> Seq<u8> {
        be_u64(self@ as u64)
    }

    fn to_buff(self) -> (buff: Vec<u8>) {
        u64_to_be(self.timestamp() as u64)
    }
}

/// At most eight bytes are read as a timestamp, which must be one that chrono
/// represents.
impl FromBuffer for DateTimeUtc {
    open spec fn from_buff_accepts(buff: Seq<u8>) -> bool {
        &&& buff.len() <= 8
        &&& timestamp_in_range(u64_from_be(padded_to_eight(buff)) as i64)
    }

    open spec fn from_buff_result(buff: Seq<u8>, r: DateTimeUtc) -> bool {
        r@ == u64_from_be(padded_to_eight(buff)) as i64
    }

    fn from_buff(buff: Vec<u8>) -> (r: DateTimeUtc) {
        let padded = pad_to_eight(&buff);
        DateTimeUtc::from_timestamp_in_range(u64_of_be(padded.as_slice()) as i64)
    }
}

/// A `String` is written as its UTF-8 encoding.
impl ToBuffer for String {
    open spec fn spec_to_buff(self) -> Seq<u8> {
        encode_utf8(self@)
    }

    fn to_buff(self) -> (buff: Vec<u8>) {
        slice_to_vec(self.as_str().as_bytes())
    }
}

/// A buffer is decoded as UTF-8, invalid sequences replaced by U+FFFD.
impl FromBuffer for String {
    open spec fn from_buff_accepts(buff: Seq<u8>) -> bool {
        true
    }

    open spec fn from_buff_result(buff: Seq<u8>, r: String) -> bool {
        &&& r@ == utf8_lossy(buff)
        &&& valid_utf8(buff) ==> r@ == decode_utf8(buff)
    }

    fn from_buff(buff: Vec<u8>) -> (r: String) {
        string_from_utf8_lossy(buff.as_slice())
    }
}

} // verus!
