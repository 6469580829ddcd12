use vstd::prelude::*;
use vstd::slice::slice_subrange;
use vstd::std_specs::iter::IteratorSpec;
use vstd::utf8::{decode_utf8, valid_utf8};

use crate::utf8::{string_from_utf8_lossy, utf8_lossy};

verus! {

/// Wrapper around a `Vec<u8>` used to store data in form of bytes.
#[derive(Debug, Clone)]
pub struct Bytes(Vec<u8>);

impl View for Bytes {
    type V = Seq<u8>;

    closed spec fn view(&self) -> Seq<u8> {
        self.0@
    }
}

impl Bytes {
    /// Creates a new empty `Bytes`.
    pub fn new() -> (b: Bytes)
        ensures
            b@ == Seq::<u8>::empty(),
    {
        Bytes(Vec::new())
    }

    /// Creates `Bytes` from a `Vec<u8>`.
    pub fn from_vec(vec: Vec<u8>) -> (b: Bytes)
        ensures
            b@ == vec@,
    {
        Bytes(vec)
    }

    /// Creates `Bytes` from an array of bytes.
    pub fn from_arr<const L: usize>(arr: [u8; L]) -> (b: Bytes)
        ensures
            b@ == arr@,
    {
        let mut bytes = Bytes::new();
        let mut i: usize = 0;
        while i < L
            invariant
                i <= L,
                arr@.len() == L,
                bytes@ == arr@.subrange(0, i as int),
            decreases L - i,
        {
            bytes.push(arr[i]);
            i = i + 1;
        }
        assert(arr@.subrange(0, L as int) =~= arr@);
        bytes
    }

    /// Pushes a new byte at the end.
    pub fn push(&mut self, value: u8)
        ensures
            final(self)@ == old(self)@.push(value),
    {
        self.0.push(value)
    }

    /// Returns an immutable slice of the bytes.
    pub fn as_slice(&self) -> (s: &[u8])
        ensures
            s@ == self@,
    {
        self.0.as_slice()
    }

    /// Returns a copy of the inner `Vec`.
    pub fn vec(&self) -> (v: Vec<u8>)
        ensures
            v@ == self@,
    {
        let v = self.0.clone();
        assert(v@ =~= self.0@);
        v
    }

    /// Returns a reference to the inner `Vec`.
    pub fn vec_ref(&self) -> (v: &Vec<u8>)
        ensures
            v@ == self@,
    {
        &self.0
    }

    /// Returns a mutable reference to the inner `Vec`.
    pub fn vec_mut(&mut self) -> (v: &mut Vec<u8>)
        ensures
            v@ == old(self)@,
            final(self)@ == final(v)@,
    {
        &mut self.0
    }

    /// Takes ownership of `self` and returns the inner `Vec`.
    pub fn into_vec(self) -> (v: Vec<u8>)
        ensures
            v@ == self@,
    {
        self.0
    }

    /// Returns the number of bytes.
    pub fn len(&self) -> (n: usize)
        ensures
            n == self@.len(),
    {
        self.0.len()
    }

    /// Moves all bytes of `other` to the end of `self`, leaving `other` empty.
    pub fn append(&mut self, other: &mut Bytes)
        ensures
            final(self)@ == old(self)@ + old(other)@,
            final(other)@ == Seq::<u8>::empty(),
    {
        self.0.append(&mut other.0)
    }

    /// Returns a valid UTF-8 `String`: invalid sequences are replaced by
    /// U+FFFD REPLACEMENT CHARACTER.
    pub fn to_string(&self) -> (s: String)
        ensures
            s@ == utf8_lossy(self@),
            valid_utf8(self@) ==> s@ == decode_utf8(self@),
    {
        string_from_utf8_lossy(self.0.as_slice())
    }

    /// Returns the byte at `index`, or `None` when `index` is out of range.
    pub fn get(&self, index: usize) -> (r: Option<u8>)
        ensures
            index < self@.len() ==> r == Some(self@[index as int]),
            index >= self@.len() ==> r is None,
    {
        if index < self.0.len() {
            Some(self.0[index])
        } else {
            None
        }
    }
}

impl Default for Bytes {
    /// Empty bytes.
    fn default() -> (b: Bytes)
        ensures
            b@ == Seq::<u8>::empty(),
    {
        Bytes::new()
    }
}

impl IntoIterator for Bytes {
    type Item = u8;

    type IntoIter = std::vec::IntoIter<u8>;

    /// Iterates over the bytes, in order.
    fn into_iter(self) -> (iter: std::vec::IntoIter<u8>)
        ensures
            iter.remaining() == self@,
    {
        proof {
            vstd::std_specs::vec::axiom_spec_into_iter(self.0);
        }
        self.0.into_iter()
    }
}

impl std::ops::Index<std::ops::Range<usize>> for Bytes {
    type Output = [u8];

    fn index(&self, range: std::ops::Range<usize>) -> (s: &[u8])
        ensures
            s@ == self@.subrange(range.start as int, range.end as int),
    {
        slice_subrange(self.0.as_slice(), range.start, range.end)
    }
}

impl vstd::std_specs::core::IndexSpecImpl<std::ops::Range<usize>> for Bytes {
    open spec fn index_req(&self, range: &std::ops::Range<usize>) -> bool {
        range.start <= range.end <= self@.len()
    }
}

} // verus!
