use vstd::prelude::*;

use crate::error::NetCommsError;

verus! {

/// Implementors can use `to_buff` to turn themselves into a buffer.
pub trait ToBuffer: Sized {
    /// The buffer that `self` is turned into.
    spec fn spec_to_buff(self) -> Seq<u8>;

    /// Takes ownership of `self` and turns it into a buffer.
    ///
    /// The implementations in this library never fail.
    fn to_buff(self) -> (r: Result<Vec<u8>, NetCommsError>)
        ensures
            r matches Ok(v) && v@ == self.spec_to_buff(),
    ;
}

} // verus!
