use vstd::prelude::*;

use crate::bytes::{FromBytes, IntoBytes};

verus! {

/// Types that can serve as the kind of a message: they have a default value, can
/// be copied, and can be converted from and into bytes.
pub trait MessageKindType: Default + Clone + FromBytes + IntoBytes {}

} // verus!
