use vstd::prelude::*;

verus! {

/// Error of a packet kind, such as an accessor used on the wrong variant.
#[derive(Debug)]
pub struct PacketKindError {}

/// Error of a packet.
#[derive(Debug)]
pub struct PacketError {}

impl PacketKindError {
    /// Text of the error.
    pub fn to_string(&self) -> (s: String)
        ensures
            s@ == "PacketKindError"@,
    {
        String::from_str("PacketKindError")
    }
}

impl PacketError {
    /// Text of the error.
    pub fn to_string(&self) -> (s: String)
        ensures
            s@ == "PacketError"@,
    {
        String::from_str("PacketError")
    }
}

} // verus!
