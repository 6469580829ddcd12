use vstd::prelude::*;

verus! {

/// Types that can serve as the kind of a [NetCommsError].
pub trait NetCommsErrorType {}

/// Error whose kind is any type of kinds.
///
/// * `kind` -- kind of the error.
/// * `message` -- optional additional information about the error.
#[derive(Debug)]
pub struct NetCommsError<E: NetCommsErrorType> {
    pub kind: E,
    pub message: Option<String>,
}

impl<E: NetCommsErrorType> NetCommsError<E> {
    /// Constructs a new error.
    pub fn new(kind: E, message: Option<String>) -> (e: NetCommsError<E>)
        ensures
            e.kind == kind,
            e.message == message,
    {
        NetCommsError { kind, message }
    }
}

} // verus!
