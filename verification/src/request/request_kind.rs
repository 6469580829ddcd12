use vstd::prelude::*;

use crate::user::UserUnchecked;

verus! {

/// Requests that a client can make without carrying data.
#[derive(Debug, Clone, Copy, PartialEq, Eq, Structural)]
pub enum Request {
    /// Get the messages that wait for the client.
    GetWaitingMessages,
    /// The request is not recognised.
    Unknown,
}

/// Kind of a request.
#[derive(Debug)]
pub enum RequestKind {
    /// Get the id assigned by another request.
    GetId(Box<RequestKind>),
    /// Register with the given user data.
    Register(UserUnchecked),
    /// Log in with the given user data.
    Login(UserUnchecked),
    /// Unknown request.
    Unknown,
}

/// The name of a request kind, as it is displayed.
pub open spec fn request_kind_text(kind: RequestKind) -> Seq<char> {
    match kind {
        RequestKind::GetId(inner) => match *inner {
            RequestKind::Register(_) => seq!['G', 'e', 't', 'I', 'd', '(', 'R', 'e', 'g', 'i', 's', 't', 'e', 'r', ')'],
            RequestKind::Login(_) => seq!['G', 'e', 't', 'I', 'd', '(', 'L', 'o', 'g', 'i', 'n', ')'],
            _ => seq![
                'G', 'e', 't', 'I', 'd', '(', 'W', 'r', 'o', 'n', 'g', ' ', 'r', 'e', 'q', 'u', 'e', 's', 't', ')'
            ],
        },
        RequestKind::Register(_) => seq!['R', 'e', 'g', 'i', 's', 't', 'e', 'r'],
        RequestKind::Login(_) => seq!['L', 'o', 'g', 'i', 'n'],
        RequestKind::Unknown => seq!['U', 'n', 'k', 'n', 'o', 'w', 'n'],
    }
}

impl RequestKind {
    /// The name of this request kind, as it is displayed.
    pub fn to_string(&self) -> (s: String)
        ensures
            s@ == request_kind_text(*self),
    {
        let text: &[char] = match self {
            RequestKind::GetId(inner) => match &**inner {
                RequestKind::Register(_) => &['G', 'e', 't', 'I', 'd', '(', 'R', 'e', 'g', 'i', 's', 't', 'e', 'r', ')'],
                RequestKind::Login(_) => &['G', 'e', 't', 'I', 'd', '(', 'L', 'o', 'g', 'i', 'n', ')'],
                _ => &[
                    'G', 'e', 't', 'I', 'd', '(', 'W', 'r', 'o', 'n', 'g', ' ', 'r', 'e', 'q', 'u', 'e', 's', 't', ')'
                ],
            },
            RequestKind::Register(_) => &['R', 'e', 'g', 'i', 's', 't', 'e', 'r'],
            RequestKind::Login(_) => &['L', 'o', 'g', 'i', 'n'],
            RequestKind::Unknown => &['U', 'n', 'k', 'n', 'o', 'w', 'n'],
        };
        let s = crate::text::string_of(text);
        assert(s@ =~= request_kind_text(*self));
        s
    }
}

} // verus!
