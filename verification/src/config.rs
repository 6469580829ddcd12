use vstd::prelude::*;

verus! {

/// Maximum number of bytes that one packet can hold, its description included.
pub const MAX_PACKET_SIZE: u16 = 1024;

/// Number of bytes that every packet has: 2 for its size and 2 for its kind.
pub const PACKET_DESCRIPTION_SIZE: u16 = 4;

/// Maximum number of content bytes in one packet: [MAX_PACKET_SIZE] less
/// [PACKET_DESCRIPTION_SIZE].
pub const MAX_PACKET_CONTENT_SIZE: u16 = MAX_PACKET_SIZE - PACKET_DESCRIPTION_SIZE;

/// Port that is used for connection.
pub const PORT: &'static str = "8000";

/// IP address that is used for connection.
pub const ADDR: &'static str = "127.0.0.1";

/// Id that the server uses when communicating with clients.
pub const SERVER_ID: u32 = 0;

/// Username that the server uses when communicating with clients.
pub const SERVER_USERNAME: &'static str = "SERVER";

/// Id used when the client or the server does not know the user that is sending or
/// receiving a message, typically in a login or register request.
pub const UNKNOWN_USER_ID: u32 = 1;

/// Username used when the client or the server does not know the user that is
/// sending or receiving a message, typically in a login or register request.
pub const UNKNOWN_USERNAME: &'static str = "UNKNOWN";

} // verus!
