pub use crate::bytes::{Bytes, FromBytes, IntoBytes};
pub use crate::error::{NetCommsError, NetCommsErrorKind};
pub use crate::message::{MessageKind, MessageKindType, ServerReplyKind};
pub use crate::packet::{MetaData, Packet, PacketError, PacketKind, PacketKindError};
