mod message_pretty;
mod metadata_pretty;
mod packet_kind_pretty;
mod packet_pretty;

pub use message_pretty::MessagePretty;
pub use metadata_pretty::{MetaDataPretty, is_metadata_pretty};
pub use packet_kind_pretty::{
    PacketKindPretty, pretty_packet_kind, named_packet_kind, law_pretty_kind_names_the_kind,
};
pub use packet_pretty::{PacketPretty, shows_content, is_packet_pretty};
