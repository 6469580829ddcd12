mod chunks;
mod laws;
mod metadata;
mod packet;
mod packet_error;
mod packet_kind;

pub use chunks::{chunks_of, join_chunks, chunk_count, lemma_join_chunks_of, lemma_chunks_of_shape};
pub use packet_error::{PacketError, PacketKindError};
pub use packet::{Packet, packet_size_for, packet_bytes, packet_of_bytes, packets_needed};
pub use packet_kind::{
    PacketKind, packet_kind_of, packet_kind_bytes, law_packet_kind_roundtrip,
    law_packet_kind_canonical_bytes,
};
pub use crate::config::PACKET_DESCRIPTION_SIZE;
pub use laws::{size_consistent, law_new_packet_size, law_packet_bytes_roundtrip, law_bytes_packet_roundtrip};
pub use metadata::{
    MetaData, MetaDataView, opt_text, message_length_for, draft_view, built_from_draft, empty_view,
};
