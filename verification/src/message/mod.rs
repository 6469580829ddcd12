mod content;
mod message_kind;
mod message_kind_type;
mod server_reply_kind;

pub use content::{
    content_packets_of, received_content, content_packets, receive_content_packet,
    law_content_send_receive, FileStep, received_file, receive_file_packet, law_file_send_receive,
    law_content_packets_fit, law_number_of_packets_matches_split, FileRead, file_read_for_part,
    file_parts, law_file_parts_are_chunks,
};
pub use message_kind::{MessageKind, message_kind_bytes, message_kind_of, law_message_kind_roundtrip};
pub use message_kind_type::MessageKindType;
pub use server_reply_kind::ServerReplyKind;
