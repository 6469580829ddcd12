mod buffer;
mod message;
mod packet;

pub use buffer::{ToBuffer, FromBuffer, write_to_buff, padded_to_eight};
pub use message::{
    comp_message_kind_bytes, comp_message_kind_of, Message, comp_content_of, comp_message_complete,
};
pub use packet::{
    MetaData, PacketKind, comp_packet_kind_bytes, comp_packet_kind_accepts, comp_packet_kind_read,
    lemma_padded_eight, comp_kind_size, Packet, comp_packet_bytes,
};
mod command;
mod user;

pub use command::{
    Command, CommandError, CommandRaw, CommandRawError, is_white_space, white_space, words_of, law_white_space_code_points,
    law_visible_ascii_is_not_white_space, law_words_keep_every_other_character, without_white_space,
    law_run_without_white_space_is_one_word, law_white_space_separates_words,
    process_cmd_accepts,
};
pub use user::{User, UserUnchecked};
pub use crate::packet::{PacketError, PacketKindError};
mod laws;

pub use laws::{
    comp_kind_read_back, law_comp_message_kind_roundtrip, law_comp_usize_roundtrip,
    law_comp_packet_kind_roundtrip, law_comp_packet_roundtrip, comp_kind_consistent,
    law_comp_packet_length, law_comp_content_joins_content_data,
};
