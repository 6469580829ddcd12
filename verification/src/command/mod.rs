mod command;
mod command_raw;

pub use command::Command;
pub use command_raw::{
    CommandRaw, is_split_after_spaces, part_texts, command_word, word_register, word_login,
    word_yes, word_no, word_send, recipient_separators, scan_recipients, send_recipients,
    send_text, names_file, file_path, process_accepts, send_command_matches, separates_recipients,
    law_recipient_name_keeps_other_characters, law_file_path_keeps_other_characters,
};
