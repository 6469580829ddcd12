use vstd::prelude::*;

use crate::bytes::u64_from_be;
use crate::command::part_texts;
use crate::datetime::{DateTimeUtc, chrono_datetime_text, timestamp_in_range};
use crate::message::MessageKind;
use crate::packet::{MetaData, MetaDataView, opt_text};

verus! {

/// Metadata in a form meant to be read by people: the time is shown as text and
/// the numbers as `u32`.
#[derive(Debug, Clone)]
pub struct MetaDataPretty {
    pub message_kind: MessageKind,
    pub message_length: u32,
    pub datetime: String,
    pub author_id: u32,
    pub author_username: String,
    pub recipient_id: u32,
    pub recipients: Vec<String>,
    pub file_name: Option<String>,
}

/// Whether `p` is the readable form of metadata with the view `m`.
pub open spec fn is_metadata_pretty(m: MetaDataView, p: MetaDataPretty) -> bool {
    &&& p.message_kind == m.message_kind
    &&& p.message_length == m.message_length as u32
    &&& if m.datetime.len() >= 8 && timestamp_in_range(u64_from_be(m.datetime) as i64) {
        p.datetime@ == chrono_datetime_text(u64_from_be(m.datetime) as i64)
    } else {
        p.datetime@ == Seq::<char>::empty()
    }
    &&& p.author_id == m.author_id as u32
    &&& p.author_username@ == m.author_username
    &&& p.recipient_id == m.recipient_id as u32
    &&& part_texts(p.recipients@) == m.recipients
    &&& opt_text(p.file_name) == m.file_name
}

impl MetaDataPretty {
    /// The readable form of `metadata`. A stored time of fewer than eight bytes, or
    /// one that chrono does not represent, is shown as an empty text.
    pub fn from_metadata(metadata: &MetaData) -> (p: MetaDataPretty)
        ensures
            is_metadata_pretty(metadata@, p),
    {
        let datetime = match metadata.datetime() {
            Ok(d) => d.to_string(),
            Err(_) => String::new(),
        };
        MetaDataPretty {
            message_kind: metadata.message_kind(),
            message_length: metadata.message_length() as u32,
            datetime,
            author_id: metadata.author_id() as u32,
            author_username: metadata.author_name(),
            recipient_id: metadata.recipient_id() as u32,
            recipients: metadata.recipients(),
            file_name: metadata.file_name(),
        }
    }
}

} // verus!
