use vstd::prelude::*;

use crate::buffer::{FromBuffer, IntoBuffer};
use crate::bytes::{be_u64, u64_from_be, u64_to_be};
use crate::command::part_texts;
use crate::config::MAX_PACKET_CONTENT_SIZE;
use crate::datetime::{DateTimeUtc, timestamp_in_range};
use crate::error::{NetCommsError, NetCommsErrorKind};
use crate::message::MessageKind;
use crate::packet::{Packet, packets_needed, chunk_count};
use crate::user::User;

verus! {

/// What a [MetaData] holds, with every field taken by its view.
pub struct MetaDataView {
    pub message_kind: MessageKind,
    pub message_length: usize,
    pub datetime: Seq<u8>,
    pub author_id: usize,
    pub author_username: Seq<char>,
    pub recipient_id: usize,
    pub recipients: Seq<Seq<char>>,
    pub file_name: Option<Seq<char>>,
}

/// The view of an optional text.
pub open spec fn opt_text(s: Option<String>) -> Option<Seq<char>> {
    match s {
        Some(s) => Some(s@),
        None => None,
    }
}

/// Metadata of every message.
///
/// * `message_kind` -- kind of the message.
/// * `message_length` -- number of packets that the whole message is sent in.
/// * `datetime` -- time when the message was created, as the timestamp in eight
///   big-endian bytes.
/// * `author_id`, `author_username` -- who wrote the message.
/// * `recipient_id` -- the server's id if the message was created by a client,
///   otherwise the id of the recipient.
/// * `recipients` -- usernames of the recipients.
/// * `file_name` -- the name of the file, when the message is a file.
#[derive(Debug, Clone)]
pub struct MetaData {
    message_kind: MessageKind,
    message_length: usize,
    datetime: Vec<u8>,
    author_id: usize,
    author_username: String,
    recipient_id: usize,
    recipients: Vec<String>,
    file_name: Option<String>,
}

impl View for MetaData {
    type V = MetaDataView;

    closed spec fn view(&self) -> MetaDataView {
        MetaDataView {
            message_kind: self.message_kind,
            message_length: self.message_length,
            datetime: self.datetime@,
            author_id: self.author_id,
            author_username: self.author_username@,
            recipient_id: self.recipient_id,
            recipients: part_texts(self.recipients@),
            file_name: opt_text(self.file_name),
        }
    }
}

/// Number of packets that a message is sent in, when its metadata are encoded in
/// `metadata_len` bytes and its content has `content_len` bytes: the metadata
/// packets, the content packets and one end packet.
pub open spec fn message_length_for(metadata_len: nat, content_len: nat) -> int {
    packets_needed(metadata_len) + packets_needed(content_len) + 1
}

proof fn lemma_packets_needed_bound(len: nat)
    requires
        len <= usize::MAX,
    ensures
        packets_needed(len) <= len / 1020 + 1,
        packets_needed(len) as int * 2 + 1 <= usize::MAX,
{
    assert(chunk_count(len, MAX_PACKET_CONTENT_SIZE as nat) <= len / 1020 + 1);
    assert(packets_needed(len) <= chunk_count(len, MAX_PACKET_CONTENT_SIZE as nat));
    assert(len / 1020 <= usize::MAX / 1020) by (nonlinear_arith)
        requires
            len <= usize::MAX,
    ;
}

fn clock_failed() -> (e: NetCommsError)
    ensures
        e.kind is ReadingClockFailed,
{
    NetCommsError::new(
        NetCommsErrorKind::ReadingClockFailed,
        Some(String::from_str("The system clock could not be read as a time.")),
    )
}

/// The metadata, with a length of 0, that new metadata stamped with the time
/// `secs` are built as before they are encoded.
pub open spec fn draft_view(
    secs: i64,
    message_kind: MessageKind,
    author: (usize, Seq<char>, Seq<char>),
    recipient_id: usize,
    recipients: Seq<Seq<char>>,
    file_name: Option<Seq<char>>,
) -> MetaDataView {
    MetaDataView {
        message_kind,
        message_length: 0,
        datetime: be_u64(secs as u64),
        author_id: author.0,
        author_username: author.1,
        recipient_id,
        recipients,
        file_name,
    }
}

/// Whether `r` is what building metadata from `draft` gives with `encode`:
/// `encode` is given metadata that hold `draft`; its error is returned as it is,
/// and on success the metadata are `draft` with the number of packets that the
/// encoded metadata and `content_len` content bytes take, plus the end packet.
pub open spec fn built_from_draft<F: Fn(&MetaData) -> Result<Vec<u8>, NetCommsError>>(
    draft: MetaDataView,
    content_len: nat,
    encode: F,
    r: Result<MetaData, NetCommsError>,
) -> bool {
    match r {
        Ok(m) => exists|d: &MetaData, encoded: Vec<u8>|
            {
                &&& #[trigger] encode.ensures((d,), Ok(encoded))
                &&& d@ == draft
                &&& m@ == (MetaDataView {
                    message_length: message_length_for(encoded@.len(), content_len) as usize,
                    ..draft
                })
                &&& m@.message_length == message_length_for(encoded@.len(), content_len)
            },
        Err(e) => exists|d: &MetaData| #[trigger] encode.ensures((d,), Err(e)) && d@ == draft,
    }
}

/// The empty metadata stamped with the time `secs`.
pub open spec fn empty_view(secs: i64) -> MetaDataView {
    MetaDataView {
        message_kind: MessageKind::Empty,
        message_length: 0,
        datetime: be_u64(secs as u64),
        author_id: 0,
        author_username: Seq::<char>::empty(),
        recipient_id: 0,
        recipients: Seq::<Seq<char>>::empty(),
        file_name: None,
    }
}

impl MetaData {
    /// Creates new metadata for a message, stamped with the time `now`.
    ///
    /// * `content` -- content of the message, so that `message_length` can be set.
    /// * `author` -- the user from whom the message comes.
    /// * `recipient_id` -- the server's id if sent by a client, otherwise the id of
    ///   the recipient.
    /// * `recipients` -- usernames of the recipients.
    /// * `file_name` -- path or name of the file, depending on the context.
    /// * `encode` -- encodes metadata into the bytes that they are sent as.
    ///
    /// The metadata are first built with a length of 0, then encoded, so that the
    /// number of packets that they take is known.
    ///
    /// # Errors
    /// An error of `encode` is returned as it is.
    pub fn new_at<F: Fn(&MetaData) -> Result<Vec<u8>, NetCommsError>>(
        now: DateTimeUtc,
        content: &Vec<u8>,
        message_kind: MessageKind,
        author: User,
        recipient_id: usize,
        recipients: Vec<String>,
        file_name: Option<String>,
        encode: F,
    ) -> (r: Result<MetaData, NetCommsError>)
        requires
            forall|m: &MetaData| encode.requires((m,)),
        ensures
            built_from_draft(
                draft_view(
                    now@,
                    message_kind,
                    author@,
                    recipient_id,
                    part_texts(recipients@),
                    opt_text(file_name),
                ),
                content@.len(),
                encode,
                r,
            ),
    {
        let datetime = u64_to_be(now.timestamp() as u64);
        let draft = MetaData {
            message_kind,
            message_length: 0,
            datetime,
            author_id: author.id(),
            author_username: author.username(),
            recipient_id,
            recipients,
            file_name,
        };
        let encoded = match encode(&draft) {
            Ok(encoded) => encoded,
            Err(e) => return Err(e),
        };
        let n_metadata = Packet::number_of_packets(encoded.len());
        let n_content = Packet::number_of_packets(content.len());
        proof {
            lemma_packets_needed_bound(encoded@.len());
            lemma_packets_needed_bound(content@.len());
        }
        let mut metadata = draft;
        metadata.set_message_length(n_metadata as usize + n_content as usize + 1);
        Ok(metadata)
    }

    /// Creates new metadata for a message, stamped with the current time; see
    /// [MetaData::new_at].
    ///
    /// # Errors
    /// * `ReadingClockFailed` if the system clock cannot be read as a time.
    /// * An error of `encode` is returned as it is.
    pub fn new<F: Fn(&MetaData) -> Result<Vec<u8>, NetCommsError>>(
        content: &Vec<u8>,
        message_kind: MessageKind,
        author: User,
        recipient_id: usize,
        recipients: Vec<String>,
        file_name: Option<String>,
        encode: F,
    ) -> (r: Result<MetaData, NetCommsError>)
        requires
            forall|m: &MetaData| encode.requires((m,)),
        ensures
            (r matches Err(e) && e.kind is ReadingClockFailed) || exists|t: i64|
                t >= 0 && timestamp_in_range(t) && #[trigger] built_from_draft(
                    draft_view(
                        t,
                        message_kind,
                        author@,
                        recipient_id,
                        part_texts(recipients@),
                        opt_text(file_name),
                    ),
                    content@.len(),
                    encode,
                    r,
                ),
    {
        match DateTimeUtc::now() {
            Some(now) => MetaData::new_at(
                now,
                content,
                message_kind,
                author,
                recipient_id,
                recipients,
                file_name,
                encode,
            ),
            None => Err(clock_failed()),
        }
    }

    /// Creates new empty metadata, stamped with the time `now`.
    pub fn empty_at(now: DateTimeUtc) -> (m: MetaData)
        ensures
            m@ == empty_view(now@),
    {
        let m = MetaData {
            message_kind: MessageKind::Empty,
            message_length: 0,
            datetime: u64_to_be(now.timestamp() as u64),
            author_id: 0,
            author_username: String::new(),
            recipient_id: 0,
            recipients: Vec::new(),
            file_name: None,
        };
        assert(m@.recipients =~= Seq::<Seq<char>>::empty());
        m
    }

    /// Creates new empty metadata, stamped with the current time.
    ///
    /// # Errors
    /// `ReadingClockFailed` if the system clock cannot be read as a time.
    pub fn new_empty() -> (r: Result<MetaData, NetCommsError>)
        ensures
            match r {
                Ok(m) => exists|t: i64| t >= 0 && timestamp_in_range(t) && m@ == empty_view(t),
                Err(e) => e.kind is ReadingClockFailed,
            },
    {
        match DateTimeUtc::now() {
            Some(now) => Ok(MetaData::empty_at(now)),
            None => Err(clock_failed()),
        }
    }

    /// Creates metadata from all their fields.
    pub fn from_parts(
        message_kind: MessageKind,
        message_length: usize,
        datetime: Vec<u8>,
        author_id: usize,
        author_username: String,
        recipient_id: usize,
        recipients: Vec<String>,
        file_name: Option<String>,
    ) -> (m: MetaData)
        ensures
            m@ == (MetaDataView {
                message_kind,
                message_length,
                datetime: datetime@,
                author_id,
                author_username: author_username@,
                recipient_id,
                recipients: part_texts(recipients@),
                file_name: opt_text(file_name),
            }),
    {
        MetaData {
            message_kind,
            message_length,
            datetime,
            author_id,
            author_username,
            recipient_id,
            recipients,
            file_name,
        }
    }

    /// Returns the kind of the message.
    pub fn message_kind(&self) -> (kind: MessageKind)
        ensures
            kind == self@.message_kind,
    {
        self.message_kind
    }

    /// Returns `message_length`, the number of packets.
    pub fn message_length(&self) -> (length: usize)
        ensures
            length == self@.message_length,
    {
        self.message_length
    }

    /// Returns the time when the message was created.
    ///
    /// # Errors
    /// * `InvalidBufferSize` if the stored time has fewer than eight bytes.
    /// * `DeserializingFailed` if they hold no time that chrono represents.
    pub fn datetime(&self) -> (r: Result<DateTimeUtc, NetCommsError>)
        ensures
            DateTimeUtc::from_buff_result(self@.datetime, r),
    {
        DateTimeUtc::from_buff(self.datetime_bytes())
    }

    /// Returns the bytes that the time of creation is stored in.
    pub fn datetime_bytes(&self) -> (bytes: Vec<u8>)
        ensures
            bytes@ == self@.datetime,
    {
        let bytes = self.datetime.clone();
        assert(bytes@ =~= self.datetime@);
        bytes
    }

    /// Returns `author_username`.
    pub fn author_name(&self) -> (name: String)
        ensures
            name@ == self@.author_username,
    {
        self.author_username.clone()
    }

    /// Returns `author_id`.
    pub fn author_id(&self) -> (id: usize)
        ensures
            id == self@.author_id,
    {
        self.author_id
    }

    /// Returns `recipient_id`; if the message was sent by a client this is the
    /// server's id.
    pub fn recipient_id(&self) -> (id: usize)
        ensures
            id == self@.recipient_id,
    {
        self.recipient_id
    }

    /// Returns `recipients`.
    pub fn recipients(&self) -> (recipients: Vec<String>)
        ensures
            part_texts(recipients@) == self@.recipients,
    {
        let recipients = self.recipients.clone();
        assert(part_texts(recipients@) =~= part_texts(self.recipients@));
        recipients
    }

    /// Returns `file_name`.
    pub fn file_name(&self) -> (name: Option<String>)
        ensures
            opt_text(name) == self@.file_name,
    {
        self.file_name.clone()
    }

    /// Sets `message_length`.
    pub fn set_message_length(&mut self, length: usize)
        ensures
            final(self)@ == (MetaDataView { message_length: length, ..old(self)@ }),
    {
        self.message_length = length;
    }

    /// Sets `author_id`.
    pub fn set_author_id(&mut self, id: usize)
        ensures
            final(self)@ == (MetaDataView { author_id: id, ..old(self)@ }),
    {
        self.author_id = id;
    }

    /// Sets `recipient_id`.
    pub fn set_recipient_id(&mut self, recipient_id: usize)
        ensures
            final(self)@ == (MetaDataView { recipient_id, ..old(self)@ }),
    {
        self.recipient_id = recipient_id;
    }

    /// Sets `recipients`.
    pub fn set_recipients(&mut self, recipients: Vec<String>)
        ensures
            final(self)@ == (MetaDataView { recipients: part_texts(recipients@), ..old(self)@ }),
    {
        self.recipients = recipients;
    }

    /// Sets `file_name`.
    pub fn set_file_name(&mut self, name: Option<String>)
        ensures
            final(self)@ == (MetaDataView { file_name: opt_text(name), ..old(self)@ }),
    {
        self.file_name = name;
    }
}

} // verus!
