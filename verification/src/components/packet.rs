use vstd::prelude::*;
use vstd::slice::{slice_subrange, slice_to_vec};

use crate::bytes::{be_u64, u64_from_be};
use crate::command::part_texts;
use crate::components::buffer::{FromBuffer, ToBuffer, padded_to_eight, write_to_buff};
use crate::components::message::{comp_message_kind_bytes, comp_message_kind_of};
use crate::datetime::{DateTimeUtc, timestamp_in_range};
use crate::message::MessageKind;
use crate::packet::{opt_text, PacketKindError};

verus! {

/// Metadata of a message, in the components protocol.
#[derive(Debug, Clone)]
pub struct MetaData {
    pub message_kind: MessageKind,
    pub message_length: usize,
    pub datetime: Vec<u8>,
    pub author_id: usize,
    pub recipient_id: usize,
    pub recipients: Vec<String>,
    pub file_kind: Option<String>,
}

impl MetaData {
    /// Creates metadata stamped with the time `now`.
    pub fn new_at(
        now: DateTimeUtc,
        message_kind: MessageKind,
        message_length: usize,
        author_id: usize,
        recipient_id: usize,
        recipients: Vec<String>,
        file_kind: Option<String>,
    ) -> (m: MetaData)
        ensures
            m.message_kind == message_kind,
            m.message_length == message_length,
            m.datetime@ == be_u64(now@ as u64),
            m.author_id == author_id,
            m.recipient_id == recipient_id,
            part_texts(m.recipients@) == part_texts(recipients@),
            opt_text(m.file_kind) == opt_text(file_kind),
    {
        MetaData {
            message_kind,
            message_length,
            datetime: now.to_buff(),
            author_id,
            recipient_id,
            recipients,
            file_kind,
        }
    }

    /// Creates metadata stamped with the current time; `None` when the system
    /// clock cannot be read as such a time. See [MetaData::new_at].
    pub fn new(
        message_kind: MessageKind,
        message_length: usize,
        author_id: usize,
        recipient_id: usize,
        recipients: Vec<String>,
        file_kind: Option<String>,
    ) -> (r: Option<MetaData>)
        ensures
            r matches Some(m) ==> {
                &&& m.message_kind == message_kind
                &&& m.message_length == message_length
                &&& exists|t: i64| t >= 0 && timestamp_in_range(t) && m.datetime@ == be_u64(t as u64)
                &&& m.author_id == author_id
                &&& m.recipient_id == recipient_id
                &&& part_texts(m.recipients@) == part_texts(recipients@)
                &&& opt_text(m.file_kind) == opt_text(file_kind)
            },
    {
        match DateTimeUtc::now() {
            Some(now) => Some(MetaData::new_at(
                now,
                message_kind,
                message_length,
                author_id,
                recipient_id,
                recipients,
                file_kind,
            )),
            None => None,
        }
    }
}

/// Kind of a packet, carrying the packet's data, in the components
/// protocol. Sizes count content bytes.
#[derive(Debug, Clone)]
pub enum PacketKind {
    /// Size and content of an empty packet.
    Empty(usize, Vec<u8>),
    /// Number of packets of the message, its kind, the author's id, the
    /// recipient's id, and the time of creation.
    MetaData(usize, MessageKind, usize, usize, DateTimeUtc),
    /// Size and content of additional information.
    AddInfo(usize, Vec<u8>),
    /// Size and content of a part of the content.
    Content(usize, Vec<u8>),
    Request,
    End,
    Unknown,
}

/// The bytes that `kind` is written as: two bytes for the kind, then the data.
/// Metadata are written as the length, the message kind, the author's id, the
/// recipient's id and the timestamp, each number in eight big-endian bytes.
pub open spec fn comp_packet_kind_bytes(kind: PacketKind) -> Seq<u8> {
    match kind {
        PacketKind::Empty(_, content) => seq![0u8, 0u8] + content@,
        PacketKind::MetaData(length, msg_kind, author_id, recipient_id, datetime) => seq![1u8, 0u8]
            + be_u64(length as u64) + comp_message_kind_bytes(msg_kind) + be_u64(author_id as u64)
            + be_u64(recipient_id as u64) + be_u64(datetime@ as u64),
        PacketKind::AddInfo(_, content) => seq![2u8, 0u8] + content@,
        PacketKind::Content(_, content) => seq![3u8, 0u8] + content@,
        PacketKind::Request => seq![4u8, 0u8],
        PacketKind::End => seq![5u8, 0u8],
        PacketKind::Unknown => seq![255u8, 0u8],
    }
}

/// The buffers that can be read as a packet kind: at least two bytes, and for
/// metadata at least 36 bytes whose timestamp chrono represents.
pub open spec fn comp_packet_kind_accepts(buff: Seq<u8>) -> bool {
    &&& buff.len() >= 2
    &&& buff[0] == 1 ==> buff.len() >= 36 && timestamp_in_range(
        u64_from_be(buff.subrange(28, 36)) as i64,
    )
}

/// Whether `kind` is what `buff` is read as. The size of empty, additional and
/// content packets is the length of the whole buffer, the two kind bytes included.
pub open spec fn comp_packet_kind_read(buff: Seq<u8>, kind: PacketKind) -> bool {
    let contents = buff.subrange(2, buff.len() as int);
    if buff[0] == 0 {
        kind matches PacketKind::Empty(size, c) && size == buff.len() && c@ == contents
    } else if buff[0] == 1 {
        kind matches PacketKind::MetaData(length, msg_kind, author_id, recipient_id, datetime) && {
            &&& length == u64_from_be(buff.subrange(2, 10)) as usize
            &&& msg_kind == comp_message_kind_of(buff[10])
            &&& author_id == u64_from_be(buff.subrange(12, 20)) as usize
            &&& recipient_id == u64_from_be(buff.subrange(20, 28)) as usize
            &&& datetime@ == u64_from_be(buff.subrange(28, 36)) as i64
        }
    } else if buff[0] == 2 {
        kind matches PacketKind::AddInfo(size, c) && size == buff.len() && c@ == contents
    } else if buff[0] == 3 {
        kind matches PacketKind::Content(size, c) && size == buff.len() && c@ == contents
    } else if buff[0] == 4 {
        kind is Request
    } else if buff[0] == 5 {
        kind is End
    } else {
        kind is Unknown
    }
}

impl ToBuffer for PacketKind {
    open spec fn spec_to_buff(self) -> Seq<u8> {
        comp_packet_kind_bytes(self)
    }

    fn to_buff(self) -> (buff: Vec<u8>) {
        let mut buff: Vec<u8> = Vec::new();
        match self {
            PacketKind::Empty(_, content) => {
                write_to_buff(&mut buff, &[0u8, 0u8]);
                write_to_buff(&mut buff, content.as_slice());
            },
            PacketKind::MetaData(length, msg_kind, author_id, recipient_id, datetime) => {
                write_to_buff(&mut buff, &[1u8, 0u8]);
                write_to_buff(&mut buff, length.to_buff().as_slice());
                write_to_buff(&mut buff, msg_kind.to_buff().as_slice());
                write_to_buff(&mut buff, author_id.to_buff().as_slice());
                write_to_buff(&mut buff, recipient_id.to_buff().as_slice());
                write_to_buff(&mut buff, datetime.to_buff().as_slice());
            },
            PacketKind::AddInfo(_, content) => {
                write_to_buff(&mut buff, &[2u8, 0u8]);
                write_to_buff(&mut buff, content.as_slice());
            },
            PacketKind::Content(_, content) => {
                write_to_buff(&mut buff, &[3u8, 0u8]);
                write_to_buff(&mut buff, content.as_slice());
            },
            PacketKind::Request => {
                write_to_buff(&mut buff, &[4u8, 0u8]);
            },
            PacketKind::End => {
                write_to_buff(&mut buff, &[5u8, 0u8]);
            },
            PacketKind::Unknown => {
                write_to_buff(&mut buff, &[255u8, 0u8]);
            },
        }
        proof {
            assert([0u8, 0u8]@ =~= seq![0u8, 0u8]);
            assert([1u8, 0u8]@ =~= seq![1u8, 0u8]);
            assert([2u8, 0u8]@ =~= seq![2u8, 0u8]);
            assert([3u8, 0u8]@ =~= seq![3u8, 0u8]);
            assert([4u8, 0u8]@ =~= seq![4u8, 0u8]);
            assert([5u8, 0u8]@ =~= seq![5u8, 0u8]);
            assert([255u8, 0u8]@ =~= seq![255u8, 0u8]);
            assert(buff@ =~= comp_packet_kind_bytes(self));
        }
        buff
    }
}

impl FromBuffer for PacketKind {
    open spec fn from_buff_accepts(buff: Seq<u8>) -> bool {
        comp_packet_kind_accepts(buff)
    }

    open spec fn from_buff_result(buff: Seq<u8>, r: PacketKind) -> bool {
        comp_packet_kind_read(buff, r)
    }

    fn from_buff(buff: Vec<u8>) -> (r: PacketKind) {
        let size = buff.len();
        let contents = slice_subrange(buff.as_slice(), 2, size);
        match buff[0] {
            0 => PacketKind::Empty(size, slice_to_vec(contents)),
            1 => {
                let length = usize::from_buff(slice_to_vec(slice_subrange(contents, 0, 8)));
                let msg_kind = MessageKind::from_buff(slice_to_vec(slice_subrange(contents, 8, 10)));
                let author_id = usize::from_buff(slice_to_vec(slice_subrange(contents, 10, 18)));
                let recipient_id = usize::from_buff(slice_to_vec(slice_subrange(contents, 18, 26)));
                let datetime = DateTimeUtc::from_buff(slice_to_vec(slice_subrange(contents, 26, 34)));
                proof {
                    assert(buff@.subrange(2, size as int).subrange(0, 8) =~= buff@.subrange(2, 10));
                    assert(buff@.subrange(2, size as int).subrange(10, 18) =~= buff@.subrange(12, 20));
                    assert(buff@.subrange(2, size as int).subrange(18, 26) =~= buff@.subrange(20, 28));
                    assert(buff@.subrange(2, size as int).subrange(26, 34) =~= buff@.subrange(28, 36));
                    lemma_padded_eight(buff@.subrange(2, 10));
                    lemma_padded_eight(buff@.subrange(12, 20));
                    lemma_padded_eight(buff@.subrange(20, 28));
                    lemma_padded_eight(buff@.subrange(28, 36));
                }
                PacketKind::MetaData(length, msg_kind, author_id, recipient_id, datetime)
            },
            2 => PacketKind::AddInfo(size, slice_to_vec(contents)),
            3 => PacketKind::Content(size, slice_to_vec(contents)),
            4 => PacketKind::Request,
            5 => PacketKind::End,
            _ => PacketKind::Unknown,
        }
    }
}


/// Size of the data inside `kind`: the recorded size of empty, additional and
/// content packets, 34 for metadata, 0 for the rest.
pub open spec fn comp_kind_size(kind: PacketKind) -> usize {
    match kind {
        PacketKind::Empty(size, _) => size,
        PacketKind::MetaData(..) => 34,
        PacketKind::AddInfo(size, _) => size,
        PacketKind::Content(size, _) => size,
        _ => 0,
    }
}

impl PacketKind {
    /// An empty packet kind holding `size` zero bytes.
    pub fn new_empty(size: usize) -> (k: PacketKind)
        ensures
            k matches PacketKind::Empty(s, c) && s == size && c@ == Seq::new(size as nat, |i: int| 0u8),
    {
        let mut content: Vec<u8> = Vec::new();
        while content.len() < size
            invariant
                content@.len() <= size,
                forall|j: int| 0 <= j < content@.len() ==> content@[j] == 0u8,
            decreases size - content@.len(),
        {
            content.push(0u8);
        }
        assert(content@ =~= Seq::new(size as nat, |i: int| 0u8));
        PacketKind::Empty(size, content)
    }

    /// A metadata packet kind stamped with the time `now`.
    pub fn metadata_at(
        length: usize,
        msg_kind: MessageKind,
        author_id: usize,
        recipient_id: usize,
        now: DateTimeUtc,
    ) -> (k: PacketKind)
        ensures
            k == PacketKind::MetaData(length, msg_kind, author_id, recipient_id, now),
    {
        PacketKind::MetaData(length, msg_kind, author_id, recipient_id, now)
    }

    /// A metadata packet kind stamped with the current time; `None` when the
    /// system clock cannot be read as such a time. See [PacketKind::metadata_at].
    pub fn new_metadata(length: usize, msg_kind: MessageKind, author_id: usize, recipient_id: usize) -> (r: Option<PacketKind>)
        ensures
            r matches Some(k) ==> (k matches PacketKind::MetaData(l, m, a, rid, d) && l == length && m
                == msg_kind && a == author_id && rid == recipient_id && d@ >= 0),
    {
        match PacketKind::get_datetime() {
            Some(d) => Some(PacketKind::metadata_at(length, msg_kind, author_id, recipient_id, d)),
            None => None,
        }
    }

    /// An additional information packet kind holding `content`.
    pub fn new_add_info(content: Vec<u8>) -> (k: PacketKind)
        ensures
            k matches PacketKind::AddInfo(s, c) && s == content@.len() && c@ == content@,
    {
        PacketKind::AddInfo(content.len(), content)
    }

    /// A content packet kind holding `content`.
    pub fn new_content(content: Vec<u8>) -> (k: PacketKind)
        ensures
            k matches PacketKind::Content(s, c) && s == content@.len() && c@ == content@,
    {
        PacketKind::Content(content.len(), content)
    }

    /// Size of the data inside this kind.
    pub fn get_size(&self) -> (size: usize)
        ensures
            size == comp_kind_size(*self),
    {
        match self {
            PacketKind::Empty(size, _) => *size,
            PacketKind::MetaData(..) => 34,
            PacketKind::AddInfo(size, _) => *size,
            PacketKind::Content(size, _) => *size,
            PacketKind::Request => 0,
            PacketKind::End => 0,
            PacketKind::Unknown => 0,
        }
    }

    /// The same variant without data: sizes 0, contents empty, and for metadata a
    /// length of 0, an empty message kind, ids 0 and the current time. Only for
    /// metadata can the result be `None`, when the system clock cannot be read as
    /// such a time.
    pub fn get_kind(&self) -> (r: Option<PacketKind>)
        ensures
            !(*self is MetaData) ==> r is Some,
            r matches Some(k) ==> match *self {
                PacketKind::Empty(..) => k matches PacketKind::Empty(s, c) && s == 0 && c@.len() == 0,
                PacketKind::MetaData(..) => k matches PacketKind::MetaData(l, m, a, rid, _) && l == 0
                    && m == MessageKind::Empty && a == 0 && rid == 0,
                PacketKind::AddInfo(..) => k matches PacketKind::AddInfo(s, c) && s == 0 && c@.len() == 0,
                PacketKind::Content(..) => k matches PacketKind::Content(s, c) && s == 0 && c@.len() == 0,
                PacketKind::Request => k is Request,
                PacketKind::End => k is End,
                PacketKind::Unknown => k is Unknown,
            },
    {
        match self {
            PacketKind::Empty(..) => Some(PacketKind::Empty(0, Vec::new())),
            PacketKind::MetaData(..) => PacketKind::new_metadata(0, MessageKind::Empty, 0, 0),
            PacketKind::AddInfo(..) => Some(PacketKind::AddInfo(0, Vec::new())),
            PacketKind::Content(..) => Some(PacketKind::Content(0, Vec::new())),
            PacketKind::Request => Some(PacketKind::Request),
            PacketKind::End => Some(PacketKind::End),
            PacketKind::Unknown => Some(PacketKind::Unknown),
        }
    }

    fn get_datetime() -> (r: Option<DateTimeUtc>)
        ensures
            r matches Some(d) ==> d@ >= 0 && timestamp_in_range(d@),
    {
        DateTimeUtc::now()
    }

    /// Takes ownership of `self` and returns the content of an empty, additional
    /// information or content packet kind.
    ///
    /// # Errors
    /// A `PacketKindError` for the other variants.
    pub fn get_content(self) -> (r: Result<Vec<u8>, PacketKindError>)
        ensures
            match self {
                PacketKind::Empty(_, c) => r matches Ok(v) && v@ == c@,
                PacketKind::AddInfo(_, c) => r matches Ok(v) && v@ == c@,
                PacketKind::Content(_, c) => r matches Ok(v) && v@ == c@,
                _ => r is Err,
            },
    {
        match self {
            PacketKind::Empty(_, content) => Ok(content),
            PacketKind::AddInfo(_, content) => Ok(content),
            PacketKind::Content(_, content) => Ok(content),
            _ => Err(PacketKindError {}),
        }
    }

    /// The number of packets of the message, for a metadata packet kind.
    pub fn get_message_length(&self) -> (r: Result<usize, PacketKindError>)
        ensures
            match *self {
                PacketKind::MetaData(length, ..) => r == Ok::<usize, PacketKindError>(length),
                _ => r is Err,
            },
    {
        if let PacketKind::MetaData(length, ..) = self {
            Ok(*length)
        } else {
            Err(PacketKindError {})
        }
    }

    /// The kind of the message, for a metadata packet kind.
    pub fn get_message_kind(&self) -> (r: Result<MessageKind, PacketKindError>)
        ensures
            match *self {
                PacketKind::MetaData(_, kind, ..) => r == Ok::<MessageKind, PacketKindError>(kind),
                _ => r is Err,
            },
    {
        if let PacketKind::MetaData(_, kind, _, _, _) = self {
            Ok(*kind)
        } else {
            Err(PacketKindError {})
        }
    }

    /// The author's id, for a metadata packet kind.
    pub fn get_author_id(&self) -> (r: Result<usize, PacketKindError>)
        ensures
            match *self {
                PacketKind::MetaData(_, _, author_id, ..) => r == Ok::<usize, PacketKindError>(author_id),
                _ => r is Err,
            },
    {
        if let PacketKind::MetaData(_, _, author_id, _, _) = self {
            Ok(*author_id)
        } else {
            Err(PacketKindError {})
        }
    }

    /// The recipient's id, for a metadata packet kind.
    pub fn get_recipient_id(&self) -> (r: Result<usize, PacketKindError>)
        ensures
            match *self {
                PacketKind::MetaData(_, _, _, recipient_id, _) => r == Ok::<usize, PacketKindError>(
                    recipient_id,
                ),
                _ => r is Err,
            },
    {
        if let PacketKind::MetaData(_, _, _, recipient_id, _) = self {
            Ok(*recipient_id)
        } else {
            Err(PacketKindError {})
        }
    }

    /// The time of creation, for a metadata packet kind.
    pub fn get_time(&self) -> (r: Result<DateTimeUtc, PacketKindError>)
        ensures
            match *self {
                PacketKind::MetaData(.., datetime) => r == Ok::<DateTimeUtc, PacketKindError>(datetime),
                _ => r is Err,
            },
    {
        if let PacketKind::MetaData(.., datetime) = self {
            Ok(*datetime)
        } else {
            Err(PacketKindError {})
        }
    }
}

/// A packet in the components protocol: its size, in bytes, and its kind
/// with the data.
#[derive(Debug, Clone)]
pub struct Packet {
    size: usize,
    pub kind: PacketKind,
}

/// The bytes that a packet of size `size` and kind `kind` is written as: the
/// size in eight big-endian bytes, then the kind.
pub open spec fn comp_packet_bytes(size: usize, kind: PacketKind) -> Seq<u8> {
    be_u64(size as u64) + comp_packet_kind_bytes(kind)
}

impl Packet {
    /// Recorded size.
    pub closed spec fn spec_size(&self) -> usize {
        self.size
    }

    /// Kind, with the data.
    pub closed spec fn spec_kind(&self) -> PacketKind {
        self.kind
    }

    /// Creates a packet; its size is the size of the data plus 10 bytes: 8 for the
    /// size itself and 2 for the kind.
    pub fn new(kind: PacketKind) -> (p: Packet)
        requires
            comp_kind_size(kind) + 10 <= usize::MAX,
        ensures
            p.spec_size() == comp_kind_size(kind) + 10,
            p.spec_kind() == kind,
    {
        let size = kind.get_size() + 10;
        Packet { size, kind }
    }

    /// An empty packet of size 10 with no data.
    pub fn new_empty() -> (p: Packet)
        ensures
            p.spec_size() == 10,
            p.spec_kind() matches PacketKind::Empty(s, c) && s == 0 && c@.len() == 0,
    {
        Packet { size: 10, kind: PacketKind::Empty(0, Vec::new()) }
    }

    /// Returns the size.
    pub fn get_size(&self) -> (size: usize)
        ensures
            size == self.spec_size(),
    {
        self.size
    }

    /// A reference to the kind.
    pub(crate) fn kind_ref(&self) -> (kind: &PacketKind)
        ensures
            *kind == self.spec_kind(),
    {
        &self.kind
    }

    /// Takes ownership of `self` and returns its kind with the data.
    pub fn get_contents(self) -> (kind: PacketKind)
        ensures
            kind == self.spec_kind(),
    {
        self.kind
    }
}

impl ToBuffer for Packet {
    open spec fn spec_to_buff(self) -> Seq<u8> {
        comp_packet_bytes(self.spec_size(), self.spec_kind())
    }

    fn to_buff(self) -> (buff: Vec<u8>) {
        let mut buff: Vec<u8> = Vec::new();
        write_to_buff(&mut buff, self.size.to_buff().as_slice());
        write_to_buff(&mut buff, self.kind.to_buff().as_slice());
        buff
    }
}

/// A buffer is read as a packet whose size is the buffer's length and whose kind
/// is read from the bytes after the first eight.
impl FromBuffer for Packet {
    open spec fn from_buff_accepts(buff: Seq<u8>) -> bool {
        buff.len() >= 10 && comp_packet_kind_accepts(buff.subrange(8, buff.len() as int))
    }

    open spec fn from_buff_result(buff: Seq<u8>, r: Packet) -> bool {
        r.spec_size() == buff.len() && comp_packet_kind_read(buff.subrange(8, buff.len() as int), r.spec_kind())
    }

    fn from_buff(buff: Vec<u8>) -> (r: Packet) {
        let size = buff.len();
        let kind = PacketKind::from_buff(slice_to_vec(slice_subrange(buff.as_slice(), 8, size)));
        Packet { size, kind }
    }
}

/// Eight bytes need no padding.
pub proof fn lemma_padded_eight(b: Seq<u8>)
    requires
        b.len() == 8,
    ensures
        padded_to_eight(b) == b,
{
    assert(padded_to_eight(b) =~= b);
}

} // verus!
