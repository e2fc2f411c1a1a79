use crate::errors::FrameError;
use crate::utils::BufferParser;
use crate::wire::{be16, be32, from_be16, from_be32, get_u16, get_u32, put_u16, put_u32};
use vstd::prelude::*;
use vstd::slice::slice_to_vec;
use vstd::std_specs::convert::TryFromSpecImpl;

verus! {

/// The kinds of control message. Each kind has a fixed code on the wire.
#[allow(clippy::upper_case_acronyms)]
#[derive(Debug, Clone, Copy, PartialEq, Eq, Structural)]
pub enum MessageType {
    Version,
    UDPTunnel,
    Authenticate,
    Ping,
    Reject,
    ServerSync,
    ChannelRemove,
    ChannelState,
    UserRemove,
    UserState,
    BanList,
    TextMessage,
    PermissionDenied,
    ACL,
    QueryUsers,
    CryptSetup,
    ContextActionModify,
    ContextAction,
    UserList,
    VoiceTarget,
    PermissionQuery,
    CodecVersion,
    UserStats,
    RequestBlob,
    ServerConfig,
    SuggestConfig,
}

impl MessageType {
    /// The code that stands for this kind in a frame header.
    pub open spec fn spec_code(self) -> u16 {
        match self {
            MessageType::Version => 0,
            MessageType::UDPTunnel => 1,
            MessageType::Authenticate => 2,
            MessageType::Ping => 3,
            MessageType::Reject => 4,
            MessageType::ServerSync => 5,
            MessageType::ChannelRemove => 6,
            MessageType::ChannelState => 7,
            MessageType::UserRemove => 8,
            MessageType::UserState => 9,
            MessageType::BanList => 10,
            MessageType::TextMessage => 11,
            MessageType::PermissionDenied => 12,
            MessageType::ACL => 13,
            MessageType::QueryUsers => 14,
            MessageType::CryptSetup => 15,
            MessageType::ContextActionModify => 16,
            MessageType::ContextAction => 17,
            MessageType::UserList => 18,
            MessageType::VoiceTarget => 19,
            MessageType::PermissionQuery => 20,
            MessageType::CodecVersion => 21,
            MessageType::UserStats => 22,
            MessageType::RequestBlob => 23,
            MessageType::ServerConfig => 24,
            MessageType::SuggestConfig => 25,
        }
    }

    /// The kind that a code stands for, if it stands for one.
    pub open spec fn from_code(code: u16) -> Option<MessageType> {
        match code {
            0 => Some(MessageType::Version),
            1 => Some(MessageType::UDPTunnel),
            2 => Some(MessageType::Authenticate),
            3 => Some(MessageType::Ping),
            4 => Some(MessageType::Reject),
            5 => Some(MessageType::ServerSync),
            6 => Some(MessageType::ChannelRemove),
            7 => Some(MessageType::ChannelState),
            8 => Some(MessageType::UserRemove),
            9 => Some(MessageType::UserState),
            10 => Some(MessageType::BanList),
            11 => Some(MessageType::TextMessage),
            12 => Some(MessageType::PermissionDenied),
            13 => Some(MessageType::ACL),
            14 => Some(MessageType::QueryUsers),
            15 => Some(MessageType::CryptSetup),
            16 => Some(MessageType::ContextActionModify),
            17 => Some(MessageType::ContextAction),
            18 => Some(MessageType::UserList),
            19 => Some(MessageType::VoiceTarget),
            20 => Some(MessageType::PermissionQuery),
            21 => Some(MessageType::CodecVersion),
            22 => Some(MessageType::UserStats),
            23 => Some(MessageType::RequestBlob),
            24 => Some(MessageType::ServerConfig),
            25 => Some(MessageType::SuggestConfig),
            _ => None,
        }
    }

    #[verifier::when_used_as_spec(spec_code)]
    pub fn code(self) -> (code: u16)
        ensures
            code == self.spec_code(),
    {
        match self {
            MessageType::Version => 0,
            MessageType::UDPTunnel => 1,
            MessageType::Authenticate => 2,
            MessageType::Ping => 3,
            MessageType::Reject => 4,
            MessageType::ServerSync => 5,
            MessageType::ChannelRemove => 6,
            MessageType::ChannelState => 7,
            MessageType::UserRemove => 8,
            MessageType::UserState => 9,
            MessageType::BanList => 10,
            MessageType::TextMessage => 11,
            MessageType::PermissionDenied => 12,
            MessageType::ACL => 13,
            MessageType::QueryUsers => 14,
            MessageType::CryptSetup => 15,
            MessageType::ContextActionModify => 16,
            MessageType::ContextAction => 17,
            MessageType::UserList => 18,
            MessageType::VoiceTarget => 19,
            MessageType::PermissionQuery => 20,
            MessageType::CodecVersion => 21,
            MessageType::UserStats => 22,
            MessageType::RequestBlob => 23,
            MessageType::ServerConfig => 24,
            MessageType::SuggestConfig => 25,
        }
    }

    /// A kind and its code determine each other, and the codes are exactly
    /// the numbers from 0 to 25.
    pub proof fn lemma_codes(t: MessageType, code: u16)
        ensures
            MessageType::from_code(t.spec_code()) == Some(t),
            MessageType::from_code(code) == Some(t) <==> t.spec_code() == code,
            MessageType::from_code(code) is Some <==> code <= 25,
    {
    }
}

impl TryFrom<u16> for MessageType {
    type Error = FrameError;

    fn try_from(value: u16) -> (r: Result<MessageType, FrameError>) {
        match value {
            0 => Ok(MessageType::Version),
            1 => Ok(MessageType::UDPTunnel),
            2 => Ok(MessageType::Authenticate),
            3 => Ok(MessageType::Ping),
            4 => Ok(MessageType::Reject),
            5 => Ok(MessageType::ServerSync),
            6 => Ok(MessageType::ChannelRemove),
            7 => Ok(MessageType::ChannelState),
            8 => Ok(MessageType::UserRemove),
            9 => Ok(MessageType::UserState),
            10 => Ok(MessageType::BanList),
            11 => Ok(MessageType::TextMessage),
            12 => Ok(MessageType::PermissionDenied),
            13 => Ok(MessageType::ACL),
            14 => Ok(MessageType::QueryUsers),
            15 => Ok(MessageType::CryptSetup),
            16 => Ok(MessageType::ContextActionModify),
            17 => Ok(MessageType::ContextAction),
            18 => Ok(MessageType::UserList),
            19 => Ok(MessageType::VoiceTarget),
            20 => Ok(MessageType::PermissionQuery),
            21 => Ok(MessageType::CodecVersion),
            22 => Ok(MessageType::UserStats),
            23 => Ok(MessageType::RequestBlob),
            24 => Ok(MessageType::ServerConfig),
            25 => Ok(MessageType::SuggestConfig),
            _ => Err(FrameError::UnknownMessageType { code: value }),
        }
    }
}

impl TryFromSpecImpl<u16> for MessageType {
    open spec fn obeys_try_from_spec() -> bool {
        true
    }

    open spec fn try_from_spec(value: u16) -> Result<MessageType, FrameError> {
        match MessageType::from_code(value) {
            Some(t) => Ok(t),
            None => Err(FrameError::UnknownMessageType { code: value }),
        }
    }
}

/// The six bytes of a header: the code of the message type, then the length
/// of the payload, both big-endian.
pub open spec fn spec_encode_header(message_type: MessageType, packet_size: u32) -> Seq<u8> {
    be16(message_type.spec_code()) + be32(packet_size)
}

/// What six bytes say as a header. Anything but six bytes is no header at
/// all, and a code outside the known set is refused, not passed over.
pub open spec fn spec_decode_header(bytes: Seq<u8>) -> Result<(MessageType, u32), FrameError> {
    if bytes.len() != 6 {
        Err(FrameError::HeaderLength)
    } else {
        match MessageType::from_code(from_be16(bytes.subrange(0, 2))) {
            Some(message_type) => Ok((message_type, from_be32(bytes.subrange(2, 6)))),
            None => Err(FrameError::UnknownMessageType { code: from_be16(bytes.subrange(0, 2)) }),
        }
    }
}

/// The head of a frame: what kind of message follows, and how many bytes of
/// payload.
#[derive(Debug, Clone, Copy, PartialEq, Eq, Structural)]
pub struct PacketHeader {
    message_type: MessageType,
    packet_size: u32,
}

impl PacketHeader {
    pub closed spec fn spec_message_type(&self) -> MessageType {
        self.message_type
    }

    pub closed spec fn spec_packet_size(&self) -> u32 {
        self.packet_size
    }

    pub fn new(message_type: MessageType, packet_size: u32) -> (header: Self)
        ensures
            header.spec_message_type() == message_type,
            header.spec_packet_size() == packet_size,
    {
        PacketHeader { message_type, packet_size }
    }

    #[verifier::when_used_as_spec(spec_message_type)]
    pub fn message_type(&self) -> (t: MessageType)
        ensures
            t == self.spec_message_type(),
    {
        self.message_type
    }

    #[verifier::when_used_as_spec(spec_packet_size)]
    pub fn packet_size(&self) -> (n: u32)
        ensures
            n == self.spec_packet_size(),
    {
        self.packet_size
    }

    pub fn to_bytes(&self) -> (bytes: Vec<u8>)
        ensures
            bytes@ == spec_encode_header(self.spec_message_type(), self.spec_packet_size()),
    {
        let mut packet: Vec<u8> = Vec::new();
        put_u16(&mut packet, self.message_type.code());
        put_u32(&mut packet, self.packet_size);
        packet
    }
}

impl<'a> TryFrom<&'a [u8]> for PacketHeader {
    type Error = FrameError;

    fn try_from(value: &'a [u8]) -> (r: Result<PacketHeader, FrameError>)
        ensures
            spec_decode_header(value@) == match r {
                Ok(header) => Ok::<(MessageType, u32), FrameError>(
                    (header.spec_message_type(), header.spec_packet_size()),
                ),
                Err(e) => Err(e),
            },
    {
        if value.len() != 6 {
            return Err(FrameError::HeaderLength);
        }
        let mut parser = BufferParser::new(value);
        let code: u16 = get_u16(parser.read(2));
        let packet_size: u32 = get_u32(parser.read(4));
        match MessageType::try_from(code) {
            Ok(message_type) => Ok(PacketHeader { message_type, packet_size }),
            Err(e) => Err(e),
        }
    }
}

impl<'a> TryFromSpecImpl<&'a [u8]> for PacketHeader {
    open spec fn obeys_try_from_spec() -> bool {
        true
    }

    closed spec fn try_from_spec(value: &'a [u8]) -> Result<PacketHeader, FrameError> {
        match spec_decode_header(value@) {
            Ok((message_type, packet_size)) => Ok(PacketHeader { message_type, packet_size }),
            Err(e) => Err(e),
        }
    }
}

impl<'a> TryFrom<&'a [u8; 6]> for PacketHeader {
    type Error = FrameError;

    /// Six bytes are always long enough for a header: only their type code
    /// can be refused.
    fn try_from(value: &'a [u8; 6]) -> (r: Result<PacketHeader, FrameError>)
        ensures
            spec_decode_header(value@) == match r {
                Ok(header) => Ok::<(MessageType, u32), FrameError>(
                    (header.spec_message_type(), header.spec_packet_size()),
                ),
                Err(e) => Err(e),
            },
            r matches Err(e) ==> e is UnknownMessageType,
    {
        PacketHeader::try_from(value.as_slice())
    }
}

impl<'a> TryFromSpecImpl<&'a [u8; 6]> for PacketHeader {
    open spec fn obeys_try_from_spec() -> bool {
        true
    }

    closed spec fn try_from_spec(value: &'a [u8; 6]) -> Result<PacketHeader, FrameError> {
        match spec_decode_header(value@) {
            Ok((message_type, packet_size)) => Ok(PacketHeader { message_type, packet_size }),
            Err(e) => Err(e),
        }
    }
}

/// The bytes of a whole frame: the header, which declares the length of the
/// payload, then the payload.
pub open spec fn spec_encode_frame(message_type: MessageType, payload: Seq<u8>) -> Seq<u8> {
    spec_encode_header(message_type, payload.len() as u32) + payload
}

/// What a run of bytes says as one whole frame: a header in the first six
/// bytes, and after it exactly as many bytes as the header declares.
pub open spec fn spec_decode_frame(bytes: Seq<u8>) -> Result<(MessageType, Seq<u8>), FrameError> {
    if bytes.len() < 6 {
        Err(FrameError::HeaderLength)
    } else {
        match spec_decode_header(bytes.subrange(0, 6)) {
            Err(e) => Err(e),
            Ok((message_type, packet_size)) => if bytes.len() - 6 == packet_size {
                Ok((message_type, bytes.subrange(6, bytes.len() as int)))
            } else {
                Err(FrameError::LengthMismatch)
            },
        }
    }
}

/// One frame: a header and the payload it announces. The payload is always
/// exactly as long as the header says.
#[derive(Debug, PartialEq, Eq)]
pub struct Packet {
    header: PacketHeader,
    packet: Vec<u8>,
}

impl Packet {
    #[verifier::type_invariant]
    spec fn length_agrees(&self) -> bool {
        self.header.packet_size == self.packet@.len()
    }

    pub closed spec fn spec_message_type(&self) -> MessageType {
        self.header.message_type
    }

    /// The bytes of the payload.
    pub closed spec fn spec_payload(&self) -> Seq<u8> {
        self.packet@
    }

    #[verifier::when_used_as_spec(spec_message_type)]
    pub fn message_type(&self) -> (t: MessageType)
        ensures
            t == self.spec_message_type(),
    {
        self.header.message_type()
    }

    /// The header of the frame. Its size is the length of the payload.
    pub fn header(&self) -> (header: PacketHeader)
        ensures
            header.spec_message_type() == self.spec_message_type(),
            header.spec_packet_size() == self.spec_payload().len(),
    {
        proof {
            use_type_invariant(self);
        }
        self.header
    }

    pub fn payload(&self) -> (bytes: &[u8])
        ensures
            bytes@ == self.spec_payload(),
    {
        self.packet.as_slice()
    }

    /// Frames the encoded body of a message of the given type. A body too
    /// long for the length field of a header is refused.
    pub fn from_message(message_type: MessageType, body: &[u8]) -> (r: Result<Self, FrameError>)
        ensures
            body@.len() <= u32::MAX ==> r is Ok && r->Ok_0.spec_message_type() == message_type
                && r->Ok_0.spec_payload() == body@,
            body@.len() > u32::MAX ==> r is Err && r->Err_0 == FrameError::PayloadTooLarge,
    {
        if body.len() > u32::MAX as usize {
            return Err(FrameError::PayloadTooLarge);
        }
        let header = PacketHeader { message_type, packet_size: body.len() as u32 };
        Ok(Self { header, packet: slice_to_vec(body) })
    }

    /// Joins a header that was read with the payload that was read after it.
    /// The payload must be as long as the header declares.
    pub fn from_data(header: PacketHeader, data: &[u8]) -> (r: Result<Self, FrameError>)
        ensures
            data@.len() == header.spec_packet_size() ==> r is Ok
                && r->Ok_0.spec_message_type() == header.spec_message_type()
                && r->Ok_0.spec_payload() == data@,
            data@.len() != header.spec_packet_size() ==> r is Err
                && r->Err_0 == FrameError::LengthMismatch,
    {
        if data.len() != header.packet_size as usize {
            return Err(FrameError::LengthMismatch);
        }
        Ok(Self { header, packet: slice_to_vec(data) })
    }

    /// Reads one whole frame from a buffer that holds nothing else.
    pub fn from_bytes(bytes: &[u8]) -> (r: Result<Self, FrameError>)
        ensures
            match r {
                Ok(packet) => spec_decode_frame(bytes@) == Ok::<(MessageType, Seq<u8>), FrameError>(
                    (packet.spec_message_type(), packet.spec_payload()),
                ),
                Err(e) => spec_decode_frame(bytes@) == Err::<(MessageType, Seq<u8>), FrameError>(e),
            },
    {
        if bytes.len() < 6 {
            return Err(FrameError::HeaderLength);
        }
        let mut parser = BufferParser::new(bytes);
        let header = match PacketHeader::try_from(parser.read(6)) {
            Ok(header) => header,
            Err(e) => { return Err(e); },
        };
        Self::from_data(header, parser.read_until_end())
    }

    pub fn to_bytes(&self) -> (bytes: Vec<u8>)
        ensures
            bytes@ == spec_encode_frame(self.spec_message_type(), self.spec_payload()),
    {
        proof {
            use_type_invariant(self);
        }
        let mut packet: Vec<u8> = Vec::new();
        put_u16(&mut packet, self.header.message_type().code());
        put_u32(&mut packet, self.header.packet_size());
        packet.extend_from_slice(self.packet.as_slice());
        assert(packet@ =~= spec_encode_frame(self.spec_message_type(), self.spec_payload()));
        packet
    }
}

/// The bytes of the frame that carries the encoded body of a message of the
/// given type. A body too long for the length field of a header is refused.
pub fn build_packet(message_type: MessageType, body: &[u8]) -> (r: Result<Vec<u8>, FrameError>)
    ensures
        body@.len() <= u32::MAX ==> r is Ok && r->Ok_0@ == spec_encode_frame(message_type, body@),
        body@.len() > u32::MAX ==> r is Err && r->Err_0 == FrameError::PayloadTooLarge,
{
    if body.len() > u32::MAX as usize {
        return Err(FrameError::PayloadTooLarge);
    }
    let mut packet: Vec<u8> = Vec::new();
    put_u16(&mut packet, message_type.code());
    put_u32(&mut packet, body.len() as u32);
    packet.extend_from_slice(body);
    assert(packet@ =~= spec_encode_frame(message_type, body@));
    Ok(packet)
}

/// A header that is written and read back is the same header.
pub proof fn lemma_header_round_trip(message_type: MessageType, packet_size: u32)
    ensures
        spec_encode_header(message_type, packet_size).len() == 6,
        spec_decode_header(spec_encode_header(message_type, packet_size)) == Ok::<
            (MessageType, u32),
            FrameError,
        >((message_type, packet_size)),
{
    let bytes = spec_encode_header(message_type, packet_size);
    crate::wire::lemma_be16_round_trip(message_type.spec_code());
    crate::wire::lemma_be32_round_trip(packet_size);
    assert(bytes.subrange(0, 2) =~= be16(message_type.spec_code()));
    assert(bytes.subrange(2, 6) =~= be32(packet_size));
    MessageType::lemma_codes(message_type, message_type.spec_code());
}

/// A frame that is written and read back gives the type and the payload it
/// was written from, for every type and every payload that a header can
/// declare.
pub proof fn lemma_frame_round_trip(message_type: MessageType, payload: Seq<u8>)
    requires
        payload.len() <= u32::MAX,
    ensures
        spec_decode_frame(spec_encode_frame(message_type, payload)) == Ok::<
            (MessageType, Seq<u8>),
            FrameError,
        >((message_type, payload)),
{
    let bytes = spec_encode_frame(message_type, payload);
    lemma_header_round_trip(message_type, payload.len() as u32);
    assert(bytes.subrange(0, 6) =~= spec_encode_header(message_type, payload.len() as u32));
    assert(bytes.subrange(6, bytes.len() as int) =~= payload);
}

/// A header whose type code is not in the known set is refused, whatever
/// length it declares; so is anything that is not six bytes long.
pub proof fn lemma_header_rejection(bytes: Seq<u8>)
    ensures
        bytes.len() != 6 ==> spec_decode_header(bytes) == Err::<(MessageType, u32), FrameError>(
            FrameError::HeaderLength,
        ),
        bytes.len() == 6 && from_be16(bytes.subrange(0, 2)) > 25 ==> spec_decode_header(bytes)
            == Err::<(MessageType, u32), FrameError>(
            FrameError::UnknownMessageType { code: from_be16(bytes.subrange(0, 2)) },
        ),
        spec_decode_header(bytes) is Ok ==> bytes.len() == 6 && from_be16(bytes.subrange(0, 2))
            <= 25,
{
}

} // verus!
