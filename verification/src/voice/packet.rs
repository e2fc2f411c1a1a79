use vstd::prelude::*;

verus! {

/// The bits of a byte that a one-byte variable-length integer can carry.
pub const VARINT_7: u8 = 0b0111_1111;

/// The codec of a voice packet. It fills the three high bits of the first
/// byte of the packet.
#[allow(non_camel_case_types)]
#[allow(clippy::upper_case_acronyms)]
#[derive(Debug, Copy, Clone, PartialEq, Eq, Structural)]
pub enum AudioPacketType {
    CELT_Alpha,
    Ping,
    Speex,
    CELT_Beta,
    OPUS,
}

impl AudioPacketType {
    pub open spec fn spec_bits(self) -> u8 {
        match self {
            AudioPacketType::CELT_Alpha => 0b0000_0000,
            AudioPacketType::Ping => 0b0010_0000,
            AudioPacketType::Speex => 0b0100_0000,
            AudioPacketType::CELT_Beta => 0b0110_0000,
            AudioPacketType::OPUS => 0b1000_0000,
        }
    }

    /// The codec as it stands in the first byte of a packet.
    #[verifier::when_used_as_spec(spec_bits)]
    pub fn bits(self) -> (bits: u8)
        ensures
            bits == self.spec_bits(),
    {
        match self {
            AudioPacketType::CELT_Alpha => 0b0000_0000,
            AudioPacketType::Ping => 0b0010_0000,
            AudioPacketType::Speex => 0b0100_0000,
            AudioPacketType::CELT_Beta => 0b0110_0000,
            AudioPacketType::OPUS => 0b1000_0000,
        }
    }
}

/// Whom a voice packet is meant for. It fills the five low bits of the
/// first byte of the packet.
#[derive(Debug, Copy, Clone, PartialEq, Eq, Structural)]
pub enum AudioPacketTarget {
    NormalTalking,
    RecvWhisper,
    DirectWhisper,
    ServerLoopback,
}

impl AudioPacketTarget {
    pub open spec fn spec_bits(self) -> u8 {
        match self {
            AudioPacketTarget::NormalTalking => 0,
            AudioPacketTarget::RecvWhisper => 1,
            AudioPacketTarget::DirectWhisper => 2,
            AudioPacketTarget::ServerLoopback => 31,
        }
    }

    /// The target as it stands in the first byte of a packet.
    #[verifier::when_used_as_spec(spec_bits)]
    pub fn bits(self) -> (bits: u8)
        ensures
            bits == self.spec_bits(),
    {
        match self {
            AudioPacketTarget::NormalTalking => 0,
            AudioPacketTarget::RecvWhisper => 1,
            AudioPacketTarget::DirectWhisper => 2,
            AudioPacketTarget::ServerLoopback => 31,
        }
    }
}

/// A packet of the voice channel.
pub trait UdpPacket {
    /// The bytes of the packet.
    spec fn spec_to_bytes(&self) -> Seq<u8>;

    /// The one byte that holds the low seven bits of `value`.
    fn encode_varint_u8(value: u8) -> (bytes: Vec<u8>)
        ensures
            bytes@ == seq![VARINT_7 & value],
    {
        let mut bytes: Vec<u8> = Vec::new();
        bytes.push(VARINT_7 & value);
        assert(bytes@ =~= seq![VARINT_7 & value]);
        bytes
    }

    fn to_bytes(&self) -> (bytes: Vec<u8>)
        ensures
            bytes@ == self.spec_to_bytes(),
    ;
}

/// A packet of encoded audio.
pub struct AudioPacket {
    packet_type: AudioPacketType,
    packet_target: AudioPacketTarget,
    session_id: u64,
    sequence_number: u8,
    payload: Vec<u8>,
}

impl AudioPacket {
    pub closed spec fn spec_packet_type(&self) -> AudioPacketType {
        self.packet_type
    }

    pub closed spec fn spec_packet_target(&self) -> AudioPacketTarget {
        self.packet_target
    }

    pub closed spec fn spec_session_id(&self) -> u64 {
        self.session_id
    }

    pub closed spec fn spec_sequence_number(&self) -> u8 {
        self.sequence_number
    }

    pub closed spec fn spec_payload(&self) -> Seq<u8> {
        self.payload@
    }

    pub fn new(
        packet_type: AudioPacketType,
        packet_target: AudioPacketTarget,
        session_id: u64,
        sequence_number: u8,
        payload: Vec<u8>,
    ) -> (packet: Self)
        ensures
            packet.spec_packet_type() == packet_type,
            packet.spec_packet_target() == packet_target,
            packet.spec_session_id() == session_id,
            packet.spec_sequence_number() == sequence_number,
            packet.spec_payload() == payload@,
    {
        AudioPacket { packet_type, packet_target, session_id, sequence_number, payload }
    }

    pub fn set_session_id(&mut self, session_id: u64)
        ensures
            final(self).spec_session_id() == session_id,
            final(self).spec_packet_type() == old(self).spec_packet_type(),
            final(self).spec_packet_target() == old(self).spec_packet_target(),
            final(self).spec_sequence_number() == old(self).spec_sequence_number(),
            final(self).spec_payload() == old(self).spec_payload(),
    {
        self.session_id = session_id;
    }
}

impl UdpPacket for AudioPacket {
    /// One byte that joins the codec and the target, then the payload.
    open spec fn spec_to_bytes(&self) -> Seq<u8> {
        seq![self.spec_packet_type().spec_bits() | self.spec_packet_target().spec_bits()]
            + self.spec_payload()
    }

    fn to_bytes(&self) -> (bytes: Vec<u8>) {
        let mut packet: Vec<u8> = Vec::new();
        packet.push(self.packet_type.bits() | self.packet_target.bits());
        packet.extend_from_slice(self.payload.as_slice());
        assert(packet@ =~= self.spec_to_bytes());
        packet
    }
}

} // verus!
