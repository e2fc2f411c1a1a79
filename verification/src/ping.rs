use crate::common::MumbleResult;
use crate::errors::MumbleError;
use crate::wire::{
    be32, be64, from_be32, from_be64, get_u32, get_u64, lemma_be64_round_trip, put_u32, put_u64,
};
use std::time::{Duration, SystemTime, SystemTimeError, UNIX_EPOCH};
use vstd::prelude::*;
use vstd::slice::slice_subrange;

verus! {

/// `std::time::SystemTime`: a reading of the system clock, carried through
/// unread.
#[verifier::external_type_specification]
#[verifier::external_body]
pub struct ExSystemTime(SystemTime);

/// `std::time::SystemTimeError`: the error of a clock reading that lies
/// before the time it is measured from, carried through unread.
#[verifier::external_type_specification]
#[verifier::external_body]
pub struct ExSystemTimeError(SystemTimeError);

/// `SystemTime::now`: a reading of the system clock. Nothing is claimed of
/// the reading.
#[verifier::external_body]
fn system_time_now() -> SystemTime {
    SystemTime::now()
}

/// `SystemTime::duration_since`, measured from `UNIX_EPOCH`: the time from
/// the epoch to `time`, or an error if `time` lies before the epoch. Nothing
/// is claimed of which it is.
#[verifier::external_body]
fn duration_since_epoch(time: &SystemTime) -> Result<Duration, SystemTimeError> {
    time.duration_since(UNIX_EPOCH)
}

/// `Duration::as_millis`: the whole milliseconds in a duration. Nothing is
/// claimed of the number.
#[verifier::external_body]
fn duration_as_millis(duration: &Duration) -> u128 {
    duration.as_millis()
}

/// A count of milliseconds cut to its low 64 bits.
pub fn low_64_bits(millis: u128) -> (low: u64)
    ensures
        low == millis % 0x1_0000_0000_0000_0000,
{
    assert(millis as u64 == millis % 0x1_0000_0000_0000_0000) by (bit_vector);
    #[verifier::truncate]
    (millis as u64)
}

/// The milliseconds from the Unix epoch to now, cut to 64 bits, or nothing
/// when the system clock is set before the epoch.
pub fn unix_millis_now() -> (millis: Option<u64>) {
    let now = system_time_now();
    match duration_since_epoch(&now) {
        Ok(elapsed) => Some(low_64_bits(duration_as_millis(&elapsed))),
        Err(_) => None,
    }
}

/// The request a client sends to ask a server for its status.
#[derive(Debug, Clone, Copy, PartialEq, Eq, Structural)]
pub struct PingRequest {
    pub request_type: u32,
    pub identity: u64,
}

impl PingRequest {
    /// The status request that carries `identity`, which the server echoes
    /// in its reply.
    pub fn with_identity(identity: u64) -> (request: Self)
        ensures
            request == (PingRequest { request_type: 0, identity }),
    {
        Self { request_type: 0, identity }
    }

    /// A status request whose identity is the current time in milliseconds.
    /// It fails only when the system clock is set before the Unix epoch.
    pub fn new() -> (r: MumbleResult<Self>)
        ensures
            r matches Ok(request) ==> request.request_type == 0,
            r matches Err(e) ==> e@ == "System clock is set before the Unix epoch"@,
    {
        Self::from_reading(unix_millis_now())
    }

    /// The status request for a reading of the clock in milliseconds: its
    /// identity is the reading. Without a reading there is no request.
    pub fn from_reading(reading: Option<u64>) -> (r: MumbleResult<Self>)
        ensures
            reading matches Some(current_time) ==> r is Ok && r->Ok_0 == (PingRequest {
                request_type: 0,
                identity: current_time,
            }),
            reading is None ==> r is Err && r->Err_0@
                == "System clock is set before the Unix epoch"@,
    {
        match reading {
            Some(current_time) => Ok(Self::with_identity(current_time)),
            None => Err(MumbleError::new("System clock is set before the Unix epoch")),
        }
    }

    /// The twelve bytes of the request: the type, then the identity, both
    /// big-endian.
    pub open spec fn spec_to_vec(self) -> Seq<u8> {
        be32(self.request_type) + be64(self.identity)
    }

    pub fn to_vec(&self) -> (data: Vec<u8>)
        ensures
            data@ == self.spec_to_vec(),
            data@.len() == 12,
    {
        let mut data: Vec<u8> = Vec::new();
        put_u32(&mut data, self.request_type);
        put_u64(&mut data, self.identity);
        data
    }
}

/// A server's reply to a status request.
#[derive(Debug, Clone, Copy, PartialEq, Eq, Structural)]
pub struct PingResponse {
    pub version: u32,
    pub identity: u64,
    pub connected_users: u32,
    pub maximum_users: u32,
    pub allowed_bandwidth: u32,
}

impl PingResponse {
    /// What the first 24 bytes of a reply say: five big-endian numbers, the
    /// second of eight bytes and the others of four.
    pub open spec fn spec_from_u8_buffer(buffer: Seq<u8>) -> PingResponse
        recommends
            buffer.len() >= 24,
    {
        PingResponse {
            version: from_be32(buffer.subrange(0, 4)),
            identity: from_be64(buffer.subrange(4, 12)),
            connected_users: from_be32(buffer.subrange(12, 16)),
            maximum_users: from_be32(buffer.subrange(16, 20)),
            allowed_bandwidth: from_be32(buffer.subrange(20, 24)),
        }
    }

    /// Reads a reply from the head of a buffer. Bytes after the first 24 are
    /// not looked at; a buffer of fewer is refused.
    pub fn from_u8_buffer(buffer: &[u8]) -> (r: MumbleResult<Self>)
        ensures
            buffer@.len() >= 24 ==> r is Ok && r->Ok_0 == PingResponse::spec_from_u8_buffer(
                buffer@,
            ),
            buffer@.len() < 24 ==> r is Err && r->Err_0@ == "Ping response was too short"@,
    {
        if buffer.len() < 24 {
            return Err(MumbleError::new("Ping response was too short"));
        }
        Ok(
            Self {
                version: get_u32(slice_subrange(buffer, 0, 4)),
                identity: get_u64(slice_subrange(buffer, 4, 12)),
                connected_users: get_u32(slice_subrange(buffer, 12, 16)),
                maximum_users: get_u32(slice_subrange(buffer, 16, 20)),
                allowed_bandwidth: get_u32(slice_subrange(buffer, 20, 24)),
            },
        )
    }
}

/// A reply that begins with any four bytes and then repeats the identity
/// bytes of a request is read as a reply to that request: the identity read
/// from it is the identity of the request.
pub proof fn lemma_reply_echoes_identity(request: PingRequest, reply: Seq<u8>)
    requires
        reply.len() >= 24,
        reply.subrange(4, 12) == request.spec_to_vec().subrange(4, 12),
    ensures
        PingResponse::spec_from_u8_buffer(reply).identity == request.identity,
{
    lemma_be64_round_trip(request.identity);
    assert(request.spec_to_vec().subrange(4, 12) =~= be64(request.identity));
}

} // verus!
