use crate::errors::FrameError;
use crate::packet::{
    lemma_header_round_trip, spec_decode_header, spec_encode_frame, spec_encode_header,
    MessageType, Packet, PacketHeader,
};
use crate::wire::{from_be16, from_be32, get_u32};
use vstd::prelude::*;
use vstd::slice::slice_subrange;

verus! {

/// The length of a frame header.
pub const HEADER_LENGTH: usize = 6;

/// The longest payload a reader accepts unless it is told otherwise.
pub const DEFAULT_MAX_PAYLOAD: u32 = 0x80_0000;

/// The most bytes a reader asks for at a time while it drops a payload.
pub const DISCARD_CHUNK: u32 = 0x1000;

/// Where a reader stands in the byte stream.
#[derive(Debug, Clone, Copy, PartialEq, Eq, Structural)]
pub enum ReaderState {
    /// At the start of a frame: a header comes next.
    Header,
    /// After a header: the payload it announces comes next.
    Body { message_type: MessageType, packet_size: u32 },
    /// Inside the payload of a frame that was refused: this many bytes of it
    /// are still to be dropped.
    Discard { remaining: u32 },
    /// The stream is no longer read.
    Closed,
}

/// What a reader makes of the bytes it was given.
#[derive(Debug, PartialEq, Eq)]
pub enum ReadEvent {
    /// More has to be read before there is anything to hand on.
    Pending,
    /// A whole frame.
    Frame(Packet),
    /// The frame that begins here is refused. Its payload will be read and
    /// dropped, and the frame after it is read as usual.
    Rejected(FrameError),
    /// The reader was not given the bytes it had asked for, or was closed
    /// before. It reads no more.
    Closed,
}

pub enum ReadEventView {
    Pending,
    Frame { message_type: MessageType, payload: Seq<u8> },
    Rejected(FrameError),
    Closed,
}

impl View for ReadEvent {
    type V = ReadEventView;

    open spec fn view(&self) -> ReadEventView {
        match self {
            ReadEvent::Pending => ReadEventView::Pending,
            ReadEvent::Frame(packet) => ReadEventView::Frame {
                message_type: packet.spec_message_type(),
                payload: packet.spec_payload(),
            },
            ReadEvent::Rejected(e) => ReadEventView::Rejected(*e),
            ReadEvent::Closed => ReadEventView::Closed,
        }
    }
}

/// How many bytes a reader in this state needs next.
pub open spec fn spec_wanted(state: ReaderState) -> nat {
    match state {
        ReaderState::Header => 6,
        ReaderState::Body { packet_size, .. } => packet_size as nat,
        ReaderState::Discard { remaining } => if remaining <= DISCARD_CHUNK {
            remaining as nat
        } else {
            DISCARD_CHUNK as nat
        },
        ReaderState::Closed => 0,
    }
}

/// Where a reader goes once the header of a refused frame is read: on to
/// the next frame if the refused one has no payload, else through its
/// payload.
pub open spec fn spec_skip(packet_size: u32) -> ReaderState {
    if packet_size == 0 {
        ReaderState::Header
    } else {
        ReaderState::Discard { remaining: packet_size }
    }
}

/// What a reader in state `state` that accepts payloads of up to
/// `max_payload` bytes makes of `bytes`, and the state it is in afterwards.
///
/// A reader that is given another number of bytes than it needs closes. A
/// header of unknown type or with too long a payload is refused and its
/// payload dropped. A frame without payload is whole as soon as its header
/// is read.
pub open spec fn spec_accept(state: ReaderState, max_payload: u32, bytes: Seq<u8>) -> (
    ReaderState,
    ReadEventView,
) {
    if state == ReaderState::Closed || bytes.len() != spec_wanted(state) {
        (ReaderState::Closed, ReadEventView::Closed)
    } else {
        match state {
            ReaderState::Header => {
                let packet_size = from_be32(bytes.subrange(2, 6));
                match spec_decode_header(bytes) {
                    Err(e) => (spec_skip(packet_size), ReadEventView::Rejected(e)),
                    Ok((message_type, _)) => if packet_size > max_payload {
                        (
                            spec_skip(packet_size),
                            ReadEventView::Rejected(FrameError::PayloadTooLarge),
                        )
                    } else if packet_size == 0 {
                        (
                            ReaderState::Header,
                            ReadEventView::Frame { message_type, payload: Seq::empty() },
                        )
                    } else {
                        (ReaderState::Body { message_type, packet_size }, ReadEventView::Pending)
                    },
                }
            },
            ReaderState::Body { message_type, .. } => (
                ReaderState::Header,
                ReadEventView::Frame { message_type, payload: bytes },
            ),
            ReaderState::Discard { remaining } => (
                spec_skip((remaining - bytes.len()) as u32),
                ReadEventView::Pending,
            ),
            ReaderState::Closed => (ReaderState::Closed, ReadEventView::Closed),
        }
    }
}

/// Cuts a byte stream into frames. The reader says how many bytes it needs
/// next; whoever owns the transport reads exactly that many and hands them
/// over.
pub struct FrameReader {
    max_payload: u32,
    state: ReaderState,
}

impl FrameReader {
    pub closed spec fn spec_state(&self) -> ReaderState {
        self.state
    }

    pub closed spec fn spec_max_payload(&self) -> u32 {
        self.max_payload
    }

    /// A reader at the start of a stream that accepts payloads of up to
    /// `max_payload` bytes.
    pub fn new(max_payload: u32) -> (reader: Self)
        ensures
            reader.spec_state() == ReaderState::Header,
            reader.spec_max_payload() == max_payload,
    {
        FrameReader { max_payload, state: ReaderState::Header }
    }

    #[verifier::when_used_as_spec(spec_state)]
    pub fn state(&self) -> (state: ReaderState)
        ensures
            state == self.spec_state(),
    {
        self.state
    }

    #[verifier::when_used_as_spec(spec_max_payload)]
    pub fn max_payload(&self) -> (max_payload: u32)
        ensures
            max_payload == self.spec_max_payload(),
    {
        self.max_payload
    }

    /// How many bytes the reader needs next. A closed reader needs none.
    pub fn wanted(&self) -> (n: usize)
        ensures
            n == spec_wanted(self.spec_state()),
    {
        match self.state {
            ReaderState::Header => HEADER_LENGTH,
            ReaderState::Body { packet_size, .. } => packet_size as usize,
            ReaderState::Discard { remaining } => if remaining <= DISCARD_CHUNK {
                remaining as usize
            } else {
                DISCARD_CHUNK as usize
            },
            ReaderState::Closed => 0,
        }
    }

    /// Stops the reader for good, as after a failure of the transport.
    pub fn close(&mut self)
        ensures
            final(self).spec_state() == ReaderState::Closed,
            final(self).spec_max_payload() == old(self).spec_max_payload(),
    {
        self.state = ReaderState::Closed;
    }

    /// Takes the bytes that were read for the reader.
    pub fn accept(&mut self, bytes: &[u8]) -> (event: ReadEvent)
        ensures
            (final(self).spec_state(), event@) == spec_accept(
                old(self).spec_state(),
                old(self).spec_max_payload(),
                bytes@,
            ),
            final(self).spec_max_payload() == old(self).spec_max_payload(),
    {
        if bytes.len() != self.wanted() {
            self.state = ReaderState::Closed;
            return ReadEvent::Closed;
        }
        match self.state {
            ReaderState::Header => {
                let packet_size: u32 = get_u32(slice_subrange(bytes, 2, 6));
                let skip = if packet_size == 0 {
                    ReaderState::Header
                } else {
                    ReaderState::Discard { remaining: packet_size }
                };
                match PacketHeader::try_from(bytes) {
                    Err(e) => {
                        self.state = skip;
                        ReadEvent::Rejected(e)
                    },
                    Ok(header) => {
                        if packet_size > self.max_payload {
                            self.state = skip;
                            ReadEvent::Rejected(FrameError::PayloadTooLarge)
                        } else if packet_size == 0 {
                            match Packet::from_data(header, slice_subrange(bytes, 0, 0)) {
                                Ok(packet) => {
                                    assert(packet.spec_payload() =~= Seq::<u8>::empty());
                                    ReadEvent::Frame(packet)
                                },
                                Err(_) => {
                                    self.state = ReaderState::Closed;
                                    ReadEvent::Closed
                                },
                            }
                        } else {
                            self.state = ReaderState::Body {
                                message_type: header.message_type(),
                                packet_size,
                            };
                            ReadEvent::Pending
                        }
                    },
                }
            },
            ReaderState::Body { message_type, packet_size } => {
                match Packet::from_data(PacketHeader::new(message_type, packet_size), bytes) {
                    Ok(packet) => {
                        self.state = ReaderState::Header;
                        ReadEvent::Frame(packet)
                    },
                    Err(_) => {
                        self.state = ReaderState::Closed;
                        ReadEvent::Closed
                    },
                }
            },
            ReaderState::Discard { remaining } => {
                let left: u32 = remaining - bytes.len() as u32;
                self.state = if left == 0 {
                    ReaderState::Header
                } else {
                    ReaderState::Discard { remaining: left }
                };
                ReadEvent::Pending
            },
            ReaderState::Closed => ReadEvent::Closed,
        }
    }
}

/// A reader at the start of a frame that is given the header of a frame it
/// accepts, and then the payload, hands on exactly that frame and stands at
/// the start of the next. A frame without payload is handed on with the
/// header.
pub proof fn lemma_reader_round_trip(max_payload: u32, message_type: MessageType, payload: Seq<u8>)
    requires
        payload.len() <= max_payload,
    ensures
        ({
            let encoded = spec_encode_frame(message_type, payload);
            let after_header = spec_accept(
                ReaderState::Header,
                max_payload,
                encoded.subrange(0, 6),
            );
            let whole = (
                ReaderState::Header,
                ReadEventView::Frame { message_type, payload },
            );
            if payload.len() == 0 {
                after_header == whole
            } else {
                &&& after_header == (
                    ReaderState::Body { message_type, packet_size: payload.len() as u32 },
                    ReadEventView::Pending,
                )
                &&& spec_accept(
                    after_header.0,
                    max_payload,
                    encoded.subrange(6, encoded.len() as int),
                ) == whole
            }
        }),
{
    let encoded = spec_encode_frame(message_type, payload);
    let head = spec_encode_header(message_type, payload.len() as u32);
    lemma_header_round_trip(message_type, payload.len() as u32);
    assert(encoded.subrange(0, 6) =~= head);
    assert(encoded.subrange(6, encoded.len() as int) =~= payload);
    assert(head.subrange(2, 6) =~= crate::wire::be32(payload.len() as u32));
    crate::wire::lemma_be32_round_trip(payload.len() as u32);
    if payload.len() == 0 {
        assert(payload =~= Seq::<u8>::empty());
    }
}

/// The pieces in which a reader asks for a frame: the header and, unless it
/// is empty, the payload.
pub open spec fn spec_frame_chunks(message_type: MessageType, payload: Seq<u8>) -> Seq<Seq<u8>> {
    if payload.len() == 0 {
        seq![spec_encode_header(message_type, 0)]
    } else {
        seq![spec_encode_header(message_type, payload.len() as u32), payload]
    }
}

/// The pieces in which a reader asks for a run of frames, one frame after
/// another.
pub open spec fn spec_stream_chunks(frames: Seq<(MessageType, Seq<u8>)>) -> Seq<Seq<u8>>
    decreases frames.len(),
{
    if frames.len() == 0 {
        Seq::empty()
    } else {
        spec_stream_chunks(frames.drop_last()) + spec_frame_chunks(
            frames.last().0,
            frames.last().1,
        )
    }
}

/// What a reader makes of a run of pieces that it is given one after
/// another: the state it ends in, and what it hands on, in order, the steps
/// at which it only waits for more left out.
pub open spec fn spec_accept_all(state: ReaderState, max_payload: u32, chunks: Seq<Seq<u8>>) -> (
    ReaderState,
    Seq<ReadEventView>,
)
    decreases chunks.len(),
{
    if chunks.len() == 0 {
        (state, Seq::empty())
    } else {
        let (before, events) = spec_accept_all(state, max_payload, chunks.drop_last());
        let (after, event) = spec_accept(before, max_payload, chunks.last());
        (
            after,
            if event is Pending {
                events
            } else {
                events.push(event)
            },
        )
    }
}

/// The frames as a reader hands them on.
pub open spec fn spec_frame_events(frames: Seq<(MessageType, Seq<u8>)>) -> Seq<ReadEventView> {
    frames.map_values(
        |frame: (MessageType, Seq<u8>)|
            ReadEventView::Frame { message_type: frame.0, payload: frame.1 },
    )
}

/// Giving a reader one run of pieces and then another is giving it the two
/// runs joined.
pub proof fn lemma_accept_all_joined(
    state: ReaderState,
    max_payload: u32,
    first: Seq<Seq<u8>>,
    second: Seq<Seq<u8>>,
)
    ensures
        ({
            let (middle, early) = spec_accept_all(state, max_payload, first);
            let (end, late) = spec_accept_all(middle, max_payload, second);
            spec_accept_all(state, max_payload, first + second) == (end, early + late)
        }),
    decreases second.len(),
{
    let (middle, early) = spec_accept_all(state, max_payload, first);
    if second.len() == 0 {
        assert(first + second =~= first);
        assert(early + Seq::<ReadEventView>::empty() =~= early);
    } else {
        lemma_accept_all_joined(state, max_payload, first, second.drop_last());
        assert((first + second).drop_last() =~= first + second.drop_last());
        assert((first + second).last() == second.last());
        let (before, events) = spec_accept_all(middle, max_payload, second.drop_last());
        let (after, event) = spec_accept(before, max_payload, second.last());
        if event is Pending {
        } else {
            assert(early + events.push(event) =~= (early + events).push(event));
        }
    }
}

/// A reader at the start of a stream of whole frames, none longer than the
/// reader accepts, hands on exactly those frames, each once and in the
/// order in which they were written, and ends at the start of the next
/// frame.
pub proof fn lemma_reader_keeps_order(max_payload: u32, frames: Seq<(MessageType, Seq<u8>)>)
    requires
        forall|i: int| 0 <= i < frames.len() ==> (#[trigger] frames[i]).1.len() <= max_payload,
    ensures
        spec_accept_all(ReaderState::Header, max_payload, spec_stream_chunks(frames)) == (
            ReaderState::Header,
            spec_frame_events(frames),
        ),
    decreases frames.len(),
{
    if frames.len() == 0 {
        assert(spec_frame_events(frames) =~= Seq::<ReadEventView>::empty());
    } else {
        let earlier = frames.drop_last();
        let (message_type, payload) = frames.last();
        let chunks = spec_frame_chunks(message_type, payload);
        let whole = ReadEventView::Frame { message_type, payload };
        assert forall|i: int| 0 <= i < earlier.len() implies (#[trigger] earlier[i]).1.len()
            <= max_payload by {
            assert(earlier[i] == frames[i]);
        }
        lemma_reader_keeps_order(max_payload, earlier);
        lemma_accept_all_joined(
            ReaderState::Header,
            max_payload,
            spec_stream_chunks(earlier),
            chunks,
        );
        lemma_reader_round_trip(max_payload, message_type, payload);
        let encoded = spec_encode_frame(message_type, payload);
        assert(encoded.subrange(0, 6) =~= spec_encode_header(message_type, payload.len() as u32));
        assert(encoded.subrange(6, encoded.len() as int) =~= payload);
        assert(spec_accept_all(ReaderState::Header, max_payload, chunks) == (
            ReaderState::Header,
            seq![whole],
        )) by {
            reveal_with_fuel(spec_accept_all, 3);
            let first = chunks.drop_last();
            if payload.len() == 0 {
                assert(first =~= Seq::<Seq<u8>>::empty());
                assert(chunks.last() == spec_encode_header(message_type, 0));
                assert(Seq::<ReadEventView>::empty().push(whole) =~= seq![whole]);
            } else {
                assert(first =~= seq![spec_encode_header(message_type, payload.len() as u32)]);
                assert(first.drop_last() =~= Seq::<Seq<u8>>::empty());
                assert(first.last() == spec_encode_header(message_type, payload.len() as u32));
                assert(chunks.last() == payload);
                assert(Seq::<ReadEventView>::empty().push(whole) =~= seq![whole]);
            }
        }
        assert(spec_frame_events(earlier) + seq![whole] =~= spec_frame_events(frames));
    }
}

} // verus!
