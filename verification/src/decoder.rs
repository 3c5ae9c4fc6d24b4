//! The protocol state machine: which header or payload the stream presents
//! next, and which of them are fatal.

use vstd::prelude::*;
use crate::frame::MAX_DATA_SIZE;
use crate::header::{
    lemma_common_decode_encode, lemma_data_decode_encode, lemma_status_decode_encode,
    CommonHeader, DataHeader, StatusHeader, COMMON_HEADER_LEN, DATA_HEADER_LEN, STATUS_HEADER_LEN,
};

verus! {

/// Smallest `size` of a data event: its two headers and no payload.
pub const MIN_FRAME_SIZE: usize = 7;

/// Longest payload of a data event.
pub const MAX_PAYLOAD_LEN: usize = 1273;

/// A stream that cannot be decoded any further.
#[derive(Clone, Copy, Debug, PartialEq, Eq)]
pub enum DecodeError {
    /// The bit of the common header that is always zero was set.
    NonZeroFlag,
    /// The toggle bit of the common header did not alternate.
    ToggleMismatch { got: bool, expected: bool },
    /// The size of a data event is out of bounds.
    BadFrameSize(usize),
}

/// What the decoder reads next.
#[derive(Clone, Copy, Debug, PartialEq, Eq)]
pub enum Awaiting {
    /// The common header of the next event.
    Common,
    /// The status header of this event.
    Status,
    /// The data header of this event.
    Data,
    /// The payload of this event, of the given length.
    Payload(usize),
}

/// What the decoder read.
#[derive(Clone, Copy, Debug, PartialEq, Eq)]
pub enum Event {
    /// A common header that passed its checks.
    Common(CommonHeader),
    /// The status header of a status event. The event is over.
    Status(StatusHeader),
    /// The data header of a data event. The event is over if it has no
    /// payload.
    Data(DataHeader),
    /// The payload of a data event. The event is over.
    Payload,
}

/// State of the decoder between two reads.
#[derive(Clone, Copy, Debug, PartialEq, Eq)]
pub struct DecoderState {
    /// The toggle bit that the next common header must carry.
    pub expected_toggle: bool,
    /// What is read next.
    pub awaiting: Awaiting,
}

impl DecoderState {
    /// The state at the start of a stream.
    pub open spec fn initial() -> DecoderState {
        DecoderState { expected_toggle: false, awaiting: Awaiting::Common }
    }

    /// A payload that is awaited is not empty and not longer than a data
    /// event allows.
    pub open spec fn wf(self) -> bool {
        self.awaiting matches Awaiting::Payload(n) ==> 0 < n <= MAX_PAYLOAD_LEN
    }

    /// Number of bytes of the next read.
    pub open spec fn wanted(self) -> nat {
        match self.awaiting {
            Awaiting::Common => COMMON_HEADER_LEN as nat,
            Awaiting::Status => STATUS_HEADER_LEN as nat,
            Awaiting::Data => DATA_HEADER_LEN as nat,
            Awaiting::Payload(n) => n as nat,
        }
    }

    /// The decoder's reaction to the bytes of one read: the next state and
    /// what was read, or the error that ends the stream.
    pub open spec fn step(self, bytes: Seq<u8>) -> Result<(DecoderState, Event), DecodeError> {
        match self.awaiting {
            Awaiting::Common => {
                let header = CommonHeader::decoded(bytes);
                match check_common(self.expected_toggle, header) {
                    Err(e) => Err(e),
                    Ok(()) => Ok(
                        (
                            DecoderState {
                                expected_toggle: !self.expected_toggle,
                                awaiting: if header.is_data {
                                    Awaiting::Data
                                } else {
                                    Awaiting::Status
                                },
                            },
                            Event::Common(header),
                        ),
                    ),
                }
            },
            Awaiting::Status => Ok(
                (
                    DecoderState { awaiting: Awaiting::Common, ..self },
                    Event::Status(StatusHeader::decoded(bytes)),
                ),
            ),
            Awaiting::Data => {
                let header = DataHeader::decoded(bytes);
                match payload_len(header) {
                    Err(e) => Err(e),
                    Ok(n) => Ok(
                        (
                            DecoderState {
                                awaiting: if n > 0 {
                                    Awaiting::Payload(n)
                                } else {
                                    Awaiting::Common
                                },
                                ..self
                            },
                            Event::Data(header),
                        ),
                    ),
                }
            },
            Awaiting::Payload(_) => Ok(
                (DecoderState { awaiting: Awaiting::Common, ..self }, Event::Payload),
            ),
        }
    }
}

/// The checks on a common header: the zero bit first, then the toggle bit.
pub open spec fn check_common(expected_toggle: bool, header: CommonHeader) -> Result<
    (),
    DecodeError,
> {
    if header.non_zero {
        Err(DecodeError::NonZeroFlag)
    } else if header.toggle != expected_toggle {
        Err(DecodeError::ToggleMismatch { got: header.toggle, expected: expected_toggle })
    } else {
        Ok(())
    }
}

/// The length of the payload that follows a data header: its `size` less the
/// two headers, if `size` is in bounds.
pub open spec fn payload_len(header: DataHeader) -> Result<usize, DecodeError> {
    if MIN_FRAME_SIZE <= header.size <= MAX_DATA_SIZE {
        Ok((header.size - MIN_FRAME_SIZE) as usize)
    } else {
        Err(DecodeError::BadFrameSize(header.size as usize))
    }
}

/// The toggle bit of the header at `index` in a sound stream that starts
/// with `first`.
pub open spec fn toggle_at(first: bool, index: int) -> bool {
    if index % 2 == 0 {
        first
    } else {
        !first
    }
}

/// Checks a common header against the toggle bit that is expected.
pub fn accept_common(expected_toggle: bool, header: &CommonHeader) -> (r: Result<(), DecodeError>)
    ensures
        r == check_common(expected_toggle, *header),
{
    if header.non_zero {
        Err(DecodeError::NonZeroFlag)
    } else if header.toggle != expected_toggle {
        Err(DecodeError::ToggleMismatch { got: header.toggle, expected: expected_toggle })
    } else {
        Ok(())
    }
}

/// The length of the payload that follows `header`. A `size` below
/// [`MIN_FRAME_SIZE`] or above [`MAX_DATA_SIZE`] is refused, every other is
/// accepted.
pub fn data_payload_len(header: &DataHeader) -> (r: Result<usize, DecodeError>)
    ensures
        r == payload_len(*header),
        r is Ok <==> MIN_FRAME_SIZE <= header.size <= MAX_DATA_SIZE,
        r matches Ok(n) ==> n == header.size - MIN_FRAME_SIZE && n <= MAX_PAYLOAD_LEN,
        r matches Err(e) ==> e == DecodeError::BadFrameSize(header.size as usize),
{
    let size: usize = header.size as usize;
    if size < MIN_FRAME_SIZE || size > MAX_DATA_SIZE {
        Err(DecodeError::BadFrameSize(size))
    } else {
        Ok(size - MIN_FRAME_SIZE)
    }
}

/// The decoder of the capture stream. Its view is its [`DecoderState`].
pub struct StreamDecoder {
    state: DecoderState,
}

impl View for StreamDecoder {
    type V = DecoderState;

    closed spec fn view(&self) -> DecoderState {
        self.state
    }
}

impl StreamDecoder {
    #[verifier::type_invariant]
    spec fn state_is_wf(self) -> bool {
        self.state.wf()
    }

    /// A decoder at the start of a stream.
    pub fn new() -> (decoder: Self)
        ensures
            decoder@ == DecoderState::initial(),
    {
        StreamDecoder {
            state: DecoderState { expected_toggle: false, awaiting: Awaiting::Common },
        }
    }

    /// Number of bytes of the next read: never zero, never more than
    /// [`MAX_PAYLOAD_LEN`].
    pub fn wanted(&self) -> (n: usize)
        ensures
            n == self@.wanted(),
            0 < n <= MAX_PAYLOAD_LEN,
            self@.wf(),
    {
        proof {
            use_type_invariant(self);
        }
        match self.state.awaiting {
            Awaiting::Common => COMMON_HEADER_LEN,
            Awaiting::Status => STATUS_HEADER_LEN,
            Awaiting::Data => DATA_HEADER_LEN,
            Awaiting::Payload(n) => n,
        }
    }

    /// Takes the bytes of one read, which must be as many as
    /// [`StreamDecoder::wanted`] asked for. On an error the decoder stays as
    /// it was: the stream cannot go on.
    pub fn feed(&mut self, bytes: &[u8]) -> (r: Result<Event, DecodeError>)
        requires
            bytes@.len() == old(self)@.wanted(),
        ensures
            old(self)@.step(bytes@) matches Ok((next, event)) ==> r == Ok::<Event, DecodeError>(
                event,
            ) && final(self)@ == next,
            old(self)@.step(bytes@) matches Err(e) ==> r == Err::<Event, DecodeError>(e)
                && final(self)@ == old(self)@,
    {
        proof {
            use_type_invariant(&*self);
        }
        match self.state.awaiting {
            Awaiting::Common => {
                let raw: [u8; COMMON_HEADER_LEN] = [bytes[0], bytes[1], bytes[2]];
                assert(raw@ =~= bytes@);
                let header = CommonHeader::decode(&raw);
                match accept_common(self.state.expected_toggle, &header) {
                    Err(e) => Err(e),
                    Ok(()) => {
                        self.state = DecoderState {
                            expected_toggle: !self.state.expected_toggle,
                            awaiting: if header.is_data {
                                Awaiting::Data
                            } else {
                                Awaiting::Status
                            },
                        };
                        Ok(Event::Common(header))
                    },
                }
            },
            Awaiting::Status => {
                let raw: [u8; STATUS_HEADER_LEN] = [bytes[0]];
                assert(raw@ =~= bytes@);
                let header = StatusHeader::decode(&raw);
                self.state = DecoderState {
                    expected_toggle: self.state.expected_toggle,
                    awaiting: Awaiting::Common,
                };
                Ok(Event::Status(header))
            },
            Awaiting::Data => {
                let raw: [u8; DATA_HEADER_LEN] = [bytes[0], bytes[1], bytes[2], bytes[3]];
                assert(raw@ =~= bytes@);
                let header = DataHeader::decode(&raw);
                match data_payload_len(&header) {
                    Err(e) => Err(e),
                    Ok(n) => {
                        self.state = DecoderState {
                            expected_toggle: self.state.expected_toggle,
                            awaiting: if n > 0 {
                                Awaiting::Payload(n)
                            } else {
                                Awaiting::Common
                            },
                        };
                        Ok(Event::Data(header))
                    },
                }
            },
            Awaiting::Payload(_) => {
                self.state = DecoderState {
                    expected_toggle: self.state.expected_toggle,
                    awaiting: Awaiting::Common,
                };
                Ok(Event::Payload)
            },
        }
    }
}

/// A step from a well-formed state leads to a well-formed state.
pub proof fn lemma_step_keeps_wf(state: DecoderState, bytes: Seq<u8>)
    requires
        state.wf(),
    ensures
        state.step(bytes) matches Ok((next, _)) ==> next.wf(),
{
}

/// One captured event as the analyzer means it.
pub enum WireEvent {
    /// A report of the state of the bus.
    Status { common: CommonHeader, status: StatusHeader },
    /// A captured packet.
    Data { common: CommonHeader, data: DataHeader, payload: Seq<u8> },
}

impl WireEvent {
    /// The common header of the event.
    pub open spec fn common(self) -> CommonHeader {
        match self {
            WireEvent::Status { common, .. } => common,
            WireEvent::Data { common, .. } => common,
        }
    }

    /// The event is sound but for its toggle bit: every field fits its
    /// place, the zero bit is clear, the common header announces the header
    /// that follows, and the size of a data event counts its two headers and
    /// its payload and is in bounds.
    pub open spec fn sound(self) -> bool {
        match self {
            WireEvent::Status { common, status } => {
                &&& common.wf()
                &&& !common.non_zero
                &&& !common.is_data
                &&& status.wf()
            },
            WireEvent::Data { common, data, payload } => {
                &&& common.wf()
                &&& !common.non_zero
                &&& common.is_data
                &&& data.wf()
                &&& data.size == MIN_FRAME_SIZE + payload.len()
                &&& data.size <= MAX_DATA_SIZE
            },
        }
    }

    /// The reads in which the event reaches the decoder: each header in one
    /// read, and the payload in one more if there is any.
    pub open spec fn reads(self) -> Seq<Seq<u8>> {
        match self {
            WireEvent::Status { common, status } => seq![common.encoded(), status.encoded()],
            WireEvent::Data { common, data, payload } => if payload.len() > 0 {
                seq![common.encoded(), data.encoded(), payload]
            } else {
                seq![common.encoded(), data.encoded()]
            },
        }
    }
}

/// The state after the decoder has taken `reads` one after the other, or the
/// error of the first read that it refuses.
pub open spec fn run_reads(state: DecoderState, reads: Seq<Seq<u8>>) -> Result<
    DecoderState,
    DecodeError,
>
    decreases reads.len(),
{
    if reads.len() == 0 {
        Ok(state)
    } else {
        match state.step(reads[0]) {
            Err(e) => Err(e),
            Ok((next, _)) => run_reads(next, reads.skip(1)),
        }
    }
}

/// The state after the decoder has taken the reads of `events` one after the
/// other, or the index of the first event that it refuses, with the error.
pub open spec fn run_events(state: DecoderState, events: Seq<WireEvent>) -> Result<
    DecoderState,
    (int, DecodeError),
>
    decreases events.len(),
{
    if events.len() == 0 {
        Ok(state)
    } else {
        match run_reads(state, events[0].reads()) {
            Err(e) => Err((0, e)),
            Ok(next) => match run_events(next, events.skip(1)) {
                Ok(last) => Ok(last),
                Err((k, e)) => Err((k + 1, e)),
            },
        }
    }
}

/// The decoder between two events, expecting `toggle`.
pub open spec fn between_events(toggle: bool) -> DecoderState {
    DecoderState { expected_toggle: toggle, awaiting: Awaiting::Common }
}

/// A sound event that carries the expected toggle bit is read to its end,
/// and the decoder then expects the other toggle bit.
pub proof fn lemma_sound_event_accepted(toggle: bool, event: WireEvent)
    requires
        event.sound(),
        event.common().toggle == toggle,
    ensures
        run_reads(between_events(toggle), event.reads()) == Ok::<DecoderState, DecodeError>(
            between_events(!toggle),
        ),
{
    let reads = event.reads();
    let start = between_events(toggle);
    lemma_common_decode_encode(event.common());
    reveal_with_fuel(run_reads, 4);
    match event {
        WireEvent::Status { common, status } => {
            lemma_status_decode_encode(status);
            assert(reads.skip(1)[0] == status.encoded());
            assert(reads.skip(1).skip(1).len() == 0);
        },
        WireEvent::Data { common, data, payload } => {
            lemma_data_decode_encode(data);
            assert(reads.skip(1)[0] == data.encoded());
            if payload.len() > 0 {
                assert(reads.skip(1).skip(1)[0] == payload);
                assert(reads.skip(1).skip(1).skip(1).len() == 0);
            } else {
                assert(reads.skip(1).skip(1).len() == 0);
            }
        },
    }
}

/// An event whose zero bit is clear and whose toggle bit is not the
/// expected one is refused at its common header.
pub proof fn lemma_flipped_event_refused(toggle: bool, event: WireEvent)
    requires
        event.common().wf(),
        !event.common().non_zero,
        event.common().toggle != toggle,
    ensures
        run_reads(between_events(toggle), event.reads()) == Err::<DecoderState, DecodeError>(
            DecodeError::ToggleMismatch { got: !toggle, expected: toggle },
        ),
{
    lemma_common_decode_encode(event.common());
    assert(event.reads()[0] == event.common().encoded());
}

/// Sound events whose toggle bits alternate from the expected one on are
/// all read to their end.
pub proof fn lemma_alternating_accepted(toggle: bool, events: Seq<WireEvent>)
    requires
        forall|i: int|
            #![trigger events[i]]
            0 <= i < events.len() ==> events[i].sound() && events[i].common().toggle
                == toggle_at(toggle, i),
    ensures
        run_events(between_events(toggle), events) == Ok::<DecoderState, (int, DecodeError)>(
            between_events(toggle_at(toggle, events.len() as int)),
        ),
    decreases events.len(),
{
    if events.len() > 0 {
        let rest = events.skip(1);
        lemma_sound_event_accepted(toggle, events[0]);
        assert forall|i: int| 0 <= i < rest.len() implies (#[trigger] rest[i]).sound()
            && rest[i].common().toggle == toggle_at(!toggle, i) by {
            assert(rest[i] == events[i + 1]);
        }
        lemma_alternating_accepted(!toggle, rest);
    }
}

/// If the event at `k` is the first whose toggle bit is flipped, the decoder
/// reads every event before it to its end and fails at `k`, whatever
/// follows.
pub proof fn lemma_flipped_toggle_refused(toggle: bool, events: Seq<WireEvent>, k: int)
    requires
        0 <= k < events.len(),
        forall|i: int|
            #![trigger events[i]]
            0 <= i < k ==> events[i].sound() && events[i].common().toggle == toggle_at(
                toggle,
                i,
            ),
        events[k].common().wf(),
        !events[k].common().non_zero,
        events[k].common().toggle != toggle_at(toggle, k),
    ensures
        run_events(between_events(toggle), events) == Err::<DecoderState, (int, DecodeError)>(
            (
                k,
                DecodeError::ToggleMismatch {
                    got: !toggle_at(toggle, k),
                    expected: toggle_at(toggle, k),
                },
            ),
        ),
    decreases k,
{
    if k == 0 {
        lemma_flipped_event_refused(toggle, events[0]);
    } else {
        let rest = events.skip(1);
        lemma_sound_event_accepted(toggle, events[0]);
        assert forall|i: int| 0 <= i < k - 1 implies (#[trigger] rest[i]).sound()
            && rest[i].common().toggle == toggle_at(!toggle, i) by {
            assert(rest[i] == events[i + 1]);
        }
        assert(rest[k - 1] == events[k]);
        lemma_flipped_toggle_refused(!toggle, rest, k - 1);
    }
}

} // verus!
