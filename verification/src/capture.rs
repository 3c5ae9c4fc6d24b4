//! Capture side of the pipeline: puts each captured payload into a free
//! buffer, classifies it, and hands the buffer on to the ready queue or back
//! to the free queue.

use vstd::prelude::*;
use crate::decoder::{DecodeError, DecoderState, Event, StreamDecoder};
use crate::extractor::{audio_bytes, is_audio, next_state, AudioReceiver};
use crate::frame::{AudioFrame, MAX_DATA_SIZE};
use crate::queue::{
    queue_len, queue_send, queue_try_recv, queue_try_send, FrameReceiver, FrameSender, Refused,
    Starved,
};

verus! {

/// Where a payload went, decided before any buffer is handed on.
pub enum Routed {
    /// No free buffer was at hand: the payload is lost.
    Dropped,
    /// The buffer holds audio and is bound for the ready queue.
    Emit(Box<AudioFrame>),
    /// The buffer holds no audio and is bound for the free queue.
    Recycle(Box<AudioFrame>),
}

/// What became of one payload.
#[derive(Clone, Copy, Debug, PartialEq, Eq)]
pub enum Delivery {
    /// No free buffer was at hand: the payload is lost.
    Dropped,
    /// Audio of this many bytes was queued for rendering.
    Emitted(usize),
    /// The payload held no audio; its buffer went back to the free queue.
    Recycled,
    /// The payload held audio, but the ready queue did not take it; its
    /// buffer went back to the free queue.
    Rejected,
}

/// The capture side was cut off from the render side.
#[derive(Clone, Copy, Debug, PartialEq, Eq)]
pub enum CaptureError {
    /// A queue has no receiving end left.
    Disconnected,
}

/// Decides where `payload` goes, given what the free queue gave. With a
/// buffer at hand the payload is copied into it and classified; without one
/// the payload is dropped and the extractor does not see it.
pub fn route(
    receiver: &mut AudioReceiver,
    taken: Result<Box<AudioFrame>, Starved>,
    payload: &[u8],
) -> (routed: Routed)
    requires
        payload@.len() <= MAX_DATA_SIZE,
    ensures
        taken is Err ==> routed is Dropped && *final(receiver) == *old(receiver),
        taken is Ok ==> final(receiver).out_frame_received == next_state(payload@),
        taken is Ok && is_audio(old(receiver).out_frame_received, payload@) ==> {
            &&& routed matches Routed::Emit(frame)
            &&& frame@ == audio_bytes(payload@)
        },
        taken is Ok && !is_audio(old(receiver).out_frame_received, payload@) ==> {
            &&& routed matches Routed::Recycle(frame)
            &&& frame@ == payload@
        },
{
    match taken {
        Err(_) => Routed::Dropped,
        Ok(mut frame) => {
            frame.fill(payload);
            if receiver.usb_frame_received(&mut frame) {
                Routed::Emit(frame)
            } else {
                Routed::Recycle(frame)
            }
        },
    }
}

/// The capture side of the pipeline: takes from the free queue, gives to the
/// ready queue or back to the free queue.
pub struct CaptureSide {
    free_rx: FrameReceiver,
    free_tx: FrameSender,
    ready_tx: FrameSender,
    receiver: AudioReceiver,
}

impl CaptureSide {
    /// Whether the last payload that reached the extractor was an OUT token.
    pub closed spec fn saw_out_token(&self) -> bool {
        self.receiver.out_frame_received
    }

    /// A capture side over the three queue ends, with an idle extractor.
    pub(crate) fn new(free_rx: FrameReceiver, free_tx: FrameSender, ready_tx: FrameSender) -> (side:
        Self)
        ensures
            !side.saw_out_token(),
            side.free_receiver() == free_rx,
            side.free_sender() == free_tx,
            side.ready_sender() == ready_tx,
    {
        CaptureSide { free_rx, free_tx, ready_tx, receiver: AudioReceiver::new() }
    }

    /// Number of buffers in the free queue at the moment of the call.
    pub fn free_buffers(&self) -> usize {
        queue_len(&self.free_rx)
    }

    /// Handles one captured payload: takes a free buffer without waiting,
    /// routes the payload with [`route`], and hands the buffer on. A buffer
    /// that the ready queue does not take goes back to the free queue.
    ///
    /// Whether a buffer is at hand and whether the queues take it is up to
    /// the queues, so the contract states what holds of every outcome: the
    /// extractor advances exactly when a buffer was at hand, audio is never
    /// reported for a payload that is none, and a payload that is audio is
    /// never reported as recycled. The side keeps its queue ends.
    pub fn deliver(&mut self, payload: &[u8]) -> (r: Result<Delivery, CaptureError>)
        requires
            payload@.len() <= MAX_DATA_SIZE,
        ensures
            final(self).free_receiver() == old(self).free_receiver(),
            final(self).free_sender() == old(self).free_sender(),
            final(self).ready_sender() == old(self).ready_sender(),
            r == Ok::<Delivery, CaptureError>(Delivery::Dropped) ==> final(self).saw_out_token()
                == old(self).saw_out_token(),
            r != Ok::<Delivery, CaptureError>(Delivery::Dropped) ==> final(self).saw_out_token()
                == next_state(payload@),
            r matches Ok(Delivery::Emitted(n)) ==> is_audio(old(self).saw_out_token(), payload@)
                && n == audio_bytes(payload@).len(),
            r matches Ok(Delivery::Rejected) ==> is_audio(old(self).saw_out_token(), payload@),
            r matches Ok(Delivery::Recycled) ==> !is_audio(old(self).saw_out_token(), payload@),
    {
        let taken = queue_try_recv(&self.free_rx);
        match route(&mut self.receiver, taken, payload) {
            Routed::Dropped => Ok(Delivery::Dropped),
            Routed::Emit(frame) => {
                let n: usize = frame.len();
                match queue_try_send(&self.ready_tx, frame) {
                    Ok(()) => Ok(Delivery::Emitted(n)),
                    Err(Refused::Full(frame)) => match queue_send(&self.free_tx, frame) {
                        Ok(()) => Ok(Delivery::Rejected),
                        Err(_) => Err(CaptureError::Disconnected),
                    },
                    Err(Refused::Disconnected(_)) => Err(CaptureError::Disconnected),
                }
            },
            Routed::Recycle(frame) => match queue_send(&self.free_tx, frame) {
                Ok(()) => Ok(Delivery::Recycled),
                Err(_) => Err(CaptureError::Disconnected),
            },
        }
    }

    /// The end that free buffers are taken from.
    pub closed spec fn free_receiver(&self) -> FrameReceiver {
        self.free_rx
    }

    /// The end that buffers without audio go back through.
    pub closed spec fn free_sender(&self) -> FrameSender {
        self.free_tx
    }

    /// The end that buffers with audio are handed on through.
    pub closed spec fn ready_sender(&self) -> FrameSender {
        self.ready_tx
    }
}

/// Why the capture loop cannot go on.
#[derive(Clone, Copy, Debug, PartialEq, Eq)]
pub enum CaptureFault {
    /// The stream is corrupt.
    Decode(DecodeError),
    /// The pipeline is cut off.
    Pool(CaptureError),
}

/// What one read of the capture loop led to.
#[derive(Clone, Copy, Debug, PartialEq, Eq)]
pub enum Progress {
    /// A header was read.
    Header(Event),
    /// A payload was read and handled.
    Payload(Delivery),
}

/// The capture loop between two reads: the decoder of the stream and the
/// capture side that its payloads go to.
pub struct CaptureLoop {
    decoder: StreamDecoder,
    side: CaptureSide,
}

impl CaptureLoop {
    /// State of the stream decoder.
    pub closed spec fn decoder_state(&self) -> DecoderState {
        self.decoder@
    }

    /// Whether the last payload that reached the extractor was an OUT token.
    pub closed spec fn saw_out_token(&self) -> bool {
        self.side.saw_out_token()
    }

    /// A capture loop at the start of a stream.
    pub fn new(side: CaptureSide) -> (capture: Self)
        ensures
            capture.decoder_state() == DecoderState::initial(),
            capture.saw_out_token() == side.saw_out_token(),
    {
        CaptureLoop { decoder: StreamDecoder::new(), side }
    }

    /// Number of bytes of the next read.
    pub fn wanted(&self) -> (n: usize)
        ensures
            n == self.decoder_state().wanted(),
            n > 0,
    {
        self.decoder.wanted()
    }

    /// Number of buffers in the free queue at the moment of the call.
    pub fn free_buffers(&self) -> usize {
        self.side.free_buffers()
    }

    /// Takes the bytes of one read, which must be as many as
    /// [`CaptureLoop::wanted`] asked for. The decoder takes its step; a
    /// payload then goes to [`CaptureSide::deliver`], a header touches
    /// nothing else. After a decode error nothing has changed.
    pub fn feed(&mut self, bytes: &[u8]) -> (r: Result<Progress, CaptureFault>)
        requires
            bytes@.len() == old(self).decoder_state().wanted(),
        ensures
            old(self).decoder_state().step(bytes@) matches Err(e) ==> {
                &&& r == Err::<Progress, CaptureFault>(CaptureFault::Decode(e))
                &&& final(self).decoder_state() == old(self).decoder_state()
                &&& final(self).saw_out_token() == old(self).saw_out_token()
            },
            old(self).decoder_state().step(bytes@) matches Ok((next, event)) ==> {
                &&& final(self).decoder_state() == next
                &&& event != Event::Payload ==> r == Ok::<Progress, CaptureFault>(
                    Progress::Header(event),
                ) && final(self).saw_out_token() == old(self).saw_out_token()
                &&& event == Event::Payload ==> {
                    &&& r matches Ok(p) ==> p is Payload
                    &&& r matches Err(f) ==> f is Pool
                    &&& r == Ok::<Progress, CaptureFault>(Progress::Payload(Delivery::Dropped))
                        ==> final(self).saw_out_token() == old(self).saw_out_token()
                    &&& r != Ok::<Progress, CaptureFault>(Progress::Payload(Delivery::Dropped))
                        ==> final(self).saw_out_token() == next_state(bytes@)
                    &&& r matches Ok(Progress::Payload(Delivery::Emitted(n))) ==> is_audio(
                        old(self).saw_out_token(),
                        bytes@,
                    ) && n == audio_bytes(bytes@).len()
                    &&& r matches Ok(Progress::Payload(Delivery::Rejected)) ==> is_audio(
                        old(self).saw_out_token(),
                        bytes@,
                    )
                    &&& r matches Ok(Progress::Payload(Delivery::Recycled)) ==> !is_audio(
                        old(self).saw_out_token(),
                        bytes@,
                    )
                }
            },
    {
        // a payload is never longer than a buffer
        let _longest: usize = self.decoder.wanted();
        match self.decoder.feed(bytes) {
            Err(e) => Err(CaptureFault::Decode(e)),
            Ok(Event::Payload) => match self.side.deliver(bytes) {
                Ok(delivery) => Ok(Progress::Payload(delivery)),
                Err(e) => Err(CaptureFault::Pool(e)),
            },
            Ok(event) => Ok(Progress::Header(event)),
        }
    }
}

} // verus!
