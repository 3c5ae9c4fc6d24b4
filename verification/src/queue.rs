//! The two hand-off queues of the buffer pool: channels whose ends may live
//! on different threads. What a queue holds at any moment depends on what
//! the other ends do, so nothing here speaks of a queue's contents.

use vstd::prelude::*;
use crossbeam::channel::{Receiver, Sender};
use crate::frame::AudioFrame;
use crate::pool::POOL_SIZE;

verus! {

/// `crossbeam::channel::Sender`: the sending end of a channel. A value is
/// carried around and handed to the functions below; nothing is known of it.
#[verifier::external_type_specification]
#[verifier::external_body]
#[verifier::reject_recursive_types(T)]
pub struct ExSender<T>(crossbeam::channel::Sender<T>);

/// `crossbeam::channel::Receiver`: the receiving end of a channel. A value
/// is carried around and handed to the functions below; nothing is known of
/// it.
#[verifier::external_type_specification]
#[verifier::external_body]
#[verifier::reject_recursive_types(T)]
pub struct ExReceiver<T>(crossbeam::channel::Receiver<T>);

/// Sending end of a queue of frames.
pub type FrameSender = Sender<Box<AudioFrame>>;

/// Receiving end of a queue of frames.
pub type FrameReceiver = Receiver<Box<AudioFrame>>;

/// Why a queue handed a frame back instead of taking it.
pub enum Refused {
    /// The queue is at capacity.
    Full(Box<AudioFrame>),
    /// No receiving end is left.
    Disconnected(Box<AudioFrame>),
}

/// Why a queue gave no frame.
#[derive(Clone, Copy, Debug, PartialEq, Eq)]
pub enum Starved {
    /// Nothing is queued at this moment.
    Empty,
    /// Nothing is queued and no sending end is left.
    Disconnected,
}

/// `crossbeam::channel::unbounded`: a new queue without a capacity limit.
/// Nothing is claimed of the two ends.
#[verifier::external_body]
pub(crate) fn queue_new() -> (ends: (FrameSender, FrameReceiver)) {
    crossbeam::channel::unbounded()
}

/// `crossbeam::channel::bounded`: a new queue that holds at most `capacity`
/// frames. It panics on a capacity too large to set up, so none above
/// [`POOL_SIZE`] is asked for. Nothing is claimed of the two ends.
#[verifier::external_body]
pub(crate) fn queue_bounded(capacity: usize) -> (ends: (FrameSender, FrameReceiver))
    requires
        capacity <= POOL_SIZE,
{
    crossbeam::channel::bounded(capacity)
}

/// `Sender::clone`: another handle to the same sending end. Nothing is
/// claimed of it.
#[verifier::external_body]
pub(crate) fn queue_sender_clone(tx: &FrameSender) -> (other: FrameSender) {
    tx.clone()
}

/// `Sender::send`: queues `frame`, waiting while the queue is full. On
/// failure the error carries the message it was given, so the frame comes
/// back unchanged. It is only called on the free queue, which [`queue_new`]
/// made without a capacity limit, so it does not wait.
#[verifier::external_body]
pub(crate) fn queue_send(tx: &FrameSender, frame: Box<AudioFrame>) -> (r: Result<
    (),
    Box<AudioFrame>,
>)
    ensures
        r matches Err(back) ==> back == frame,
{
    match tx.send(frame) {
        Ok(()) => Ok(()),
        Err(crossbeam::channel::SendError(back)) => Err(back),
    }
}

/// `Sender::try_send`: queues `frame` without waiting. Either error variant
/// carries the message it was given, so the frame comes back unchanged.
#[verifier::external_body]
pub(crate) fn queue_try_send(tx: &FrameSender, frame: Box<AudioFrame>) -> (r: Result<(), Refused>)
    ensures
        r matches Err(Refused::Full(back)) ==> back == frame,
        r matches Err(Refused::Disconnected(back)) ==> back == frame,
{
    match tx.try_send(frame) {
        Ok(()) => Ok(()),
        Err(crossbeam::channel::TrySendError::Full(back)) => Err(Refused::Full(back)),
        Err(crossbeam::channel::TrySendError::Disconnected(back)) => Err(
            Refused::Disconnected(back),
        ),
    }
}

/// `Receiver::try_recv`: takes the oldest queued frame without waiting.
/// Which frame comes out, if any, depends on what the other ends did.
#[verifier::external_body]
pub(crate) fn queue_try_recv(rx: &FrameReceiver) -> (r: Result<Box<AudioFrame>, Starved>) {
    match rx.try_recv() {
        Ok(frame) => Ok(frame),
        Err(crossbeam::channel::TryRecvError::Empty) => Err(Starved::Empty),
        Err(crossbeam::channel::TryRecvError::Disconnected) => Err(Starved::Disconnected),
    }
}

/// `Receiver::len`: number of frames queued at the moment of the call.
#[verifier::external_body]
pub(crate) fn queue_len(rx: &FrameReceiver) -> (n: usize) {
    rx.len()
}

} // verus!
