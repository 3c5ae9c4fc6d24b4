//! Render side of the pipeline: copies whole sample frames from ready buffers
//! into the destination buffer of one render period and recycles the buffers.

use vstd::prelude::*;
use vstd::arithmetic::div_mod::lemma_mod_multiples_basic;
use crate::frame::{AudioFrame, MAX_DATA_SIZE};
use crate::queue::{queue_len, queue_send, queue_try_recv, FrameReceiver, FrameSender};

verus! {

/// Number of whole sample frames of `stride` bytes that fit in `bytes` bytes.
pub open spec fn whole_frames(bytes: int, stride: int) -> int {
    bytes / stride
}

/// Number of sample frames that one copy transfers: as many as the source
/// holds, unless the destination has room for fewer.
pub open spec fn frames_common(room: int, held: int, stride: int) -> int {
    if whole_frames(room, stride) <= whole_frames(held, stride) {
        whole_frames(room, stride)
    } else {
        whole_frames(held, stride)
    }
}

/// The destination and the count of bytes filled after the buffer with the
/// window `frame` has arrived in a period that had filled `filled` bytes of
/// `dst`. A buffer is only taken while more than [`MAX_DATA_SIZE`] bytes are
/// left; its whole sample frames then go behind what is already there.
pub open spec fn render_step(dst: Seq<u8>, filled: int, stride: int, frame: Seq<u8>) -> (
    Seq<u8>,
    int,
) {
    if dst.len() - filled > MAX_DATA_SIZE {
        let bytes = frames_common(dst.len() - filled, frame.len() as int, stride) * stride;
        (dst.take(filled) + frame.take(bytes) + dst.skip(filled + bytes), filled + bytes)
    } else {
        (dst, filled)
    }
}

/// The destination and the count of bytes filled at the end of a period in
/// which the buffers with the windows `frames` arrived, in that order.
pub open spec fn rendered(dst: Seq<u8>, stride: int, frames: Seq<Seq<u8>>) -> (Seq<u8>, int)
    decreases frames.len(),
{
    if frames.len() == 0 {
        (dst, 0)
    } else {
        let before = rendered(dst, stride, frames.drop_last());
        render_step(before.0, before.1, stride, frames.last())
    }
}

/// Whether each of `frames` can be the window of a buffer.
pub open spec fn are_windows(frames: Seq<Seq<u8>>) -> bool {
    forall|i: int| 0 <= i < frames.len() ==> (#[trigger] frames[i]).len() <= MAX_DATA_SIZE
}

/// What one copy did.
#[derive(Clone, Copy, Debug, PartialEq, Eq)]
pub struct Copied {
    /// Sample frames transferred.
    pub frames: usize,
    /// Bytes transferred: `frames` times the stride.
    pub bytes: usize,
    /// True if the source held more whole sample frames than were
    /// transferred; the rest is discarded.
    pub partial_drop: bool,
}

/// What one render period reports back to the audio sink.
#[derive(Clone, Copy, Debug, PartialEq, Eq)]
pub struct Chunk {
    /// Offset of the valid region in the destination buffer; always 0.
    pub offset: usize,
    /// Bytes per sample frame.
    pub stride: usize,
    /// Length of the valid region in bytes.
    pub size: usize,
}

/// The render side was cut off from the capture side.
#[derive(Clone, Copy, Debug, PartialEq, Eq)]
pub enum RenderError {
    /// The queue of free buffers has no receiving end left.
    Disconnected,
}

proof fn lemma_whole_frames_fit(bytes: int, stride: int, frames: int)
    requires
        0 <= bytes,
        0 < stride,
        0 <= frames <= whole_frames(bytes, stride),
    ensures
        0 <= frames * stride <= bytes,
{
    assert(0 <= frames * stride <= (bytes / stride) * stride) by (nonlinear_arith)
        requires
            0 <= frames <= bytes / stride,
            0 < stride,
    ;
    assert((bytes / stride) * stride <= bytes) by (nonlinear_arith)
        requires
            0 <= bytes,
            0 < stride,
    ;
}

/// While more than [`MAX_DATA_SIZE`] bytes are left, every whole sample
/// frame of a buffer fits: a render period drops no audio for want of room.
pub proof fn lemma_render_takes_whole_buffers(room: int, held: int, stride: int)
    requires
        0 <= held <= MAX_DATA_SIZE < room,
        0 < stride,
    ensures
        frames_common(room, held, stride) == whole_frames(held, stride),
{
    assert(0 <= held / stride <= room / stride) by (nonlinear_arith)
        requires
            0 <= held <= room,
            0 < stride,
    ;
}

/// Copies as many whole sample frames as both sides allow from the window of
/// `frame` into `dst`, starting at `offset`. Nothing else in `dst` changes.
pub fn copy_frames(dst: &mut [u8], offset: usize, frame: &AudioFrame, stride: usize) -> (out:
    Copied)
    requires
        stride > 0,
        offset <= old(dst)@.len(),
    ensures
        out.frames == frames_common(old(dst)@.len() - offset, frame@.len() as int, stride as int),
        out.bytes == out.frames * stride,
        out.partial_drop == (out.frames < whole_frames(frame@.len() as int, stride as int)),
        final(dst)@ == old(dst)@.take(offset as int) + frame@.take(out.bytes as int) + old(
            dst,
        )@.skip(offset + out.bytes),
{
    let src = frame.slice();
    let len: usize = dst.len();
    let room: usize = len - offset;
    let frames_dst: usize = room / stride;
    let frames_src: usize = src.len() / stride;
    let frames: usize = if frames_dst <= frames_src {
        frames_dst
    } else {
        frames_src
    };
    proof {
        lemma_whole_frames_fit(src@.len() as int, stride as int, frames as int);
        lemma_whole_frames_fit(room as int, stride as int, frames as int);
    }
    let bytes: usize = frames * stride;
    let mut i: usize = 0;
    while i < bytes
        invariant
            i <= bytes,
            bytes <= src@.len(),
            offset + bytes <= dst@.len(),
            dst@.len() == old(dst)@.len(),
            dst@.len() == len,
            forall|k: int| 0 <= k < offset ==> dst@[k] == old(dst)@[k],
            forall|k: int| 0 <= k < i ==> dst@[offset + k] == src@[k],
            forall|k: int| offset + i <= k < dst@.len() ==> dst@[k] == old(dst)@[k],
        decreases bytes - i,
    {
        dst[offset + i] = src[i];
        i = i + 1;
    }
    assert(dst@ =~= old(dst)@.take(offset as int) + frame@.take(bytes as int) + old(dst)@.skip(
        offset + bytes,
    ));
    Copied { frames, bytes, partial_drop: frames < frames_src }
}

/// The render side of the pipeline: takes from the ready queue, gives back to
/// the free queue.
pub struct RenderSide {
    ready_rx: FrameReceiver,
    free_tx: FrameSender,
    stride: usize,
}

impl RenderSide {
    #[verifier::type_invariant]
    spec fn stride_is_positive(self) -> bool {
        self.stride > 0
    }

    /// Bytes per sample frame.
    pub closed spec fn spec_stride(&self) -> usize {
        self.stride
    }

    /// A render side over the two queue ends, for sample frames of `stride`
    /// bytes.
    pub(crate) fn new(ready_rx: FrameReceiver, free_tx: FrameSender, stride: usize) -> (side: Self)
        requires
            stride > 0,
        ensures
            side.spec_stride() == stride,
            side.ready_receiver() == ready_rx,
            side.free_sender() == free_tx,
    {
        RenderSide { ready_rx, free_tx, stride }
    }

    /// The end that ready buffers are taken from.
    pub closed spec fn ready_receiver(&self) -> FrameReceiver {
        self.ready_rx
    }

    /// The end that consumed buffers go back through.
    pub closed spec fn free_sender(&self) -> FrameSender {
        self.free_tx
    }

    /// Bytes per sample frame.
    #[verifier::when_used_as_spec(spec_stride)]
    pub fn stride(&self) -> (stride: usize)
        ensures
            stride == self.spec_stride(),
            stride > 0,
    {
        proof {
            use_type_invariant(self);
        }
        self.stride
    }

    /// Number of buffers in the ready queue at the moment of the call.
    pub fn ready_buffers(&self) -> usize {
        queue_len(&self.ready_rx)
    }

    /// The report of a period in which nothing could be rendered.
    pub fn idle(&self) -> (chunk: Chunk)
        ensures
            chunk == (Chunk { offset: 0, stride: self.spec_stride(), size: 0 }),
    {
        Chunk { offset: 0, stride: self.stride, size: 0 }
    }

    /// Fills `dst` for one render period. While more than [`MAX_DATA_SIZE`]
    /// bytes of `dst` are left, the next ready buffer is taken without
    /// waiting, its whole sample frames are copied behind what is already
    /// there, and the buffer goes back to the free queue. The period ends
    /// when the ready queue gives nothing, or after `usize::MAX` buffers.
    ///
    /// Which buffers arrive is up to the capture side, so the contract states
    /// what holds of every period: the destination and the report are what
    /// [`rendered`] gives for the windows of some buffers. In particular the
    /// report covers a prefix of `dst` made of whole sample frames, and the
    /// bytes behind that prefix are untouched. A destination of at most
    /// [`MAX_DATA_SIZE`] bytes is never written to.
    pub fn render(&self, dst: &mut [u8]) -> (r: Result<Chunk, RenderError>)
        ensures
            final(dst)@.len() == old(dst)@.len(),
            r matches Ok(chunk) ==> {
                &&& chunk.offset == 0
                &&& chunk.stride == self.spec_stride()
                &&& exists|frames: Seq<Seq<u8>>|
                    are_windows(frames) && #[trigger] rendered(
                        old(dst)@,
                        self.spec_stride() as int,
                        frames,
                    ) == (final(dst)@, chunk.size as int)
                &&& chunk.size <= old(dst)@.len()
                &&& chunk.size % self.spec_stride() == 0
                &&& final(dst)@.skip(chunk.size as int) == old(dst)@.skip(chunk.size as int)
            },
            old(dst)@.len() <= MAX_DATA_SIZE ==> r == Ok::<Chunk, RenderError>(
                Chunk { offset: 0, stride: self.spec_stride(), size: 0 },
            ) && final(dst)@ == old(dst)@,
    {
        proof {
            use_type_invariant(self);
        }
        let stride: usize = self.stride;
        let len: usize = dst.len();
        let mut offset: usize = 0;
        let mut total_frames: usize = 0;
        let mut budget: usize = usize::MAX;
        let ghost mut arrived: Seq<Seq<u8>> = Seq::empty();
        while len - offset > MAX_DATA_SIZE && budget > 0
            invariant
                are_windows(arrived),
                rendered(old(dst)@, stride as int, arrived) == (dst@, offset as int),
                stride == self.stride,
                stride > 0,
                offset <= len,
                len == dst@.len(),
                len == old(dst)@.len(),
                offset == total_frames * stride,
                dst@.skip(offset as int) == old(dst)@.skip(offset as int),
                len <= MAX_DATA_SIZE ==> offset == 0 && dst@ == old(dst)@,
            decreases budget,
        {
            budget = budget - 1;
            match queue_try_recv(&self.ready_rx) {
                Err(_) => {
                    break ;
                },
                Ok(frame) => {
                    let ghost before = dst@;
                    let held: usize = frame.len();
                    let copied = copy_frames(dst, offset, &frame, stride);
                    proof {
                        lemma_whole_frames_fit(held as int, stride as int, copied.frames as int);
                        assert((total_frames + copied.frames) * stride == total_frames * stride
                            + copied.frames * stride) by (nonlinear_arith);
                        assert(total_frames + copied.frames <= (total_frames + copied.frames)
                            * stride) by (nonlinear_arith)
                            requires
                                stride > 0,
                        ;
                        assert(dst@.skip(offset + copied.bytes) =~= before.skip(
                            offset + copied.bytes,
                        ));
                        assert(before.skip(offset + copied.bytes) =~= before.skip(
                            offset as int,
                        ).skip(copied.bytes as int));
                        assert(old(dst)@.skip(offset + copied.bytes) =~= old(dst)@.skip(
                            offset as int,
                        ).skip(copied.bytes as int));
                        assert(arrived.push(frame@).drop_last() =~= arrived);
                        arrived = arrived.push(frame@);
                    }
                    offset = offset + copied.bytes;
                    total_frames = total_frames + copied.frames;
                    if queue_send(&self.free_tx, frame).is_err() {
                        return Err(RenderError::Disconnected);
                    }
                },
            }
        }
        proof {
            lemma_mod_multiples_basic(total_frames as int, stride as int);
        }
        Ok(Chunk { offset: 0, stride, size: stride * total_frames })
    }
}

} // verus!
