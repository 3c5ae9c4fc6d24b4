//! The pool of frame buffers: a fixed number of buffers that circulate
//! between the free queue, the ready queue and whichever side is working on
//! one.

use vstd::prelude::*;
use crate::capture::{CaptureSide, Delivery};
use crate::frame::AudioFrame;
use crate::queue::{
    queue_bounded, queue_new, queue_send, queue_sender_clone, FrameReceiver, FrameSender,
};
use crate::render::RenderSide;

verus! {

/// Number of buffers in circulation.
pub const POOL_SIZE: usize = 16;

/// The pool could not be set up.
#[derive(Clone, Copy, Debug, PartialEq, Eq)]
pub enum PoolError {
    /// The free queue refused a buffer.
    Disconnected,
}

/// Puts [`POOL_SIZE`] empty buffers into the free queue and builds the two
/// sides over the queues: the capture side over both ends of the free queue
/// and the sending end of the ready queue, the render side over the
/// receiving end of the ready queue and a second handle to the sending end
/// of the free queue.
fn assemble(
    free: (FrameSender, FrameReceiver),
    ready: (FrameSender, FrameReceiver),
    stride: usize,
) -> (r: Result<(CaptureSide, RenderSide), PoolError>)
    requires
        stride > 0,
    ensures
        r matches Ok(sides) ==> {
            &&& !sides.0.saw_out_token()
            &&& sides.0.free_sender() == free.0
            &&& sides.0.free_receiver() == free.1
            &&& sides.0.ready_sender() == ready.0
            &&& sides.1.ready_receiver() == ready.1
            &&& sides.1.spec_stride() == stride
        },
{
    let (free_tx, free_rx) = free;
    let (ready_tx, ready_rx) = ready;
    let mut i: usize = 0;
    while i < POOL_SIZE
        invariant
            i <= POOL_SIZE,
        decreases POOL_SIZE - i,
    {
        if queue_send(&free_tx, Box::new(AudioFrame::new())).is_err() {
            return Err(PoolError::Disconnected);
        }
        i = i + 1;
    }
    let render_free_tx = queue_sender_clone(&free_tx);
    let capture = CaptureSide::new(free_rx, free_tx, ready_tx);
    let render = RenderSide::new(ready_rx, render_free_tx, stride);
    Ok((capture, render))
}

/// Sets up the pool: two queues without a capacity limit, [`POOL_SIZE`]
/// empty buffers in the free queue, and the two sides that share them. The
/// render side copies sample frames of `stride` bytes.
pub fn pipeline(stride: usize) -> (r: Result<(CaptureSide, RenderSide), PoolError>)
    requires
        stride > 0,
    ensures
        r matches Ok(sides) ==> !sides.0.saw_out_token() && sides.1.spec_stride() == stride,
{
    assemble(queue_new(), queue_new(), stride)
}

/// Sets up the pool as [`pipeline`] does, but with a ready queue that holds
/// at most `ready_capacity` buffers. Audio that arrives while it is full is
/// lost, and its buffer goes back to the free queue. A capacity above
/// [`POOL_SIZE`] is as good as [`POOL_SIZE`]: there are no more buffers.
pub fn pipeline_with_capacity(stride: usize, ready_capacity: usize) -> (r: Result<
    (CaptureSide, RenderSide),
    PoolError,
>)
    requires
        stride > 0,
    ensures
        r matches Ok(sides) ==> !sides.0.saw_out_token() && sides.1.spec_stride() == stride,
{
    let capacity: usize = if ready_capacity > POOL_SIZE {
        POOL_SIZE
    } else {
        ready_capacity
    };
    assemble(queue_new(), queue_bounded(capacity), stride)
}

/// One buffer changing hands between a queue and a side.
pub enum Move {
    /// A side takes a buffer from the free queue.
    TakeFree,
    /// A side puts the buffer it holds into the free queue.
    GiveFree,
    /// A side takes a buffer from the ready queue.
    TakeReady,
    /// A side puts the buffer it holds into the ready queue.
    GiveReady,
}

/// Where the buffers of a pool are, by count.
pub struct Ledger {
    /// Buffers in the free queue.
    pub free: nat,
    /// Buffers in the ready queue.
    pub ready: nat,
    /// Buffers that a side has taken and not yet given back.
    pub held: nat,
}

impl Ledger {
    /// The pool as [`pipeline`] leaves it: every buffer is free.
    pub open spec fn initial() -> Ledger {
        Ledger { free: POOL_SIZE as nat, ready: 0, held: 0 }
    }

    /// Number of buffers in circulation.
    pub open spec fn total(self) -> nat {
        self.free + self.ready + self.held
    }

    /// The ledger after one move. Taking from an empty queue gives nothing,
    /// and a side that holds nothing has nothing to give: such a move leaves
    /// the ledger as it is.
    pub open spec fn step(self, m: Move) -> Ledger {
        match m {
            Move::TakeFree => if self.free > 0 {
                Ledger { free: (self.free - 1) as nat, held: self.held + 1, ..self }
            } else {
                self
            },
            Move::GiveFree => if self.held > 0 {
                Ledger { free: self.free + 1, held: (self.held - 1) as nat, ..self }
            } else {
                self
            },
            Move::TakeReady => if self.ready > 0 {
                Ledger { ready: (self.ready - 1) as nat, held: self.held + 1, ..self }
            } else {
                self
            },
            Move::GiveReady => if self.held > 0 {
                Ledger { ready: self.ready + 1, held: (self.held - 1) as nat, ..self }
            } else {
                self
            },
        }
    }

    /// The ledger after a sequence of moves, first to last.
    pub open spec fn run(self, moves: Seq<Move>) -> Ledger
        decreases moves.len(),
    {
        if moves.len() == 0 {
            self
        } else {
            self.step(moves[0]).run(moves.skip(1))
        }
    }
}

/// The moves that one delivery on the capture side makes.
pub open spec fn delivery_moves(d: Delivery) -> Seq<Move> {
    match d {
        Delivery::Dropped => seq![Move::TakeFree],
        Delivery::Emitted(_) => seq![Move::TakeFree, Move::GiveReady],
        Delivery::Recycled => seq![Move::TakeFree, Move::GiveFree],
        Delivery::Rejected => seq![Move::TakeFree, Move::GiveFree],
    }
}

/// The moves that one render period makes when it consumes `buffers`
/// buffers: each is taken from the ready queue and given to the free queue
/// before the next is taken.
pub open spec fn render_moves(buffers: nat) -> Seq<Move>
    decreases buffers,
{
    if buffers == 0 {
        Seq::empty()
    } else {
        seq![Move::TakeReady, Move::GiveFree] + render_moves((buffers - 1) as nat)
    }
}

/// No move changes the number of buffers in circulation.
pub proof fn lemma_step_keeps_total(ledger: Ledger, m: Move)
    ensures
        ledger.step(m).total() == ledger.total(),
{
}

/// No sequence of moves changes the number of buffers in circulation.
pub proof fn lemma_run_keeps_total(ledger: Ledger, moves: Seq<Move>)
    ensures
        ledger.run(moves).total() == ledger.total(),
    decreases moves.len(),
{
    if moves.len() > 0 {
        lemma_step_keeps_total(ledger, moves[0]);
        lemma_run_keeps_total(ledger.step(moves[0]), moves.skip(1));
    }
}

/// Whatever the two sides do, the buffers in the free queue, in the ready
/// queue and in the hands of a side add up to [`POOL_SIZE`].
pub proof fn lemma_pool_size_is_fixed(moves: Seq<Move>)
    ensures
        Ledger::initial().run(moves).total() == POOL_SIZE,
{
    lemma_run_keeps_total(Ledger::initial(), moves);
}

/// Running one sequence of moves after another is running their
/// concatenation.
pub proof fn lemma_run_concat(ledger: Ledger, first: Seq<Move>, second: Seq<Move>)
    ensures
        ledger.run(first + second) == ledger.run(first).run(second),
    decreases first.len(),
{
    if first.len() == 0 {
        assert(first + second =~= second);
    } else {
        assert((first + second).skip(1) =~= first.skip(1) + second);
        lemma_run_concat(ledger.step(first[0]), first.skip(1), second);
    }
}

/// A delivery holds no buffer once it is over: what it took from the free
/// queue it gave to one of the two queues.
pub proof fn lemma_delivery_gives_back(ledger: Ledger, d: Delivery)
    requires
        ledger.held == 0,
        d != Delivery::Dropped || ledger.free == 0,
    ensures
        ledger.run(delivery_moves(d)).held == 0,
        ledger.run(delivery_moves(d)).free + ledger.run(delivery_moves(d)).ready == ledger.free
            + ledger.ready,
{
    let moves = delivery_moves(d);
    reveal_with_fuel(Ledger::run, 3);
    if moves.len() == 2 {
        assert(moves.skip(1).skip(1).len() == 0);
    } else {
        assert(moves.skip(1).len() == 0);
    }
}

/// A render period holds no buffer once it is over: every buffer it took
/// from the ready queue is in the free queue.
pub proof fn lemma_render_gives_back(ledger: Ledger, buffers: nat)
    requires
        ledger.held == 0,
    ensures
        ledger.run(render_moves(buffers)).held == 0,
        ledger.run(render_moves(buffers)).free + ledger.run(render_moves(buffers)).ready
            == ledger.free + ledger.ready,
    decreases buffers,
{
    if buffers > 0 {
        let pair = seq![Move::TakeReady, Move::GiveFree];
        let after = ledger.run(pair);
        reveal_with_fuel(Ledger::run, 3);
        assert(pair.skip(1).skip(1).len() == 0);
        assert(after.held == 0 && after.free + after.ready == ledger.free + ledger.ready);
        lemma_run_concat(ledger, pair, render_moves((buffers - 1) as nat));
        lemma_render_gives_back(after, (buffers - 1) as nat);
    }
}

} // verus!
