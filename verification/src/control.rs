//! Vendor control requests that arm and disarm capture on the analyzer, and
//! the order in which they are issued.

use vstd::prelude::*;

verus! {

/// Vendor request code of every control write.
pub const CONTROL_REQUEST: u8 = 0xd0;

/// Time allowed for one control write, in milliseconds.
pub const CONTROL_TIMEOUT_MS: u64 = 1;

/// Bit of the request value that is set when a control is asserted.
pub const ASSERT_BIT: u16 = 0x10;

/// Most completed transfers that one flush waits for.
pub const FLUSH_ROUNDS: u32 = 100;

/// Time that a flush waits for one transfer, in milliseconds.
pub const FLUSH_TIMEOUT_MS: u64 = 20;

/// A control line of the analyzer.
#[derive(Clone, Copy, Debug, PartialEq, Eq)]
pub enum CaptureControl {
    Reset,
    Enable,
    Speed0,
    Speed1,
    Test,
}

/// Bus speed that the analyzer captures at.
#[derive(Clone, Copy, Debug, PartialEq, Eq)]
pub enum CaptureSpeed {
    LowSpeed,
    FullSpeed,
    HighSpeed,
    Reset,
}

/// One control write as it goes over the wire. It carries no data.
#[derive(Clone, Copy, Debug, PartialEq, Eq)]
pub struct ControlWrite {
    /// Vendor request code.
    pub request: u8,
    /// Control index, with [`ASSERT_BIT`] set when the control is asserted.
    pub value: u16,
    /// Always 0.
    pub index: u16,
}

/// One step of a control sequence.
#[derive(Clone, Copy, Debug, PartialEq, Eq)]
pub enum Step {
    /// Write the control with the given level.
    Write(CaptureControl, bool),
    /// Drain transfers that are still pending on the data endpoint.
    Flush,
}

/// What a flush saw when it waited for the next transfer.
#[derive(Clone, Copy, Debug, PartialEq, Eq)]
pub enum FlushEvent {
    /// No transfer completed in time.
    Idle,
    /// A transfer completed.
    Completed,
    /// A transfer failed.
    Failed,
}

/// What a flush does next.
#[derive(Clone, Copy, Debug, PartialEq, Eq)]
pub enum FlushAction {
    /// The endpoint is drained.
    Stop,
    /// Give up with an error.
    Fail,
    /// Submit the buffer again and go on to the next round.
    Resubmit,
}

impl CaptureControl {
    /// Index of the control on the wire.
    pub open spec fn spec_index(self) -> u16 {
        match self {
            CaptureControl::Reset => 0,
            CaptureControl::Enable => 1,
            CaptureControl::Speed0 => 2,
            CaptureControl::Speed1 => 3,
            CaptureControl::Test => 4,
        }
    }

    /// Index of the control on the wire.
    #[verifier::when_used_as_spec(spec_index)]
    pub fn index(self) -> (index: u16)
        ensures
            index == self.spec_index(),
    {
        match self {
            CaptureControl::Reset => 0,
            CaptureControl::Enable => 1,
            CaptureControl::Speed0 => 2,
            CaptureControl::Speed1 => 3,
            CaptureControl::Test => 4,
        }
    }
}

impl CaptureSpeed {
    /// Two-bit code of the speed.
    pub open spec fn spec_code(self) -> u8 {
        match self {
            CaptureSpeed::LowSpeed => 0,
            CaptureSpeed::FullSpeed => 1,
            CaptureSpeed::HighSpeed => 2,
            CaptureSpeed::Reset => 3,
        }
    }

    /// Two-bit code of the speed.
    #[verifier::when_used_as_spec(spec_code)]
    pub fn code(self) -> (code: u8)
        ensures
            code == self.spec_code(),
    {
        match self {
            CaptureSpeed::LowSpeed => 0,
            CaptureSpeed::FullSpeed => 1,
            CaptureSpeed::HighSpeed => 2,
            CaptureSpeed::Reset => 3,
        }
    }

    /// Low bit of the code: the level of [`CaptureControl::Speed0`].
    pub open spec fn bit0(self) -> bool {
        self.spec_code() % 2 == 1
    }

    /// High bit of the code: the level of [`CaptureControl::Speed1`].
    pub open spec fn bit1(self) -> bool {
        self.spec_code() / 2 == 1
    }
}

/// The request value for `control` at level `on`: the control's index, plus
/// the assert bit if the control is asserted.
pub open spec fn control_value(control: CaptureControl, on: bool) -> int {
    control.spec_index() + if on {
        ASSERT_BIT as int
    } else {
        0
    }
}

/// The write that sets `control` to level `on`.
pub fn control_write(control: CaptureControl, on: bool) -> (write: ControlWrite)
    ensures
        write.request == CONTROL_REQUEST,
        write.value == control_value(control, on),
        write.index == 0,
{
    let index: u16 = control.index();
    let level: u16 = if on {
        1
    } else {
        0
    };
    let value: u16 = index | (level << 4);
    assert(value == index + level * 16) by (bit_vector)
        requires
            index < 16,
            level < 2,
            value == index | (level << 4),
    ;
    ControlWrite { request: CONTROL_REQUEST, value, index: 0 }
}

/// The steps that bring the analyzer into a known state: capture held in
/// reset and disabled, test mode off, both speed lines pulsed.
pub open spec fn init_steps() -> Seq<Step> {
    seq![
        Step::Write(CaptureControl::Reset, true),
        Step::Write(CaptureControl::Enable, false),
        Step::Write(CaptureControl::Test, false),
        Step::Write(CaptureControl::Speed0, true),
        Step::Write(CaptureControl::Speed0, false),
        Step::Write(CaptureControl::Speed1, true),
        Step::Write(CaptureControl::Speed1, false),
    ]
}

/// The steps that start capture at `speed`: disable, assert reset, flush the
/// data endpoint, select the speed, release reset, enable.
pub open spec fn start_steps(speed: CaptureSpeed) -> Seq<Step> {
    seq![
        Step::Write(CaptureControl::Enable, false),
        Step::Write(CaptureControl::Reset, true),
        Step::Flush,
        Step::Write(CaptureControl::Speed0, speed.bit0()),
        Step::Write(CaptureControl::Speed1, speed.bit1()),
        Step::Write(CaptureControl::Reset, false),
        Step::Write(CaptureControl::Enable, true),
    ]
}

/// The steps of [`init_steps`], in order.
pub fn init_sequence() -> (steps: Vec<Step>)
    ensures
        steps@ == init_steps(),
{
    let mut steps: Vec<Step> = Vec::new();
    steps.push(Step::Write(CaptureControl::Reset, true));
    steps.push(Step::Write(CaptureControl::Enable, false));
    steps.push(Step::Write(CaptureControl::Test, false));
    steps.push(Step::Write(CaptureControl::Speed0, true));
    steps.push(Step::Write(CaptureControl::Speed0, false));
    steps.push(Step::Write(CaptureControl::Speed1, true));
    steps.push(Step::Write(CaptureControl::Speed1, false));
    assert(steps@ =~= init_steps());
    steps
}

/// The steps of [`start_steps`] for `speed`, in order.
pub fn start_sequence(speed: CaptureSpeed) -> (steps: Vec<Step>)
    ensures
        steps@ == start_steps(speed),
{
    let code: u8 = speed.code();
    let low: bool = (code & 1) != 0;
    let high: bool = (code & 2) != 0;
    assert(low == (code % 2 == 1) && high == (code / 2 == 1)) by (bit_vector)
        requires
            code < 4,
            low == ((code & 1) != 0),
            high == ((code & 2) != 0),
    ;
    let mut steps: Vec<Step> = Vec::new();
    steps.push(Step::Write(CaptureControl::Enable, false));
    steps.push(Step::Write(CaptureControl::Reset, true));
    steps.push(Step::Flush);
    steps.push(Step::Write(CaptureControl::Speed0, low));
    steps.push(Step::Write(CaptureControl::Speed1, high));
    steps.push(Step::Write(CaptureControl::Reset, false));
    steps.push(Step::Write(CaptureControl::Enable, true));
    assert(steps@ =~= start_steps(speed));
    steps
}

/// Whether a flush that has handled `round` transfers waits for another.
pub fn flush_continues(round: u32) -> (more: bool)
    ensures
        more == (round < FLUSH_ROUNDS),
{
    round < FLUSH_ROUNDS
}

/// What a flush does after `event`: it stops once the endpoint is quiet,
/// gives up on a failed transfer, and otherwise submits the buffer again.
pub fn flush_step(event: FlushEvent) -> (action: FlushAction)
    ensures
        event == FlushEvent::Idle ==> action == FlushAction::Stop,
        event == FlushEvent::Failed ==> action == FlushAction::Fail,
        event == FlushEvent::Completed ==> action == FlushAction::Resubmit,
{
    match event {
        FlushEvent::Idle => FlushAction::Stop,
        FlushEvent::Failed => FlushAction::Fail,
        FlushEvent::Completed => FlushAction::Resubmit,
    }
}

} // verus!
