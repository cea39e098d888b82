//! The register sequences behind the operations of the sensor, as steps that
//! the caller carries out.
//!
//! An operation is a short fixed sequence of register accesses and delays in
//! which later steps depend on what earlier ones read. The sequence is held
//! as a value: a [`Step`] is either one bus exchange to make, one delay to
//! keep, or the end of the operation. The caller performs the exchange or
//! the delay and hands the outcome to `complete`, which gives the next step.
//! Nothing here touches the bus, so the same sequences serve a blocking and an
//! asynchronous transport alike.
//!
//! What a sequence does as a whole is stated by [`run`], which plays a
//! sequence against the replies of a device, and by the laws about it.

use crate::error::Error;
use crate::ll::reg::{RegAddress, CNTL1, CNTL3, CNTL4, WIA1};
use crate::ll::{reg_value, Access};
use crate::uint::{U1, U5};
use vstd::prelude::*;

verus! {

/// The manufacturer's code, which the company-identification register holds.
pub const COMPANY_ID: u8 = 0x48;

/// How long the sensor needs after a soft reset, in nanoseconds.
pub const SETTLE_NS: u32 = 100_000;

/// How long the sensor needs after it was put into external-trigger mode, in
/// nanoseconds.
pub const ARM_NS: u32 = 300_000;

/// The operation mode of a sensor that is idle.
pub const MODE_POWERDOWN: u8 = 0b00000;

/// The operation mode for one measurement.
pub const MODE_SINGLE_SHOT: u8 = 0b00001;

/// The operation mode in which a pulse on the trigger pin starts a
/// measurement.
pub const MODE_EXTERNAL_TRIGGER: u8 = 0b11000;

/// The byte that a soft reset writes to CNTL4: the reset bit alone.
pub const SOFT_RESET: u8 = 0b0000_0001;

/// The byte that arms the external trigger: the external-trigger operation
/// mode with every other bit of CNTL3 clear.
pub const WAITING_CNTL3: u8 = 0b0001_1000;

/// The measuring mode that a sequence is bringing the sensor into.
#[derive(Clone, Copy, Debug)]
pub enum Entry {
    /// One measurement at a time.
    SingleShot,
    /// Periodic measurement; `mode` is the operation mode to program.
    Continuous { mode: U5 },
    /// Measurement on an external trigger.
    ExternalTrigger,
}

impl Entry {
    /// The operation mode that the entry programs.
    pub open spec fn operation_mode(self) -> u8 {
        match self {
            Entry::SingleShot => MODE_SINGLE_SHOT,
            Entry::Continuous { mode } => mode@,
            Entry::ExternalTrigger => MODE_EXTERNAL_TRIGGER,
        }
    }

    /// The byte to write to CNTL3 when `raw` was read from it: the operation
    /// mode replaced, and for the external trigger the buffer enabled too.
    pub open spec fn cntl3(self, raw: u8) -> u8 {
        let programmed = CNTL3::spec_with_operation_mode(raw, self.operation_mode());
        if self is ExternalTrigger {
            CNTL3::spec_with_fifo_enable(programmed, true)
        } else {
            programmed
        }
    }

    fn new_cntl3(&self, raw: u8) -> (value: u8)
        ensures
            value == self.cntl3(raw),
    {
        let cntl3 = CNTL3::new_with_raw_value(raw);
        match self {
            Entry::SingleShot => cntl3.with_operation_mode(U5::new(MODE_SINGLE_SHOT)).raw_value(),
            Entry::Continuous { mode } => cntl3.with_operation_mode(*mode).raw_value(),
            Entry::ExternalTrigger => cntl3.with_operation_mode(
                U5::new(MODE_EXTERNAL_TRIGGER),
            ).with_fifo_enable(true).raw_value(),
        }
    }
}

/// Why CNTL3 is being read.
#[derive(Clone, Copy, Debug)]
pub enum Purpose {
    /// To program the operation mode of `entry`, whatever the register holds.
    Enter { entry: Entry },
    /// To start a single measurement, which the sensor takes only when idle.
    Measure,
}

/// A point in a sequence at which a register access is owed.
#[derive(Clone, Copy, Debug)]
pub enum Transfer {
    /// Write the soft-reset bit to CNTL4. `before` is the mode that the
    /// sequence goes on to enter; without one, the reset is all there is.
    SoftReset { before: Option<Entry> },
    /// Read WIA1 and compare it with the manufacturer's code.
    Identify { entering: Entry },
    /// Read CNTL1, to switch the shared pin to trigger input.
    ReadCntl1,
    /// Write `value` to CNTL1.
    WriteCntl1 { value: u8 },
    /// Read CNTL3.
    ReadCntl3 { purpose: Purpose },
    /// Write `value` to CNTL3; with `arm`, wait afterwards for the trigger
    /// input to become ready.
    WriteCntl3 { value: u8, arm: bool },
}

/// A point in a sequence at which a delay is owed.
#[derive(Clone, Copy, Debug)]
pub enum Pause {
    /// Let the sensor settle after the soft reset.
    Settle { entering: Entry },
    /// Let the trigger input become ready.
    Arm,
}

/// Where a sequence stands: what is owed next, or how it ended.
pub enum Next<E> {
    /// A register access is owed.
    Exchange(Transfer),
    /// A delay is owed.
    Delay(Pause),
    /// The sequence is complete.
    Done,
    /// The sequence was given up.
    Failed(Error<E>),
}

/// The byte to write to CNTL1 when `raw` was read from it, to make the
/// shared pin the trigger input.
pub open spec fn trigger_cntl1(raw: u8) -> u8 {
    CNTL1::spec_with_drdy_trg_setting(raw, 1)
}

/// The two bytes that a sequence writes whatever the sensor holds are what
/// the register map makes of them: the soft reset is CNTL4 with the reset bit
/// set and nothing else, and the arming byte is CNTL3 with the
/// external-trigger mode and nothing else.
pub proof fn lemma_fixed_values()
    ensures
        SOFT_RESET == CNTL4::spec_with_soft_reset(0, true),
        CNTL4::spec_soft_reset(SOFT_RESET),
        WAITING_CNTL3 == CNTL3::spec_with_operation_mode(0, MODE_EXTERNAL_TRIGGER),
        CNTL3::spec_operation_mode(WAITING_CNTL3) == MODE_EXTERNAL_TRIGGER,
        !CNTL3::spec_fifo_enable(WAITING_CNTL3),
        CNTL3::spec_measurement_type(WAITING_CNTL3) == 0,
{
    assert(0u8 | 0x01 == 0x01 && 0x01u8 & 0x01 != 0 && (0u8 & 0xE0) | 0x18 == 0x18 && 0x18u8 & 0x1F
        == 0x18 && 0x18u8 & 0x80 == 0 && (0x18u8 >> 5) & 0x03 == 0) by (bit_vector);
}

impl Transfer {
    /// The register access that is owed here.
    pub open spec fn access(self) -> Access {
        match self {
            Transfer::SoftReset { .. } => Access::Write {
                reg: RegAddress::CNTL4,
                value: SOFT_RESET,
            },
            Transfer::Identify { .. } => Access::Read { reg: RegAddress::WIA1 },
            Transfer::ReadCntl1 => Access::Read { reg: RegAddress::CNTL1 },
            Transfer::WriteCntl1 { value } => Access::Write { reg: RegAddress::CNTL1, value },
            Transfer::ReadCntl3 { .. } => Access::Read { reg: RegAddress::CNTL3 },
            Transfer::WriteCntl3 { value, .. } => Access::Write { reg: RegAddress::CNTL3, value },
        }
    }

    /// Where the sequence stands once the access has come back with `byte`
    /// in second place.
    ///
    /// After the soft reset comes the settling delay, or nothing if the reset
    /// was all. The identity check ends the sequence unless `byte` is the
    /// manufacturer's code. A read of a control register is followed by the
    /// write of the edited byte, except that a measurement is refused while
    /// the operation mode read is not idle. The write to CNTL3 is the last
    /// access.
    pub open spec fn after<E>(self, byte: u8) -> Next<E> {
        match self {
            Transfer::SoftReset { before } => match before {
                Some(entry) => Next::Delay(Pause::Settle { entering: entry }),
                None => Next::Done,
            },
            Transfer::Identify { entering } => if byte != COMPANY_ID {
                Next::Failed(Error::InvalidWhoAmI(byte))
            } else if entering is ExternalTrigger {
                Next::Exchange(Transfer::ReadCntl1)
            } else {
                Next::Exchange(Transfer::ReadCntl3 { purpose: Purpose::Enter { entry: entering } })
            },
            Transfer::ReadCntl1 => Next::Exchange(
                Transfer::WriteCntl1 { value: trigger_cntl1(byte) },
            ),
            Transfer::WriteCntl1 { .. } => Next::Exchange(
                Transfer::ReadCntl3 { purpose: Purpose::Enter { entry: Entry::ExternalTrigger } },
            ),
            Transfer::ReadCntl3 { purpose } => match purpose {
                Purpose::Enter { entry } => Next::Exchange(
                    Transfer::WriteCntl3 {
                        value: entry.cntl3(byte),
                        arm: entry is ExternalTrigger,
                    },
                ),
                Purpose::Measure => if CNTL3::spec_operation_mode(byte) != MODE_POWERDOWN {
                    Next::Failed(Error::SensorBusy)
                } else {
                    Next::Exchange(
                        Transfer::WriteCntl3 {
                            value: CNTL3::spec_with_operation_mode(byte, MODE_SINGLE_SHOT),
                            arm: false,
                        },
                    )
                },
            },
            Transfer::WriteCntl3 { arm, .. } => if arm {
                Next::Delay(Pause::Arm)
            } else {
                Next::Done
            },
        }
    }

    fn exec_access(&self) -> (access: Access)
        ensures
            access == self.access(),
    {
        match self {
            Transfer::SoftReset { .. } => {
                let value: u8 = CNTL4::new_with_raw_value(0x00).with_soft_reset(true).raw_value();
                proof {
                    lemma_fixed_values();
                }
                Access::Write { reg: RegAddress::CNTL4, value }
            },
            Transfer::Identify { .. } => Access::Read { reg: RegAddress::WIA1 },
            Transfer::ReadCntl1 => Access::Read { reg: RegAddress::CNTL1 },
            Transfer::WriteCntl1 { value } => Access::Write {
                reg: RegAddress::CNTL1,
                value: *value,
            },
            Transfer::ReadCntl3 { .. } => Access::Read { reg: RegAddress::CNTL3 },
            Transfer::WriteCntl3 { value, .. } => Access::Write {
                reg: RegAddress::CNTL3,
                value: *value,
            },
        }
    }
}

impl Pause {
    /// How long to wait, in nanoseconds.
    pub open spec fn duration_ns(self) -> u32 {
        match self {
            Pause::Settle { .. } => SETTLE_NS,
            Pause::Arm => ARM_NS,
        }
    }

    /// Where the sequence stands once the time has passed: the identity
    /// check follows the settling, and nothing follows the arming.
    pub open spec fn after<E>(self) -> Next<E> {
        match self {
            Pause::Settle { entering } => Next::Exchange(Transfer::Identify { entering }),
            Pause::Arm => Next::Done,
        }
    }
}

/// A register access that the caller owes: exchange [`Exchange::frame`] in
/// place on the bus, then hand the outcome to [`Exchange::complete`].
///
/// `T` is what the operation yields when it is complete. It is locked in
/// here until then, and lost if the operation fails.
#[derive(Debug)]
#[must_use]
pub struct Exchange<T> {
    stage: Transfer,
    output: T,
}

/// A delay that the caller owes: wait [`Delay::duration_ns`] nanoseconds, then
/// call [`Delay::complete`].
#[derive(Debug)]
#[must_use]
pub struct Delay<T> {
    stage: Pause,
    output: T,
}

/// One step of an operation that yields a `T` over a bus with errors `E`.
#[derive(Debug)]
#[must_use]
pub enum Step<T, E> {
    /// A register access is owed.
    Exchange(Exchange<T>),
    /// A delay is owed.
    Delay(Delay<T>),
    /// The operation is complete, and this is what it yields.
    Done(T),
    /// The operation failed. What it would have yielded is gone.
    Failed(Error<E>),
}

impl<T, E> Step<T, E> {
    /// Where the sequence stands.
    pub open spec fn next(self) -> Next<E> {
        match self {
            Step::Exchange(exchange) => Next::Exchange(exchange.stage()),
            Step::Delay(delay) => Next::Delay(delay.stage()),
            Step::Done(_) => Next::Done,
            Step::Failed(error) => Next::Failed(error),
        }
    }

    /// What the operation yields or will yield, unless it has failed.
    pub open spec fn output(self) -> Option<T> {
        match self {
            Step::Exchange(exchange) => Some(exchange.output()),
            Step::Delay(delay) => Some(delay.output()),
            Step::Done(output) => Some(output),
            Step::Failed(_) => None,
        }
    }

    /// The step at which the access `stage` is owed, in an operation that
    /// yields `output`.
    pub(crate) fn exchange(stage: Transfer, output: T) -> (step: Self)
        ensures
            step.next() == Next::<E>::Exchange(stage),
            step.output() == Some(output),
    {
        Step::Exchange(Exchange { stage, output })
    }

    /// The step at which the delay `stage` is owed.
    fn delay(stage: Pause, output: T) -> (step: Self)
        ensures
            step.next() == Next::<E>::Delay(stage),
            step.output() == Some(output),
    {
        Step::Delay(Delay { stage, output })
    }
}

impl<T> Exchange<T> {
    /// The point of the sequence at which this access is owed.
    pub closed spec fn stage(&self) -> Transfer {
        self.stage
    }

    /// What the operation will yield.
    pub closed spec fn output(&self) -> T {
        self.output
    }

    /// The two bytes to exchange in place on the bus.
    pub fn frame(&self) -> (frame: [u8; 2])
        ensures
            frame[0] == self.stage().access().command(),
            frame[1] == self.stage().access().data(),
    {
        self.stage.exec_access().frame()
    }

    /// Takes the outcome of the exchange, the two bytes as they came back or
    /// the bus's error, and gives the next step.
    ///
    /// A bus error ends the operation and is handed on unchanged. Otherwise
    /// the second byte decides how the sequence goes on, as
    /// [`Transfer::after`] says.
    pub fn complete<E>(self, reply: Result<[u8; 2], E>) -> (step: Step<T, E>)
        ensures
            step.next() == (match reply {
                Ok(bytes) => self.stage().after::<E>(bytes[1]),
                Err(error) => Next::Failed(Error::Spi(error)),
            }),
            !(step.next() is Failed) ==> step.output() == Some(self.output()),
    {
        let Exchange { stage, output } = self;
        let bytes = match reply {
            Ok(bytes) => bytes,
            Err(error) => {
                return Step::Failed(Error::Spi(error));
            },
        };
        let byte: u8 = reg_value(&bytes);
        match stage {
            Transfer::SoftReset { before } => match before {
                Some(entry) => Step::delay(Pause::Settle { entering: entry }, output),
                None => Step::Done(output),
            },
            Transfer::Identify { entering } => {
                let id: u8 = WIA1::new_with_raw_value(byte).company_id();
                if id != COMPANY_ID {
                    Step::Failed(Error::InvalidWhoAmI(id))
                } else {
                    match entering {
                        Entry::ExternalTrigger => Step::exchange(Transfer::ReadCntl1, output),
                        _ => Step::exchange(
                            Transfer::ReadCntl3 { purpose: Purpose::Enter { entry: entering } },
                            output,
                        ),
                    }
                }
            },
            Transfer::ReadCntl1 => {
                let value: u8 = CNTL1::new_with_raw_value(byte).with_drdy_trg_setting(
                    U1::new(1),
                ).raw_value();
                Step::exchange(Transfer::WriteCntl1 { value }, output)
            },
            Transfer::WriteCntl1 { .. } => Step::exchange(
                Transfer::ReadCntl3 { purpose: Purpose::Enter { entry: Entry::ExternalTrigger } },
                output,
            ),
            Transfer::ReadCntl3 { purpose } => match purpose {
                Purpose::Enter { entry } => {
                    let value: u8 = entry.new_cntl3(byte);
                    let arm: bool = match entry {
                        Entry::ExternalTrigger => true,
                        _ => false,
                    };
                    Step::exchange(Transfer::WriteCntl3 { value, arm }, output)
                },
                Purpose::Measure => {
                    let cntl3 = CNTL3::new_with_raw_value(byte);
                    if cntl3.operation_mode().value() != MODE_POWERDOWN {
                        Step::Failed(Error::SensorBusy)
                    } else {
                        let value: u8 = cntl3.with_operation_mode(
                            U5::new(MODE_SINGLE_SHOT),
                        ).raw_value();
                        Step::exchange(Transfer::WriteCntl3 { value, arm: false }, output)
                    }
                },
            },
            Transfer::WriteCntl3 { arm, .. } => if arm {
                Step::delay(Pause::Arm, output)
            } else {
                Step::Done(output)
            },
        }
    }
}

impl<T> Delay<T> {
    /// The point of the sequence at which this delay is owed.
    pub closed spec fn stage(&self) -> Pause {
        self.stage
    }

    /// What the operation will yield.
    pub closed spec fn output(&self) -> T {
        self.output
    }

    /// How long to wait at least, in nanoseconds.
    pub fn duration_ns(&self) -> (ns: u32)
        ensures
            ns == self.stage().duration_ns(),
    {
        match self.stage {
            Pause::Settle { .. } => SETTLE_NS,
            Pause::Arm => ARM_NS,
        }
    }

    /// Takes the outcome of the delay and gives the next step.
    ///
    /// An error ends the operation and is handed on unchanged. Otherwise the
    /// sequence goes on as [`Pause::after`] says.
    pub fn complete<E>(self, reply: Result<(), E>) -> (step: Step<T, E>)
        ensures
            step.next() == (match reply {
                Ok(_) => self.stage().after::<E>(),
                Err(error) => Next::Failed(Error::Spi(error)),
            }),
            !(step.next() is Failed) ==> step.output() == Some(self.output()),
    {
        let Delay { stage, output } = self;
        match reply {
            Ok(_) => match stage {
                Pause::Settle { entering } => Step::exchange(
                    Transfer::Identify { entering },
                    output,
                ),
                Pause::Arm => Step::Done(output),
            },
            Err(error) => Step::Failed(Error::Spi(error)),
        }
    }
}

/// What the caller does on the bus for one step.
pub enum Action {
    /// One register access, exchanged in place.
    Access(Access),
    /// A delay of at least `ns` nanoseconds.
    Delay { ns: u32 },
}

impl Action {
    /// The action of writing `value` to `reg`.
    pub open spec fn write(reg: RegAddress, value: u8) -> Action {
        Action::Access(Access::Write { reg, value })
    }

    /// The action of reading `reg`.
    pub open spec fn read(reg: RegAddress) -> Action {
        Action::Access(Access::Read { reg })
    }
}

impl<E> Next<E> {
    /// What is owed at this point, if anything.
    pub open spec fn action(self) -> Option<Action> {
        match self {
            Next::Exchange(stage) => Some(Action::Access(stage.access())),
            Next::Delay(stage) => Some(Action::Delay { ns: stage.duration_ns() }),
            Next::Done => None,
            Next::Failed(_) => None,
        }
    }

    /// Where the sequence stands after the owed action had the outcome
    /// `reply`: the byte that came back in second place, which counts only
    /// for an access, or the bus's error. A sequence that has ended stays as
    /// it is.
    pub open spec fn step(self, reply: Result<u8, E>) -> Next<E> {
        match self {
            Next::Exchange(stage) => match reply {
                Ok(byte) => stage.after(byte),
                Err(error) => Next::Failed(Error::Spi(error)),
            },
            Next::Delay(stage) => match reply {
                Ok(_) => stage.after(),
                Err(error) => Next::Failed(Error::Spi(error)),
            },
            Next::Done => self,
            Next::Failed(_) => self,
        }
    }

    /// A bound on the number of actions that are still to come.
    pub open spec fn rank(self) -> nat {
        match self {
            Next::Exchange(Transfer::SoftReset { .. }) => 8,
            Next::Delay(Pause::Settle { .. }) => 7,
            Next::Exchange(Transfer::Identify { .. }) => 6,
            Next::Exchange(Transfer::ReadCntl1) => 5,
            Next::Exchange(Transfer::WriteCntl1 { .. }) => 4,
            Next::Exchange(Transfer::ReadCntl3 { .. }) => 3,
            Next::Exchange(Transfer::WriteCntl3 { .. }) => 2,
            Next::Delay(Pause::Arm) => 1,
            Next::Done => 0,
            Next::Failed(_) => 0,
        }
    }

    /// Whether the sequence has ended, well or badly.
    pub open spec fn ended(self) -> bool {
        self is Done || self is Failed
    }
}

/// Plays the sequence that stands at `start` against a device: `replies`
/// holds the outcome of each action in turn. The result is the actions that
/// were carried out, in order, and where the sequence stands after them: at
/// its end, or at the step that is owed when the replies run out.
pub open spec fn run<E>(start: Next<E>, replies: Seq<Result<u8, E>>) -> (Seq<Action>, Next<E>)
    decreases replies.len(),
{
    if replies.len() == 0 || start.action() is None {
        (Seq::empty(), start)
    } else {
        let rest = run(start.step(replies[0]), replies.drop_first());
        (seq![start.action().unwrap()] + rest.0, rest.1)
    }
}

/// Every action brings a sequence closer to its end.
pub proof fn lemma_step_decreases<E>(start: Next<E>, reply: Result<u8, E>)
    requires
        !start.ended(),
    ensures
        start.step(reply).rank() < start.rank(),
{
}

/// A sequence that has ended owes nothing, and one that has not owes exactly
/// one action.
pub proof fn lemma_action_iff_pending<E>(start: Next<E>)
    ensures
        start.action() is Some <==> !start.ended(),
        start.ended() <==> start.rank() == 0,
{
}

/// Every sequence ends: played against as many replies as its rank, or more,
/// it is at its end, after no more actions than its rank. So the loop that
/// carries out the steps of an operation stops after at most eight of them.
pub proof fn lemma_run_ends<E>(start: Next<E>, replies: Seq<Result<u8, E>>)
    requires
        replies.len() >= start.rank(),
    ensures
        run(start, replies).1.ended(),
        run(start, replies).0.len() <= start.rank(),
    decreases replies.len(),
{
    if replies.len() == 0 || start.action() is None {
    } else {
        lemma_step_decreases(start, replies[0]);
        lemma_run_ends(start.step(replies[0]), replies.drop_first());
    }
}

/// One reply is used up by one action: the run over `reply` followed by
/// `rest` is the owed action followed by the run, over `rest`, of where that
/// action's outcome leads.
pub proof fn lemma_run_unfold<E>(start: Next<E>, reply: Result<u8, E>, rest: Seq<Result<u8, E>>)
    requires
        !start.ended(),
    ensures
        run(start, seq![reply] + rest) == (
            seq![start.action().unwrap()] + run(start.step(reply), rest).0,
            run(start.step(reply), rest).1,
        ),
{
    let replies = seq![reply] + rest;
    assert(replies.len() > 0);
    assert(replies[0] == reply);
    assert(replies.drop_first() =~= rest);
}

/// A sequence that has ended does nothing more, whatever replies are left.
pub proof fn lemma_run_ended<E>(start: Next<E>, replies: Seq<Result<u8, E>>)
    requires
        start.ended(),
    ensures
        run(start, replies) == (Seq::<Action>::empty(), start),
{
}

/// A failure of the bus ends the sequence at once: the failed action is the
/// last, and the bus's error comes out unchanged.
pub proof fn lemma_bus_error_ends<E>(start: Next<E>, error: E, rest: Seq<Result<u8, E>>)
    requires
        !start.ended(),
    ensures
        run(start, seq![Err(error)] + rest) == (
            seq![start.action().unwrap()],
            Next::Failed(Error::Spi(error)),
        ),
{
    lemma_run_unfold(start, Err(error), rest);
    lemma_run_ended(start.step(Err(error)), rest);
    assert(seq![start.action().unwrap()] + Seq::<Action>::empty() =~= seq![
        start.action().unwrap(),
    ]);
}

} // verus!
