//! The sensor handle and its operations.
//!
//! A handle stands for one sensor and carries, as its type parameter, the
//! operating mode that the sensor is in. An operation that changes the mode
//! takes the handle and yields, when its register sequence is complete, the
//! handle for the new mode; if the sequence fails, no handle is left, and the
//! sensor has to be taken up again from the start. Operations that only one
//! mode offers exist only on the handle of that mode.
//!
//! The handle holds no bus. An operation returns the first [`Step`] of its
//! register sequence, and the caller performs the steps one by one.

use crate::error::Error;
use crate::ll::reg::{RegAddress, CNTL1, CNTL3, HX, HY, HZ, ST1, ST2, TMPS};
use crate::ll::{read_block, read_command, Access};
use crate::sequence::{
    run, lemma_fixed_values, Action, Entry, Next, Purpose, Step, Transfer, ARM_NS,
    COMPANY_ID, MODE_EXTERNAL_TRIGGER, MODE_POWERDOWN, MODE_SINGLE_SHOT, SETTLE_NS, SOFT_RESET,
    WAITING_CNTL3,
};
use crate::states::{Continuous, ExternalTrigger, Powerdown, SingleShot};
use crate::uint::{le24, U24, U5};
use vstd::prelude::*;

verus! {

/// The number of bytes in one measurement frame: the registers from ST1 to
/// ST2.
pub const FRAME_LEN: usize = 12;

/// Where the sequence that enters the mode of `entry` starts: at the soft
/// reset.
pub open spec fn entering<E>(entry: Entry) -> Next<E> {
    Next::Exchange(Transfer::SoftReset { before: Some(entry) })
}

/// Where the sequence of a plain reset starts, and ends: at the soft reset.
pub open spec fn resetting<E>() -> Next<E> {
    Next::Exchange(Transfer::SoftReset { before: None })
}

/// Where the sequence that starts a single measurement starts: at the read
/// of CNTL3.
pub open spec fn measuring<E>() -> Next<E> {
    Next::Exchange(Transfer::ReadCntl3 { purpose: Purpose::Measure })
}

/// Where the sequence that arms the external trigger starts, and ends: at
/// the write of the arming byte to CNTL3.
pub open spec fn waiting<E>() -> Next<E> {
    Next::Exchange(Transfer::WriteCntl3 { value: WAITING_CNTL3, arm: false })
}

/// The handle of one AK09940A, in the operating mode `State`.
#[derive(Debug)]
pub struct AK09940A<State> {
    state: State,
}

impl AK09940A<Powerdown> {
    /// The handle of a sensor that has just been powered up.
    pub fn new() -> (handle: Self) {
        AK09940A { state: Powerdown }
    }

    /// Enters single-shot mode.
    ///
    /// The sequence resets the sensor, lets it settle, checks its identity,
    /// and then programs operation mode 1 into CNTL3, keeping the register's
    /// other bits.
    pub fn single_shot<E>(self) -> (step: Step<AK09940A<SingleShot>, E>)
        ensures
            step.next() == entering::<E>(Entry::SingleShot),
            step.output() is Some,
    {
        Step::exchange(
            Transfer::SoftReset { before: Some(Entry::SingleShot) },
            AK09940A { state: SingleShot },
        )
    }

    /// Enters the continuous mode with the number `mode`, which is one of 1
    /// to 8.
    ///
    /// Any other number fails with `InvalidMode` at once, before anything is
    /// put on the bus. Otherwise the sequence resets the sensor, lets it
    /// settle, checks its identity, and then programs `mode` as the operation
    /// mode into CNTL3, keeping the register's other bits.
    pub fn continuous<E>(self, mode: u8) -> (step: Step<AK09940A<Continuous>, E>)
        ensures
            1 <= mode <= 8 ==> step.next() == entering::<E>(
                Entry::Continuous { mode: U5::new(mode) },
            ),
            1 <= mode <= 8 ==> step.output() is Some,
            !(1 <= mode <= 8) ==> step.next() == Next::<E>::Failed(Error::InvalidMode),
    {
        if mode < 1 || mode > 8 {
            return Step::Failed(Error::InvalidMode);
        }
        Step::exchange(
            Transfer::SoftReset { before: Some(Entry::Continuous { mode: U5::new(mode) }) },
            AK09940A { state: Continuous },
        )
    }

    /// Enters external-trigger mode.
    ///
    /// The sequence resets the sensor, lets it settle, checks its identity,
    /// makes the shared pin the trigger input in CNTL1, programs the
    /// external-trigger operation mode with the buffer enabled into CNTL3,
    /// and waits for the trigger input to become ready.
    pub fn external_trigger<E>(self) -> (step: Step<AK09940A<ExternalTrigger>, E>)
        ensures
            step.next() == entering::<E>(Entry::ExternalTrigger),
            step.output() is Some,
    {
        Step::exchange(
            Transfer::SoftReset { before: Some(Entry::ExternalTrigger) },
            AK09940A { state: ExternalTrigger },
        )
    }
}

impl<State> AK09940A<State> {
    /// Resets the sensor, from whatever mode it is in, back to power-down.
    ///
    /// The sequence is the one write of the soft-reset bit to CNTL4.
    pub fn reset<E>(self) -> (step: Step<AK09940A<Powerdown>, E>)
        ensures
            step.next() == resetting::<E>(),
            step.output() is Some,
    {
        Step::exchange(Transfer::SoftReset { before: None }, AK09940A { state: Powerdown })
    }

    /// Reads one measurement frame. The mode does not change.
    ///
    /// The frame is read in one block read of [`FRAME_LEN`] bytes that starts
    /// at ST1; [`BlockRead::complete`] decodes the bytes.
    pub fn read_data(&self) -> (read: BlockRead)
        ensures
            read.start() == RegAddress::ST1,
    {
        BlockRead { start: RegAddress::ST1 }
    }
}

impl AK09940A<SingleShot> {
    /// Starts one measurement.
    ///
    /// The sequence reads CNTL3 and fails with `SensorBusy` unless the
    /// operation mode read is power-down, that is, unless the last
    /// measurement is over. Then it writes the register back with operation
    /// mode 1.
    pub fn start_measurement<E>(&self) -> (step: Step<(), E>)
        ensures
            step.next() == measuring::<E>(),
            step.output() == Some(()),
    {
        Step::exchange(Transfer::ReadCntl3 { purpose: Purpose::Measure }, ())
    }
}

impl AK09940A<ExternalTrigger> {
    /// Arms the sensor for the next trigger pulse.
    ///
    /// The sequence is one write to CNTL3: the external-trigger operation
    /// mode, with every other bit of the register clear.
    pub fn start_waiting<E>(&self) -> (step: Step<(), E>)
        ensures
            step.next() == waiting::<E>(),
            step.output() == Some(()),
    {
        let value: u8 = CNTL3::new_with_raw_value(0x00).with_operation_mode(
            U5::new(MODE_EXTERNAL_TRIGGER),
        ).raw_value();
        proof {
            lemma_fixed_values();
        }
        Step::exchange(Transfer::WriteCntl3 { value, arm: false }, ())
    }
}

/// The block read of one measurement frame, which the caller owes: send
/// [`BlockRead::command`], receive [`FRAME_LEN`] bytes behind it in the same
/// bus transaction, and hand the outcome to [`BlockRead::complete`].
#[derive(Debug)]
#[must_use]
pub struct BlockRead {
    start: RegAddress,
}

impl BlockRead {
    /// The register at which the block read starts.
    pub closed spec fn start(&self) -> RegAddress {
        self.start
    }

    /// The command byte to send: the address of the register at which the
    /// read starts, marked for a read.
    pub fn command(&self) -> (command: u8)
        ensures
            command == read_command(self.start()),
            command & 0x7F == self.start().spec_addr(),
    {
        read_block(self.start)
    }

    /// Takes the outcome of the block read, the twelve bytes received or the
    /// bus's error, and decodes the frame.
    ///
    /// A bus error is handed on unchanged. Otherwise byte 0 is ST1, bytes 1 to
    /// 3, 4 to 6 and 7 to 9 are the X, Y and Z data, each with its low byte
    /// first, byte 10 is the temperature and byte 11 is ST2.
    pub fn complete<E>(self, reply: Result<[u8; 12], E>) -> (frame: Result<
        (ST1, HX, HY, HZ, TMPS, ST2),
        Error<E>,
    >)
        ensures
            match reply {
                Ok(bytes) => frame matches Ok(data) && {
                    &&& data.0@ == bytes[0]
                    &&& data.1@ == le24(bytes[1], bytes[2], bytes[3])
                    &&& data.2@ == le24(bytes[4], bytes[5], bytes[6])
                    &&& data.3@ == le24(bytes[7], bytes[8], bytes[9])
                    &&& data.4@ == bytes[10]
                    &&& data.5@ == bytes[11]
                },
                Err(error) => frame == Err::<(ST1, HX, HY, HZ, TMPS, ST2), Error<E>>(
                    Error::Spi(error),
                ),
            },
    {
        let buf = match reply {
            Ok(bytes) => bytes,
            Err(error) => {
                return Err(Error::Spi(error));
            },
        };
        let st1: u8 = buf[0];
        let hx: [u8; 3] = [buf[1], buf[2], buf[3]];
        let hy: [u8; 3] = [buf[4], buf[5], buf[6]];
        let hz: [u8; 3] = [buf[7], buf[8], buf[9]];
        let tmps: u8 = buf[10];
        let st2: u8 = buf[11];
        Ok(
            (
                ST1::new_with_raw_value(st1),
                HX::new_with_raw_value(U24::from_le_bytes(hx)),
                HY::new_with_raw_value(U24::from_le_bytes(hy)),
                HZ::new_with_raw_value(U24::from_le_bytes(hz)),
                TMPS::new_with_raw_value(tmps),
                ST2::new_with_raw_value(st2),
            ),
        )
    }
}

/// The three actions that open every entry into a measuring mode: the soft
/// reset, the settling delay, and the read of the company identification.
pub open spec fn preamble() -> Seq<Action> {
    seq![
        Action::write(RegAddress::CNTL4, SOFT_RESET),
        Action::Delay { ns: SETTLE_NS },
        Action::read(RegAddress::WIA1),
    ]
}

/// Entering single-shot mode or a continuous mode on a sensor that answers
/// with the manufacturer's code takes exactly five actions: the preamble,
/// the read of CNTL3, and the write of CNTL3 with the operation mode
/// replaced. `cntl3` is what the sensor holds in CNTL3; the bytes `a`, `b` and
/// `c`, which come back from the writes and the delay, change nothing.
pub proof fn lemma_entry_trace<E>(entry: Entry, cntl3: u8, a: u8, b: u8, c: u8)
    requires
        !(entry is ExternalTrigger),
    ensures
        run(entering::<E>(entry), seq![Ok(a), Ok(b), Ok(COMPANY_ID), Ok(cntl3), Ok(c)]) == (
            preamble() + seq![
                Action::read(RegAddress::CNTL3),
                Action::write(
                    RegAddress::CNTL3,
                    CNTL3::spec_with_operation_mode(cntl3, entry.operation_mode()),
                ),
            ],
            Next::<E>::Done,
        ),
{
    let replies = seq![Ok::<u8, E>(a), Ok(b), Ok(COMPANY_ID), Ok(cntl3), Ok(c)];
    let expected = preamble() + seq![
        Action::read(RegAddress::CNTL3),
        Action::write(
            RegAddress::CNTL3,
            CNTL3::spec_with_operation_mode(cntl3, entry.operation_mode()),
        ),
    ];
    reveal_with_fuel(run, 6);
    let played = run(entering::<E>(entry), replies);
    assert(played.0 =~= expected);
    assert(played.1 == Next::<E>::Done);
}

/// A sensor that does not answer with the manufacturer's code is left alone:
/// the entry into any mode fails with `InvalidWhoAmI`, which carries the byte
/// `id` that was read, right after the preamble. No control register has
/// been read or written by then, and whatever replies are left go unused.
pub proof fn lemma_entry_rejects_stranger<E>(
    entry: Entry,
    id: u8,
    a: u8,
    b: u8,
    rest: Seq<Result<u8, E>>,
)
    requires
        id != COMPANY_ID,
    ensures
        run(entering::<E>(entry), seq![Ok(a), Ok(b), Ok(id)] + rest) == (
            preamble(),
            Next::<E>::Failed(Error::InvalidWhoAmI(id)),
        ),
{
    let replies = seq![Ok::<u8, E>(a), Ok(b), Ok(id)] + rest;
    reveal_with_fuel(run, 4);
    let played = run(entering::<E>(entry), replies);
    assert(played.0 =~= preamble());
    assert(played.1 == Next::<E>::Failed(Error::InvalidWhoAmI(id)));
}

/// Entering external-trigger mode on a sensor that answers with the
/// manufacturer's code takes exactly eight actions: the preamble, the read
/// of CNTL1 and its write with the shared pin made the trigger input, the read
/// of CNTL3 and its write with the external-trigger mode and the buffer
/// enabled, and the delay that lets the trigger input become ready. `cntl1`
/// and `cntl3` are what the sensor holds in the two registers.
pub proof fn lemma_external_trigger_trace<E>(
    cntl1: u8,
    cntl3: u8,
    a: u8,
    b: u8,
    c: u8,
    d: u8,
    e: u8,
)
    ensures
        run(
            entering::<E>(Entry::ExternalTrigger),
            seq![Ok(a), Ok(b), Ok(COMPANY_ID), Ok(cntl1), Ok(c), Ok(cntl3), Ok(d), Ok(e)],
        ) == (
            preamble() + seq![
                Action::read(RegAddress::CNTL1),
                Action::write(RegAddress::CNTL1, CNTL1::spec_with_drdy_trg_setting(cntl1, 1)),
                Action::read(RegAddress::CNTL3),
                Action::write(
                    RegAddress::CNTL3,
                    CNTL3::spec_with_fifo_enable(
                        CNTL3::spec_with_operation_mode(cntl3, MODE_EXTERNAL_TRIGGER),
                        true,
                    ),
                ),
                Action::Delay { ns: ARM_NS },
            ],
            Next::<E>::Done,
        ),
{
    let replies = seq![
        Ok::<u8, E>(a),
        Ok(b),
        Ok(COMPANY_ID),
        Ok(cntl1),
        Ok(c),
        Ok(cntl3),
        Ok(d),
        Ok(e),
    ];
    let expected = preamble() + seq![
        Action::read(RegAddress::CNTL1),
        Action::write(RegAddress::CNTL1, CNTL1::spec_with_drdy_trg_setting(cntl1, 1)),
        Action::read(RegAddress::CNTL3),
        Action::write(
            RegAddress::CNTL3,
            CNTL3::spec_with_fifo_enable(
                CNTL3::spec_with_operation_mode(cntl3, MODE_EXTERNAL_TRIGGER),
                true,
            ),
        ),
        Action::Delay { ns: ARM_NS },
    ];
    reveal_with_fuel(run, 9);
    let played = run(entering::<E>(Entry::ExternalTrigger), replies);
    assert(played.0 =~= expected);
    assert(played.1 == Next::<E>::Done);
}

/// What an entry programs into CNTL3 reads back as intended: the operation
/// mode is that of the entry, the sensor drive is as it was, and the buffer
/// is enabled for the external trigger and as it was otherwise.
pub proof fn lemma_programmed_cntl3(entry: Entry, raw: u8)
    requires
        entry.operation_mode() <= 0x1F,
    ensures
        CNTL3::spec_operation_mode(entry.cntl3(raw)) == entry.operation_mode(),
        CNTL3::spec_measurement_type(entry.cntl3(raw)) == CNTL3::spec_measurement_type(raw),
        CNTL3::spec_fifo_enable(entry.cntl3(raw)) == (entry is ExternalTrigger
            || CNTL3::spec_fifo_enable(raw)),
{
    let mode = entry.operation_mode();
    let programmed = (raw & 0xE0) | mode;
    let buffered = programmed | 0x80;
    assert(programmed & 0x1F == mode && buffered & 0x1F == mode && (programmed >> 5) & 0x03 == (raw
        >> 5) & 0x03 && (buffered >> 5) & 0x03 == (raw >> 5) & 0x03 && (programmed & 0x80 != 0) == (
    raw & 0x80 != 0) && buffered & 0x80 != 0) by (bit_vector)
        requires
            mode <= 0x1F,
            programmed == (raw & 0xE0) | mode,
            buffered == programmed | 0x80,
    ;
}

/// Entering the continuous mode with a number from 1 to 8 succeeds on a
/// sensor that answers with the manufacturer's code, and its last action
/// writes CNTL3 with the operation mode equal to that number and the other
/// bits as they were read.
pub proof fn lemma_continuous_programs_mode<E>(mode: u8, cntl3: u8, a: u8, b: u8, c: u8)
    requires
        1 <= mode <= 8,
    ensures
        ({
            let played = run(
                entering::<E>(Entry::Continuous { mode: U5::new(mode) }),
                seq![Ok(a), Ok(b), Ok(COMPANY_ID), Ok(cntl3), Ok(c)],
            );
            &&& played.1 == Next::<E>::Done
            &&& played.0.len() == 5
            &&& played.0[4] matches Action::Access(Access::Write { reg, value })
            &&& reg == RegAddress::CNTL3
            &&& CNTL3::spec_operation_mode(value) == mode
            &&& value & 0xE0 == cntl3 & 0xE0
        }),
{
    let entry = Entry::Continuous { mode: U5::new(mode) };
    U5::lemma_new_view(mode, U5::new(mode));
    lemma_entry_trace::<E>(entry, cntl3, a, b, c);
    lemma_programmed_cntl3(entry, cntl3);
    let value = CNTL3::spec_with_operation_mode(cntl3, mode);
    assert(value & 0xE0 == cntl3 & 0xE0) by (bit_vector)
        requires
            mode <= 0x1F,
            value == (cntl3 & 0xE0) | mode,
    ;
}

/// A measurement is refused while the sensor is busy: if the operation mode
/// read from CNTL3 is not power-down, the sequence fails with `SensorBusy`
/// after that one read, and nothing is written.
pub proof fn lemma_start_measurement_busy<E>(cntl3: u8, rest: Seq<Result<u8, E>>)
    requires
        CNTL3::spec_operation_mode(cntl3) != MODE_POWERDOWN,
    ensures
        run(measuring::<E>(), seq![Ok(cntl3)] + rest) == (
            seq![Action::read(RegAddress::CNTL3)],
            Next::<E>::Failed(Error::SensorBusy),
        ),
{
    let replies = seq![Ok::<u8, E>(cntl3)] + rest;
    reveal_with_fuel(run, 2);
    let played = run(measuring::<E>(), replies);
    assert(played.0 =~= seq![Action::read(RegAddress::CNTL3)]);
}

/// A measurement is started on an idle sensor: if the operation mode read
/// from CNTL3 is power-down, the sequence writes the register back with
/// operation mode 1, every other bit as it was read, and is complete.
pub proof fn lemma_start_measurement_idle<E>(cntl3: u8, a: u8)
    requires
        CNTL3::spec_operation_mode(cntl3) == MODE_POWERDOWN,
    ensures
        run(measuring::<E>(), seq![Ok(cntl3), Ok(a)]) == (
            seq![
                Action::read(RegAddress::CNTL3),
                Action::write(
                    RegAddress::CNTL3,
                    CNTL3::spec_with_operation_mode(cntl3, MODE_SINGLE_SHOT),
                ),
            ],
            Next::<E>::Done,
        ),
        CNTL3::spec_operation_mode(CNTL3::spec_with_operation_mode(cntl3, MODE_SINGLE_SHOT))
            == MODE_SINGLE_SHOT,
        CNTL3::spec_with_operation_mode(cntl3, MODE_SINGLE_SHOT) & 0xE0 == cntl3 & 0xE0,
{
    let replies = seq![Ok::<u8, E>(cntl3), Ok(a)];
    let value = CNTL3::spec_with_operation_mode(cntl3, MODE_SINGLE_SHOT);
    reveal_with_fuel(run, 3);
    let played = run(measuring::<E>(), replies);
    assert(played.0 =~= seq![
        Action::read(RegAddress::CNTL3),
        Action::write(RegAddress::CNTL3, value),
    ]);
    assert(value & 0x1F == 0x01 && value & 0xE0 == cntl3 & 0xE0) by (bit_vector)
        requires
            value == (cntl3 & 0xE0) | 0x01,
    ;
}

/// A reset is one action, the write of the soft-reset bit to CNTL4, whatever
/// comes back from it.
pub proof fn lemma_reset_trace<E>(a: u8)
    ensures
        run(resetting::<E>(), seq![Ok(a)]) == (
            seq![Action::write(RegAddress::CNTL4, SOFT_RESET)],
            Next::<E>::Done,
        ),
{
    reveal_with_fuel(run, 2);
    let played = run(resetting::<E>(), seq![Ok::<u8, E>(a)]);
    assert(played.0 =~= seq![Action::write(RegAddress::CNTL4, SOFT_RESET)]);
}

/// Arming the external trigger is one action: the write of 0b0001_1000 to
/// CNTL3, the external-trigger mode with every other bit clear.
pub proof fn lemma_start_waiting_trace<E>(a: u8)
    ensures
        run(waiting::<E>(), seq![Ok(a)]) == (
            seq![Action::write(RegAddress::CNTL3, WAITING_CNTL3)],
            Next::<E>::Done,
        ),
{
    reveal_with_fuel(run, 2);
    let played = run(waiting::<E>(), seq![Ok::<u8, E>(a)]);
    assert(played.0 =~= seq![Action::write(RegAddress::CNTL3, WAITING_CNTL3)]);
}

/// The registers of a measurement frame lie one behind the other from ST1, so
/// a block read that starts at ST1 and moves up by one address for each byte
/// finds each of them at its offset in the frame.
pub proof fn lemma_frame_layout()
    ensures
        RegAddress::HXL.spec_addr() == RegAddress::ST1.spec_addr() + 1,
        RegAddress::HXM.spec_addr() == RegAddress::ST1.spec_addr() + 2,
        RegAddress::HXH.spec_addr() == RegAddress::ST1.spec_addr() + 3,
        RegAddress::HYL.spec_addr() == RegAddress::ST1.spec_addr() + 4,
        RegAddress::HYM.spec_addr() == RegAddress::ST1.spec_addr() + 5,
        RegAddress::HYH.spec_addr() == RegAddress::ST1.spec_addr() + 6,
        RegAddress::HZL.spec_addr() == RegAddress::ST1.spec_addr() + 7,
        RegAddress::HZM.spec_addr() == RegAddress::ST1.spec_addr() + 8,
        RegAddress::HZH.spec_addr() == RegAddress::ST1.spec_addr() + 9,
        RegAddress::TMPS.spec_addr() == RegAddress::ST1.spec_addr() + 10,
        RegAddress::ST2.spec_addr() == RegAddress::ST1.spec_addr() + 11,
        RegAddress::ST2.spec_addr() - RegAddress::ST1.spec_addr() + 1 == FRAME_LEN,
{
}

} // verus!
