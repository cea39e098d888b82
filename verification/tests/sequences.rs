use ak09940a::driver::FRAME_LEN;
use ak09940a::sequence::Step;
use ak09940a::states::{Continuous, ExternalTrigger, Powerdown, SingleShot};
use ak09940a::{Error, AK09940A};

/// What a scripted sensor saw on its bus.
#[derive(Debug, Clone, PartialEq, Eq)]
enum Seen {
    Read(u8),
    Write(u8, u8),
    Delay(u32),
    Block(u8, usize),
}

#[derive(Debug, Clone, Copy, PartialEq, Eq)]
struct BusFault(u32);

/// A sensor that holds its registers in memory and can be told to fail the
/// n-th thing asked of it.
struct Sensor {
    regs: [u8; 0x40],
    seen: Vec<Seen>,
    fail_at: Option<usize>,
}

impl Sensor {
    fn new() -> Self {
        let mut regs = [0u8; 0x40];
        regs[0x00] = 0x48;
        regs[0x01] = 0xA3;
        Sensor { regs, seen: Vec::new(), fail_at: None }
    }

    fn with(mut self, addr: u8, value: u8) -> Self {
        self.regs[addr as usize] = value;
        self
    }

    fn failing_at(mut self, n: usize) -> Self {
        self.fail_at = Some(n);
        self
    }

    fn fails_now(&self) -> bool {
        self.fail_at == Some(self.seen.len())
    }

    fn transfer_in_place(&mut self, frame: [u8; 2]) -> Result<[u8; 2], BusFault> {
        let failed = self.fails_now();
        let addr = frame[0] & 0x7F;
        if frame[0] & 0x80 != 0 {
            self.seen.push(Seen::Read(addr));
            if failed {
                return Err(BusFault(self.seen.len() as u32));
            }
            Ok([0xFF, self.regs[addr as usize]])
        } else {
            self.seen.push(Seen::Write(addr, frame[1]));
            if failed {
                return Err(BusFault(self.seen.len() as u32));
            }
            self.regs[addr as usize] = frame[1];
            Ok([0xFF, 0xFF])
        }
    }

    fn delay_ns(&mut self, ns: u32) -> Result<(), BusFault> {
        let failed = self.fails_now();
        self.seen.push(Seen::Delay(ns));
        if failed {
            return Err(BusFault(self.seen.len() as u32));
        }
        Ok(())
    }

    fn transfer(&mut self, command: u8) -> Result<[u8; FRAME_LEN], BusFault> {
        let failed = self.fails_now();
        self.seen.push(Seen::Block(command, FRAME_LEN));
        if failed {
            return Err(BusFault(self.seen.len() as u32));
        }
        let start = (command & 0x7F) as usize;
        let mut bytes = [0u8; FRAME_LEN];
        bytes.copy_from_slice(&self.regs[start..start + FRAME_LEN]);
        Ok(bytes)
    }
}

/// Carries out the steps of an operation on the scripted sensor.
fn drive<T>(sensor: &mut Sensor, first: Step<T, BusFault>) -> Result<T, Error<BusFault>> {
    let mut step = first;
    let mut taken = 0;
    loop {
        assert!(taken <= 8, "a sequence has at most eight steps");
        taken += 1;
        step = match step {
            Step::Exchange(exchange) => {
                let reply = sensor.transfer_in_place(exchange.frame());
                exchange.complete(reply)
            }
            Step::Delay(delay) => {
                let reply = sensor.delay_ns(delay.duration_ns());
                delay.complete(reply)
            }
            Step::Done(output) => return Ok(output),
            Step::Failed(error) => return Err(error),
        };
    }
}

fn preamble() -> Vec<Seen> {
    vec![Seen::Write(0x33, 0x01), Seen::Delay(100_000), Seen::Read(0x00)]
}

#[test]
fn single_shot_resets_identifies_and_programs_mode_one() {
    let mut sensor = Sensor::new();
    let handle: AK09940A<Powerdown> = AK09940A::new();
    let entered: AK09940A<SingleShot> = drive(&mut sensor, handle.single_shot()).unwrap();
    let mut expected = preamble();
    expected.push(Seen::Read(0x32));
    expected.push(Seen::Write(0x32, 0b0000_0001));
    assert_eq!(sensor.seen, expected);
    let _ = entered;
}

#[test]
fn single_shot_keeps_the_other_bits_of_cntl3() {
    let mut sensor = Sensor::new().with(0x32, 0b1110_1010);
    drive(&mut sensor, AK09940A::new().single_shot()).unwrap();
    assert_eq!(sensor.seen.last(), Some(&Seen::Write(0x32, 0b1110_0001)));
    assert_eq!(sensor.regs[0x32], 0b1110_0001);
}

#[test]
fn single_shot_refuses_a_stranger_before_touching_cntl3() {
    let mut sensor = Sensor::new().with(0x00, 0x47);
    let outcome = drive(&mut sensor, AK09940A::new().single_shot());
    assert!(matches!(outcome, Err(Error::InvalidWhoAmI(0x47))));
    assert_eq!(sensor.seen, preamble());
    assert!(!sensor
        .seen
        .iter()
        .any(|seen| matches!(seen, Seen::Write(0x32, _) | Seen::Read(0x32))));
}

#[test]
fn the_first_frames_of_an_entry_on_the_wire() {
    let first: Step<AK09940A<SingleShot>, BusFault> = AK09940A::new().single_shot();
    let Step::Exchange(reset) = first else { panic!("an exchange comes first") };
    assert_eq!(reset.frame(), [0x33, 0x01]);
    let Step::Delay(settle) = reset.complete::<BusFault>(Ok([0x00, 0x00])) else {
        panic!("the settling delay follows the reset")
    };
    assert_eq!(settle.duration_ns(), 100_000);
    let Step::Exchange(identify) = settle.complete::<BusFault>(Ok(())) else {
        panic!("the identity check follows the delay")
    };
    assert_eq!(identify.frame(), [0x80, 0x00]);
    let Step::Exchange(read) = identify.complete::<BusFault>(Ok([0x00, 0x48])) else {
        panic!("the read of CNTL3 follows the identity check")
    };
    assert_eq!(read.frame(), [0xB2, 0x00]);
    let Step::Exchange(write) = read.complete::<BusFault>(Ok([0x00, 0x40])) else {
        panic!("the write of CNTL3 follows its read")
    };
    assert_eq!(write.frame(), [0x32, 0x41]);
    assert!(matches!(write.complete::<BusFault>(Ok([0x00, 0x00])), Step::Done(_)));
}

#[test]
fn continuous_rejects_mode_zero_and_mode_nine() {
    for mode in [0u8, 9, 10, 16, 24, 255] {
        let mut sensor = Sensor::new();
        let outcome = drive(&mut sensor, AK09940A::new().continuous(mode));
        assert!(matches!(outcome, Err(Error::InvalidMode)));
        assert!(sensor.seen.is_empty());
    }
}

#[test]
fn continuous_programs_each_mode_from_one_to_eight() {
    for mode in 1u8..=8 {
        let mut sensor = Sensor::new().with(0x32, 0b0110_0000);
        let entered: AK09940A<Continuous> =
            drive(&mut sensor, AK09940A::new().continuous(mode)).unwrap();
        let mut expected = preamble();
        expected.push(Seen::Read(0x32));
        expected.push(Seen::Write(0x32, 0b0110_0000 | mode));
        assert_eq!(sensor.seen, expected);
        assert_eq!(sensor.regs[0x32] & 0x1F, mode);
        let _ = entered;
    }
}

#[test]
fn continuous_refuses_a_stranger() {
    let mut sensor = Sensor::new().with(0x00, 0x00);
    let outcome = drive(&mut sensor, AK09940A::new().continuous(4));
    assert!(matches!(outcome, Err(Error::InvalidWhoAmI(0x00))));
    assert_eq!(sensor.seen, preamble());
}

#[test]
fn external_trigger_programs_the_pin_the_mode_and_the_buffer() {
    let mut sensor = Sensor::new().with(0x30, 0b1000_0101).with(0x32, 0b0100_0011);
    let entered: AK09940A<ExternalTrigger> =
        drive(&mut sensor, AK09940A::new().external_trigger()).unwrap();
    let mut expected = preamble();
    expected.push(Seen::Read(0x30));
    expected.push(Seen::Write(0x30, 0b1010_0101));
    expected.push(Seen::Read(0x32));
    expected.push(Seen::Write(0x32, 0b1101_1000));
    expected.push(Seen::Delay(300_000));
    assert_eq!(sensor.seen, expected);
    let _ = entered;
}

#[test]
fn external_trigger_refuses_a_stranger() {
    let mut sensor = Sensor::new().with(0x00, 0xFF);
    let outcome = drive(&mut sensor, AK09940A::new().external_trigger());
    assert!(matches!(outcome, Err(Error::InvalidWhoAmI(0xFF))));
    assert_eq!(sensor.seen, preamble());
}

#[test]
fn reset_is_one_write_from_any_mode() {
    let mut sensor = Sensor::new();
    let single: AK09940A<SingleShot> = drive(&mut sensor, AK09940A::new().single_shot()).unwrap();
    sensor.seen.clear();
    let down: AK09940A<Powerdown> = drive(&mut sensor, single.reset()).unwrap();
    assert_eq!(sensor.seen, vec![Seen::Write(0x33, 0x01)]);

    let continuous = drive(&mut sensor, down.continuous(2)).unwrap();
    sensor.seen.clear();
    let down: AK09940A<Powerdown> = drive(&mut sensor, continuous.reset()).unwrap();
    assert_eq!(sensor.seen, vec![Seen::Write(0x33, 0x01)]);

    let triggered = drive(&mut sensor, down.external_trigger()).unwrap();
    sensor.seen.clear();
    let down: AK09940A<Powerdown> = drive(&mut sensor, triggered.reset()).unwrap();
    assert_eq!(sensor.seen, vec![Seen::Write(0x33, 0x01)]);

    sensor.seen.clear();
    let _: AK09940A<Powerdown> = drive(&mut sensor, down.reset()).unwrap();
    assert_eq!(sensor.seen, vec![Seen::Write(0x33, 0x01)]);
}

#[test]
fn start_measurement_fails_while_the_sensor_is_busy() {
    let mut sensor = Sensor::new();
    let handle = drive(&mut sensor, AK09940A::new().single_shot()).unwrap();
    for busy in [0b0000_0001u8, 0b0000_0010, 0b0001_0000, 0b0001_1111, 0b1110_1000] {
        sensor.regs[0x32] = busy;
        sensor.seen.clear();
        let outcome = drive(&mut sensor, handle.start_measurement());
        assert!(matches!(outcome, Err(Error::SensorBusy)));
        assert_eq!(sensor.seen, vec![Seen::Read(0x32)]);
        assert_eq!(sensor.regs[0x32], busy);
    }
}

#[test]
fn start_measurement_writes_mode_one_when_idle() {
    let mut sensor = Sensor::new();
    let handle = drive(&mut sensor, AK09940A::new().single_shot()).unwrap();
    for idle in [0b0000_0000u8, 0b1000_0000, 0b0110_0000, 0b1110_0000] {
        sensor.regs[0x32] = idle;
        sensor.seen.clear();
        drive(&mut sensor, handle.start_measurement()).unwrap();
        assert_eq!(sensor.seen, vec![Seen::Read(0x32), Seen::Write(0x32, idle | 0b0000_0001)]);
    }
}

#[test]
fn start_measurement_can_be_tried_again_after_busy() {
    let mut sensor = Sensor::new();
    let handle = drive(&mut sensor, AK09940A::new().single_shot()).unwrap();
    assert!(matches!(drive(&mut sensor, handle.start_measurement()), Err(Error::SensorBusy)));
    sensor.regs[0x32] = 0x00;
    assert!(drive(&mut sensor, handle.start_measurement()).is_ok());
}

#[test]
fn start_waiting_writes_the_bare_trigger_mode() {
    let mut sensor = Sensor::new().with(0x32, 0xFF);
    let handle = drive(&mut sensor, AK09940A::new().external_trigger()).unwrap();
    sensor.regs[0x32] = 0xFF;
    sensor.seen.clear();
    drive(&mut sensor, handle.start_waiting()).unwrap();
    assert_eq!(sensor.seen, vec![Seen::Write(0x32, 0b0001_1000)]);
}

#[test]
fn a_bus_fault_ends_the_sequence_where_it_happens() {
    for position in 0..5 {
        let mut sensor = Sensor::new().failing_at(position);
        let outcome = drive(&mut sensor, AK09940A::new().single_shot());
        assert!(matches!(outcome, Err(Error::Spi(BusFault(n))) if n as usize == position + 1));
        assert_eq!(sensor.seen.len(), position + 1);
    }
    for position in 0..8 {
        let mut sensor = Sensor::new().failing_at(position);
        let outcome = drive(&mut sensor, AK09940A::new().external_trigger());
        assert!(matches!(outcome, Err(Error::Spi(BusFault(n))) if n as usize == position + 1));
        assert_eq!(sensor.seen.len(), position + 1);
    }
    let mut sensor = Sensor::new().failing_at(0);
    assert!(matches!(drive(&mut sensor, AK09940A::new().reset()), Err(Error::Spi(BusFault(1)))));
}

#[test]
fn read_data_reads_twelve_bytes_from_st1_and_decodes_them() {
    let mut sensor = Sensor::new()
        .with(0x10, 0b0000_0011)
        .with(0x11, 0x56)
        .with(0x12, 0x34)
        .with(0x13, 0x12)
        .with(0x14, 0xFF)
        .with(0x15, 0xFF)
        .with(0x16, 0xFF)
        .with(0x17, 0x00)
        .with(0x18, 0x00)
        .with(0x19, 0x80)
        .with(0x1A, 0x7F)
        .with(0x1B, 0b0000_0010);
    let handle = AK09940A::new();
    let read = handle.read_data();
    assert_eq!(read.command(), 0x90);
    let reply = sensor.transfer(read.command());
    let (st1, hx, hy, hz, tmps, st2) = read.complete(reply).unwrap();
    assert_eq!(sensor.seen, vec![Seen::Block(0x90, 12)]);
    assert_eq!(st1.raw_value(), 0b0000_0011);
    assert!(st1.data_ready());
    assert_eq!(st1.frame_number().value(), 1);
    assert_eq!(hx.raw_value().value(), 0x123456);
    assert_eq!(hx.magnitude(), 0x123456);
    assert_eq!(hy.magnitude(), -1);
    assert_eq!(hz.magnitude(), -0x80_0000);
    assert_eq!(tmps.raw_value(), 0x7F);
    assert_eq!(tmps.milli_celsius(), -4470);
    assert_eq!(st2.raw_value(), 0b0000_0010);
    assert!(st2.invalid_data());
    assert!(!st2.data_overrun());
}

#[test]
fn read_data_is_there_in_every_mode() {
    let mut sensor = Sensor::new().with(0x1A, 0x80);
    let down = AK09940A::new();
    let reply = sensor.transfer(down.read_data().command());
    assert_eq!(down.read_data().complete(reply).unwrap().4.milli_celsius(), 10529);
    let single = drive(&mut sensor, down.single_shot()).unwrap();
    let reply = sensor.transfer(single.read_data().command());
    assert_eq!(single.read_data().complete(reply).unwrap().4.milli_celsius(), 10529);
    let down = drive(&mut sensor, single.reset()).unwrap();
    let continuous = drive(&mut sensor, down.continuous(8)).unwrap();
    let reply = sensor.transfer(continuous.read_data().command());
    assert_eq!(continuous.read_data().complete(reply).unwrap().4.milli_celsius(), 10529);
    let down = drive(&mut sensor, continuous.reset()).unwrap();
    let triggered = drive(&mut sensor, down.external_trigger()).unwrap();
    let reply = sensor.transfer(triggered.read_data().command());
    assert_eq!(triggered.read_data().complete(reply).unwrap().4.milli_celsius(), 10529);
}

#[test]
fn read_data_hands_on_a_bus_fault() {
    let mut sensor = Sensor::new().failing_at(0);
    let handle = AK09940A::new();
    let read = handle.read_data();
    let reply = sensor.transfer(read.command());
    assert!(matches!(read.complete(reply), Err(Error::Spi(BusFault(1)))));
}
