//! The transport layer: how a register access is put on the SPI bus.
//!
//! An access is one bus exchange. A single register is read or written by
//! exchanging two bytes in place; a run of registers is read by sending one
//! command byte and clocking the registers in behind it, the sensor moving to
//! the next address after each byte. The functions here build what is sent and
//! pick the answer out of what comes back; the exchange itself is the
//! caller's.

pub mod reg;

use crate::ll::reg::RegAddress;
use vstd::prelude::*;

verus! {

/// The bit of the first byte that tells the sensor to read, not write.
pub const READ_MARK: u8 = 0x80;

/// The first byte of an exchange that reads from `reg` onward: the address
/// with the read mark set. No address has that bit set itself, so setting it
/// adds 0x80 to the address.
pub open spec fn read_command(reg: RegAddress) -> u8 {
    (reg.spec_addr() + READ_MARK) as u8
}

/// The two bytes to exchange in place to read `reg`: the marked address,
/// then a zero in whose place the register's value comes back.
pub fn read_reg(reg: RegAddress) -> (frame: [u8; 2])
    ensures
        frame[0] == read_command(reg),
        frame[0] == reg.spec_addr() | READ_MARK,
        frame[0] & 0x7F == reg.spec_addr(),
        frame[1] == 0,
{
    [read_block(reg), 0x00]
}

/// The value of the register in the bytes that came back from the exchange
/// of [`read_reg`]: the second byte.
pub fn reg_value(reply: &[u8; 2]) -> (value: u8)
    ensures
        value == reply[1],
{
    reply[1]
}

/// The two bytes to exchange in place to write `value` to `reg`: the bare
/// address, then the value. What comes back carries nothing.
pub fn write_reg(reg: RegAddress, value: u8) -> (frame: [u8; 2])
    ensures
        frame[0] == reg.spec_addr(),
        frame[0] < 0x80,
        frame[1] == value,
{
    [reg.addr(), value]
}

/// The command byte to send ahead of a block read that starts at `reg`. The
/// bytes received behind it are the registers from `reg` upward, one each.
pub fn read_block(reg: RegAddress) -> (command: u8)
    ensures
        command == read_command(reg),
        command == reg.spec_addr() | READ_MARK,
        command & 0x7F == reg.spec_addr(),
{
    let addr: u8 = reg.addr();
    let command: u8 = addr | READ_MARK;
    assert(command == addr + 0x80 && command & 0x7F == addr) by (bit_vector)
        requires
            addr < 0x80,
            command == addr | 0x80,
    ;
    command
}

/// One access to a single register.
#[derive(Clone, Copy, Debug, PartialEq, Eq)]
pub enum Access {
    /// Read the register `reg`.
    Read { reg: RegAddress },
    /// Write `value` to the register `reg`.
    Write { reg: RegAddress, value: u8 },
}

impl Access {
    /// The first byte of the exchange: the address, marked for a read.
    pub open spec fn command(self) -> u8 {
        match self {
            Access::Read { reg } => read_command(reg),
            Access::Write { reg, .. } => reg.spec_addr(),
        }
    }

    /// The second byte of the exchange: the value for a write, zero for a
    /// read.
    pub open spec fn data(self) -> u8 {
        match self {
            Access::Read { .. } => 0,
            Access::Write { value, .. } => value,
        }
    }

    /// The two bytes to exchange in place for this access.
    pub fn frame(&self) -> (frame: [u8; 2])
        ensures
            frame[0] == self.command(),
            frame[1] == self.data(),
    {
        match self {
            Access::Read { reg } => read_reg(*reg),
            Access::Write { reg, value } => write_reg(*reg, *value),
        }
    }
}

} // verus!
