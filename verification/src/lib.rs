//! Verified, transport-free core of a driver for the AK09940A magnetometer.
//!
//! The crate holds the register map, the framing of register accesses on the
//! SPI bus, and the register sequences behind every change of operating mode.
//! It performs no I/O: each operation is handed out as a chain of typed steps,
//! and the caller carries out one bus exchange or delay per step.

pub mod driver;
pub mod error;
pub mod ll;
pub mod sequence;
pub mod states;
pub mod uint;

pub use crate::driver::{BlockRead, AK09940A};
pub use crate::error::Error;
