//! What can end an operation early.

use vstd::prelude::*;

verus! {

/// Why an operation on the sensor failed. `E` is the error type of the bus
/// that carries the exchanges.
#[derive(Debug, PartialEq, Eq)]
pub enum Error<E> {
    /// A bus exchange or delay failed; the bus's own error is inside,
    /// unchanged.
    Spi(E),
    /// A measurement was asked for while the sensor was not idle.
    SensorBusy,
    /// The number of a continuous mode was not one of 1 to 8.
    InvalidMode,
    /// The company-identification register did not hold the manufacturer's
    /// code; the byte that it did hold is inside.
    InvalidWhoAmI(u8),
}

} // verus!
