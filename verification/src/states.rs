//! Marker types for the operating mode that a sensor handle is in.

use vstd::prelude::*;

verus! {

/// The sensor is powered down: the state after power-up and after a reset.
#[derive(Debug)]
pub struct Powerdown;

/// The sensor measures periodically, in one of the eight continuous modes.
#[derive(Debug)]
pub struct Continuous;

/// The sensor measures once each time a measurement is started.
#[derive(Debug)]
pub struct SingleShot;

/// The sensor measures on each pulse of its trigger pin.
#[derive(Debug)]
pub struct ExternalTrigger;

/// The sensor is in its self-test mode.
#[derive(Debug)]
pub struct SelfTest;

} // verus!
