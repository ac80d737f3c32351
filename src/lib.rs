//! Typed register access for the PAC194X family of multi-channel power monitors.
//!
//! Every register of the chip is a type with a bit-exact byte layout, and every bus
//! operation of the driver is described as a [`device::Transaction`] that a transport
//! carries out.

pub mod bits;
pub mod fields;
pub mod error;
pub mod register;
pub mod control;
pub mod measurement;
pub mod limits;
pub mod alerts;
pub mod device;
