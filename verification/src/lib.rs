//! Typed Modbus protocol layer for the SDM72 series energy meters.
//!
//! The crate models the meter's register map: the encoding of typed
//! settings and measurement values as 16-bit register words, the batched
//! multi-register reads that respect the device's per-request ceiling, the
//! password-based authorization gate for settings writes, and the minimum
//! inter-frame delay required by Modbus RTU transports.
//!
//! Transport handling (serial ports, TCP sockets) is deliberately out of
//! scope: callers hand raw register words in and out.

pub mod batch;
pub mod codec;
pub mod error;
pub mod protocol;
pub mod rtu;

pub use error::Error;
