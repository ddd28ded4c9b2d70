//! Acquisition core for SPI-attached tri-axial accelerometers.
//!
//! The crate covers the register-level sensor protocol (command framing,
//! 20-bit sign extension, range normalization), the per-device acquisition
//! engine (gap timestamps, rate diagnostics, publish decisions) and the
//! bounded fan-out that hands each reading to every subscriber. Bus I/O,
//! clocks and network transports stay outside; they reach the core through
//! a serial-bus port trait and plain microsecond timestamps.

pub mod codec;
pub mod conf;
pub mod data;
pub mod driver;
pub mod engine;
pub mod fanout;
pub mod register;
pub mod sim;
pub mod timing;
