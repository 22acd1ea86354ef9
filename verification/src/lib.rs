//! A verified model of a PL011-family UART driver.
//!
//! The driver's contracts are stated against a register-block model: a value
//! that holds the fourteen control registers of the device together with a log
//! of every volatile access the driver performs, and a script of upcoming
//! Flag-register values standing in for hardware progress.  Every driver
//! operation — initialization, byte transmit, byte receive with error
//! decoding, the status queries, and the buffer-oriented stream adapter — is
//! verified: each states exactly which registers it reads and writes, in which
//! order, and with which values.
//!
//! The memory-mapped side (volatile loads and stores through a raw base
//! pointer) cannot be expressed here; a thin unverified layer performs those
//! accesses at the byte offsets this crate publishes, calling the verified
//! computations for every decision.

pub mod flags;
pub mod registers;
pub mod uart;

pub use uart::{Error, ErrorKind, Uart};

