//! Master-side Modbus RTU client for half-duplex RS485 serial links.
//!
//! The crate is layered leaf to root: [`pin`] abstracts the transceiver's
//! driver-enable line, [`transport`] sequences that pin around serial writes
//! and reads, [`frame`] builds and parses the byte-exact RTU frames, and
//! [`modbus`] drives a whole read-holding-registers transaction over a
//! transport.

pub mod error;
pub mod frame;
pub mod modbus;
pub mod pin;
pub mod transport;
