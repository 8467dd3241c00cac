//! Firmware core of a home-automation bus node: a CRC engine, an interrupt-fed
//! byte ring buffer, a framing state machine for the addressed wire protocol and
//! a command dispatcher over a registry of sensors and switches.

pub mod crc;
pub mod ring_buffer;
pub mod datalink;
pub mod entity;
pub mod sensor;
pub mod switch;
pub mod handler;
