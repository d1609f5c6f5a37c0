//! Register-level driver core for an inertial sensor on a two-wire bus.
//!
//! The crate is organised around five small layers:
//! - [`transport`]: the bus capability (write, write-then-read) that a
//!   platform supplies, specified by a ghost model of committed writes and
//!   of the outcome of the next bus operation;
//! - [`register`]: the register descriptor abstraction — a register type
//!   knows its one-byte address and how its payload is decoded from or
//!   encoded to wire bytes;
//! - [`registers`]: the concrete registers of the sensor (identity,
//!   three-axis raw sample, bit-packed configuration) with exact,
//!   bit-level codec contracts;
//! - [`imu`]: raw-data capability traits and the single generic
//!   count-to-physical-unit conversion shared by every sensor kind;
//! - [`mpu6050`]: the device driver that composes a transport and a
//!   configuration and exposes identity check, configuration write and
//!   raw fetches.

pub mod imu;
pub mod mpu6050;
pub mod register;
pub mod registers;
pub mod transport;
