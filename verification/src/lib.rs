//! Task-orchestration core of an environmental sensor node.
//!
//! The node samples CO2, temperature, humidity, pressure and gas resistance
//! from two sensors on one shared bus, cross-calibrates the CO2 sensor with
//! the other sensor's pressure, and relays samples to a broker over an
//! unreliable link. This crate holds the concurrent orchestration logic of
//! that firmware: the latest-value broadcast channel, the bus arbiter, the
//! restart-on-failure sensor supervisor with its calibration feed, the
//! connectivity supervisor, the uplink session state machine, and the
//! payload serializer. Hardware and network I/O live outside; they drive
//! these state machines by performing the returned actions and handing the
//! resulting events back in.

pub mod arbiter;
pub mod calibration;
pub mod channel;
pub mod connectivity;
pub mod json;
pub mod measurement;
pub mod supervisor;
pub mod uplink;
