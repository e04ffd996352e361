//! Verified core of a single-relay actuation tool for a Modbus-RTU relay
//! board: a coil-bank model, error taxonomy, configuration defaults, and the
//! actuation sequencer that drives one relay through
//! read -> on -> wait -> off -> read. The serial transport itself is driven by
//! an unverified front end that performs each action the sequencer dispenses
//! and feeds the outcome back.

pub mod bank;
pub mod config;
pub mod errors;
pub mod sequencer;
