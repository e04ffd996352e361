//! Process-wide configuration, made explicit as structures handed to the core
//! at construction rather than hidden globals: the serial link parameters and
//! the per-run actuation parameters, with their fixed defaults.

use vstd::prelude::*;

verus! {

/// Default serial device path, used when no override is supplied.
pub open spec fn spec_default_device_path() -> Seq<char> {
    "/dev/rs485"@
}

/// Default serial device path, used when no override is supplied.
pub fn default_device_path() -> (r: &'static str)
    ensures
        r@ == spec_default_device_path(),
{
    "/dev/rs485"
}

/// Fixed baud rate of the serial link, bits per second.
pub const DEFAULT_BAUD: u32 = 9600;

/// Fixed slave address of the relay board on the bus.
pub const DEFAULT_SLAVE_ID: u8 = 255;

/// Relay index acted on when none is supplied.
pub const DEFAULT_RELAY_INDEX: u8 = 0;

/// Seconds the relay stays energized when no duration is supplied.
pub const DEFAULT_HOLD_SECS: u16 = 10;

/// Identifies the physical transport and the addressed device: a serial
/// device path, a baud rate, and the single fixed slave address. Created once
/// at startup and owned by the coil channel for its lifetime.
pub struct LinkConfig {
    pub device_path: String,
    pub baud: u32,
    pub slave_id: u8,
}

impl LinkConfig {
    /// Binds a device path to the fixed bus parameters.
    pub fn new(device_path: String) -> (c: LinkConfig)
        ensures
            c.device_path == device_path,
            c.baud == DEFAULT_BAUD,
            c.slave_id == DEFAULT_SLAVE_ID,
    {
        LinkConfig { device_path, baud: DEFAULT_BAUD, slave_id: DEFAULT_SLAVE_ID }
    }
}

/// Parameters of one actuation run: which coil within the bank to act on and
/// how many seconds to hold it energized.
#[derive(Clone, Copy, Debug, PartialEq, Eq, Structural)]
pub struct RunConfig {
    pub relay_index: u8,
    pub hold_secs: u16,
}

impl Default for RunConfig {
    /// The run performed when no arguments are supplied.
    fn default() -> (c: RunConfig)
        ensures
            c.relay_index == DEFAULT_RELAY_INDEX,
            c.hold_secs == DEFAULT_HOLD_SECS,
    {
        RunConfig { relay_index: DEFAULT_RELAY_INDEX, hold_secs: DEFAULT_HOLD_SECS }
    }
}

} // verus!
