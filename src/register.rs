//! Register addresses and configuration bit flags of the device.
use vstd::prelude::*;

verus! {

/// Register addresses.
pub struct Register;

impl Register {
    /// Temperature register.
    pub const TEMPERATURE: u8 = 0x00;
    /// Configuration register.
    pub const CONFIG: u8 = 0x01;
    /// Low temperature threshold register.
    pub const T_LOW: u8 = 0x02;
    /// High temperature threshold register.
    pub const T_HIGH: u8 = 0x03;
}

/// Bit flags of the configuration register's least significant byte.
pub struct BitFlagsLow;

impl BitFlagsLow {
    /// Shutdown mode.
    pub const SHUTDOWN: u8 = 0b0000_0001;
    /// Thermostat mode: interrupt when set, comparator when clear.
    pub const THERMOSTAT: u8 = 0b0000_0010;
    /// Alert polarity: active high when set.
    pub const ALERT_POLARITY: u8 = 0b0000_0100;
    /// Fault queue, low bit.
    pub const FAULT_QUEUE0: u8 = 0b0000_1000;
    /// Fault queue, high bit.
    pub const FAULT_QUEUE1: u8 = 0b0001_0000;
    /// Converter resolution (read only).
    pub const RESOLUTION: u8 = 0b0110_0000;
    /// One-shot conversion trigger.
    pub const ONE_SHOT: u8 = 0b1000_0000;
}

/// Bit flags of the configuration register's most significant byte.
pub struct BitFlagsHigh;

impl BitFlagsHigh {
    /// Extended measurement mode.
    pub const EXTENDED_MODE: u8 = 0b0001_0000;
    /// Alert state (read only).
    pub const ALERT: u8 = 0b0010_0000;
    /// Conversion rate, low bit.
    pub const CONV_RATE0: u8 = 0b0100_0000;
    /// Conversion rate, high bit.
    pub const CONV_RATE1: u8 = 0b1000_0000;
}

} // verus!
