//! The configuration register and its fields.
use vstd::prelude::*;
use crate::register::{BitFlagsHigh, BitFlagsLow, Register};

verus! {

/// Conversion rate in continuous conversion mode.
#[allow(non_camel_case_types)]
#[derive(Debug, Clone, Copy, PartialEq, Eq)]
pub enum ConversionRate {
    /// 0.25 Hz.
    _0_25Hz,
    /// 1 Hz.
    _1Hz,
    /// 4 Hz (power-up default).
    _4Hz,
    /// 8 Hz.
    _8Hz,
}

/// Number of consecutive faults that trigger an alert.
#[allow(non_camel_case_types)]
#[derive(Debug, Clone, Copy, PartialEq, Eq)]
pub enum FaultQueue {
    /// One fault (power-up default).
    _1,
    /// Two consecutive faults.
    _2,
    /// Four consecutive faults.
    _4,
    /// Six consecutive faults.
    _6,
}

/// Polarity of the alert pin.
#[derive(Debug, Clone, Copy, PartialEq, Eq)]
pub enum AlertPolarity {
    /// Active low (power-up default).
    ActiveLow,
    /// Active high.
    ActiveHigh,
}

/// Thermostat mode.
#[derive(Debug, Clone, Copy, PartialEq, Eq)]
pub enum ThermostatMode {
    /// Comparator mode (power-up default).
    Comparator,
    /// Interrupt mode.
    Interrupt,
}

/// `byte` with the bits of `mask` replaced by `bits`.
pub open spec fn set_bits(byte: u8, mask: u8, bits: u8) -> u8 {
    (byte & !mask) | bits
}

/// Conversion rate bits of the most significant byte.
pub open spec fn conversion_rate_bits(rate: ConversionRate) -> u8 {
    match rate {
        ConversionRate::_0_25Hz => 0,
        ConversionRate::_1Hz => BitFlagsHigh::CONV_RATE0,
        ConversionRate::_4Hz => BitFlagsHigh::CONV_RATE1,
        ConversionRate::_8Hz => (BitFlagsHigh::CONV_RATE1 | BitFlagsHigh::CONV_RATE0),
    }
}

/// Fault queue bits of the least significant byte.
pub open spec fn fault_queue_bits(fq: FaultQueue) -> u8 {
    match fq {
        FaultQueue::_1 => 0,
        FaultQueue::_2 => BitFlagsLow::FAULT_QUEUE0,
        FaultQueue::_4 => BitFlagsLow::FAULT_QUEUE1,
        FaultQueue::_6 => (BitFlagsLow::FAULT_QUEUE1 | BitFlagsLow::FAULT_QUEUE0),
    }
}

/// Alert polarity bit of the least significant byte.
pub open spec fn alert_polarity_bits(polarity: AlertPolarity) -> u8 {
    match polarity {
        AlertPolarity::ActiveLow => 0,
        AlertPolarity::ActiveHigh => BitFlagsLow::ALERT_POLARITY,
    }
}

/// Thermostat mode bit of the least significant byte.
pub open spec fn thermostat_mode_bits(mode: ThermostatMode) -> u8 {
    match mode {
        ThermostatMode::Comparator => 0,
        ThermostatMode::Interrupt => BitFlagsLow::THERMOSTAT,
    }
}

/// `flag` when `on`, else no bit.
pub open spec fn flag_bits(flag: u8, on: bool) -> u8 {
    if on { flag } else { 0 }
}

/// Replaces the bits of `mask` in `byte` by `bits`; the other bits stay.
fn replace_bits(byte: u8, mask: u8, bits: u8) -> (r: u8)
    requires
        bits & !mask == 0,
    ensures
        r == set_bits(byte, mask, bits),
        r & mask == bits,
        r & !mask == byte & !mask,
{
    let r = (byte & !mask) | bits;
    assert(r & mask == bits && r & !mask == byte & !mask) by (bit_vector)
        requires
            r == (byte & !mask) | bits,
            bits & !mask == 0,
    ;
    r
}

/// The two bytes of the configuration register.
#[derive(Debug, Clone, Copy, PartialEq, Eq)]
pub struct Config {
    /// Least significant byte.
    pub lsb: u8,
    /// Most significant byte.
    pub msb: u8,
}

/// The configuration the device has after power-up or a reset.
pub open spec fn power_up_config() -> Config {
    Config { lsb: BitFlagsLow::RESOLUTION, msb: (BitFlagsHigh::ALERT | BitFlagsHigh::CONV_RATE1) }
}

impl Default for Config {
    /// The power-up configuration of the device.
    fn default() -> (r: Self)
        ensures
            r == power_up_config(),
    {
        Config { lsb: BitFlagsLow::RESOLUTION, msb: BitFlagsHigh::ALERT | BitFlagsHigh::CONV_RATE1 }
    }
}

impl Config {
    /// With the shutdown bit set (`on`) or cleared.
    pub open spec fn spec_with_shutdown(self, on: bool) -> Config {
        Config {
            lsb: set_bits(self.lsb, BitFlagsLow::SHUTDOWN, flag_bits(BitFlagsLow::SHUTDOWN, on)),
            msb: self.msb,
        }
    }

    /// With the extended mode bit set (`on`) or cleared.
    pub open spec fn spec_with_extended_mode(self, on: bool) -> Config {
        Config {
            lsb: self.lsb,
            msb: set_bits(
                self.msb,
                BitFlagsHigh::EXTENDED_MODE,
                flag_bits(BitFlagsHigh::EXTENDED_MODE, on),
            ),
        }
    }

    /// With the conversion rate bits encoding `rate`.
    pub open spec fn spec_with_conversion_rate(self, rate: ConversionRate) -> Config {
        Config {
            lsb: self.lsb,
            msb: set_bits(
                self.msb,
                (BitFlagsHigh::CONV_RATE1 | BitFlagsHigh::CONV_RATE0),
                conversion_rate_bits(rate),
            ),
        }
    }

    /// With the fault queue bits encoding `fq`.
    pub open spec fn spec_with_fault_queue(self, fq: FaultQueue) -> Config {
        Config {
            lsb: set_bits(
                self.lsb,
                (BitFlagsLow::FAULT_QUEUE1 | BitFlagsLow::FAULT_QUEUE0),
                fault_queue_bits(fq),
            ),
            msb: self.msb,
        }
    }

    /// With the alert polarity bit encoding `polarity`.
    pub open spec fn spec_with_alert_polarity(self, polarity: AlertPolarity) -> Config {
        Config {
            lsb: set_bits(self.lsb, BitFlagsLow::ALERT_POLARITY, alert_polarity_bits(polarity)),
            msb: self.msb,
        }
    }

    /// With the thermostat mode bit encoding `mode`.
    pub open spec fn spec_with_thermostat_mode(self, mode: ThermostatMode) -> Config {
        Config {
            lsb: set_bits(self.lsb, BitFlagsLow::THERMOSTAT, thermostat_mode_bits(mode)),
            msb: self.msb,
        }
    }

    /// Whether the extended mode bit is set.
    pub open spec fn spec_is_extended_mode(self) -> bool {
        self.msb & BitFlagsHigh::EXTENDED_MODE != 0
    }

    /// The configuration with the shutdown bit set (`on`) or cleared.
    pub fn with_shutdown(self, on: bool) -> (r: Config)
        ensures
            r == self.spec_with_shutdown(on),
    {
        let bits: u8 = if on { BitFlagsLow::SHUTDOWN } else { 0 };
        assert(bits & !BitFlagsLow::SHUTDOWN == 0) by (bit_vector)
            requires bits == 1u8 || bits == 0u8;
        Config { lsb: replace_bits(self.lsb, BitFlagsLow::SHUTDOWN, bits), msb: self.msb }
    }

    /// The configuration with the extended mode bit set (`on`) or cleared.
    pub fn with_extended_mode(self, on: bool) -> (r: Config)
        ensures
            r == self.spec_with_extended_mode(on),
    {
        let bits: u8 = if on { BitFlagsHigh::EXTENDED_MODE } else { 0 };
        assert(bits & !BitFlagsHigh::EXTENDED_MODE == 0) by (bit_vector)
            requires bits == 0x10u8 || bits == 0u8;
        Config { lsb: self.lsb, msb: replace_bits(self.msb, BitFlagsHigh::EXTENDED_MODE, bits) }
    }

    /// The configuration with the conversion rate bits encoding `rate`.
    pub fn with_conversion_rate(self, rate: ConversionRate) -> (r: Config)
        ensures
            r == self.spec_with_conversion_rate(rate),
    {
        let bits: u8 = match rate {
            ConversionRate::_0_25Hz => 0,
            ConversionRate::_1Hz => BitFlagsHigh::CONV_RATE0,
            ConversionRate::_4Hz => BitFlagsHigh::CONV_RATE1,
            ConversionRate::_8Hz => BitFlagsHigh::CONV_RATE1 | BitFlagsHigh::CONV_RATE0,
        };
        assert(bits & !(0x80u8 | 0x40u8) == 0) by (bit_vector)
            requires bits == 0u8 || bits == 0x40u8 || bits == 0x80u8 || bits == (0x80u8 | 0x40u8);
        let mask: u8 = BitFlagsHigh::CONV_RATE1 | BitFlagsHigh::CONV_RATE0;
        Config { lsb: self.lsb, msb: replace_bits(self.msb, mask, bits) }
    }

    /// The configuration with the fault queue bits encoding `fq`.
    pub fn with_fault_queue(self, fq: FaultQueue) -> (r: Config)
        ensures
            r == self.spec_with_fault_queue(fq),
    {
        let bits: u8 = match fq {
            FaultQueue::_1 => 0,
            FaultQueue::_2 => BitFlagsLow::FAULT_QUEUE0,
            FaultQueue::_4 => BitFlagsLow::FAULT_QUEUE1,
            FaultQueue::_6 => BitFlagsLow::FAULT_QUEUE1 | BitFlagsLow::FAULT_QUEUE0,
        };
        assert(bits & !(0x10u8 | 0x08u8) == 0) by (bit_vector)
            requires bits == 0u8 || bits == 0x08u8 || bits == 0x10u8 || bits == (0x10u8 | 0x08u8);
        let mask: u8 = BitFlagsLow::FAULT_QUEUE1 | BitFlagsLow::FAULT_QUEUE0;
        Config { lsb: replace_bits(self.lsb, mask, bits), msb: self.msb }
    }

    /// The configuration with the alert polarity bit encoding `polarity`.
    pub fn with_alert_polarity(self, polarity: AlertPolarity) -> (r: Config)
        ensures
            r == self.spec_with_alert_polarity(polarity),
    {
        let bits: u8 = match polarity {
            AlertPolarity::ActiveLow => 0,
            AlertPolarity::ActiveHigh => BitFlagsLow::ALERT_POLARITY,
        };
        assert(bits & !0x04u8 == 0) by (bit_vector)
            requires bits == 0u8 || bits == 0x04u8;
        Config { lsb: replace_bits(self.lsb, BitFlagsLow::ALERT_POLARITY, bits), msb: self.msb }
    }

    /// The configuration with the thermostat mode bit encoding `mode`.
    pub fn with_thermostat_mode(self, mode: ThermostatMode) -> (r: Config)
        ensures
            r == self.spec_with_thermostat_mode(mode),
    {
        let bits: u8 = match mode {
            ThermostatMode::Comparator => 0,
            ThermostatMode::Interrupt => BitFlagsLow::THERMOSTAT,
        };
        assert(bits & !0x02u8 == 0) by (bit_vector)
            requires bits == 0u8 || bits == 0x02u8;
        Config { lsb: replace_bits(self.lsb, BitFlagsLow::THERMOSTAT, bits), msb: self.msb }
    }

    /// Whether the extended mode bit is set.
    pub fn is_extended_mode(self) -> (r: bool)
        ensures
            r == self.spec_is_extended_mode(),
    {
        self.msb & BitFlagsHigh::EXTENDED_MODE != 0
    }

    /// The bus transfer that writes this configuration: register address,
    /// then the most and the least significant byte.
    pub fn frame(self) -> (r: [u8; 3])
        ensures
            r@ == seq![Register::CONFIG, self.msb, self.lsb],
    {
        let r = [Register::CONFIG, self.msb, self.lsb];
        assert(r@ =~= seq![Register::CONFIG, self.msb, self.lsb]);
        r
    }
}

/// Setting and then clearing the extended mode bit restores a configuration
/// in which it was clear.
pub proof fn lemma_extended_mode_toggle(c: Config)
    requires
        !c.spec_is_extended_mode(),
    ensures
        c.spec_with_extended_mode(true).spec_with_extended_mode(false) == c,
{
    let m = c.msb;
    assert(((((m & !0x10u8) | 0x10u8) & !0x10u8) | 0u8) == m) by (bit_vector)
        requires
            m & 0x10u8 == 0,
    ;
}

} // verus!
