//! Resolution of the device's I²C address from its address pins.
use vstd::prelude::*;

verus! {

/// The device address with both address pins low.
pub const DEVICE_BASE_ADDRESS: u8 = 0b100_1000;

/// Possible slave addresses.
#[derive(Debug, Clone, Copy, PartialEq, Eq)]
pub enum SlaveAddr {
    /// Default slave address.
    Default,
    /// Alternative slave address providing bit values for A1 and A0.
    Alternative(bool, bool),
}

/// The bus address that `a` selects, starting from `base`.
pub open spec fn resolved_address(a: SlaveAddr, base: u8) -> u8 {
    match a {
        SlaveAddr::Default => base,
        SlaveAddr::Alternative(a1, a0) => base | (if a1 { 2u8 } else { 0u8 }) | (if a0 { 1u8 } else { 0u8 }),
    }
}

impl Default for SlaveAddr {
    /// The default slave address.
    fn default() -> (r: Self)
        ensures
            r == SlaveAddr::Default,
    {
        SlaveAddr::Default
    }
}

impl SlaveAddr {
    /// The bus address selected by these pins, with `default` as the address
    /// of the device with both pins low.
    pub fn addr(self, default: u8) -> (r: u8)
        ensures
            r == resolved_address(self, default),
    {
        match self {
            SlaveAddr::Default => default,
            SlaveAddr::Alternative(a1, a0) => {
                let high: u8 = if a1 { 2 } else { 0 };
                let low: u8 = if a0 { 1 } else { 0 };
                default | high | low
            },
        }
    }
}

/// On the base address the pins select one of four consecutive addresses.
pub proof fn lemma_alternative_addresses(a1: bool, a0: bool)
    ensures
        resolved_address(SlaveAddr::Alternative(a1, a0), DEVICE_BASE_ADDRESS)
            == DEVICE_BASE_ADDRESS + (if a1 { 2u8 } else { 0u8 }) + (if a0 { 1u8 } else { 0u8 }),
        resolved_address(SlaveAddr::Default, DEVICE_BASE_ADDRESS) == DEVICE_BASE_ADDRESS,
{
    let h: u8 = if a1 { 2u8 } else { 0u8 };
    let l: u8 = if a0 { 1u8 } else { 0u8 };
    assert(0x48u8 | h | l == 0x48u8 + h + l) by (bit_vector)
        requires h == 0 || h == 2, l == 0 || l == 1;
}

} // verus!
