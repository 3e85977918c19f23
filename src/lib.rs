//! Driver for the TMP102 and TMP112 digital temperature sensors.
//!
//! The library keeps a shadow of the device's configuration register and
//! decides, for every operation, which bytes go over the I²C bus and how the
//! shadow changes once the bus reports the outcome of that transfer. The bus
//! transfers themselves are performed by the caller, who hands their results
//! back to the driver. Temperatures are counted in sixteenths of a degree
//! Celsius.

pub mod address;
pub mod config;
pub mod conversion;
pub mod device;
pub mod error;
pub mod marker;
pub mod register;

pub use address::{SlaveAddr, DEVICE_BASE_ADDRESS};
pub use config::{AlertPolarity, Config, ConversionRate, FaultQueue, ThermostatMode};
pub use device::{ConfigWrite, Tmp1x2};
pub use error::{bus_result, Error, ModeChangeError};
