//! The device handle: its configuration shadow and its conversion modes.
//!
//! Every operation that changes the configuration runs in two steps. A
//! request gives the bytes of the one bus write to perform; the outcome of
//! that write is then handed back, and the shadow takes the new
//! configuration only when the write succeeded.
use core::marker::PhantomData;
use vstd::prelude::*;
use crate::address::{resolved_address, SlaveAddr, DEVICE_BASE_ADDRESS};
use crate::config::{
    power_up_config, AlertPolarity, Config, ConversionRate, FaultQueue, ThermostatMode,
};
use crate::conversion::{
    decode_extended, decode_normal, encode_extended, encode_normal, extended_register,
    extended_temperature, normal_register, normal_temperature,
};
use crate::error::{Error, ModeChangeError};
use crate::marker::mode::{Continuous, OneShot};
use crate::register::{BitFlagsLow, Register};

verus! {

/// A configuration write that the bus has to carry.
#[derive(Debug)]
pub struct ConfigWrite {
    config: Config,
}

impl ConfigWrite {
    /// The configuration that this write brings to the device.
    pub closed spec fn spec_config(&self) -> Config {
        self.config
    }

    /// The configuration that this write brings to the device.
    pub fn config(&self) -> (r: Config)
        ensures
            r == self.spec_config(),
    {
        self.config
    }

    /// The bytes to write to the device: the configuration register's
    /// address, then the most and the least significant byte.
    pub fn frame(&self) -> (r: [u8; 3])
        ensures
            r@ == seq![Register::CONFIG, self.spec_config().msb, self.spec_config().lsb],
    {
        self.config.frame()
    }
}

/// The register bytes of temperature `t` under configuration `c`: extended
/// mode encoding when its bit is set, normal mode encoding otherwise.
pub open spec fn threshold_register(c: Config, t: int) -> (u8, u8) {
    if c.spec_is_extended_mode() {
        extended_register(t)
    } else {
        normal_register(t)
    }
}

/// The temperature that register bytes hold under configuration `c`.
pub open spec fn register_temperature(c: Config, msb: u8, lsb: u8) -> int {
    if c.spec_is_extended_mode() {
        extended_temperature(msb, lsb)
    } else {
        normal_temperature(msb, lsb)
    }
}

/// TMP1X2 device driver.
#[derive(Debug)]
pub struct Tmp1x2<I2C, MODE> {
    /// The concrete I²C device implementation.
    i2c: I2C,
    /// The I²C device address.
    address: u8,
    /// Configuration register status.
    config: Config,
    _mode: PhantomData<MODE>,
}

impl<I2C, MODE> Tmp1x2<I2C, MODE> {
    /// The shadow of the configuration register.
    pub closed spec fn shadow(&self) -> Config {
        self.config
    }

    /// The device's bus address.
    pub closed spec fn bus_address(&self) -> u8 {
        self.address
    }

    /// The bus the device is reached over.
    pub closed spec fn bus(&self) -> I2C {
        self.i2c
    }

    /// The device's bus address.
    pub fn address(&self) -> (r: u8)
        ensures
            r == self.bus_address(),
    {
        self.address
    }

    /// The shadow of the configuration register.
    pub fn config(&self) -> (r: Config)
        ensures
            r == self.shadow(),
    {
        self.config
    }

    /// The bus, to perform a transfer on.
    pub fn i2c(&mut self) -> (r: &mut I2C)
        ensures
            *r == old(self).bus(),
            final(self).bus() == *final(r),
            final(self).shadow() == old(self).shadow(),
            final(self).bus_address() == old(self).bus_address(),
    {
        &mut self.i2c
    }

    /// Destroy driver instance, return I²C bus instance.
    pub fn destroy(self) -> (r: I2C)
        ensures
            r == self.bus(),
    {
        self.i2c
    }

    /// Reset the internal state of this driver to the default values.
    ///
    /// *Note:* This does not alter the state or configuration of the device.
    ///
    /// This resets the cached configuration register value in this driver to
    /// the power-up (reset) configuration of the device. Call it only right
    /// after the device itself was reset by other means (for example an I²C
    /// general-call reset), so that the device and the driver agree again.
    pub fn reset_internal_driver_state(&mut self)
        ensures
            final(self).shadow() == power_up_config(),
            final(self).bus_address() == old(self).bus_address(),
            final(self).bus() == old(self).bus(),
    {
        self.config = Config::default();
    }

    /// The write that enables the extended measurement mode, which measures
    /// temperatures above 128 °C.
    pub fn enable_extended_mode_request(&self) -> (r: ConfigWrite)
        ensures
            r.spec_config() == self.shadow().spec_with_extended_mode(true),
    {
        ConfigWrite { config: self.config.with_extended_mode(true) }
    }

    /// The write that disables the extended measurement mode.
    pub fn disable_extended_mode_request(&self) -> (r: ConfigWrite)
        ensures
            r.spec_config() == self.shadow().spec_with_extended_mode(false),
    {
        ConfigWrite { config: self.config.with_extended_mode(false) }
    }

    /// The write that sets the number of consecutive faults that trigger an
    /// alert.
    pub fn fault_queue_request(&self, fq: FaultQueue) -> (r: ConfigWrite)
        ensures
            r.spec_config() == self.shadow().spec_with_fault_queue(fq),
    {
        ConfigWrite { config: self.config.with_fault_queue(fq) }
    }

    /// The write that sets the alert polarity.
    pub fn alert_polarity_request(&self, polarity: AlertPolarity) -> (r: ConfigWrite)
        ensures
            r.spec_config() == self.shadow().spec_with_alert_polarity(polarity),
    {
        ConfigWrite { config: self.config.with_alert_polarity(polarity) }
    }

    /// The write that sets the thermostat mode.
    pub fn thermostat_mode_request(&self, mode: ThermostatMode) -> (r: ConfigWrite)
        ensures
            r.spec_config() == self.shadow().spec_with_thermostat_mode(mode),
    {
        ConfigWrite { config: self.config.with_thermostat_mode(mode) }
    }

    /// Completes a configuration write with the outcome of its bus transfer.
    /// The shadow takes the written configuration when the transfer
    /// succeeded and stays as it was when it failed.
    pub fn write_config<E>(&mut self, request: ConfigWrite, outcome: Result<(), E>) -> (r: Result<
        (),
        Error<E>,
    >)
        ensures
            final(self).bus_address() == old(self).bus_address(),
            final(self).bus() == old(self).bus(),
            match outcome {
                Ok(_) => r is Ok && final(self).shadow() == request.spec_config(),
                Err(e) => r == Err::<(), Error<E>>(Error::I2C(e)) && final(self).shadow()
                    == old(self).shadow(),
            },
    {
        match outcome {
            Ok(()) => {
                self.config = request.config;
                Ok(())
            },
            Err(e) => Err(Error::I2C(e)),
        }
    }

    fn temperature_threshold_frame(&self, t: i32, register: u8) -> (r: [u8; 3])
        ensures
            r@ == seq![
                register,
                threshold_register(self.shadow(), t as int).0,
                threshold_register(self.shadow(), t as int).1,
            ],
    {
        let (msb, lsb) = if self.config.is_extended_mode() {
            encode_extended(t)
        } else {
            encode_normal(t)
        };
        let r = [register, msb, lsb];
        assert(r@ =~= seq![register, msb, lsb]);
        r
    }

    /// The bytes to write to set the high temperature threshold to `t`
    /// sixteenths of a degree. The value is capped to `[-128.0, 127.9375]`
    /// °C in normal mode and `[-256.0, 255.875]` °C in extended mode. The
    /// threshold registers have no shadow.
    pub fn high_temperature_threshold_frame(&self, t: i32) -> (r: [u8; 3])
        ensures
            r@ == seq![
                Register::T_HIGH,
                threshold_register(self.shadow(), t as int).0,
                threshold_register(self.shadow(), t as int).1,
            ],
    {
        self.temperature_threshold_frame(t, Register::T_HIGH)
    }

    /// The bytes to write to set the low temperature threshold to `t`
    /// sixteenths of a degree, capped as for the high threshold.
    pub fn low_temperature_threshold_frame(&self, t: i32) -> (r: [u8; 3])
        ensures
            r@ == seq![
                Register::T_LOW,
                threshold_register(self.shadow(), t as int).0,
                threshold_register(self.shadow(), t as int).1,
            ],
    {
        self.temperature_threshold_frame(t, Register::T_LOW)
    }

    /// The temperature, in sixteenths of a degree, from the outcome of a read
    /// of the temperature register (most significant byte first), decoded by
    /// the mode that the shadow holds.
    pub fn temperature_reading<E>(&self, outcome: Result<[u8; 2], E>) -> (r: Result<i16, Error<E>>)
        ensures
            match outcome {
                Ok(data) => r is Ok && r->Ok_0 as int == register_temperature(
                    self.shadow(),
                    data@[0],
                    data@[1],
                ),
                Err(e) => r == Err::<i16, Error<E>>(Error::I2C(e)),
            },
    {
        match outcome {
            Ok(data) => {
                if self.config.is_extended_mode() {
                    Ok(decode_extended(data[0], data[1]))
                } else {
                    Ok(decode_normal(data[0], data[1]))
                }
            },
            Err(e) => Err(Error::I2C(e)),
        }
    }
}

impl<I2C> Tmp1x2<I2C, Continuous> {
    /// Create new instance of the TMP1X2 device, with the power-up
    /// configuration as its shadow.
    pub fn new(i2c: I2C, address: SlaveAddr) -> (r: Self)
        ensures
            r.bus() == i2c,
            r.bus_address() == resolved_address(address, DEVICE_BASE_ADDRESS),
            r.shadow() == power_up_config(),
    {
        Tmp1x2 {
            i2c,
            address: address.addr(DEVICE_BASE_ADDRESS),
            config: Config::default(),
            _mode: PhantomData,
        }
    }

    /// The write that sets the conversion rate.
    pub fn conversion_rate_request(&self, rate: ConversionRate) -> (r: ConfigWrite)
        ensures
            r.spec_config() == self.shadow().spec_with_conversion_rate(rate),
    {
        ConfigWrite { config: self.config.with_conversion_rate(rate) }
    }

    /// The write that changes into one-shot conversion mode: the shutdown
    /// bit set.
    pub fn one_shot_request(&self) -> (r: ConfigWrite)
        ensures
            r.spec_config() == self.shadow().spec_with_shutdown(true),
    {
        ConfigWrite { config: self.config.with_shutdown(true) }
    }

    /// Completes the change into one-shot conversion mode with the outcome of
    /// the write of `one_shot_request`. On success the device in one-shot
    /// mode; on failure the error with this device, unchanged.
    pub fn complete_into_one_shot<E>(self, outcome: Result<(), E>) -> (r: Result<
        Tmp1x2<I2C, OneShot>,
        ModeChangeError<E, Self>,
    >)
        ensures
            match outcome {
                Ok(_) => r is Ok && r->Ok_0.shadow() == self.shadow().spec_with_shutdown(true)
                    && r->Ok_0.bus_address() == self.bus_address() && r->Ok_0.bus()
                    == self.bus(),
                Err(e) => r == Err::<Tmp1x2<I2C, OneShot>, ModeChangeError<E, Self>>(
                    ModeChangeError::I2C(e, self),
                ),
            },
    {
        match outcome {
            Ok(()) => {
                let config = self.config.with_shutdown(true);
                Ok(Tmp1x2 { i2c: self.i2c, address: self.address, config, _mode: PhantomData })
            },
            Err(e) => Err(ModeChangeError::I2C(e, self)),
        }
    }
}

impl<I2C> Tmp1x2<I2C, OneShot> {
    /// The write that changes into continuous conversion mode: the shutdown
    /// bit cleared.
    pub fn continuous_request(&self) -> (r: ConfigWrite)
        ensures
            r.spec_config() == self.shadow().spec_with_shutdown(false),
    {
        ConfigWrite { config: self.config.with_shutdown(false) }
    }

    /// Completes the change into continuous conversion mode with the outcome
    /// of the write of `continuous_request`. On success the device in
    /// continuous mode; on failure the error with this device, unchanged.
    pub fn complete_into_continuous<E>(self, outcome: Result<(), E>) -> (r: Result<
        Tmp1x2<I2C, Continuous>,
        ModeChangeError<E, Self>,
    >)
        ensures
            match outcome {
                Ok(_) => r is Ok && r->Ok_0.shadow() == self.shadow().spec_with_shutdown(false)
                    && r->Ok_0.bus_address() == self.bus_address() && r->Ok_0.bus()
                    == self.bus(),
                Err(e) => r == Err::<Tmp1x2<I2C, Continuous>, ModeChangeError<E, Self>>(
                    ModeChangeError::I2C(e, self),
                ),
            },
    {
        match outcome {
            Ok(()) => {
                let config = self.config.with_shutdown(false);
                Ok(Tmp1x2 { i2c: self.i2c, address: self.address, config, _mode: PhantomData })
            },
            Err(e) => Err(ModeChangeError::I2C(e, self)),
        }
    }

    /// The bytes to write to trigger one temperature conversion: the shadow
    /// with the one-shot bit set. The bit clears itself on the device, so
    /// the shadow never holds it.
    pub fn trigger_one_shot_measurement_frame(&self) -> (r: [u8; 3])
        ensures
            r@ == seq![Register::CONFIG, self.shadow().msb, self.shadow().lsb | BitFlagsLow::ONE_SHOT],
    {
        let r = [Register::CONFIG, self.config.msb, self.config.lsb | BitFlagsLow::ONE_SHOT];
        assert(r@ =~= seq![Register::CONFIG, self.config.msb, self.config.lsb | BitFlagsLow::ONE_SHOT]);
        r
    }

    /// Whether the one-shot measurement result is ready, from the outcome of
    /// a read of the configuration register (most significant byte first):
    /// it is once the one-shot bit has cleared.
    pub fn is_one_shot_measurement_result_ready<E>(outcome: Result<[u8; 2], E>) -> (r: Result<
        bool,
        Error<E>,
    >)
        ensures
            match outcome {
                Ok(data) => r == Ok::<bool, Error<E>>(data@[1] & BitFlagsLow::ONE_SHOT == 0),
                Err(e) => r == Err::<bool, Error<E>>(Error::I2C(e)),
            },
    {
        match outcome {
            Ok(data) => Ok(data[1] & BitFlagsLow::ONE_SHOT == 0),
            Err(e) => Err(Error::I2C(e)),
        }
    }
}

} // verus!
