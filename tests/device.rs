use tmp1x2::marker::mode::{Continuous, OneShot};
use tmp1x2::register::{BitFlagsHigh as BFH, BitFlagsLow as BFL, Register};
use tmp1x2::{
    bus_result, AlertPolarity, Config, ConversionRate, Error, FaultQueue, ModeChangeError,
    SlaveAddr, ThermostatMode, Tmp1x2,
};

const DEFAULT_CONFIG_MSB: u8 = BFH::CONV_RATE1 | BFH::ALERT;
const DEFAULT_CONFIG_LSB: u8 = BFL::RESOLUTION;

#[derive(Debug, PartialEq)]
struct BusFault;

fn setup() -> Tmp1x2<u32, Continuous> {
    Tmp1x2::new(7, SlaveAddr::default())
}

fn one_shot() -> Tmp1x2<u32, OneShot> {
    setup().complete_into_one_shot::<BusFault>(Ok(())).ok().unwrap()
}

#[test]
fn default_config() {
    let dev = setup();
    assert_eq!(0b0110_0000, dev.config().lsb);
    assert_eq!(0b1010_0000, dev.config().msb);
}

#[test]
fn can_enable() {
    let dev = one_shot();
    assert_eq!(dev.continuous_request().frame(), [0x01, 0b1010_0000, 0b0110_0000]);
    let w = setup().one_shot_request();
    assert_eq!(w.config(), Config { lsb: DEFAULT_CONFIG_LSB | 1, msb: DEFAULT_CONFIG_MSB });
    let dev = dev.complete_into_continuous::<BusFault>(Ok(())).ok().unwrap();
    assert_eq!(dev.config(), Config { lsb: 0b0110_0000, msb: 0b1010_0000 });
}

#[test]
fn can_disable() {
    let dev = setup();
    assert_eq!(dev.one_shot_request().frame(), [0x01, 0b1010_0000, 0b0110_0001]);
    let dev = dev.complete_into_one_shot::<BusFault>(Ok(())).ok().unwrap();
    assert_eq!(dev.config(), Config { lsb: 0b0110_0001, msb: 0b1010_0000 });
    assert_eq!(dev.continuous_request().frame(), [0x01, 0b1010_0000, 0b0110_0000]);
}

#[test]
fn can_enable_extended_mode() {
    let mut dev = setup();
    let w = dev.enable_extended_mode_request();
    assert_eq!(w.frame(), [Register::CONFIG, DEFAULT_CONFIG_MSB | BFH::EXTENDED_MODE, DEFAULT_CONFIG_LSB]);
    dev.write_config::<BusFault>(w, Ok(())).unwrap();
    assert_eq!(dev.config().msb, DEFAULT_CONFIG_MSB | BFH::EXTENDED_MODE);
}

#[test]
fn can_disable_extended_mode() {
    let dev = setup();
    assert_eq!(dev.disable_extended_mode_request().frame(), [Register::CONFIG, DEFAULT_CONFIG_MSB, DEFAULT_CONFIG_LSB]);
}

#[test]
fn extended_mode_toggle_restores_shadow() {
    let mut dev = setup();
    let before = dev.config();
    let w = dev.enable_extended_mode_request();
    dev.write_config::<BusFault>(w, Ok(())).unwrap();
    assert_ne!(dev.config(), before);
    let w = dev.disable_extended_mode_request();
    dev.write_config::<BusFault>(w, Ok(())).unwrap();
    assert_eq!(dev.config(), before);
}

#[test]
fn failed_write_leaves_shadow() {
    let mut dev = setup();
    let before = dev.config();
    let requests = [
        dev.enable_extended_mode_request(),
        dev.fault_queue_request(FaultQueue::_6),
        dev.alert_polarity_request(AlertPolarity::ActiveHigh),
        dev.thermostat_mode_request(ThermostatMode::Interrupt),
        dev.conversion_rate_request(ConversionRate::_8Hz),
    ];
    for w in requests {
        match dev.write_config(w, Err(BusFault)) {
            Err(Error::I2C(BusFault)) => {}
            other => panic!("unexpected {:?}", other),
        }
        assert_eq!(dev.config(), before);
    }
}

#[test]
fn failed_mode_change_returns_device() {
    let dev = setup();
    let dev = match dev.complete_into_one_shot(Err(BusFault)) {
        Err(ModeChangeError::I2C(BusFault, dev)) => dev,
        Ok(_) => panic!("mode change succeeded"),
    };
    assert_eq!(dev.config(), Config { lsb: DEFAULT_CONFIG_LSB, msb: DEFAULT_CONFIG_MSB });
    let w = dev.conversion_rate_request(ConversionRate::_1Hz);
    assert_eq!(w.frame(), [Register::CONFIG, 0b0110_0000, DEFAULT_CONFIG_LSB]);
    let dev = one_shot();
    match dev.complete_into_continuous(Err(BusFault)) {
        Err(ModeChangeError::I2C(BusFault, dev)) => assert_eq!(dev.config().lsb, DEFAULT_CONFIG_LSB | 1),
        Ok(_) => panic!("mode change succeeded"),
    }
}

#[test]
fn conversion_rates() {
    let mut dev = setup();
    let w = dev.conversion_rate_request(ConversionRate::_8Hz);
    assert_eq!(w.config().msb, 0b1110_0000);
    dev.write_config::<BusFault>(w, Ok(())).unwrap();
    assert_eq!(dev.conversion_rate_request(ConversionRate::_4Hz).config().msb, 0b1010_0000);
    assert_eq!(dev.conversion_rate_request(ConversionRate::_1Hz).config().msb, 0b0110_0000);
    assert_eq!(dev.conversion_rate_request(ConversionRate::_0_25Hz).config().msb, 0b0010_0000);
}

#[test]
fn fault_queues() {
    let mut dev = setup();
    let w = dev.fault_queue_request(FaultQueue::_6);
    assert_eq!(w.config().lsb, DEFAULT_CONFIG_LSB | 0b1_1000);
    dev.write_config::<BusFault>(w, Ok(())).unwrap();
    assert_eq!(dev.fault_queue_request(FaultQueue::_4).config().lsb, DEFAULT_CONFIG_LSB | 0b1_0000);
    assert_eq!(dev.fault_queue_request(FaultQueue::_2).config().lsb, DEFAULT_CONFIG_LSB | 0b0_1000);
    assert_eq!(dev.fault_queue_request(FaultQueue::_1).config().lsb, DEFAULT_CONFIG_LSB);
}

#[test]
fn polarity_and_thermostat() {
    let mut dev = setup();
    let w = dev.alert_polarity_request(AlertPolarity::ActiveHigh);
    assert_eq!(w.frame(), [0x01, DEFAULT_CONFIG_MSB, DEFAULT_CONFIG_LSB | 0b100]);
    dev.write_config::<BusFault>(w, Ok(())).unwrap();
    let w = dev.thermostat_mode_request(ThermostatMode::Interrupt);
    assert_eq!(w.frame(), [0x01, DEFAULT_CONFIG_MSB, DEFAULT_CONFIG_LSB | 0b110]);
    dev.write_config::<BusFault>(w, Ok(())).unwrap();
    assert_eq!(dev.alert_polarity_request(AlertPolarity::ActiveLow).config().lsb, DEFAULT_CONFIG_LSB | 0b010);
    assert_eq!(dev.thermostat_mode_request(ThermostatMode::Comparator).config().lsb, DEFAULT_CONFIG_LSB | 0b100);
}

#[test]
fn reset_restores_power_up_shadow() {
    let mut dev = setup();
    let w = dev.fault_queue_request(FaultQueue::_4);
    dev.write_config::<BusFault>(w, Ok(())).unwrap();
    dev.reset_internal_driver_state();
    assert_eq!(dev.config(), Config::default());
    assert_eq!(dev.destroy(), 7);
}

#[test]
fn thresholds_follow_extended_mode() {
    let mut dev = setup();
    assert_eq!(dev.high_temperature_threshold_frame(80 * 16), [Register::T_HIGH, 0x50, 0x00]);
    assert_eq!(dev.low_temperature_threshold_frame(-16), [Register::T_LOW, 0xFF, 0x00]);
    assert_eq!(dev.high_temperature_threshold_frame(200 * 16), [0x03, 0x7F, 0xF0]);
    let w = dev.enable_extended_mode_request();
    dev.write_config::<BusFault>(w, Ok(())).unwrap();
    assert_eq!(dev.high_temperature_threshold_frame(200 * 16), [0x03, 0x64, 0x00]);
    assert_eq!(dev.low_temperature_threshold_frame(-16), [0x02, 0xFF, 0x80]);
}

#[test]
fn temperature_reading_follows_extended_mode() {
    let mut dev = setup();
    assert_eq!(dev.temperature_reading::<BusFault>(Ok([0x19, 0x00])).unwrap(), 400);
    assert_eq!(dev.temperature_reading::<BusFault>(Ok([0xE7, 0x00])).unwrap(), -400);
    assert_eq!(dev.temperature_reading::<BusFault>(Ok([0x00, 0x0F])).unwrap(), 0);
    assert!(matches!(dev.temperature_reading::<BusFault>(Err(BusFault)), Err(Error::I2C(BusFault))));
    let w = dev.enable_extended_mode_request();
    dev.write_config::<BusFault>(w, Ok(())).unwrap();
    assert_eq!(dev.temperature_reading::<BusFault>(Ok([0x4B, 0x00])).unwrap(), 150 * 16);
}

#[test]
fn one_shot_trigger_is_not_cached() {
    let dev = one_shot();
    assert_eq!(dev.trigger_one_shot_measurement_frame(), [0x01, DEFAULT_CONFIG_MSB, DEFAULT_CONFIG_LSB | 0b1000_0001]);
    assert_eq!(dev.config().lsb, DEFAULT_CONFIG_LSB | 1);
    assert!(matches!(bus_result::<(), BusFault>(Err(BusFault)), Err(Error::I2C(BusFault))));
    assert!(bus_result::<(), BusFault>(Ok(())).is_ok());
}

#[test]
fn one_shot_readiness() {
    type Dev = Tmp1x2<u32, OneShot>;
    assert_eq!(Dev::is_one_shot_measurement_result_ready::<BusFault>(Ok([0xA0, 0x61])).unwrap(), true);
    assert_eq!(Dev::is_one_shot_measurement_result_ready::<BusFault>(Ok([0xA0, 0xE1])).unwrap(), false);
    assert!(matches!(Dev::is_one_shot_measurement_result_ready(Err(BusFault)), Err(Error::I2C(BusFault))));
}
