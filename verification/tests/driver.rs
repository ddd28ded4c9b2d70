use accel_core::conf::{Config, HPF_CORNER, ODR_LPF, Range};
use accel_core::driver::{check_identity, filter_value, Adxl355, DriverError, EXPECTED_DEVICE_ID};
use accel_core::sim::SimBus;

fn config_1000hz() -> Config {
    Config::new()
        .odr(ODR_LPF::ODR_1000_Hz)
        .hpf(HPF_CORNER::_0_0238_ODR)
        .range(Range::_2G)
}

#[test]
fn new_applies_configuration_registers() {
    let bus = SimBus::new((0, 0, 0));
    let dev = Adxl355::new(bus, &config_1000hz()).unwrap();
    assert_eq!(dev.odr, ODR_LPF::ODR_1000_Hz);
    assert_eq!(dev.hpf, HPF_CORNER::_0_0238_ODR);
    assert_eq!(dev.range, Range::_2G);
    // Filter register: corner 0x6 in bits 6..4, rate 0x2 in bits 3..0;
    // range register: 0x1. Addresses 0x28 and 0x2C.
    assert_eq!(dev.spi.writes, vec![(0x28, 0x62), (0x2C, 0x01)]);
}

#[test]
fn default_uses_power_on_defaults() {
    let bus = SimBus::new((0, 0, 0));
    let dev = Adxl355::default(bus).unwrap();
    assert_eq!(dev.odr, ODR_LPF::ODR_4000_Hz);
    assert_eq!(dev.hpf, HPF_CORNER::NONE);
    assert_eq!(dev.range, Range::_2G);
}

#[test]
fn new_fails_fast_on_identity_mismatch() {
    let mut bus = SimBus::new((0, 0, 0));
    bus.device_id = 0x55;
    match Adxl355::new(bus, &config_1000hz()) {
        Err(DriverError::IdentityMismatch { found }) => assert_eq!(found, 0x55),
        other => panic!("expected identity mismatch, got {:?}", other.is_ok()),
    }
}

#[test]
fn new_propagates_bus_fault() {
    let mut bus = SimBus::new((0, 0, 0));
    bus.fail = true;
    match Adxl355::new(bus, &config_1000hz()) {
        Err(DriverError::Bus) => {}
        other => panic!("expected bus error, got {:?}", other.is_ok()),
    }
}

#[test]
fn get_device_id_reads_identity_register() {
    let bus = SimBus::new((0, 0, 0));
    let mut dev = Adxl355::new(bus, &config_1000hz()).unwrap();
    assert_eq!(dev.get_device_id().unwrap(), EXPECTED_DEVICE_ID);
}

#[test]
fn start_clears_power_control() {
    let bus = SimBus::new((0, 0, 0));
    let mut dev = Adxl355::new(bus, &config_1000hz()).unwrap();
    dev.spi.writes.clear();
    dev.start().unwrap();
    assert_eq!(dev.spi.writes, vec![(0x2D, 0x00)]);
}

#[test]
fn accel_raw_decodes_the_simulated_sample() {
    let bus = SimBus::new((524287, -524288, -1));
    let mut dev = Adxl355::new(bus, &config_1000hz()).unwrap();
    assert_eq!(dev.accel_raw().unwrap(), (524287, -524288, -1));
}

#[test]
fn accel_raw_propagates_bus_fault() {
    let bus = SimBus::new((1, 2, 3));
    let mut dev = Adxl355::new(bus, &config_1000hz()).unwrap();
    dev.spi.fail = true;
    assert!(dev.accel_raw().is_err());
}

#[test]
fn accel_norm_scales_by_the_configured_range() {
    let bus = SimBus::new((1000, -2000, 524287));
    let cfg = Config::new().odr(ODR_LPF::ODR_1000_Hz).range(Range::_8G);
    let mut dev = Adxl355::new(bus, &cfg).unwrap();
    let (x, y, z) = dev.accel_norm().unwrap();
    assert_eq!((x.num, x.den), (8000, 524287));
    assert_eq!((y.num, y.den), (-16000, 524287));
    assert_eq!((z.num, z.den), (524287 * 8, 524287));
    assert_eq!(z.num as f32 / z.den as f32, 8.0);
}

#[test]
fn read_temp_raw_decodes_the_temperature_registers() {
    let bus = SimBus::new((0, 0, 0));
    let mut dev = Adxl355::new(bus, &config_1000hz()).unwrap();
    dev.spi.temp = 0x9AB;
    assert_eq!(dev.read_temp_raw().unwrap(), 0x9AB);
}

#[test]
fn read_temp_raw_propagates_bus_fault() {
    let bus = SimBus::new((0, 0, 0));
    let mut dev = Adxl355::new(bus, &config_1000hz()).unwrap();
    dev.spi.fail = true;
    assert!(dev.read_temp_raw().is_err());
}

#[test]
fn identity_decision_accepts_exactly_the_expected_part() {
    assert!(check_identity(EXPECTED_DEVICE_ID).is_ok());
    for id in [0x00u8, 0x1D, 0xAD, 0x55, 0xFF] {
        match check_identity(id) {
            Err(DriverError::IdentityMismatch { found }) => assert_eq!(found, id),
            other => panic!("expected identity mismatch for {id:#x}, got {:?}", other.is_ok()),
        }
    }
}

#[test]
fn filter_value_packs_corner_and_rate() {
    assert_eq!(filter_value(HPF_CORNER::_0_0238_ODR, ODR_LPF::ODR_1000_Hz), 0x62);
    assert_eq!(filter_value(HPF_CORNER::NONE, ODR_LPF::ODR_4000_Hz), 0x00);
    assert_eq!(filter_value(HPF_CORNER::_24_7_ODR, ODR_LPF::ODR_3_906_Hz), 0x1A);
}

#[test]
fn period_micros_matches_the_rate_table() {
    assert_eq!(ODR_LPF::ODR_4000_Hz.period_micros(), 250);
    assert_eq!(ODR_LPF::ODR_1000_Hz.period_micros(), 1000);
    assert_eq!(ODR_LPF::ODR_31_25_Hz.period_micros(), 32000);
    assert_eq!(ODR_LPF::ODR_3_906_Hz.period_micros(), 256000);
}
