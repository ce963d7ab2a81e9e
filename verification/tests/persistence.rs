//! The on-flash calibration layout and its round trip.

use moist_node::config::{Config, SensorConfig, DEFAULT_SLOPE};

#[test]
fn record_bytes_are_little_endian_word() {
    let c = SensorConfig { offset: 0x0102, slope: 0x0304 };
    // the 32-bit word slope << 16 | offset, little endian
    assert_eq!(c.save(), [0x02, 0x01, 0x04, 0x03]);
}

#[test]
fn record_round_trips() {
    let c = SensorConfig { offset: 12, slope: 1024 };
    let loaded = SensorConfig::load(c.save());
    assert_eq!(loaded, c);
}

#[test]
fn config_round_trips() {
    let cfg = Config::new(
        SensorConfig { offset: 12, slope: 1024 },
        SensorConfig { offset: 77, slope: 3000 },
    );
    let loaded = Config::load(&cfg.save());
    assert_eq!(loaded, cfg);
}

#[test]
fn zero_slope_loads_as_default() {
    let c = SensorConfig { offset: 7, slope: 0 };
    let loaded = SensorConfig::load(c.save());
    assert_eq!(loaded.offset, 7);
    assert_eq!(loaded.slope, DEFAULT_SLOPE);
    assert_eq!(loaded.slope, 1024);
}

#[test]
fn erased_page_loads_as_default_slope() {
    // a freshly erased flash page reads as all ones
    let loaded = Config::load(&[0xff; 8]);
    assert_eq!(loaded.moisture.offset, 0xffff);
    assert_eq!(loaded.moisture.slope, 0xffff);
    let zeroed = Config::load(&[0; 8]);
    assert_eq!(zeroed.moisture.slope, DEFAULT_SLOPE);
    assert_eq!(zeroed.illuminance.slope, DEFAULT_SLOPE);
    assert_eq!(zeroed.moisture.offset, 0);
}

#[test]
fn config_records_sit_at_fixed_offsets() {
    let cfg = Config::new(
        SensorConfig { offset: 0x1111, slope: 0x2222 },
        SensorConfig { offset: 0x3333, slope: 0x4444 },
    );
    let page = cfg.save();
    assert_eq!(&page[0..4], &cfg.moisture.save());
    assert_eq!(&page[4..8], &cfg.illuminance.save());
}
