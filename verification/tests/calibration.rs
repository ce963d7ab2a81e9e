//! The calibrated value of a sensor channel.

use moist_node::config::SensorConfig;
use moist_node::sensor::SensorState;

#[test]
fn value_scales_by_slope() {
    let mut ch = SensorState::new(SensorConfig { offset: 12, slope: 2048 });
    ch.update(112);
    // (112 - 12) * 1024 / 2048
    assert_eq!(ch.val(), 50);
}

#[test]
fn value_identity_at_default_slope() {
    let mut ch = SensorState::new(SensorConfig { offset: 10, slope: 1024 });
    ch.update(100);
    assert_eq!(ch.val(), 90);
    assert_eq!(ch.raw(), 100);
}

#[test]
fn value_zero_at_or_below_offset() {
    let mut ch = SensorState::new(SensorConfig { offset: 500, slope: 1024 });
    ch.update(500);
    assert_eq!(ch.val(), 0);
    ch.update(123);
    assert_eq!(ch.val(), 0);
}

#[test]
fn value_saturates_at_16_bit_maximum() {
    let mut ch = SensorState::new(SensorConfig { offset: 0, slope: 1 });
    ch.update(1000);
    // 1000 * 1024 far exceeds the 16-bit range
    assert_eq!(ch.val(), 0xffff);
}

#[test]
fn value_non_decreasing_in_raw() {
    let mut ch = SensorState::new(SensorConfig { offset: 50, slope: 700 });
    let mut last: u16 = 0;
    let mut raw: u16 = 0;
    while raw < 2000 {
        ch.update(raw);
        let v = ch.val();
        assert!(v >= last);
        last = v;
        raw += 37;
    }
}

#[test]
fn zero_slope_reads_as_zero() {
    let mut ch = SensorState::new(SensorConfig { offset: 0, slope: 0 });
    ch.update(4711);
    assert_eq!(ch.val(), 0);
}
