//! The protocol engine against a scripted master session.

use moist_node::command;
use moist_node::config::{Config, SensorConfig};
use moist_node::engine::{App, AppRequest};
use moist_node::sim::{SimTransport, TransportError};

fn fresh_app() -> App {
    App::new(Config::new(
        SensorConfig { offset: 10, slope: 1024 },
        SensorConfig { offset: 3, slope: 512 },
    ))
}

#[test]
fn idle_bus_returns_none() {
    let mut app = fresh_app();
    let mut bus = SimTransport::new();
    let r = app.poll(&mut bus);
    assert!(matches!(r, Ok(None)));
    assert_eq!(bus.sent_count(), 0);
}

#[test]
fn read_calibrated_moisture_response() {
    let mut app = fresh_app();
    app.push_samples(100, 0);
    let mut bus = SimTransport::new();
    bus.master_write(vec![command::READ_MOISTURE]);
    bus.master_read();
    let r = app.poll(&mut bus);
    assert!(matches!(r, Ok(None)));
    assert_eq!(bus.sent_count(), 1);
    // (100 - 10) * 1024 / 1024 == 90, transmitted big endian
    assert_eq!(*bus.sent_frame(0), vec![0x00, 90]);
    assert_eq!(bus.pending(), 0);
}

#[test]
fn write_moisture_offset_then_read_back() {
    let mut app = fresh_app();
    let mut bus = SimTransport::new();
    bus.master_write(vec![command::WRITE_MOISTURE_OFFSET]);
    bus.master_write(vec![0x00, 0x05]);
    let r = app.poll(&mut bus);
    assert!(matches!(r, Ok(None)));
    assert_eq!(app.moisture.cfg.offset, 5);
    assert!(app.write_pend.is_none());
    assert_eq!(bus.sent_count(), 0);

    bus.master_write(vec![command::READ_MOISTURE_OFFSET]);
    bus.master_read();
    let r2 = app.poll(&mut bus);
    assert!(matches!(r2, Ok(None)));
    assert_eq!(*bus.sent_frame(0), vec![0x00, 0x05]);
}

#[test]
fn illuminance_block_mirrors_moisture_block() {
    let mut app = fresh_app();
    app.push_samples(0, 515);
    let mut bus = SimTransport::new();
    bus.master_write(vec![command::WRITE_ILLUMINANCE_SLOPE]);
    bus.master_write(vec![0x04, 0x00]);
    bus.master_write(vec![command::READ_ILLUMINANCE]);
    bus.master_read();
    bus.master_write(vec![command::READ_ILLUMINANCE_RAW]);
    bus.master_read();
    let r = app.poll(&mut bus);
    assert!(matches!(r, Ok(None)));
    assert_eq!(app.illuminance.cfg.slope, 0x0400);
    // (515 - 3) * 1024 / 1024 == 512
    assert_eq!(*bus.sent_frame(0), vec![0x02, 0x00]);
    assert_eq!(*bus.sent_frame(1), vec![0x02, 0x03]);
}

#[test]
fn led_write_emits_color_and_stops() {
    let mut app = fresh_app();
    let mut bus = SimTransport::new();
    bus.master_write(vec![command::WRITE_LED]);
    bus.master_write(vec![0x0a, 0xbc]);
    bus.master_read();
    let r = app.poll(&mut bus);
    match r {
        Ok(Some(AppRequest::SetLedColor(rgb))) => assert_eq!(rgb, [0x0c, 0x0b, 0x0a]),
        _ => panic!("expected a LED request"),
    }
    assert_eq!(app.led_color, 0x0abc);
    // the queued read right after the LED write is not processed this call
    assert_eq!(bus.pending(), 1);
    assert_eq!(bus.sent_count(), 0);
}

#[test]
fn led_color_reads_back() {
    let mut app = fresh_app();
    let mut bus = SimTransport::new();
    bus.master_write(vec![command::WRITE_LED]);
    bus.master_write(vec![0x01, 0x23]);
    let _ = app.poll(&mut bus);
    bus.master_write(vec![command::READ_LED]);
    bus.master_read();
    let r = app.poll(&mut bus);
    assert!(matches!(r, Ok(None)));
    assert_eq!(*bus.sent_frame(0), vec![0x01, 0x23]);
}

#[test]
fn save_command_snapshots_calibration() {
    let mut app = fresh_app();
    let mut bus = SimTransport::new();
    // change a register first, then ask for persistence
    bus.master_write(vec![command::WRITE_MOISTURE_SLOPE]);
    bus.master_write(vec![0x08, 0x00]);
    bus.master_write(vec![command::SAVE_NVM]);
    bus.master_read();
    let r = app.poll(&mut bus);
    match r {
        Ok(Some(AppRequest::SaveConfig(cfg))) => {
            assert_eq!(
                cfg,
                Config::new(
                    SensorConfig { offset: 10, slope: 0x0800 },
                    SensorConfig { offset: 3, slope: 512 },
                )
            );
        },
        _ => panic!("expected a persistence request"),
    }
    // draining stopped at the sentinel even though a read was queued
    assert_eq!(bus.pending(), 1);
    assert_eq!(bus.sent_count(), 0);
}

#[test]
fn unknown_command_falls_back_to_moisture() {
    let mut app = fresh_app();
    app.push_samples(138, 0);
    let mut bus = SimTransport::new();
    bus.master_write(vec![0x20]);
    bus.master_read();
    let r = app.poll(&mut bus);
    assert!(matches!(r, Ok(None)));
    // (138 - 10) * 1024 / 1024 == 128, the calibrated moisture value
    assert_eq!(*bus.sent_frame(0), vec![0x00, 128]);
}

#[test]
fn raw_moisture_reads_unshifted_sample() {
    let mut app = fresh_app();
    app.push_samples(7, 0);
    let mut bus = SimTransport::new();
    bus.master_write(vec![command::READ_MOISTURE_RAW]);
    bus.master_read();
    let r = app.poll(&mut bus);
    assert!(matches!(r, Ok(None)));
    assert_eq!(*bus.sent_frame(0), vec![0x00, 0x07]);
}

#[test]
fn wrong_width_value_frame_faults() {
    let mut app = fresh_app();
    let mut bus = SimTransport::new();
    bus.master_write(vec![command::WRITE_MOISTURE_OFFSET]);
    bus.master_write(vec![0x05]);
    let r = app.poll(&mut bus);
    assert!(matches!(r, Err(TransportError::IncorrectFrameSize(1))));
    // the half-done write did not touch the register
    assert_eq!(app.moisture.cfg.offset, 10);
}

#[test]
fn wrong_width_command_frame_faults() {
    let mut app = fresh_app();
    let mut bus = SimTransport::new();
    bus.master_write(vec![command::READ_MOISTURE, command::READ_LED]);
    let r = app.poll(&mut bus);
    assert!(matches!(r, Err(TransportError::IncorrectFrameSize(2))));
}

#[test]
fn channel_accessors_reach_the_channels() {
    let mut app = fresh_app();
    app.moisture().update(41);
    app.illuminance().update(42);
    assert_eq!(app.moisture.raw(), 41);
    assert_eq!(app.illuminance.raw(), 42);
}
