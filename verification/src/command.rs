//! The fixed command-code table: the register space seen by the I2C master.
//!
//! The moisture block sits at 0x00, the structurally identical illuminance
//! block at 0x08, the LED pair at 0x10, and the persistence sentinel at 0xFF.
//! Within a sensor block: +0 reads the calibrated value, +1 the raw sample,
//! +2 the offset, +3 the slope; +4 writes the offset and +5 the slope.

use vstd::prelude::*;

verus! {

pub const READ_MOISTURE: u8 = 0x00;
pub const READ_MOISTURE_RAW: u8 = 0x01;
pub const READ_MOISTURE_OFFSET: u8 = 0x02;
pub const READ_MOISTURE_SLOPE: u8 = 0x03;
pub const WRITE_MOISTURE_OFFSET: u8 = 0x04;
pub const WRITE_MOISTURE_SLOPE: u8 = 0x05;

pub const READ_ILLUMINANCE: u8 = 0x08;
pub const READ_ILLUMINANCE_RAW: u8 = 0x09;
pub const READ_ILLUMINANCE_OFFSET: u8 = 0x0a;
pub const READ_ILLUMINANCE_SLOPE: u8 = 0x0b;
pub const WRITE_ILLUMINANCE_OFFSET: u8 = 0x0c;
pub const WRITE_ILLUMINANCE_SLOPE: u8 = 0x0d;

pub const READ_LED: u8 = 0x10;
pub const WRITE_LED: u8 = 0x11;

pub const SAVE_NVM: u8 = 0xff;

} // verus!
