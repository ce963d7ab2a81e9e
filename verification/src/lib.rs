//! A soil-moisture / ambient-light sensor node, seen from the bus: an I2C
//! slave register device with per-channel calibration, an RGB status LED
//! register, and a fixed nonvolatile layout for the calibration records.
//!
//! The crate holds the protocol engine and its data model; the hardware
//! (pins, ADC, PWM, the I2C peripheral itself and the flash controller)
//! stays outside, behind the `I2CPeripheral` transport trait and the
//! byte-level `Config` codec.

pub mod command;
pub mod config;
pub mod engine;
pub mod sensor;
pub mod sim;
