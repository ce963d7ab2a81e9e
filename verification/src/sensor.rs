//! One sensor channel: the latest raw sample and its calibration.
//!
//! The calibrated value shifts the raw reading by the offset (clamping to
//! zero instead of wrapping), scales it by `1024 / slope` in a 32-bit
//! intermediate, and clamps the result to the 16-bit maximum. A zero slope
//! would make the scale undefined; this implementation reads such a channel
//! as zero rather than dividing by it, so no write sequence can make the
//! engine panic.

use vstd::prelude::*;
use crate::config::SensorConfig;
use vstd::arithmetic::div_mod::lemma_div_is_ordered;
use vstd::arithmetic::div_mod::lemma_div_multiples_vanish;

verus! {

/// The calibrated reading: `(raw - offset) * 1024 / slope`, with the
/// subtraction clamped at zero and the result clamped at the 16-bit
/// maximum. A zero slope reads as zero.
pub open spec fn spec_value(raw: u16, offset: u16, slope: u16) -> u16 {
    if slope == 0 {
        0
    } else {
        let shifted = if raw <= offset {
            0
        } else {
            raw - offset
        };
        let scaled = shifted * 1024 / (slope as int);
        if scaled >= 0xffff {
            0xffff
        } else {
            scaled as u16
        }
    }
}

/// One channel: the most recent raw sample and the calibration applied
/// to it.
#[derive(Debug, Clone, Copy, PartialEq, Eq, Structural)]
pub struct SensorState {
    pub raw: u16,
    pub cfg: SensorConfig,
}

impl SensorState {
    pub fn new(cfg: SensorConfig) -> (r: Self)
        ensures
            r == (SensorState { raw: 0, cfg }),
    {
        Self { cfg, raw: 0 }
    }

    /// The calibrated value of this channel.
    pub open spec fn spec_val(self) -> u16 {
        spec_value(self.raw, self.cfg.offset, self.cfg.slope)
    }

    /// Compute the calibrated value.
    pub fn val(&self) -> (r: u16)
        ensures
            r == self.spec_val(),
    {
        if self.cfg.slope == 0 {
            return 0;
        }
        let shifted: u32 = if self.raw >= self.cfg.offset {
            (self.raw - self.cfg.offset) as u32
        } else {
            0
        };
        let scaled: u32 = shifted * 1024 / (self.cfg.slope as u32);
        if scaled >= 0xffff {
            0xffff
        } else {
            scaled as u16
        }
    }

    /// The most recent raw sample.
    pub fn raw(&self) -> (r: u16)
        ensures
            r == self.raw,
    {
        self.raw
    }

    /// Overwrite the raw sample; calibration is untouched.
    pub fn update(&mut self, val: u16)
        ensures
            *final(self) == (SensorState { raw: val, ..*old(self) }),
    {
        self.raw = val;
    }
}

/// Law: for a fixed calibration with a positive slope, the calibrated
/// value is non-decreasing in the raw reading.
pub proof fn lemma_value_monotonic(offset: u16, slope: u16, raw1: u16, raw2: u16)
    requires
        slope > 0,
        raw1 <= raw2,
    ensures
        spec_value(raw1, offset, slope) <= spec_value(raw2, offset, slope),
{
    let d1 = if raw1 <= offset { 0 } else { raw1 - offset as int };
    let d2 = if raw2 <= offset { 0 } else { raw2 - offset as int };
    assert(d1 <= d2);
    lemma_div_is_ordered(d1 * 1024, d2 * 1024, slope as int);
}

/// Law: the calibrated value saturates at the 16-bit maximum once the
/// shifted reading, scaled by 1024, reaches the maximum times the slope.
pub proof fn lemma_value_saturates(offset: u16, slope: u16, raw: u16)
    requires
        slope > 0,
        (raw - offset) * 1024 >= 0xffff * (slope as int),
    ensures
        spec_value(raw, offset, slope) == 0xffff,
{
    let s = slope as int;
    let d = raw - offset as int;
    assert(d > 0);
    lemma_div_multiples_vanish(0xffff, s);
    lemma_div_is_ordered(s * 0xffff, d * 1024, s);
}

/// Law: whenever the raw reading is at or below the offset, the calibrated
/// value is zero.
pub proof fn lemma_value_zero_below_offset(offset: u16, slope: u16, raw: u16)
    requires
        raw <= offset,
    ensures
        spec_value(raw, offset, slope) == 0,
{
    if slope != 0 {
        lemma_div_multiples_vanish(0, slope as int);
    }
}

} // verus!
