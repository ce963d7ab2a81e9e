//! Calibration records and their fixed nonvolatile layout.
//!
//! Each channel persists as one 4-byte little-endian word `slope << 16 |
//! offset`; the whole configuration is the moisture record followed by the
//! illuminance record, 8 bytes in all. Loading substitutes the default
//! slope for a stored slope of zero, so a freshly erased or corrupted page
//! can never feed a zero divisor into the calibration math.

use vstd::prelude::*;

verus! {

/// The slope a record loads with when the stored slope is zero.
pub const DEFAULT_SLOPE: u16 = 1024;

/// Calibration for one sensor channel: the raw reading is shifted by
/// `offset` and scaled by `1024 / slope`.
#[derive(Debug, Clone, Copy, PartialEq, Eq, Structural)]
pub struct SensorConfig {
    pub offset: u16,
    pub slope: u16,
}

impl SensorConfig {
    /// The four persisted bytes of this record: the 32-bit word
    /// `slope << 16 | offset`, little endian.
    pub open spec fn spec_save(self) -> Seq<u8> {
        seq![
            (self.offset & 0xff) as u8,
            (self.offset >> 8) as u8,
            (self.slope & 0xff) as u8,
            (self.slope >> 8) as u8,
        ]
    }

    /// What four persisted bytes load as: offset and slope read little
    /// endian, a zero slope replaced by the default.
    pub open spec fn spec_load(bytes: Seq<u8>) -> SensorConfig
        recommends
            bytes.len() == 4,
    {
        let offset = (bytes[0] as u16) | ((bytes[1] as u16) << 8);
        let slope = (bytes[2] as u16) | ((bytes[3] as u16) << 8);
        SensorConfig {
            offset,
            slope: if slope == 0 {
                DEFAULT_SLOPE
            } else {
                slope
            },
        }
    }

    /// The record as it reads back after a save: unchanged, except that a
    /// zero slope comes back as the default.
    pub open spec fn loaded_form(self) -> SensorConfig {
        if self.slope == 0 {
            SensorConfig { offset: self.offset, slope: DEFAULT_SLOPE }
        } else {
            self
        }
    }

    /// Serialize this record into its four on-flash bytes.
    pub fn save(self) -> (r: [u8; 4])
        ensures
            r@ == self.spec_save(),
    {
        let r: [u8; 4] = [
            (self.offset & 0xff) as u8,
            (self.offset >> 8) as u8,
            (self.slope & 0xff) as u8,
            (self.slope >> 8) as u8,
        ];
        assert(r@ =~= self.spec_save());
        r
    }

    /// Decode one on-flash record, defaulting a zero slope.
    pub fn load(bytes: [u8; 4]) -> (r: Self)
        ensures
            r == Self::spec_load(bytes@),
    {
        let offset: u16 = (bytes[0] as u16) | ((bytes[1] as u16) << 8);
        let mut slope: u16 = (bytes[2] as u16) | ((bytes[3] as u16) << 8);
        if slope == 0 {
            slope = DEFAULT_SLOPE;
        }
        SensorConfig { offset, slope }
    }
}

/// Law: saving one record and loading the bytes back yields the record
/// unchanged, except that a zero slope loads as the default.
pub proof fn lemma_record_round_trip(c: SensorConfig)
    ensures
        SensorConfig::spec_load(c.spec_save()) == c.loaded_form(),
{
    let o = c.offset;
    let s = c.slope;
    assert(((o & 0xff) as u8 as u16) | (((o >> 8) as u8 as u16) << 8) == o) by (bit_vector);
    assert(((s & 0xff) as u8 as u16) | (((s >> 8) as u8 as u16) << 8) == s) by (bit_vector);
}

/// The whole persisted configuration: both channels' calibration.
#[derive(Debug, Clone, Copy, PartialEq, Eq, Structural)]
pub struct Config {
    pub moisture: SensorConfig,
    pub illuminance: SensorConfig,
}

impl Config {
    pub fn new(moisture: SensorConfig, illuminance: SensorConfig) -> (r: Self)
        ensures
            r == (Config { moisture, illuminance }),
    {
        Self { moisture, illuminance }
    }

    /// The eight bytes of the nonvolatile page prefix: the moisture record
    /// at the page base, the illuminance record right after it.
    pub open spec fn spec_save(self) -> Seq<u8> {
        self.moisture.spec_save() + self.illuminance.spec_save()
    }

    /// What eight persisted bytes load as, record by record.
    pub open spec fn spec_load(page: Seq<u8>) -> Config
        recommends
            page.len() == 8,
    {
        Config {
            moisture: SensorConfig::spec_load(page.subrange(0, 4)),
            illuminance: SensorConfig::spec_load(page.subrange(4, 8)),
        }
    }

    /// Decode a configuration from the first eight bytes of its page.
    pub fn load(page: &[u8; 8]) -> (r: Self)
        ensures
            r == Self::spec_load(page@),
    {
        let moisture = SensorConfig::load([page[0], page[1], page[2], page[3]]);
        let illuminance = SensorConfig::load([page[4], page[5], page[6], page[7]]);
        proof {
            assert(seq![page@[0], page@[1], page@[2], page@[3]] =~= page@.subrange(0, 4));
            assert(seq![page@[4], page@[5], page@[6], page@[7]] =~= page@.subrange(4, 8));
        }
        Config { moisture, illuminance }
    }

    /// Serialize both records into the eight bytes of the page prefix.
    pub fn save(self) -> (r: [u8; 8])
        ensures
            r@ == self.spec_save(),
    {
        let m = self.moisture.save();
        let i = self.illuminance.save();
        let r: [u8; 8] = [m[0], m[1], m[2], m[3], i[0], i[1], i[2], i[3]];
        assert(r@ =~= self.moisture.spec_save() + self.illuminance.spec_save());
        r
    }
}

/// Law: saving a configuration and loading the page back yields both
/// records unchanged, except that a zero slope loads as the default.
pub proof fn lemma_config_round_trip(c: Config)
    ensures
        Config::spec_load(c.spec_save()) == (Config {
            moisture: c.moisture.loaded_form(),
            illuminance: c.illuminance.loaded_form(),
        }),
{
    assert(c.spec_save().subrange(0, 4) =~= c.moisture.spec_save());
    assert(c.spec_save().subrange(4, 8) =~= c.illuminance.spec_save());
    lemma_record_round_trip(c.moisture);
    lemma_record_round_trip(c.illuminance);
}

} // verus!
