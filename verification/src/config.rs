//! The structured settings the engine reads: equalizer bands, scan roots,
//! and audio options.
//!
//! The host application parses and writes the configuration file; this
//! module holds the settings values and the rules over them. Equalizer gain
//! is kept in hundredths of a decibel and band quality in thousandths, and
//! volume in thousandths of full scale, so every rule is exact integer
//! arithmetic.

use vstd::prelude::*;

verus! {

/// The number of equalizer bands.
pub const BAND_COUNT: usize = 10;

/// The default center frequencies, in hertz.
pub open spec fn default_frequencies() -> Seq<i32> {
    seq![32i32, 64i32, 125i32, 250i32, 500i32, 1000i32, 2000i32, 4000i32, 8000i32, 16000i32]
}

/// The default band quality, in thousandths.
pub const DEFAULT_Q_MILLI: u32 = 1461;

/// Equalizer settings: per-band center frequency (hertz), gain (hundredths
/// of a decibel) and quality (thousandths), plus an enabled flag.
#[derive(Debug)]
pub struct EqualizerSettings {
    pub enabled: bool,
    pub frequencies: Vec<i32>,
    pub gains: Vec<i32>,
    pub q_values: Vec<u32>,
}

impl EqualizerSettings {
    /// Whether all three band arrays have exactly one entry per band.
    pub open spec fn well_sized(&self) -> bool {
        &&& self.frequencies@.len() == BAND_COUNT
        &&& self.gains@.len() == BAND_COUNT
        &&& self.q_values@.len() == BAND_COUNT
    }
}

impl Default for EqualizerSettings {
    /// Disabled, with the standard ten bands flat at the default quality.
    fn default() -> (r: Self)
        ensures
            !r.enabled,
            r.frequencies@ == default_frequencies(),
            r.gains@.len() == BAND_COUNT,
            forall|i: int| 0 <= i < BAND_COUNT ==> r.gains@[i] == 0i32,
            r.q_values@.len() == BAND_COUNT,
            forall|i: int| 0 <= i < BAND_COUNT ==> r.q_values@[i] == DEFAULT_Q_MILLI,
            r.well_sized(),
    {
        let r = EqualizerSettings {
            enabled: false,
            frequencies: vec![32, 64, 125, 250, 500, 1000, 2000, 4000, 8000, 16000],
            gains: vec![0i32; 10],
            q_values: vec![DEFAULT_Q_MILLI; 10],
        };
        proof {
            assert(r.frequencies@ =~= default_frequencies());
        }
        r
    }
}

impl Clone for EqualizerSettings {
    fn clone(&self) -> (r: Self)
        ensures
            r.enabled == self.enabled,
            r.frequencies@ == self.frequencies@,
            r.gains@ == self.gains@,
            r.q_values@ == self.q_values@,
    {
        EqualizerSettings {
            enabled: self.enabled,
            frequencies: self.frequencies.clone(),
            gains: self.gains.clone(),
            q_values: self.q_values.clone(),
        }
    }
}

/// Which directories a scan walks.
#[derive(Debug)]
pub struct ScanSettings {
    pub paths: Vec<String>,
}

impl Default for ScanSettings {
    /// One root: the user's music directory, tilde-relative.
    fn default() -> (r: Self)
        ensures
            r.paths@.len() == 1,
            r.paths@[0]@ == "~/Music"@,
    {
        ScanSettings { paths: vec!["~/Music".to_owned()] }
    }
}

/// Playback audio options: loudness normalization, and the volume in
/// thousandths of full scale.
#[derive(Clone, Copy, Debug, PartialEq, Eq, Structural)]
pub struct AudioSettings {
    pub normalization: bool,
    pub volume: u32,
}

impl Default for AudioSettings {
    /// Normalization off, volume at half scale.
    fn default() -> (r: Self)
        ensures
            !r.normalization,
            r.volume == 500u32,
    {
        AudioSettings { normalization: false, volume: 500 }
    }
}

/// The configuration format version this build writes.
pub fn default_version() -> (r: u32)
    ensures
        r == 1u32,
{
    1
}

/// The whole settings file.
#[derive(Debug)]
pub struct SettingsConfig {
    pub version: u32,
    pub equalizer: EqualizerSettings,
    pub scan: ScanSettings,
    pub audio: AudioSettings,
}

impl Default for SettingsConfig {
    /// Current version with every section at its default.
    fn default() -> (r: Self)
        ensures
            r.version == 1u32,
            !r.equalizer.enabled,
            r.equalizer.well_sized(),
            !r.audio.normalization,
            r.audio.volume == 500u32,
            r.scan.paths@.len() == 1,
    {
        SettingsConfig {
            version: default_version(),
            equalizer: EqualizerSettings::default(),
            scan: ScanSettings::default(),
            audio: AudioSettings::default(),
        }
    }
}

impl SettingsConfig {
    /// Brings an older configuration up to the current version; nothing else
    /// changes.
    pub fn migrate(&mut self)
        ensures
            final(self).version == (if old(self).version < 1u32 {
                1u32
            } else {
                old(self).version
            }),
            final(self).equalizer.enabled == old(self).equalizer.enabled,
            final(self).equalizer.frequencies@ == old(self).equalizer.frequencies@,
            final(self).equalizer.gains@ == old(self).equalizer.gains@,
            final(self).equalizer.q_values@ == old(self).equalizer.q_values@,
            final(self).scan.paths@ == old(self).scan.paths@,
            final(self).audio == old(self).audio,
    {
        if self.version < 1 {
            self.version = 1;
        }
    }
}

/// Replaces a band array of the wrong length with its default, so that
/// every band always has exactly one frequency, gain and quality entry.
/// The enabled flag passes through.
pub fn validate_equalizer(eq: &mut EqualizerSettings)
    ensures
        final(eq).enabled == old(eq).enabled,
        old(eq).frequencies@.len() == BAND_COUNT ==> final(eq).frequencies@ == old(
            eq,
        ).frequencies@,
        old(eq).frequencies@.len() != BAND_COUNT ==> final(eq).frequencies@
            == default_frequencies(),
        final(eq).well_sized(),
        old(eq).gains@.len() == BAND_COUNT ==> final(eq).gains@ == old(eq).gains@,
        old(eq).gains@.len() != BAND_COUNT ==> final(eq).gains@.len() == BAND_COUNT && (forall|
            i: int,
        | 0 <= i < BAND_COUNT ==> final(eq).gains@[i] == 0i32),
        old(eq).q_values@.len() == BAND_COUNT ==> final(eq).q_values@ == old(eq).q_values@,
        old(eq).q_values@.len() != BAND_COUNT ==> final(eq).q_values@.len() == BAND_COUNT && (
        forall|i: int| 0 <= i < BAND_COUNT ==> final(eq).q_values@[i] == DEFAULT_Q_MILLI),
{
    if eq.frequencies.len() != BAND_COUNT {
        eq.frequencies = vec![32, 64, 125, 250, 500, 1000, 2000, 4000, 8000, 16000];
        proof {
            assert(eq.frequencies@ =~= default_frequencies());
        }
    }
    if eq.gains.len() != BAND_COUNT {
        eq.gains = vec![0i32; 10];
    }
    if eq.q_values.len() != BAND_COUNT {
        eq.q_values = vec![DEFAULT_Q_MILLI; 10];
    }
}

} // verus!
