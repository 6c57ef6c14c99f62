//! The ten-band equalizer's parameter state.
//!
//! Each band is a peaking filter described by its center frequency (hertz),
//! quality (thousandths) and gain (hundredths of a decibel). The filter
//! coefficients themselves, and the per-sample cascade, are floating-point
//! work of the render backend, which derives them from the band list kept
//! here; a band at gain zero degenerates there to the identity transform.
//! This module holds and verifies every parameter rule: how bands come from
//! settings, what a disabled equalizer does to the effective gains, and the
//! bounds-checked per-band updates.

use vstd::prelude::*;

use crate::config::{EqualizerSettings, DEFAULT_Q_MILLI};

verus! {

/// One peaking band: center frequency (hertz), quality (thousandths), gain
/// (hundredths of a decibel).
#[derive(Clone, Copy, Debug, PartialEq, Eq, Structural)]
pub struct Band {
    pub fc: i32,
    pub q: u32,
    pub gain_db: i32,
}

/// The band a settings entry yields, with the standard fallbacks for
/// entries the settings arrays do not cover.
pub open spec fn band_from_settings(s: &EqualizerSettings, i: int) -> Band {
    Band {
        fc: if 0 <= i < s.frequencies@.len() {
            s.frequencies@[i]
        } else {
            1000i32
        },
        q: if 0 <= i < s.q_values@.len() {
            s.q_values@[i]
        } else {
            DEFAULT_Q_MILLI
        },
        gain_db: if 0 <= i < s.gains@.len() {
            s.gains@[i]
        } else {
            0i32
        },
    }
}

/// The equalizer's parameter state: the sample rate it was built for and
/// one band per configured frequency.
#[derive(Debug)]
pub struct Equalizer {
    sample_rate: u32,
    bands: Vec<Band>,
}

impl Equalizer {
    /// An equalizer for this sample rate, from the default settings.
    pub fn new(sample_rate: u32, _channels: u16) -> (r: Self)
        ensures
            r.sample_rate() == sample_rate,
            r.bands()@.len() == crate::config::BAND_COUNT,
            forall|i: int|
                0 <= i < r.bands()@.len() ==> #[trigger] r.bands()@[i].gain_db == 0i32
                    && r.bands()@[i].q == DEFAULT_Q_MILLI,
    {
        let settings = EqualizerSettings::default();
        Self::from_settings(sample_rate, &settings)
    }

    /// An equalizer for this sample rate, with one band per configured
    /// frequency; quality and gain fall back to their defaults where the
    /// settings arrays are shorter.
    pub fn from_settings(sample_rate: u32, settings: &EqualizerSettings) -> (r: Self)
        ensures
            r.sample_rate() == sample_rate,
            r.bands()@.len() == settings.frequencies@.len(),
            forall|i: int|
                0 <= i < r.bands()@.len() ==> #[trigger] r.bands()@[i] == band_from_settings(
                    settings,
                    i,
                ),
    {
        let num_bands = settings.frequencies.len();
        let mut bands: Vec<Band> = Vec::new();
        let mut i: usize = 0;
        while i < num_bands
            invariant
                num_bands == settings.frequencies@.len(),
                0 <= i <= num_bands,
                bands@.len() == i,
                forall|j: int|
                    0 <= j < i ==> #[trigger] bands@[j] == band_from_settings(settings, j),
            decreases num_bands - i,
        {
            let fc = settings.frequencies[i];
            let q = if i < settings.q_values.len() {
                settings.q_values[i]
            } else {
                DEFAULT_Q_MILLI
            };
            let gain_db = if i < settings.gains.len() {
                settings.gains[i]
            } else {
                0
            };
            bands.push(Band { fc, q, gain_db });
            i += 1;
        }
        Self { sample_rate, bands }
    }

    /// Rewrites the bands the settings cover: frequency and quality are
    /// taken as given; the gain is taken as given while the equalizer is
    /// enabled and flattened to zero while it is not. Bands beyond the
    /// settings stay.
    pub fn apply_settings(&mut self, settings: &EqualizerSettings)
        ensures
            final(self).sample_rate() == old(self).sample_rate(),
            final(self).bands()@.len() == old(self).bands()@.len(),
            forall|i: int|
                0 <= i < final(self).bands()@.len() ==> #[trigger] final(self).bands()@[i] == (if i
                    < settings.frequencies@.len() && i < settings.gains@.len() && i
                    < settings.q_values@.len() {
                    Band {
                        fc: settings.frequencies@[i],
                        q: settings.q_values@[i],
                        gain_db: if settings.enabled {
                            settings.gains@[i]
                        } else {
                            0i32
                        },
                    }
                } else {
                    old(self).bands()@[i]
                }),
    {
        let num_bands = if settings.frequencies.len() < self.bands.len() {
            settings.frequencies.len()
        } else {
            self.bands.len()
        };
        let mut i: usize = 0;
        while i < num_bands
            invariant
                num_bands <= self.bands@.len(),
                num_bands <= settings.frequencies@.len(),
                self.bands@.len() == old(self).bands@.len(),
                self.sample_rate == old(self).sample_rate,
                0 <= i <= num_bands,
                forall|j: int|
                    0 <= j < i && j < settings.gains@.len() && j < settings.q_values@.len()
                        ==> #[trigger] self.bands@[j] == (Band {
                        fc: settings.frequencies@[j],
                        q: settings.q_values@[j],
                        gain_db: if settings.enabled {
                            settings.gains@[j]
                        } else {
                            0i32
                        },
                    }),
                forall|j: int|
                    0 <= j < self.bands@.len() && !(j < i && j < settings.gains@.len() && j
                        < settings.q_values@.len()) ==> #[trigger] self.bands@[j] == old(
                        self,
                    ).bands@[j],
            decreases num_bands - i,
        {
            if i < settings.gains.len() && i < settings.q_values.len() {
                let freq = settings.frequencies[i];
                let gain = settings.gains[i];
                let q = settings.q_values[i];
                let effective_gain = if settings.enabled {
                    gain
                } else {
                    0
                };
                self.bands.set(i, Band { fc: freq, q, gain_db: effective_gain });
            }
            i += 1;
        }
    }

    /// Sets one band's gain; an index past the last band does nothing.
    pub fn set_gain(&mut self, band: usize, gain_db: i32)
        ensures
            final(self).sample_rate() == old(self).sample_rate(),
            final(self).bands()@.len() == old(self).bands()@.len(),
            band < old(self).bands()@.len() ==> final(self).bands()@ == old(
                self,
            ).bands()@.update(
                band as int,
                (Band {
                    fc: old(self).bands()@[band as int].fc,
                    q: old(self).bands()@[band as int].q,
                    gain_db: gain_db,
                }),
            ),
            band >= old(self).bands()@.len() ==> final(self).bands()@ == old(self).bands()@,
    {
        if band >= self.bands.len() {
            return ;
        }
        let fc = self.bands[band].fc;
        let q = self.bands[band].q;
        self.bands.set(band, Band { fc, q, gain_db });
    }

    /// Sets one band's quality; an index past the last band does nothing.
    pub fn set_q(&mut self, band: usize, q: u32)
        ensures
            final(self).sample_rate() == old(self).sample_rate(),
            final(self).bands()@.len() == old(self).bands()@.len(),
            band < old(self).bands()@.len() ==> final(self).bands()@ == old(
                self,
            ).bands()@.update(
                band as int,
                (Band {
                    fc: old(self).bands()@[band as int].fc,
                    q: q,
                    gain_db: old(self).bands()@[band as int].gain_db,
                }),
            ),
            band >= old(self).bands()@.len() ==> final(self).bands()@ == old(self).bands()@,
    {
        if band >= self.bands.len() {
            return ;
        }
        let fc = self.bands[band].fc;
        let gain_db = self.bands[band].gain_db;
        self.bands.set(band, Band { fc, q, gain_db });
    }

    /// The bands, in cascade order.
    pub fn get_bands(&self) -> (r: &Vec<Band>)
        ensures
            r == self.bands(),
    {
        &self.bands
    }

    /// The sample rate the equalizer was built for.
    pub fn get_sample_rate(&self) -> (r: u32)
        ensures
            r == self.sample_rate(),
    {
        self.sample_rate
    }

    /// The band list, for contracts.
    pub closed spec fn bands(&self) -> &Vec<Band> {
        &self.bands
    }

    /// The sample rate, for contracts.
    pub closed spec fn sample_rate(&self) -> u32 {
        self.sample_rate
    }
}

} // verus!
