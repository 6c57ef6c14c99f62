//! Loudness normalization state: an enabled flag, a target loudness, and
//! the linear gain applied to samples.
//!
//! Loudness is kept in hundredths of a LUFS and linear gain in thousandths
//! of unity. The decibel-to-linear conversion itself is floating-point work
//! of the render backend; this module holds every decision around it: the
//! gain cap, the peak clip-guard, and the reset rules.

use vstd::prelude::*;

verus! {

/// The default target loudness, in hundredths of a LUFS.
pub const DEFAULT_TARGET_CENTI_LUFS: i32 = -1400;

/// Unity gain, in thousandths.
pub const MILLI_UNITY: u32 = 1000;

/// The cap on a loudness-derived gain, in hundredths of a decibel.
pub const MAX_GAIN_CENTI_DB: i64 = 1200;

/// The normalization state the render chain reads.
#[derive(Clone, Copy, Debug, PartialEq, Eq, Structural)]
pub struct NormalizationState {
    pub enabled: bool,
    pub target_centi_lufs: i32,
    pub gain_milli: u32,
}

impl Default for NormalizationState {
    /// Disabled, at the default target, with unity gain.
    fn default() -> (r: Self)
        ensures
            !r.enabled,
            r.target_centi_lufs == DEFAULT_TARGET_CENTI_LUFS,
            r.gain_milli == MILLI_UNITY,
    {
        NormalizationState {
            enabled: false,
            target_centi_lufs: DEFAULT_TARGET_CENTI_LUFS,
            gain_milli: MILLI_UNITY,
        }
    }
}

impl NormalizationState {
    /// A state with the given flag and target, at unity gain.
    pub fn new(enabled: bool, target_centi_lufs: i32) -> (r: Self)
        ensures
            r.enabled == enabled,
            r.target_centi_lufs == target_centi_lufs,
            r.gain_milli == MILLI_UNITY,
    {
        NormalizationState { enabled, target_centi_lufs, gain_milli: MILLI_UNITY }
    }

    /// Turns normalization on or off; disabling forces the gain back to
    /// unity, so a later enable cannot replay a stale gain.
    pub fn set_enabled(&mut self, enabled: bool)
        ensures
            final(self).enabled == enabled,
            final(self).target_centi_lufs == old(self).target_centi_lufs,
            !enabled ==> final(self).gain_milli == MILLI_UNITY,
            enabled ==> final(self).gain_milli == old(self).gain_milli,
    {
        self.enabled = enabled;
        if !enabled {
            self.gain_milli = MILLI_UNITY;
        }
    }

    /// Forces the gain back to unity.
    pub fn reset(&mut self)
        ensures
            final(self).gain_milli == MILLI_UNITY,
            final(self).enabled == old(self).enabled,
            final(self).target_centi_lufs == old(self).target_centi_lufs,
    {
        self.gain_milli = MILLI_UNITY;
    }

    /// The decibel gain that brings a track of the given loudness to the
    /// target, capped so a quiet track is never boosted past the cap.
    pub fn capped_gain_centi_db(&self, track_centi_lufs: i32) -> (r: i64)
        ensures
            r == (if self.target_centi_lufs - track_centi_lufs > MAX_GAIN_CENTI_DB {
                MAX_GAIN_CENTI_DB as int
            } else {
                self.target_centi_lufs - track_centi_lufs
            }),
    {
        let diff: i64 = self.target_centi_lufs as i64 - track_centi_lufs as i64;
        if diff > MAX_GAIN_CENTI_DB {
            MAX_GAIN_CENTI_DB
        } else {
            diff
        }
    }

    /// Adopts a loudness-derived linear gain; disabled normalization pins
    /// the gain at unity.
    pub fn set_track_gain(&mut self, linear_gain_milli: u32)
        ensures
            final(self).enabled == old(self).enabled,
            final(self).target_centi_lufs == old(self).target_centi_lufs,
            !old(self).enabled ==> final(self).gain_milli == MILLI_UNITY,
            old(self).enabled ==> final(self).gain_milli == linear_gain_milli,
    {
        if !self.enabled {
            self.gain_milli = MILLI_UNITY;
            return ;
        }
        self.gain_milli = linear_gain_milli;
    }

    /// Adopts a ReplayGain-derived linear gain, clamped so that gain times
    /// peak never exceeds full scale when a positive peak is known; disabled
    /// normalization pins the gain at unity. The clip guard holds of the
    /// result: with a known positive peak, `gain_milli * peak_milli` stays
    /// within one, in milli-squared units.
    pub fn set_replaygain(&mut self, linear_gain_milli: u32, peak_milli: Option<i32>)
        ensures
            final(self).enabled == old(self).enabled,
            final(self).target_centi_lufs == old(self).target_centi_lufs,
            !old(self).enabled ==> final(self).gain_milli == MILLI_UNITY,
            old(self).enabled ==> final(self).gain_milli == (match peak_milli {
                Some(p) => if p > 0 {
                    if linear_gain_milli <= 1_000_000u32 / (p as u32) {
                        linear_gain_milli
                    } else {
                        1_000_000u32 / (p as u32)
                    }
                } else {
                    linear_gain_milli
                },
                None => linear_gain_milli,
            }),
            old(self).enabled && (peak_milli matches Some(p) && p > 0) ==> final(self).gain_milli
                as int * peak_milli->0 as int <= 1_000_000,
    {
        if !self.enabled {
            self.gain_milli = MILLI_UNITY;
            return ;
        }
        let mut linear_gain = linear_gain_milli;
        if let Some(peak) = peak_milli {
            if peak > 0 {
                let max_gain: u32 = 1_000_000 / (peak as u32);
                if linear_gain > max_gain {
                    linear_gain = max_gain;
                }
                proof {
                    let p = peak as int;
                    assert((1_000_000int / p) * p <= 1_000_000) by (nonlinear_arith)
                        requires
                            p > 0,
                    ;
                    assert(linear_gain as int * p <= (1_000_000int / p) * p) by (nonlinear_arith)
                        requires
                            p > 0,
                            linear_gain as int <= 1_000_000int / p,
                    ;
                }
            }
        }
        self.gain_milli = linear_gain;
    }
}

} // verus!
