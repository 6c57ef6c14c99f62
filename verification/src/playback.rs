//! The playback engine's transport state: what is loaded, whether it plays,
//! the volume, and the equalizer and normalization parameters the render
//! chain reads.
//!
//! Decoding, the output device and the per-sample float path belong to the
//! host application's render backend; it drives this state machine and
//! reads the parameters from it. Volume is kept in thousandths of full
//! scale; the backend maps it through its perceptual curve. Auto-advance is
//! split the same way: the backend reports a drained output buffer, and
//! `should_advance` plus `auto_advance` decide what happens.

use vstd::prelude::*;

use crate::config::SettingsConfig;
use crate::equalizer::{band_from_settings, Equalizer};
use crate::normalization::{NormalizationState, MILLI_UNITY};
use crate::queue::{Queue, QueueItem};

verus! {

/// Full volume, in thousandths.
pub const MILLI_FULL_VOLUME: u32 = 1000;

/// The playback engine's control state.
pub struct PlaybackContext {
    equalizer: Equalizer,
    normalization: NormalizationState,
    volume: u32,
    is_paused: bool,
    current_file: Option<String>,
}

impl PlaybackContext {
    /// An idle engine: nothing loaded, paused, half volume, a default
    /// equalizer and normalization off.
    pub fn new() -> (r: Self)
        ensures
            r.volume() == 500u32,
            r.paused(),
            r.file().is_none(),
            !r.norm().enabled,
            r.norm().gain_milli == MILLI_UNITY,
    {
        PlaybackContext {
            equalizer: Equalizer::new(44100, 2),
            normalization: NormalizationState::default(),
            volume: 500,
            is_paused: true,
            current_file: None,
        }
    }

    /// Adopts a newly loaded file: the equalizer is rebuilt for its sample
    /// rate from the settings, normalization is reset and, when enabled and
    /// a ReplayGain gain is known, parameterized from it (the linear gain
    /// comes from the backend's decibel conversion), and the engine holds
    /// the file paused.
    pub fn note_loaded(
        &mut self,
        path: &str,
        sample_rate: u32,
        settings: &SettingsConfig,
        replaygain_linear_milli: Option<u32>,
        replaygain_peak_milli: Option<i32>,
    )
        ensures
            final(self).file() == Some(path@),
            final(self).paused(),
            final(self).volume() == old(self).volume(),
            final(self).eq().sample_rate() == sample_rate,
            final(self).eq().bands()@.len() == settings.equalizer.frequencies@.len(),
            forall|i: int|
                0 <= i < final(self).eq().bands()@.len() ==> #[trigger] final(self).eq().bands()@[i] == band_from_settings(&settings.equalizer, i),
            final(self).norm().enabled == settings.audio.normalization,
            !settings.audio.normalization ==> final(self).norm().gain_milli == MILLI_UNITY,
            settings.audio.normalization && replaygain_linear_milli is None ==> final(self).norm().gain_milli == MILLI_UNITY,
            settings.audio.normalization && replaygain_linear_milli is Some ==> final(self).norm().gain_milli == (match replaygain_peak_milli {
                Some(p) => if p > 0 {
                    if replaygain_linear_milli->0 <= 1_000_000u32 / (p as u32) {
                        replaygain_linear_milli->0
                    } else {
                        1_000_000u32 / (p as u32)
                    }
                } else {
                    replaygain_linear_milli->0
                },
                None => replaygain_linear_milli->0,
            }),
            settings.audio.normalization && (replaygain_linear_milli matches Some(g))
                && (replaygain_peak_milli matches Some(p) && p > 0) ==> final(self).norm().gain_milli as int * replaygain_peak_milli->0 as int <= 1_000_000,
    {
        self.equalizer = Equalizer::from_settings(sample_rate, &settings.equalizer);
        self.normalization.set_enabled(settings.audio.normalization);
        self.normalization.reset();
        if self.normalization.enabled {
            if let Some(gain_milli) = replaygain_linear_milli {
                self.normalization.set_replaygain(gain_milli, replaygain_peak_milli);
            }
        }
        self.current_file = Some(path.to_owned());
        self.is_paused = true;
    }

    /// Starts playback; already-playing is left alone.
    pub fn play(&mut self)
        ensures
            !final(self).paused(),
            final(self).file() == old(self).file(),
            final(self).volume() == old(self).volume(),
            final(self).eq() == old(self).eq(),
            final(self).norm() == old(self).norm(),
    {
        if self.is_paused {
            self.is_paused = false;
        }
    }

    /// Pauses playback; already-paused is left alone.
    pub fn pause(&mut self)
        ensures
            final(self).paused(),
            final(self).file() == old(self).file(),
            final(self).volume() == old(self).volume(),
            final(self).eq() == old(self).eq(),
            final(self).norm() == old(self).norm(),
    {
        if !self.is_paused {
            self.is_paused = true;
        }
    }

    /// Flips between playing and paused.
    pub fn toggle_play_pause(&mut self)
        ensures
            final(self).paused() == !old(self).paused(),
            final(self).file() == old(self).file(),
            final(self).volume() == old(self).volume(),
            final(self).eq() == old(self).eq(),
            final(self).norm() == old(self).norm(),
    {
        if self.is_paused {
            self.play();
        } else {
            self.pause();
        }
    }

    /// Halts playback and clears the loaded file.
    pub fn stop(&mut self)
        ensures
            final(self).paused(),
            final(self).file().is_none(),
            final(self).volume() == old(self).volume(),
            final(self).eq() == old(self).eq(),
            final(self).norm() == old(self).norm(),
    {
        self.is_paused = true;
        self.current_file = None;
    }

    /// Sets the volume, clamped to full scale.
    pub fn set_volume(&mut self, vol: u32)
        ensures
            final(self).volume() == (if vol <= MILLI_FULL_VOLUME {
                vol
            } else {
                MILLI_FULL_VOLUME
            }),
            final(self).paused() == old(self).paused(),
            final(self).file() == old(self).file(),
            final(self).eq() == old(self).eq(),
            final(self).norm() == old(self).norm(),
    {
        self.volume = if vol <= MILLI_FULL_VOLUME {
            vol
        } else {
            MILLI_FULL_VOLUME
        };
    }

    /// The volume, in thousandths of full scale.
    pub fn get_volume(&self) -> (r: u32)
        ensures
            r == self.volume(),
    {
        self.volume
    }

    /// Whether playback is paused.
    pub fn is_paused(&self) -> (r: bool)
        ensures
            r == self.paused(),
    {
        self.is_paused
    }

    /// Whether playback is running.
    pub fn is_playing(&self) -> (r: bool)
        ensures
            r == !self.paused(),
    {
        !self.is_paused
    }

    /// The loaded file's path, if any.
    pub fn current_file(&self) -> (r: Option<&String>)
        ensures
            match r {
                Some(p) => self.file() == Some(p@),
                None => self.file().is_none(),
            },
    {
        match &self.current_file {
            Some(p) => Some(p),
            None => None,
        }
    }

    /// Sets one equalizer band's gain (hundredths of a decibel); indices
    /// past the band count do nothing.
    pub fn set_equalizer_gain(&mut self, band: usize, gain_db: i32)
        ensures
            final(self).eq().bands()@.len() == old(self).eq().bands()@.len(),
            band < old(self).eq().bands()@.len() ==> final(self).eq().bands()@[band as int].gain_db
                == gain_db,
            band >= old(self).eq().bands()@.len() ==> final(self).eq().bands()@ == old(self).eq().bands()@,
            final(self).norm() == old(self).norm(),
            final(self).volume() == old(self).volume(),
            final(self).paused() == old(self).paused(),
            final(self).file() == old(self).file(),
    {
        self.equalizer.set_gain(band, gain_db);
    }

    /// Sets one equalizer band's quality (thousandths).
    pub fn set_equalizer_q(&mut self, band: usize, q: u32)
        ensures
            final(self).eq().bands()@.len() == old(self).eq().bands()@.len(),
            band < old(self).eq().bands()@.len() ==> final(self).eq().bands()@[band as int].q == q,
            final(self).norm() == old(self).norm(),
            final(self).volume() == old(self).volume(),
            final(self).paused() == old(self).paused(),
            final(self).file() == old(self).file(),
    {
        self.equalizer.set_q(band, q);
    }

    /// Disabling the equalizer flattens every band's gain to zero, which
    /// the render backend turns into the identity transform per band;
    /// enabling changes nothing until new gains arrive.
    pub fn set_equalizer_enabled(&mut self, enabled: bool)
        ensures
            final(self).eq().bands()@.len() == old(self).eq().bands()@.len(),
            !enabled ==> forall|i: int|
                0 <= i < final(self).eq().bands()@.len() ==> #[trigger] final(self).eq().bands()@[i].gain_db == 0i32,
            enabled ==> final(self).eq() == old(self).eq(),
            final(self).norm() == old(self).norm(),
            final(self).volume() == old(self).volume(),
            final(self).paused() == old(self).paused(),
            final(self).file() == old(self).file(),
    {
        if !enabled {
            let n = self.equalizer.get_bands().len();
            let mut i: usize = 0;
            while i < n
                invariant
                    n == self.equalizer.bands()@.len(),
                    self.equalizer.bands()@.len() == old(self).equalizer.bands()@.len(),
                    self.normalization == old(self).normalization,
                    self.volume == old(self).volume,
                    self.is_paused == old(self).is_paused,
                    self.current_file == old(self).current_file,
                    0 <= i <= n,
                    forall|j: int|
                        0 <= j < i ==> #[trigger] self.equalizer.bands()@[j].gain_db == 0i32,
                decreases n - i,
            {
                self.equalizer.set_gain(i, 0);
                i += 1;
            }
        }
    }

    /// The equalizer band gains, in cascade order.
    pub fn get_equalizer_gains(&self) -> (r: Vec<i32>)
        ensures
            r@.len() == self.eq().bands()@.len(),
            forall|i: int| 0 <= i < r@.len() ==> #[trigger] r@[i] == self.eq().bands()@[i].gain_db,
    {
        let bands = self.equalizer.get_bands();
        let n = bands.len();
        let mut out: Vec<i32> = Vec::new();
        let mut i: usize = 0;
        while i < n
            invariant
                n == bands@.len(),
                bands == self.eq().bands(),
                0 <= i <= n,
                out@.len() == i,
                forall|j: int| 0 <= j < i ==> #[trigger] out@[j] == bands@[j].gain_db,
            decreases n - i,
        {
            out.push(bands[i].gain_db);
            i += 1;
        }
        out
    }

    /// The equalizer band qualities, in cascade order.
    pub fn get_equalizer_qs(&self) -> (r: Vec<u32>)
        ensures
            r@.len() == self.eq().bands()@.len(),
            forall|i: int| 0 <= i < r@.len() ==> #[trigger] r@[i] == self.eq().bands()@[i].q,
    {
        let bands = self.equalizer.get_bands();
        let n = bands.len();
        let mut out: Vec<u32> = Vec::new();
        let mut i: usize = 0;
        while i < n
            invariant
                n == bands@.len(),
                bands == self.eq().bands(),
                0 <= i <= n,
                out@.len() == i,
                forall|j: int| 0 <= j < i ==> #[trigger] out@[j] == bands@[j].q,
            decreases n - i,
        {
            out.push(bands[i].q);
            i += 1;
        }
        out
    }

    /// Rebuilds the equalizer bands from settings, respecting the enabled
    /// flag as `Equalizer::apply_settings` does.
    pub fn load_equalizer_from_settings(&mut self, settings: &SettingsConfig)
        ensures
            final(self).eq().bands()@.len() == old(self).eq().bands()@.len(),
            final(self).norm() == old(self).norm(),
            final(self).volume() == old(self).volume(),
            final(self).paused() == old(self).paused(),
            final(self).file() == old(self).file(),
    {
        self.equalizer.apply_settings(&settings.equalizer);
    }

    /// Applies volume, equalizer and normalization settings together.
    pub fn apply_settings(&mut self, settings: &SettingsConfig)
        ensures
            final(self).volume() == (if settings.audio.volume <= MILLI_FULL_VOLUME {
                settings.audio.volume
            } else {
                MILLI_FULL_VOLUME
            }),
            final(self).norm().enabled == settings.audio.normalization,
            final(self).paused() == old(self).paused(),
            final(self).file() == old(self).file(),
    {
        self.set_volume(settings.audio.volume);
        self.load_equalizer_from_settings(settings);
        self.set_normalization_enabled(settings.audio.normalization);
    }

    /// Turns loudness normalization on or off; disabling forces the gain
    /// back to unity.
    pub fn set_normalization_enabled(&mut self, enabled: bool)
        ensures
            final(self).norm().enabled == enabled,
            !enabled ==> final(self).norm().gain_milli == MILLI_UNITY,
            enabled ==> final(self).norm().gain_milli == old(self).norm().gain_milli,
            final(self).eq() == old(self).eq(),
            final(self).volume() == old(self).volume(),
            final(self).paused() == old(self).paused(),
            final(self).file() == old(self).file(),
    {
        self.normalization.set_enabled(enabled);
    }

    /// Whether loudness normalization is on.
    pub fn is_normalization_enabled(&self) -> (r: bool)
        ensures
            r == self.norm().enabled,
    {
        self.normalization.enabled
    }

    /// Parameterizes normalization from a track's ReplayGain data; the
    /// clip guard of `NormalizationState::set_replaygain` applies.
    pub fn set_track_replaygain(&mut self, linear_gain_milli: u32, peak_milli: Option<i32>)
        ensures
            !old(self).norm().enabled ==> final(self).norm().gain_milli == MILLI_UNITY,
            old(self).norm().enabled ==> final(self).norm().gain_milli == (match peak_milli {
                Some(p) => if p > 0 {
                    if linear_gain_milli <= 1_000_000u32 / (p as u32) {
                        linear_gain_milli
                    } else {
                        1_000_000u32 / (p as u32)
                    }
                } else {
                    linear_gain_milli
                },
                None => linear_gain_milli,
            }),
            old(self).norm().enabled && (peak_milli matches Some(p) && p > 0) ==> final(self).norm().gain_milli as int * peak_milli->0 as int <= 1_000_000,
            final(self).norm().enabled == old(self).norm().enabled,
            final(self).volume() == old(self).volume(),
            final(self).paused() == old(self).paused(),
            final(self).file() == old(self).file(),
    {
        self.normalization.set_replaygain(linear_gain_milli, peak_milli);
    }

    /// The equalizer parameters the render chain derives coefficients from.
    pub fn equalizer(&self) -> (r: &Equalizer)
        ensures
            r == self.eq(),
    {
        &self.equalizer
    }

    /// The normalization state the render chain reads.
    pub fn normalization_state(&self) -> (r: NormalizationState)
        ensures
            r == self.norm(),
    {
        self.normalization
    }

    /// Whether the drained-output report calls for an automatic advance:
    /// only while playing.
    pub fn should_advance(&self, sink_empty: bool) -> (r: bool)
        ensures
            r == (sink_empty && !self.paused()),
    {
        sink_empty && !self.is_paused
    }

    /// One auto-advance step: asks the queue for the next item and hands it
    /// back for the backend to load and play; a finished queue pauses the
    /// engine instead.
    pub fn auto_advance(&mut self, queue: &mut Queue) -> (r: Option<QueueItem>)
        requires
            old(queue)@.inv(),
        ensures
            final(queue)@.inv(),
            final(queue)@.items == old(queue)@.items,
            r is Some <==> old(queue)@.can_advance(),
            old(queue)@.can_advance() ==> {
                &&& final(queue)@.current == Some(old(queue)@.advanced_position())
                &&& r->0.path@ == final(queue)@.items[old(queue)@.advanced_position()].path@
                &&& r->0.song_id.deep_view() == final(queue)@.items[old(queue)@.advanced_position()].song_id.deep_view()
                &&& r->0.title.deep_view() == final(queue)@.items[old(queue)@.advanced_position()].title.deep_view()
                &&& r->0.artist_name.deep_view() == final(queue)@.items[old(queue)@.advanced_position()].artist_name.deep_view()
                &&& r->0.album_name.deep_view() == final(queue)@.items[old(queue)@.advanced_position()].album_name.deep_view()
                &&& r->0.duration == final(queue)@.items[old(queue)@.advanced_position()].duration
                &&& r->0.replaygain_track_gain == final(queue)@.items[old(queue)@.advanced_position()].replaygain_track_gain
                &&& r->0.replaygain_track_peak == final(queue)@.items[old(queue)@.advanced_position()].replaygain_track_peak
                &&& final(self).paused() == old(self).paused()
            },
            !old(queue)@.can_advance() ==> final(self).paused(),
    {
        let item = match queue.next() {
            Some(found) => Some(found.clone()),
            None => None,
        };
        match item {
            Some(it) => Some(it),
            None => {
                self.pause();
                None
            },
        }
    }

    /// The equalizer, for contracts.
    pub closed spec fn eq(&self) -> &Equalizer {
        &self.equalizer
    }

    /// The normalization state, for contracts.
    pub closed spec fn norm(&self) -> NormalizationState {
        self.normalization
    }

    /// The volume, for contracts.
    pub closed spec fn volume(&self) -> u32 {
        self.volume
    }

    /// Whether playback is paused, for contracts.
    pub closed spec fn paused(&self) -> bool {
        self.is_paused
    }

    /// The loaded file's path, for contracts.
    pub closed spec fn file(&self) -> Option<Seq<char>> {
        match self.current_file {
            Some(p) => Some(p@),
            None => None,
        }
    }
}

} // verus!
