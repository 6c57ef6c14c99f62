use vleer::config::{validate_equalizer, AudioSettings, EqualizerSettings, SettingsConfig};
use vleer::equalizer::Equalizer;
use vleer::normalization::NormalizationState;
use vleer::playback::PlaybackContext;
use vleer::queue::{Queue, QueueItem};
use vleer::watch::{config_reload_needed, rescan_needed, FsEventKind, WatchEvent};

#[test]
fn replaygain_clip_guard_caps_the_gain() {
    // A gain of +10 dB is about 3.162 linear; with a peak of one half the
    // applied gain may not exceed two.
    let mut state = NormalizationState::new(true, -1400);
    state.set_replaygain(3162, Some(500));
    assert_eq!(state.gain_milli, 2000);
    assert!(state.gain_milli as i64 * 500 <= 1_000_000);
}

#[test]
fn replaygain_without_peak_passes_through() {
    let mut state = NormalizationState::new(true, -1400);
    state.set_replaygain(3162, None);
    assert_eq!(state.gain_milli, 3162);
}

#[test]
fn disabling_normalization_forces_unity_gain() {
    let mut state = NormalizationState::new(true, -1400);
    state.set_track_gain(2000);
    assert_eq!(state.gain_milli, 2000);
    state.set_enabled(false);
    assert_eq!(state.gain_milli, 1000);
    state.set_enabled(true);
    assert_eq!(state.gain_milli, 1000);

    let mut engine = PlaybackContext::new();
    engine.set_normalization_enabled(true);
    engine.set_track_replaygain(2500, None);
    assert_eq!(engine.normalization_state().gain_milli, 2500);
    engine.set_normalization_enabled(false);
    assert_eq!(engine.normalization_state().gain_milli, 1000);
}

#[test]
fn disabled_normalization_pins_unity_gain() {
    let mut state = NormalizationState::new(false, -1400);
    state.set_replaygain(3162, Some(500));
    assert_eq!(state.gain_milli, 1000);
    state.set_track_gain(2500);
    assert_eq!(state.gain_milli, 1000);
}

#[test]
fn loudness_gain_is_capped_at_twelve_decibels() {
    let state = NormalizationState::new(true, -1400);
    assert_eq!(state.capped_gain_centi_db(-2000), 600);
    assert_eq!(state.capped_gain_centi_db(-5000), 1200);
    assert_eq!(state.capped_gain_centi_db(-1000), -400);
}

#[test]
fn reset_returns_to_unity() {
    let mut state = NormalizationState::new(true, -1400);
    state.set_track_gain(2500);
    state.reset();
    assert_eq!(state.gain_milli, 1000);
}

#[test]
fn default_equalizer_is_flat_and_well_sized() {
    let eq = EqualizerSettings::default();
    assert!(!eq.enabled);
    assert_eq!(eq.frequencies, vec![32, 64, 125, 250, 500, 1000, 2000, 4000, 8000, 16000]);
    assert_eq!(eq.gains, vec![0; 10]);
    assert_eq!(eq.q_values, vec![1461; 10]);
}

#[test]
fn validate_equalizer_resets_wrong_lengths() {
    let mut eq = EqualizerSettings::default();
    eq.frequencies = vec![100, 200, 300];
    eq.gains = vec![100, 200];
    eq.q_values = vec![1000; 11];
    validate_equalizer(&mut eq);
    assert_eq!(eq.frequencies, vec![32, 64, 125, 250, 500, 1000, 2000, 4000, 8000, 16000]);
    assert_eq!(eq.gains, vec![0; 10]);
    assert_eq!(eq.q_values, vec![1461; 10]);
}

#[test]
fn validate_equalizer_keeps_well_sized_arrays() {
    let mut eq = EqualizerSettings::default();
    eq.gains = vec![150; 10];
    validate_equalizer(&mut eq);
    assert_eq!(eq.gains, vec![150; 10]);
}

#[test]
fn settings_migrate_to_the_current_version() {
    let mut config = SettingsConfig::default();
    config.version = 0;
    config.migrate();
    assert_eq!(config.version, 1);
}

#[test]
fn equalizer_builds_one_band_per_frequency() {
    let settings = EqualizerSettings::default();
    let eq = Equalizer::from_settings(48000, &settings);
    let bands = eq.get_bands();
    assert_eq!(bands.len(), 10);
    assert_eq!(bands[0].fc, 32);
    assert_eq!(bands[9].fc, 16000);
    assert_eq!(bands[3].q, 1461);
    assert_eq!(bands[3].gain_db, 0);
    assert_eq!(eq.get_sample_rate(), 48000);
}

#[test]
fn equalizer_band_updates_are_bounds_checked() {
    let mut eq = Equalizer::new(44100, 2);
    eq.set_gain(2, 450);
    eq.set_q(2, 2000);
    assert_eq!(eq.get_bands()[2].gain_db, 450);
    assert_eq!(eq.get_bands()[2].q, 2000);
    eq.set_gain(99, 450);
    assert_eq!(eq.get_bands().len(), 10);
}

#[test]
fn disabled_settings_flatten_applied_gains() {
    let mut settings = EqualizerSettings::default();
    settings.enabled = false;
    settings.gains = vec![300; 10];
    let mut eq = Equalizer::new(44100, 2);
    eq.apply_settings(&settings);
    assert!(eq.get_bands().iter().all(|b| b.gain_db == 0));
    settings.enabled = true;
    eq.apply_settings(&settings);
    assert!(eq.get_bands().iter().all(|b| b.gain_db == 300));
}

#[test]
fn playback_starts_idle_and_paused() {
    let engine = PlaybackContext::new();
    assert!(engine.is_paused());
    assert!(!engine.is_playing());
    assert!(engine.current_file().is_none());
    assert_eq!(engine.get_volume(), 500);
}

#[test]
fn transport_transitions_are_idempotent() {
    let mut engine = PlaybackContext::new();
    engine.play();
    engine.play();
    assert!(engine.is_playing());
    engine.pause();
    engine.pause();
    assert!(engine.is_paused());
    engine.toggle_play_pause();
    assert!(engine.is_playing());
    engine.stop();
    assert!(engine.is_paused());
    assert!(engine.current_file().is_none());
}

#[test]
fn volume_clamps_to_full_scale() {
    let mut engine = PlaybackContext::new();
    engine.set_volume(1500);
    assert_eq!(engine.get_volume(), 1000);
    engine.set_volume(250);
    assert_eq!(engine.get_volume(), 250);
}

#[test]
fn loading_holds_the_file_paused_with_replaygain() {
    let mut engine = PlaybackContext::new();
    let mut settings = SettingsConfig::default();
    settings.audio = AudioSettings { normalization: true, volume: 500 };
    engine.play();
    engine.note_loaded("/music/a.mp3", 48000, &settings, Some(3162), Some(500));
    assert!(engine.is_paused());
    assert_eq!(engine.current_file().map(|p| p.as_str()), Some("/music/a.mp3"));
    assert!(engine.is_normalization_enabled());
    assert_eq!(engine.normalization_state().gain_milli, 2000);
}

#[test]
fn disabling_the_equalizer_flattens_gains() {
    let mut engine = PlaybackContext::new();
    engine.set_equalizer_gain(1, 600);
    assert_eq!(engine.get_equalizer_gains()[1], 600);
    engine.set_equalizer_enabled(false);
    assert!(engine.get_equalizer_gains().iter().all(|&g| g == 0));
    assert_eq!(engine.get_equalizer_qs().len(), 10);
}

#[test]
fn auto_advance_follows_the_queue() {
    let mut engine = PlaybackContext::new();
    let mut queue = Queue::new();
    queue.add(QueueItem::new("a.mp3".to_string()));
    queue.add(QueueItem::new("b.mp3".to_string()));
    engine.play();
    assert!(engine.should_advance(true));
    assert!(!engine.should_advance(false));
    let next = engine.auto_advance(&mut queue).unwrap();
    assert_eq!(next.path, "b.mp3");
    assert!(engine.is_playing());
    let done = engine.auto_advance(&mut queue);
    assert!(done.is_none());
    assert!(engine.is_paused());
}

#[test]
fn audio_events_trigger_a_rescan() {
    let events = vec![
        WatchEvent { kind: FsEventKind::Other, paths: vec!["/music/a.mp3".to_string()] },
        WatchEvent { kind: FsEventKind::Create, paths: vec!["/music/b.mp3".to_string()] },
    ];
    assert!(rescan_needed(&events));
}

#[test]
fn irrelevant_events_do_not_trigger_a_rescan() {
    let events = vec![
        WatchEvent { kind: FsEventKind::Create, paths: vec!["/music/cover.jpg".to_string()] },
        WatchEvent { kind: FsEventKind::Other, paths: vec!["/music/b.mp3".to_string()] },
    ];
    assert!(!rescan_needed(&events));
    assert!(!rescan_needed(&vec![]));
}

#[test]
fn config_reload_follows_data_changes() {
    let touch = vec![WatchEvent { kind: FsEventKind::ModifyData, paths: vec![] }];
    assert!(config_reload_needed(&touch));
    let remove = vec![WatchEvent { kind: FsEventKind::Remove, paths: vec![] }];
    assert!(!config_reload_needed(&remove));
}
