use vleer::metadata::AudioMetadata;
use vleer::scan::{expand_scan_paths, expand_tilde, expand_tilde_with, MusicScanner, ScannedTrack};
use vleer::store::{LibraryStore, StoreError};
use vleer::text::path_starts_with;
use vleer::types::Cuid;

fn track(path: &str, artist: Option<&str>, album: Option<&str>, duration: i32) -> ScannedTrack {
    let mut metadata = AudioMetadata::empty();
    metadata.artist = artist.map(|s| s.to_string());
    metadata.album = album.map(|s| s.to_string());
    metadata.duration = Some(duration);
    metadata.resolve_title(path);
    ScannedTrack { path: path.to_string(), metadata }
}

fn scanner() -> MusicScanner {
    MusicScanner::new(vec!["/music".to_string()])
}

#[test]
fn scan_discovers_untagged_file() {
    let mut store = LibraryStore::new();
    let stats = scanner().scan_and_save(&mut store, vec![track("/music/track.mp3", None, None, 180)]);
    assert_eq!(stats.scanned, 1);
    assert_eq!(stats.added, 1);
    assert_eq!(stats.updated, 0);
    assert_eq!(stats.removed, 0);
    assert_eq!(stats.failed, 0);
    let song = store.get_song_by_path("/music/track.mp3").unwrap();
    assert_eq!(song.title, "track");
    assert_eq!(song.duration, Some(180));
    assert!(song.artist_id.is_none());
    assert!(song.album_id.is_none());
}

#[test]
fn rescan_unchanged_does_no_work() {
    let mut store = LibraryStore::new();
    let tracks = vec![
        track("/music/a.mp3", Some("Ada"), Some("First"), 100),
        track("/music/b.mp3", Some("Ada"), Some("First"), 120),
    ];
    let first = scanner().scan_and_save(&mut store, tracks.clone());
    assert_eq!(first.added, 2);
    assert_eq!(first.failed, 0);
    let second = scanner().scan_and_save(&mut store, tracks);
    assert_eq!(second.scanned, 2);
    assert_eq!(second.added, 0);
    assert_eq!(second.updated, 0);
    assert_eq!(second.removed, 0);
    assert_eq!(second.failed, 0);
}

#[test]
fn deleting_a_file_removes_its_song() {
    let mut store = LibraryStore::new();
    let both = vec![
        track("/music/a.mp3", Some("Ada"), None, 100),
        track("/music/b.mp3", Some("Bo"), None, 120),
    ];
    scanner().scan_and_save(&mut store, both);
    let stats = scanner().scan_and_save(
        &mut store,
        vec![track("/music/a.mp3", Some("Ada"), None, 100)],
    );
    assert!(stats.removed >= 1);
    assert!(store.get_song_by_path("/music/b.mp3").is_none());
    assert_eq!(store.get_all_songs().len(), 1);
}

#[test]
fn songs_outside_every_root_are_removed() {
    let mut store = LibraryStore::new();
    scanner().scan_and_save(&mut store, vec![track("/music/a.mp3", None, None, 100)]);
    let narrow = MusicScanner::new(vec!["/elsewhere".to_string()]);
    // The next pass sees no files and covers a different root, so the old
    // row fails both halves of the keep condition.
    let stats = narrow.scan_and_save(&mut store, vec![]);
    assert_eq!(stats.removed, 1);
    assert!(store.get_all_songs().is_empty());
}

#[test]
fn artists_and_albums_deduplicate_by_key() {
    let mut store = LibraryStore::new();
    let tracks = vec![
        track("/music/a.mp3", Some("Ada"), Some("First"), 100),
        track("/music/b.mp3", Some("Ada"), Some("First"), 120),
        track("/music/c.mp3", Some("Ada"), Some("Second"), 130),
    ];
    scanner().scan_and_save(&mut store, tracks);
    assert_eq!(store.get_all_artists().len(), 1);
    assert_eq!(store.get_all_albums().len(), 2);
}

#[test]
fn orphaned_artists_and_albums_are_collected() {
    let mut store = LibraryStore::new();
    scanner().scan_and_save(
        &mut store,
        vec![
            track("/music/a.mp3", Some("Ada"), Some("First"), 100),
            track("/music/b.mp3", Some("Bo"), Some("Other"), 110),
        ],
    );
    assert_eq!(store.get_all_artists().len(), 2);
    let stats = scanner().scan_and_save(
        &mut store,
        vec![track("/music/b.mp3", Some("Bo"), Some("Other"), 110)],
    );
    assert_eq!(stats.removed, 1);
    assert_eq!(store.get_all_artists().len(), 1);
    assert_eq!(store.get_all_artists()[0].name, "Bo");
    assert_eq!(store.get_all_albums().len(), 1);
    assert_eq!(store.get_all_albums()[0].title, "Other");
}

#[test]
fn changed_metadata_updates_in_place() {
    let mut store = LibraryStore::new();
    scanner().scan_and_save(&mut store, vec![track("/music/a.mp3", None, None, 100)]);
    let mut changed = track("/music/a.mp3", None, None, 100);
    changed.metadata.title = Some("Renamed".to_string());
    changed.metadata.replaygain_track_gain = Some(-3500);
    let stats = scanner().scan_and_save(&mut store, vec![changed]);
    assert_eq!(stats.added, 0);
    assert_eq!(stats.updated, 1);
    let song = store.get_song_by_path("/music/a.mp3").unwrap();
    assert_eq!(song.title, "Renamed");
    assert_eq!(song.replaygain_track_gain, Some(-3500));
}

#[test]
fn is_audio_file_checks_extension_case_insensitively() {
    assert!(MusicScanner::is_audio_file("/music/a.mp3"));
    assert!(MusicScanner::is_audio_file("/music/a.MP3"));
    assert!(MusicScanner::is_audio_file("b.FlAc"));
    assert!(MusicScanner::is_audio_file("dir.d/c.ogg"));
    assert!(MusicScanner::is_audio_file("x.m4a"));
    assert!(MusicScanner::is_audio_file("x.aac"));
    assert!(MusicScanner::is_audio_file("x.wav"));
    assert!(MusicScanner::is_audio_file("x.mp1"));
    assert!(MusicScanner::is_audio_file("x.mp2"));
    assert!(!MusicScanner::is_audio_file("/music/a.txt"));
    assert!(!MusicScanner::is_audio_file("noextension"));
    assert!(!MusicScanner::is_audio_file(".mp3"));
    assert!(!MusicScanner::is_audio_file("trailing."));
}

#[test]
fn expand_tilde_leaves_plain_paths_alone() {
    assert_eq!(expand_tilde("/music"), "/music");
    assert_eq!(expand_tilde("relative/dir"), "relative/dir");
}

#[test]
fn expand_tilde_with_joins_against_the_given_home() {
    assert_eq!(expand_tilde_with("~/Music", Some("/home/someone")), "/home/someone/Music");
    assert_eq!(expand_tilde_with("~/Music", Some("/home/someone/")), "/home/someone/Music");
    assert_eq!(expand_tilde_with("~/Music", None), "~/Music");
    assert_eq!(expand_tilde_with("/abs/Music", Some("/home/someone")), "/abs/Music");
    assert_eq!(expand_tilde_with("~", Some("/home/someone")), "~");
}

#[test]
fn expand_scan_paths_expands_each_entry() {
    let out = expand_scan_paths(&["/a".to_string(), "/b".to_string()]);
    assert_eq!(out, vec!["/a".to_string(), "/b".to_string()]);
}

#[test]
fn path_prefix_respects_component_boundaries() {
    assert!(path_starts_with("/music/a.mp3", "/music"));
    assert!(path_starts_with("/music", "/music"));
    assert!(path_starts_with("/music/a.mp3", "/music/"));
    assert!(!path_starts_with("/musical/a.mp3", "/music"));
    assert!(!path_starts_with("/mu", "/music"));
}

#[test]
fn duplicate_identifier_is_refused() {
    let mut store = LibraryStore::new();
    let id = Cuid::new();
    let twin = Cuid::from_string(id.as_str().to_string());
    let first = store.insert_song_with_id(
        id, "One", None, None, "/music/a.mp3", None, None, None, None, None, None,
    );
    assert!(first.is_ok());
    let second = store.insert_song_with_id(
        twin, "Two", None, None, "/music/b.mp3", None, None, None, None, None, None,
    );
    assert_eq!(second.unwrap_err(), StoreError::DuplicateId);
}

#[test]
fn rows_can_be_fetched_by_identifier() {
    let mut store = LibraryStore::new();
    scanner().scan_and_save(
        &mut store,
        vec![track("/music/a.mp3", Some("Ada"), Some("First"), 100)],
    );
    let song = store.get_song_by_path("/music/a.mp3").unwrap();
    let by_id = store.get_song(&song.id).unwrap();
    assert_eq!(by_id.file_path, "/music/a.mp3");
    let artist = store.get_artist(song.artist_id.as_ref().unwrap()).unwrap();
    assert_eq!(artist.name, "Ada");
    let album = store.get_album(song.album_id.as_ref().unwrap()).unwrap();
    assert_eq!(album.title, "First");
    assert_eq!(album.artist.as_ref().map(|a| a.as_str()), Some(artist.id.as_str()));
    assert!(store.get_song(&Cuid::from_string("missing".to_string())).is_none());
}

#[test]
fn delete_song_removes_exactly_that_row() {
    let mut store = LibraryStore::new();
    scanner().scan_and_save(
        &mut store,
        vec![
            track("/music/a.mp3", None, None, 100),
            track("/music/b.mp3", None, None, 110),
        ],
    );
    let doomed = store.get_song_by_path("/music/a.mp3").unwrap();
    store.delete_song(&doomed.id);
    assert!(store.get_song_by_path("/music/a.mp3").is_none());
    assert!(store.get_song_by_path("/music/b.mp3").is_some());
    store.delete_song(&doomed.id);
    assert_eq!(store.get_all_songs().len(), 1);
}

#[test]
fn fresh_identifiers_have_bounded_length() {
    let id = Cuid::new();
    let len = id.as_str().len();
    assert!(len >= 1 && len <= 24);
    let other = Cuid::from_string("abc".to_string());
    assert!(other.eq_id(&Cuid::from_string("abc".to_string())));
    assert!(!other.eq_id(&id) || id.as_str() == "abc");
}
