//! The music scanner: diffs the tracks found by one filesystem pass against
//! the library store.
//!
//! The host application walks the configured directories and extracts tag
//! data; this module decides, track by track, whether a song row is inserted,
//! rewritten or left alone, then removes rows whose files are gone or lie
//! outside every scan root, and finally collects orphaned artist and album
//! rows. Every rule of that pipeline is stated in `scan_outcome`.

use vstd::prelude::*;

use crate::metadata::{AudioMetadata, MetaV};
use crate::store::{
    has_album_key, has_artist_named, has_song_path, kept, opt_ref_id_view, opt_ref_str_view,
    updated_song_v, LibraryStore, StoreError, StoreV,
};
use crate::text::{
    ascii_lower_eq, find_last, last_index_of, lower_eq, opt_i32_eq, path_starts_with, path_under,
    str_eq,
};
use crate::types::{Song, SongV};

verus! {

/// What one scan pass counted: files seen, rows inserted, rows rewritten,
/// rows removed, and saves that failed and were dropped. The one way a save
/// can fail is a fresh-identifier collision on an insert, so a pass over
/// healthy data reports zero failures, and every stronger guarantee below
/// is stated under that count.
#[derive(Clone, Copy, Debug)]
pub struct ScanStats {
    pub scanned: usize,
    pub added: usize,
    pub updated: usize,
    pub removed: usize,
    pub failed: usize,
}

/// How one track was saved.
#[derive(Clone, Copy, Debug, PartialEq, Eq, Structural)]
pub enum SaveAction {
    Added,
    Updated,
    Unchanged,
}

/// The abstract value of one scanned track.
pub ghost struct TrackV {
    pub path: Seq<char>,
    pub meta: MetaV,
}

/// One file found by a scan pass, with its extracted metadata.
#[derive(Debug)]
pub struct ScannedTrack {
    pub path: String,
    pub metadata: AudioMetadata,
}

impl View for ScannedTrack {
    type V = TrackV;

    open spec fn view(&self) -> TrackV {
        TrackV { path: self.path@, meta: self.metadata@ }
    }
}

impl Clone for ScannedTrack {
    fn clone(&self) -> (r: Self)
        ensures
            r@ == self@,
    {
        Self { path: self.path.clone(), metadata: self.metadata.clone() }
    }
}

/// The views of a vector of scanned tracks.
pub open spec fn tracks_view(tracks: Seq<ScannedTrack>) -> Seq<TrackV> {
    tracks.map_values(|t: ScannedTrack| t@)
}

/// The title a song row gets: the tag title, or a fixed fallback.
pub open spec fn derived_title(m: MetaV) -> Seq<char> {
    match m.title {
        Some(t) => t,
        None => "Unknown"@,
    }
}

/// The value of a tag track number in the stored (signed) form.
pub open spec fn wrap_u32_as_i32(n: u32) -> int {
    if n <= i32::MAX as u32 {
        n as int
    } else {
        n as int - 0x1_0000_0000
    }
}

/// The stored form of a tag track number.
pub fn u32_to_i32_wrapping(n: u32) -> (r: i32)
    ensures
        r as int == wrap_u32_as_i32(n),
{
    if n <= 0x7fff_ffff {
        n as i32
    } else {
        let m = (n - 0x8000_0000) as i32;
        m + i32::MIN
    }
}

/// Some scanned track has this path.
pub open spec fn in_found(tv: Seq<TrackV>, path: Seq<char>) -> bool {
    exists|k: int| 0 <= k < tv.len() && #[trigger] tv[k].path == path
}

/// The path lies under one of the scan roots.
pub open spec fn under_roots(roots: Seq<Seq<char>>, path: Seq<char>) -> bool {
    exists|r: int| 0 <= r < roots.len() && path_under(path, #[trigger] roots[r])
}

/// A song row survives the removal pass: its file was seen by this scan and
/// lies under a configured root.
pub open spec fn keep_path(tv: Seq<TrackV>, roots: Seq<Seq<char>>, path: Seq<char>) -> bool {
    in_found(tv, path) && under_roots(roots, path)
}

/// How many of the scanned tracks already have a row at their path.
pub open spec fn prior_row_count(songs: Seq<SongV>, tv: Seq<TrackV>) -> int
    decreases tv.len(),
{
    if tv.len() == 0 {
        0
    } else {
        prior_row_count(songs, tv.drop_last()) + if has_song_path(songs, tv.last().path) {
            1int
        } else {
            0int
        }
    }
}

/// The count stays within the number of tracks.
pub proof fn lemma_prior_row_count_bounds(songs: Seq<SongV>, tv: Seq<TrackV>)
    ensures
        0 <= prior_row_count(songs, tv) <= tv.len(),
    decreases tv.len(),
{
    if tv.len() > 0 {
        lemma_prior_row_count_bounds(songs, tv.drop_last());
    }
}

/// A song row carries exactly what this track derives: every metadata field,
/// and artist and album links that resolve, by name and by title/artist key,
/// within the given store.
pub open spec fn song_matches_track(store: StoreV, s: SongV, t: TrackV) -> bool {
    &&& s.file_path == t.path
    &&& s.title == derived_title(t.meta)
    &&& s.duration == t.meta.duration
    &&& (match t.meta.track_number {
        Some(n) => s.track_number is Some && s.track_number->0 as int == wrap_u32_as_i32(n),
        None => s.track_number is None,
    })
    &&& s.date == t.meta.year
    &&& s.genre == t.meta.genre
    &&& s.replaygain_track_gain == t.meta.replaygain_track_gain
    &&& s.replaygain_track_peak == t.meta.replaygain_track_peak
    &&& (match t.meta.artist {
        Some(name) => s.artist_id is Some && exists|a: int|
            0 <= a < store.artists.len() && #[trigger] store.artists[a].id == s.artist_id->0
                && store.artists[a].name == name,
        None => s.artist_id is None,
    })
    &&& (match t.meta.album {
        Some(title) => s.album_id is Some && exists|b: int|
            0 <= b < store.albums.len() && #[trigger] store.albums[b].id == s.album_id->0
                && store.albums[b].title == title && store.albums[b].artist == s.artist_id,
        None => s.album_id is None,
    })
}

/// A matching row keeps matching when the store's artists and albums only
/// grow and the row itself stands unchanged.
pub proof fn lemma_matching_monotone(a: StoreV, b: StoreV, s: SongV, t: TrackV)
    requires
        song_matches_track(a, s, t),
        a.artists.len() <= b.artists.len(),
        a.artists == b.artists.take(a.artists.len() as int),
        a.albums.len() <= b.albums.len(),
        a.albums == b.albums.take(a.albums.len() as int),
    ensures
        song_matches_track(b, s, t),
{
    if t.meta.artist is Some {
        let i = choose|i: int|
            0 <= i < a.artists.len() && #[trigger] a.artists[i].id == s.artist_id->0
                && a.artists[i].name == t.meta.artist->0;
        assert(b.artists[i] == a.artists.take(a.artists.len() as int)[i]);
        assert(b.artists[i].id == s.artist_id->0);
    }
    if t.meta.album is Some {
        let i = choose|i: int|
            0 <= i < a.albums.len() && #[trigger] a.albums[i].id == s.album_id->0
                && a.albums[i].title == t.meta.album->0 && a.albums[i].artist == s.artist_id;
        assert(b.albums[i] == a.albums.take(a.albums.len() as int)[i]);
        assert(b.albums[i].id == s.album_id->0);
    }
}

/// Some row of the store matches this track.
pub open spec fn track_recorded(store: StoreV, t: TrackV) -> bool {
    exists|i: int|
        0 <= i < store.songs.len() && song_matches_track(store, #[trigger] store.songs[i], t)
}

/// The row at this track's path exists and matches it.
pub open spec fn recorded_at(store: StoreV, t: TrackV) -> bool {
    exists|j: int|
        0 <= j < store.songs.len() && #[trigger] store.songs[j].file_path == t.path
            && song_matches_track(store, store.songs[j], t)
}

/// The store already reflects this scan exactly: every track has a matching
/// row, and every row's file was seen and lies under a root.
pub open spec fn store_stable(pre: StoreV, tv: Seq<TrackV>, roots: Seq<Seq<char>>) -> bool {
    &&& (forall|k: int| 0 <= k < tv.len() ==> track_recorded(pre, #[trigger] tv[k]))
    &&& (forall|j: int|
        0 <= j < pre.songs.len() ==> keep_path(tv, roots, #[trigger] pre.songs[j].file_path))
}

/// Everything one save pass guarantees, relating the store before and after
/// to the scanned tracks, the scan roots and the returned counts: every
/// surviving row's file was seen under a root; a row at a scanned path
/// matches its track; rows of scanned paths are never lost; the counts add
/// up exactly — inserts plus failures cover the tracks without a prior row,
/// rewrites stay within those with one — and when no save failed, every
/// scanned track has its row; the removal count is exact, and positive as
/// soon as any old row's file is gone; and a store that already reflects
/// the scan comes through untouched with zero counts.
pub open spec fn scan_outcome(
    roots: Seq<Seq<char>>,
    pre: StoreV,
    post: StoreV,
    tv: Seq<TrackV>,
    stats: ScanStats,
) -> bool {
    &&& post.wf()
    &&& stats.scanned == tv.len()
    &&& (forall|j: int|
        0 <= j < post.songs.len() ==> keep_path(tv, roots, #[trigger] post.songs[j].file_path))
    &&& stats.added + stats.failed + prior_row_count(pre.songs, tv) == tv.len()
    &&& stats.updated <= prior_row_count(pre.songs, tv)
    &&& stats.added + stats.updated <= tv.len()
    &&& (stats.failed == 0 ==> forall|k: int|
        0 <= k < tv.len() ==> recorded_at(post, #[trigger] tv[k]))
    &&& stats.removed == pre.songs.len() + stats.added - post.songs.len()
    &&& ((exists|j: int|
        0 <= j < pre.songs.len() && !keep_path(tv, roots, #[trigger] pre.songs[j].file_path))
        ==> stats.removed >= 1)
    &&& (forall|k: int|
        0 <= k < tv.len() && has_song_path(post.songs, #[trigger] tv[k].path) ==> recorded_at(
            post,
            tv[k],
        ))
    &&& (forall|k: int|
        0 <= k < tv.len() && has_song_path(pre.songs, #[trigger] tv[k].path) ==> has_song_path(
            post.songs,
            tv[k].path,
        ))
    &&& (store_stable(pre, tv, roots) ==> stats.added == 0 && stats.updated == 0 && stats.removed
        == 0 && stats.failed == 0 && post == pre)
}

/// What the removal pass leaves, stated over the surviving rows: each
/// survivor is an old row whose file was seen under a root, each old row
/// whose file was seen under a root survives, a doomed row shortens the
/// list, and a pass that dooms nothing keeps it whole.
proof fn lemma_removal_facts(
    mid: StoreV,
    post_songs: Seq<SongV>,
    tv: Seq<TrackV>,
    roots: Seq<Seq<char>>,
    flags: Seq<bool>,
)
    requires
        flags.len() == mid.songs.len(),
        forall|i: int|
            0 <= i < flags.len() ==> #[trigger] flags[i] == !keep_path(
                tv,
                roots,
                mid.songs[i].file_path,
            ),
        post_songs == kept(mid.songs, flags),
    ensures
        forall|j: int|
            0 <= j < post_songs.len() ==> keep_path(tv, roots, #[trigger] post_songs[j].file_path)
                && exists|i: int| 0 <= i < mid.songs.len() && post_songs[j] == mid.songs[i],
        forall|i: int|
            0 <= i < mid.songs.len() && keep_path(tv, roots, mid.songs[i].file_path)
                ==> exists|k: int|
                0 <= k < post_songs.len() && #[trigger] post_songs[k] == mid.songs[i],
        (exists|i: int|
            0 <= i < mid.songs.len() && !keep_path(
                tv,
                roots,
                #[trigger] mid.songs[i].file_path,
            )) ==> post_songs.len() < mid.songs.len(),
        (forall|i: int|
            0 <= i < mid.songs.len() ==> keep_path(tv, roots, #[trigger] mid.songs[i].file_path))
            ==> post_songs == mid.songs,
{
    crate::store::lemma_kept_members(mid.songs, flags);
    crate::store::lemma_kept_complete(mid.songs, flags);
    assert forall|j: int| 0 <= j < post_songs.len() implies keep_path(
        tv,
        roots,
        #[trigger] post_songs[j].file_path,
    ) && exists|i: int| 0 <= i < mid.songs.len() && post_songs[j] == mid.songs[i] by {
        let i = choose|i: int|
            0 <= i < mid.songs.len() && !flags[i] && #[trigger] kept(mid.songs, flags)[j]
                == mid.songs[i];
        assert(post_songs[j] == mid.songs[i]);
        assert(0 <= i < mid.songs.len() && post_songs[j] == mid.songs[i]);
    }
    assert forall|i: int|
        0 <= i < mid.songs.len() && keep_path(tv, roots, mid.songs[i].file_path) implies exists|
        k: int,
    | 0 <= k < post_songs.len() && #[trigger] post_songs[k] == mid.songs[i] by {
        assert(!flags[i]);
        let k = choose|k: int|
            0 <= k < kept(mid.songs, flags).len() && #[trigger] kept(mid.songs, flags)[k]
                == mid.songs[i];
        assert(0 <= k < post_songs.len() && post_songs[k] == mid.songs[i]);
    }
    if exists|i: int|
        0 <= i < mid.songs.len() && !keep_path(tv, roots, #[trigger] mid.songs[i].file_path) {
        let i = choose|i: int|
            0 <= i < mid.songs.len() && !keep_path(tv, roots, #[trigger] mid.songs[i].file_path);
        assert(flags[i]);
        crate::store::lemma_kept_drops_one(mid.songs, flags, i);
    }
    if forall|i: int|
        0 <= i < mid.songs.len() ==> keep_path(tv, roots, #[trigger] mid.songs[i].file_path) {
        assert forall|i: int| 0 <= i < flags.len() implies !flags[i] by {
            assert(keep_path(tv, roots, mid.songs[i].file_path));
        }
        crate::store::lemma_kept_none(mid.songs, flags);
    }
}

/// A row that matched its track before removal and orphan collection still
/// matches after: survivors keep their values, and the artist and album rows
/// they reference are kept because the surviving song references them.
proof fn lemma_recorded_after_passes(
    mid: StoreV,
    ar: StoreV,
    post: StoreV,
    tv: Seq<TrackV>,
    roots: Seq<Seq<char>>,
)
    requires
        ar.artists == mid.artists,
        ar.albums == mid.albums,
        post.songs == ar.songs,
        forall|kk: int|
            0 <= kk < tv.len() && has_song_path(mid.songs, #[trigger] tv[kk].path)
                ==> recorded_at(mid, tv[kk]),
        forall|j: int|
            0 <= j < ar.songs.len() ==> keep_path(tv, roots, #[trigger] ar.songs[j].file_path)
                && exists|i: int| 0 <= i < mid.songs.len() && ar.songs[j] == mid.songs[i],
        forall|i: int|
            0 <= i < mid.songs.len() && keep_path(tv, roots, mid.songs[i].file_path)
                ==> exists|k: int|
                0 <= k < ar.songs.len() && #[trigger] ar.songs[k] == mid.songs[i],
        forall|i: int|
            0 <= i < ar.artists.len() && crate::store::referenced_artist(
                post.songs,
                #[trigger] ar.artists[i],
            ) ==> exists|k: int|
                0 <= k < post.artists.len() && post.artists[k] == ar.artists[i],
        forall|i: int|
            0 <= i < ar.albums.len() && crate::store::referenced_album(
                post.songs,
                #[trigger] ar.albums[i],
            ) ==> exists|k: int|
                0 <= k < post.albums.len() && post.albums[k] == ar.albums[i],
    ensures
        forall|kk: int|
            0 <= kk < tv.len() && has_song_path(post.songs, #[trigger] tv[kk].path)
                ==> recorded_at(post, tv[kk]),
        forall|kk: int|
            0 <= kk < tv.len() && has_song_path(mid.songs, #[trigger] tv[kk].path) && keep_path(
                tv,
                roots,
                tv[kk].path,
            ) ==> has_song_path(post.songs, tv[kk].path),
{
    assert forall|kk: int|
        0 <= kk < tv.len() && has_song_path(post.songs, #[trigger] tv[kk].path) implies
        recorded_at(post, tv[kk]) by {
        let jj = choose|j2: int|
            0 <= j2 < post.songs.len() && #[trigger] post.songs[j2].file_path == tv[kk].path;
        assert(has_song_path(mid.songs, tv[kk].path)) by {
            let i0 = choose|i0: int|
                0 <= i0 < mid.songs.len() && #[trigger] ar.songs[jj] == mid.songs[i0];
            assert(mid.songs[i0].file_path == tv[kk].path);
        }
        assert(recorded_at(mid, tv[kk]));
        let j0 = choose|j0: int|
            0 <= j0 < mid.songs.len() && #[trigger] mid.songs[j0].file_path == tv[kk].path
                && song_matches_track(mid, mid.songs[j0], tv[kk]);
        assert(keep_path(tv, roots, mid.songs[j0].file_path)) by {
            assert(tv[kk].path == mid.songs[j0].file_path);
        }
        let k0 = choose|k0: int|
            0 <= k0 < ar.songs.len() && #[trigger] ar.songs[k0] == mid.songs[j0];
        let s = ar.songs[k0];
        let t = tv[kk];
        if t.meta.artist is Some {
            let a = choose|a: int|
                0 <= a < mid.artists.len() && #[trigger] mid.artists[a].id == s.artist_id->0
                    && mid.artists[a].name == t.meta.artist->0;
            assert(crate::store::referenced_artist(post.songs, ar.artists[a])) by {
                assert(post.songs[k0].artist_id == Some(ar.artists[a].id));
            }
            let a2 = choose|a2: int|
                0 <= a2 < post.artists.len() && #[trigger] post.artists[a2] == ar.artists[a];
            assert(post.artists[a2].id == s.artist_id->0);
        }
        if t.meta.album is Some {
            let b = choose|b: int|
                0 <= b < mid.albums.len() && #[trigger] mid.albums[b].id == s.album_id->0
                    && mid.albums[b].title == t.meta.album->0 && mid.albums[b].artist
                    == s.artist_id;
            assert(crate::store::referenced_album(post.songs, ar.albums[b])) by {
                assert(post.songs[k0].album_id == Some(ar.albums[b].id));
            }
            let b2 = choose|b2: int|
                0 <= b2 < post.albums.len() && #[trigger] post.albums[b2] == ar.albums[b];
            assert(post.albums[b2].id == s.album_id->0);
        }
        assert(post.songs[k0].file_path == tv[kk].path);
        assert(song_matches_track(post, post.songs[k0], tv[kk]));
    }
    assert forall|kk: int|
        0 <= kk < tv.len() && has_song_path(mid.songs, #[trigger] tv[kk].path) && keep_path(
            tv,
            roots,
            tv[kk].path,
        ) implies has_song_path(post.songs, tv[kk].path) by {
        let jj = choose|j2: int|
            0 <= j2 < mid.songs.len() && #[trigger] mid.songs[j2].file_path == tv[kk].path;
        assert(keep_path(tv, roots, mid.songs[jj].file_path)) by {
            assert(tv[kk].path == mid.songs[jj].file_path);
        }
        let k0 = choose|k0: int|
            0 <= k0 < ar.songs.len() && #[trigger] ar.songs[k0] == mid.songs[jj];
        assert(post.songs[k0].file_path == tv[kk].path);
    }
}

/// The music scanner: an immutable list of root directories.
pub struct MusicScanner {
    scan_paths: Vec<String>,
}

impl View for MusicScanner {
    type V = Seq<Seq<char>>;

    closed spec fn view(&self) -> Seq<Seq<char>> {
        self.scan_paths@.map_values(|p: String| p@)
    }
}

impl MusicScanner {
    /// A scanner over these root directories.
    pub fn new(scan_paths: Vec<String>) -> (r: Self)
        ensures
            r@ == scan_paths@.map_values(|p: String| p@),
    {
        Self { scan_paths }
    }

    /// The scan roots.
    pub fn scan_paths(&self) -> (r: &Vec<String>)
        ensures
            r@.map_values(|p: String| p@) == self@,
    {
        &self.scan_paths
    }

    /// Whether the file name's extension, lowercased, is one of the audio
    /// extensions the scanner takes.
    pub fn is_audio_file(path: &str) -> (r: bool)
        ensures
            r == is_audio_path(path@),
    {
        let n = path.unicode_len();
        let start = match find_last(path, '/') {
            Some(i) => i + 1,
            None => 0,
        };
        let base = path.substring_char(start, n);
        proof {
            assert(base@ =~= base_name(path@));
        }
        let bn = n - start;
        match find_last(base, '.') {
            None => false,
            Some(0) => false,
            Some(di) => {
                let ext = base.substring_char(di + 1, bn);
                proof {
                    assert(ext@ =~= ext_of(path@));
                }
                is_allowed_extension(ext)
            },
        }
    }

    /// Saves one track: creates artist and album rows as needed, then
    /// inserts a song row for a new path, rewrites the row whose derived
    /// fields differ, and leaves a row that already carries them alone.
    #[verifier::rlimit(100)]
    fn save_or_update_track(
        &self,
        store: &mut LibraryStore,
        track: &ScannedTrack,
    ) -> (r: Result<SaveAction, StoreError>)
        requires
            old(store)@.wf(),
        ensures
            final(store)@.wf(),
            old(store)@.songs.len() <= final(store)@.songs.len() <= old(store)@.songs.len() + 1,
            forall|j: int|
                0 <= j < old(store)@.songs.len() ==> #[trigger] final(store)@.songs[j].file_path
                    == old(store)@.songs[j].file_path && final(store)@.songs[j].id == old(store)@.songs[j].id && (final(store)@.songs[j] == old(store)@.songs[j] || old(store)@.songs[j].file_path == track@.path),
            (r == Ok::<SaveAction, StoreError>(SaveAction::Added)) <==> final(store)@.songs.len()
                == old(store)@.songs.len() + 1,
            final(store)@.songs.len() == old(store)@.songs.len() + 1 ==> !has_song_path(
                old(store)@.songs,
                track@.path,
            ) && final(store)@.songs[old(store)@.songs.len() as int].file_path == track@.path,
            has_song_path(final(store)@.songs, track@.path) ==> exists|j: int|
                0 <= j < final(store)@.songs.len() && #[trigger] final(store)@.songs[j].file_path
                    == track@.path && song_matches_track(
                    final(store)@,
                    final(store)@.songs[j],
                    track@,
                ),
            has_song_path(old(store)@.songs, track@.path) ==> r is Ok,
            r is Err ==> final(store)@.songs == old(store)@.songs && old(store)@.songs.len() > 0,
            r == Ok::<SaveAction, StoreError>(SaveAction::Unchanged) ==> has_song_path(
                old(store)@.songs,
                track@.path,
            ) && final(store)@.songs == old(store)@.songs,
            r == Ok::<SaveAction, StoreError>(SaveAction::Updated) ==> has_song_path(
                old(store)@.songs,
                track@.path,
            ) && final(store)@.songs != old(store)@.songs,
            old(store)@.artists.len() <= final(store)@.artists.len() && old(store)@.artists
                == final(store)@.artists.take(old(store)@.artists.len() as int),
            old(store)@.albums.len() <= final(store)@.albums.len() && old(store)@.albums == final(store)@.albums.take(old(store)@.albums.len() as int),
            (exists|i: int|
                0 <= i < old(store)@.songs.len() && song_matches_track(
                    old(store)@,
                    #[trigger] old(store)@.songs[i],
                    track@,
                )) ==> (r == Ok::<SaveAction, StoreError>(SaveAction::Unchanged) && final(store)@
                == old(store)@),
    {
        let ghost pre = old(store)@;
        let ghost t = track@;
        let ghost stable = exists|i: int|
            0 <= i < pre.songs.len() && song_matches_track(pre, #[trigger] pre.songs[i], t);
        let meta = &track.metadata;

        let existing_song = store.get_song_by_path(track.path.as_str());

        let artist_id: Option<crate::types::Cuid> = match &meta.artist {
            Some(artist_name) => {
                let hint: Option<&str> = match &meta.album_artist {
                    Some(a) => Some(a.as_str()),
                    None => None,
                };
                Some(store.insert_artist(artist_name.as_str(), hint))
            },
            None => None,
        };
        proof {
            if stable {
                let i = choose|i: int|
                    0 <= i < pre.songs.len() && song_matches_track(pre, #[trigger] pre.songs[i], t);
                if t.meta.artist is Some {
                    let a = choose|a: int|
                        0 <= a < pre.artists.len() && #[trigger] pre.artists[a].id
                            == pre.songs[i].artist_id->0 && pre.artists[a].name == t.meta.artist->0;
                    assert(has_artist_named(pre.artists, t.meta.artist->0));
                    let a0 = choose|a0: int|
                        0 <= a0 < pre.artists.len() && #[trigger] pre.artists[a0].name
                            == t.meta.artist->0 && pre.artists[a0].id
                            == artist_id.deep_view()->0;
                    if a0 != a {
                        assert(pre.artists[a0].name != pre.artists[a].name);
                        assert(false);
                    }
                    assert(artist_id.deep_view() == pre.songs[i].artist_id);
                }
            }
        }

        let artist_ref: Option<&crate::types::Cuid> = match &artist_id {
            Some(c) => Some(c),
            None => None,
        };
        let album_id: Option<crate::types::Cuid> = match &meta.album {
            Some(album_name) => {
                let genre_hint: Option<&str> = match &meta.genre {
                    Some(g) => Some(g.as_str()),
                    None => None,
                };
                Some(store.insert_album(album_name.as_str(), artist_ref, meta.year, genre_hint))
            },
            None => None,
        };
        proof {
            if stable {
                let i = choose|i: int|
                    0 <= i < pre.songs.len() && song_matches_track(pre, #[trigger] pre.songs[i], t);
                if t.meta.album is Some {
                    let b = choose|b: int|
                        0 <= b < pre.albums.len() && #[trigger] pre.albums[b].id
                            == pre.songs[i].album_id->0 && pre.albums[b].title == t.meta.album->0
                            && pre.albums[b].artist == pre.songs[i].artist_id;
                    assert(has_album_key(pre.albums, t.meta.album->0, pre.songs[i].artist_id));
                    let b0 = choose|b0: int|
                        0 <= b0 < pre.albums.len() && #[trigger] pre.albums[b0].title
                            == t.meta.album->0 && pre.albums[b0].artist == pre.songs[i].artist_id
                            && pre.albums[b0].id == album_id.deep_view()->0;
                    if b0 != b {
                        assert(!(pre.albums[b0].title == pre.albums[b].title
                            && pre.albums[b0].artist == pre.albums[b].artist));
                        assert(false);
                    }
                    assert(album_id.deep_view() == pre.songs[i].album_id);
                }
            }
        }

        let album_ref: Option<&crate::types::Cuid> = match &album_id {
            Some(c) => Some(c),
            None => None,
        };
        let genre_ref: Option<&str> = match &meta.genre {
            Some(g) => Some(g.as_str()),
            None => None,
        };
        let title: &str = match &meta.title {
            Some(tt) => tt.as_str(),
            None => "Unknown",
        };
        let duration = meta.duration;
        let track_number: Option<i32> = match meta.track_number {
            Some(n) => Some(u32_to_i32_wrapping(n)),
            None => None,
        };

        if let Some(existing) = existing_song {
            let metadata_changed = !str_eq(existing.title.as_str(), title) || !crate::types::opt_cuid_eq(
                &existing.artist_id,
                &artist_id,
            ) || !crate::types::opt_cuid_eq(&existing.album_id, &album_id) || !opt_i32_eq(
                existing.duration,
                duration,
            ) || !opt_i32_eq(existing.track_number, track_number) || !opt_i32_eq(
                existing.date,
                meta.year,
            ) || !crate::text::opt_string_eq(&existing.genre, &meta.genre) || !opt_i32_eq(
                existing.replaygain_track_gain,
                meta.replaygain_track_gain,
            ) || !opt_i32_eq(existing.replaygain_track_peak, meta.replaygain_track_peak);

            proof {
                if stable {
                    let i = choose|i: int|
                        0 <= i < pre.songs.len() && song_matches_track(
                            pre,
                            #[trigger] pre.songs[i],
                            t,
                        );
                    let j = choose|j: int|
                        0 <= j < pre.songs.len() && #[trigger] pre.songs[j].file_path == t.path
                            && existing@ == pre.songs[j];
                    if i != j {
                        assert(pre.songs[i].file_path != pre.songs[j].file_path);
                        assert(false);
                    }
                    assert(!metadata_changed);
                }
            }

            if metadata_changed {
                store.update_song_metadata(
                    &existing.id,
                    title,
                    artist_ref,
                    album_ref,
                    duration,
                    track_number,
                    meta.year,
                    genre_ref,
                    meta.replaygain_track_gain,
                    meta.replaygain_track_peak,
                );
                proof {
                    let j = choose|j: int|
                        0 <= j < pre.songs.len() && #[trigger] pre.songs[j].file_path == t.path
                            && existing@ == pre.songs[j];
                    assert(pre.songs[j].id == existing@.id);
                    assert(store@.songs[j] == updated_song_v(
                        pre.songs[j],
                        title@,
                        opt_ref_id_view(artist_ref),
                        opt_ref_id_view(album_ref),
                        duration,
                        track_number,
                        meta.year,
                        opt_ref_str_view(genre_ref),
                        meta.replaygain_track_gain,
                        meta.replaygain_track_peak,
                    ));
                    assert(store@.songs[j].file_path == t.path);
                    assert(store@.songs[j].artist_id == artist_id.deep_view());
                    assert(store@.songs[j].album_id == album_id.deep_view());
                    if t.meta.artist is Some {
                        let a0 = choose|a: int|
                            0 <= a < store@.artists.len() && #[trigger] store@.artists[a].name
                                == t.meta.artist->0 && store@.artists[a].id
                                == artist_id.deep_view()->0;
                        assert(store@.artists[a0].id == store@.songs[j].artist_id->0);
                    }
                    if t.meta.album is Some {
                        let b0 = choose|b: int|
                            0 <= b < store@.albums.len() && #[trigger] store@.albums[b].title
                                == t.meta.album->0 && store@.albums[b].artist
                                == artist_id.deep_view() && store@.albums[b].id
                                == album_id.deep_view()->0;
                        assert(store@.albums[b0].id == store@.songs[j].album_id->0);
                        assert(store@.albums[b0].artist == store@.songs[j].artist_id);
                    }
                    assert(song_matches_track(store@, store@.songs[j], t));
                    assert(opt_ref_str_view(genre_ref) == t.meta.genre);
                    assert(pre.songs[j].title == existing@.title);
                    assert(store@.songs[j] != pre.songs[j]);
                    if store@.songs == pre.songs {
                        assert(store@.songs[j] == pre.songs[j]);
                        assert(false);
                    }
                }
                Ok(SaveAction::Updated)
            } else {
                proof {
                    let j = choose|j: int|
                        0 <= j < pre.songs.len() && #[trigger] pre.songs[j].file_path == t.path
                            && existing@ == pre.songs[j];
                    assert(store@.songs[j].file_path == t.path);
                    assert(store@.songs[j].artist_id == artist_id.deep_view());
                    assert(store@.songs[j].album_id == album_id.deep_view());
                    if t.meta.artist is Some {
                        let a0 = choose|a: int|
                            0 <= a < store@.artists.len() && #[trigger] store@.artists[a].name
                                == t.meta.artist->0 && store@.artists[a].id
                                == artist_id.deep_view()->0;
                        assert(store@.artists[a0].id == store@.songs[j].artist_id->0);
                    }
                    if t.meta.album is Some {
                        let b0 = choose|b: int|
                            0 <= b < store@.albums.len() && #[trigger] store@.albums[b].title
                                == t.meta.album->0 && store@.albums[b].artist
                                == artist_id.deep_view() && store@.albums[b].id
                                == album_id.deep_view()->0;
                        assert(store@.albums[b0].id == store@.songs[j].album_id->0);
                        assert(store@.albums[b0].artist == store@.songs[j].artist_id);
                    }
                    assert(song_matches_track(store@, store@.songs[j], t));
                }
                Ok(SaveAction::Unchanged)
            }
        } else {
            match store.insert_song(
                title,
                artist_ref,
                album_ref,
                track.path.as_str(),
                duration,
                track_number,
                meta.year,
                genre_ref,
                meta.replaygain_track_gain,
                meta.replaygain_track_peak,
            ) {
                Ok(_) => {
                    proof {
                        assert(store@.songs[pre.songs.len() as int].file_path == t.path);
                        assert(song_matches_track(
                            store@,
                            store@.songs[pre.songs.len() as int],
                            t,
                        ));
                    }
                    Ok(SaveAction::Added)
                },
                Err(e) => Err(e),
            }
        }
    }

    /// Saves every scanned track, removes the song rows whose files are gone
    /// or lie outside every scan root, and, when anything was removed,
    /// collects artist and album rows no song references any more. The scan
    /// pass hands the tracks over deduplicated by path, each from under a
    /// scan root.
    #[verifier::rlimit(100)]
    #[verifier::spinoff_prover]
    pub fn scan_and_save(&self, store: &mut LibraryStore, tracks: Vec<ScannedTrack>) -> (r:
        ScanStats)
        requires
            old(store)@.wf(),
            forall|k1: int, k2: int|
                0 <= k1 < k2 < tracks@.len() ==> #[trigger] tracks_view(tracks@)[k1].path
                    != #[trigger] tracks_view(tracks@)[k2].path,
            forall|k: int|
                0 <= k < tracks@.len() ==> under_roots(
                    self@,
                    #[trigger] tracks_view(tracks@)[k].path,
                ),
        ensures
            scan_outcome(self@, old(store)@, final(store)@, tracks_view(tracks@), r),
    {
        let ghost pre = old(store)@;
        let ghost tv = tracks_view(tracks@);
        let ghost roots = self@;

        let scanned_count = tracks.len();
        let counts = self.save_all_tracks(store, &tracks);
        let added = counts.0;
        let updated = counts.1;
        let failed = counts.2;

        let ghost mid = store@;

        let removed = self.remove_missing_songs(store, &tracks);

        let ghost after_removal = store@;

        if removed > 0 {
            store.cleanup_orphaned_artists();
            store.cleanup_orphaned_albums();
        }

        proof {
            assert(store@.songs == after_removal.songs);
            if removed == 0 {
                assert forall|i: int|
                    0 <= i < after_removal.artists.len() && crate::store::referenced_artist(
                        store@.songs,
                        #[trigger] after_removal.artists[i],
                    ) implies exists|k: int|
                    0 <= k < store@.artists.len() && store@.artists[k]
                        == after_removal.artists[i] by {
                    assert(store@.artists[i] == after_removal.artists[i]);
                }
                assert forall|i: int|
                    0 <= i < after_removal.albums.len() && crate::store::referenced_album(
                        store@.songs,
                        #[trigger] after_removal.albums[i],
                    ) implies exists|k: int|
                    0 <= k < store@.albums.len() && store@.albums[k]
                        == after_removal.albums[i] by {
                    assert(store@.albums[i] == after_removal.albums[i]);
                }
            }
            lemma_recorded_after_passes(mid, after_removal, store@, tv, roots);
            if exists|jj: int|
                0 <= jj < pre.songs.len() && !keep_path(
                    tv,
                    roots,
                    #[trigger] pre.songs[jj].file_path,
                ) {
                let jj = choose|jj: int|
                    0 <= jj < pre.songs.len() && !keep_path(
                        tv,
                        roots,
                        #[trigger] pre.songs[jj].file_path,
                    );
                assert(mid.songs[jj].file_path == pre.songs[jj].file_path);
                assert(!keep_path(tv, roots, mid.songs[jj].file_path));
            }
            if store_stable(pre, tv, roots) {
                assert(mid == pre);
                assert forall|jj: int| 0 <= jj < mid.songs.len() implies keep_path(
                    tv,
                    roots,
                    #[trigger] mid.songs[jj].file_path,
                ) by {
                    assert(keep_path(tv, roots, pre.songs[jj].file_path));
                }
                assert(after_removal.songs == mid.songs);
                assert(removed == 0);
                assert(store@ == pre);
            }
            assert forall|kk: int|
                0 <= kk < tv.len() && has_song_path(pre.songs, #[trigger] tv[kk].path) implies
                has_song_path(store@.songs, tv[kk].path) by {
                assert(has_song_path(mid.songs, tv[kk].path));
                assert(keep_path(tv, roots, tv[kk].path)) by {
                    assert(tv[kk].path == tv[kk].path && in_found(tv, tv[kk].path));
                }
            }
            if failed == 0 {
                assert forall|kk: int| 0 <= kk < tv.len() implies recorded_at(
                    store@,
                    #[trigger] tv[kk],
                ) by {
                    assert(has_song_path(mid.songs, tv[kk].path));
                    assert(keep_path(tv, roots, tv[kk].path)) by {
                        assert(tv[kk].path == tv[kk].path && in_found(tv, tv[kk].path));
                    }
                    assert(has_song_path(store@.songs, tv[kk].path));
                }
            }
        }

        ScanStats { scanned: scanned_count, added, updated, removed, failed }
    }

    /// Saves every track in order, handing back how many rows were added
    /// and how many rewritten.
    #[verifier::rlimit(100)]
    #[verifier::spinoff_prover]
    fn save_all_tracks(&self, store: &mut LibraryStore, tracks: &Vec<ScannedTrack>) -> (r: (
        usize,
        usize,
        usize,
    ))
        requires
            old(store)@.wf(),
            forall|k1: int, k2: int|
                0 <= k1 < k2 < tracks@.len() ==> #[trigger] tracks_view(tracks@)[k1].path
                    != #[trigger] tracks_view(tracks@)[k2].path,
            forall|k: int|
                0 <= k < tracks@.len() ==> under_roots(
                    self@,
                    #[trigger] tracks_view(tracks@)[k].path,
                ),
        ensures
            final(store)@.wf(),
            final(store)@.songs.len() == old(store)@.songs.len() + r.0,
            r.0 + r.1 <= tracks@.len(),
            r.0 + r.2 + prior_row_count(old(store)@.songs, tracks_view(tracks@)) == tracks@.len(),
            r.1 <= prior_row_count(old(store)@.songs, tracks_view(tracks@)),
            r.2 == 0 ==> forall|kk: int|
                0 <= kk < tracks@.len() ==> has_song_path(
                    final(store)@.songs,
                    #[trigger] tracks_view(tracks@)[kk].path,
                ),
            forall|j: int|
                0 <= j < old(store)@.songs.len() ==> #[trigger] final(store)@.songs[j].file_path
                    == old(store)@.songs[j].file_path,
            forall|j: int|
                old(store)@.songs.len() <= j < final(store)@.songs.len() ==> in_found(
                    tracks_view(tracks@),
                    #[trigger] final(store)@.songs[j].file_path,
                ),
            forall|kk: int|
                0 <= kk < tracks@.len() && has_song_path(
                    final(store)@.songs,
                    #[trigger] tracks_view(tracks@)[kk].path,
                ) ==> recorded_at(final(store)@, tracks_view(tracks@)[kk]),
            forall|kk: int|
                0 <= kk < tracks@.len() && has_song_path(
                    old(store)@.songs,
                    #[trigger] tracks_view(tracks@)[kk].path,
                ) ==> has_song_path(final(store)@.songs, tracks_view(tracks@)[kk].path),
            store_stable(old(store)@, tracks_view(tracks@), self@) ==> (final(store)@ == old(
                store,
            )@ && r.0 == 0 && r.1 == 0 && r.2 == 0),
    {
        let ghost pre = old(store)@;
        let ghost tv = tracks_view(tracks@);
        let ghost roots = self@;

        let scanned_count = tracks.len();
        let mut added: usize = 0;
        let mut updated: usize = 0;
        let mut failed: usize = 0;
        let mut k: usize = 0;
        while k < scanned_count
            invariant
                pre == old(store)@,
                tv == tracks_view(tracks@),
                roots == self@,
                pre.wf(),
                scanned_count == tracks@.len(),
                tv.len() == tracks@.len(),
                forall|k1: int, k2: int|
                    0 <= k1 < k2 < tv.len() ==> #[trigger] tv[k1].path != #[trigger] tv[k2].path,
                forall|kk: int| 0 <= kk < tv.len() ==> under_roots(roots, #[trigger] tv[kk].path),
                0 <= k <= scanned_count,
                store@.wf(),
                store@.songs.len() == pre.songs.len() + added,
                added + updated <= k,
                added + failed + prior_row_count(pre.songs, tv.take(k as int)) == k,
                updated <= prior_row_count(pre.songs, tv.take(k as int)),
                failed == 0 ==> forall|kk: int|
                    0 <= kk < k ==> has_song_path(store@.songs, #[trigger] tv[kk].path),
                forall|j: int|
                    0 <= j < pre.songs.len() ==> #[trigger] store@.songs[j].file_path
                        == pre.songs[j].file_path,
                forall|j: int|
                    pre.songs.len() <= j < store@.songs.len() ==> exists|kk: int|
                        0 <= kk < k && #[trigger] store@.songs[j].file_path == tv[kk].path,
                forall|kk: int|
                    0 <= kk < k && has_song_path(store@.songs, #[trigger] tv[kk].path)
                        ==> recorded_at(store@, tv[kk]),
                forall|kk: int|
                    0 <= kk < k && has_song_path(pre.songs, #[trigger] tv[kk].path)
                        ==> has_song_path(store@.songs, tv[kk].path),
                pre.artists.len() <= store@.artists.len(),
                pre.artists == store@.artists.take(pre.artists.len() as int),
                pre.albums.len() <= store@.albums.len(),
                pre.albums == store@.albums.take(pre.albums.len() as int),
                store_stable(pre, tv, roots) ==> (store@ == pre && added == 0 && updated == 0
                    && failed == 0),
            decreases scanned_count - k,
        {
            let ghost cur = store@;
            proof {
                assert(tv[k as int] == tracks@[k as int]@);
                if store_stable(pre, tv, roots) {
                    assert(track_recorded(pre, tv[k as int]));
                }
            }
            let result = self.save_or_update_track(store, &tracks[k]);
            proof {
                let t = tv[k as int];
                assert forall|kk: int|
                    0 <= kk < k + 1 && has_song_path(store@.songs, #[trigger] tv[kk].path) implies
                    recorded_at(store@, tv[kk]) by {
                    if kk < k {
                        let jj = choose|j: int|
                            0 <= j < store@.songs.len() && #[trigger] store@.songs[j].file_path
                                == tv[kk].path;
                        assert(tv[kk].path != t.path);
                        assert(jj < cur.songs.len()) by {
                            if jj >= cur.songs.len() {
                                assert(store@.songs[jj].file_path == t.path);
                            }
                        }
                        assert(cur.songs[jj].file_path == tv[kk].path);
                        assert(has_song_path(cur.songs, tv[kk].path));
                        assert(recorded_at(cur, tv[kk]));
                        let j0 = choose|j: int|
                            0 <= j < cur.songs.len() && #[trigger] cur.songs[j].file_path
                                == tv[kk].path && song_matches_track(cur, cur.songs[j], tv[kk]);
                        assert(store@.songs[j0] == cur.songs[j0]);
                        lemma_matching_monotone(cur, store@, cur.songs[j0], tv[kk]);
                        assert(store@.songs[j0].file_path == tv[kk].path && song_matches_track(
                            store@,
                            store@.songs[j0],
                            tv[kk],
                        ));
                    }
                }
                assert forall|kk: int|
                    0 <= kk < k + 1 && has_song_path(pre.songs, #[trigger] tv[kk].path) implies
                    has_song_path(store@.songs, tv[kk].path) by {
                    if kk < k {
                        let jj = choose|j: int|
                            0 <= j < cur.songs.len() && #[trigger] cur.songs[j].file_path
                                == tv[kk].path;
                        assert(store@.songs[jj].file_path == tv[kk].path);
                    } else {
                        let jp = choose|j: int|
                            0 <= j < pre.songs.len() && #[trigger] pre.songs[j].file_path
                                == tv[kk].path;
                        assert(cur.songs[jp].file_path == tv[kk].path);
                        assert(store@.songs[jp].file_path == tv[kk].path);
                    }
                }
                assert(pre.artists =~= store@.artists.take(pre.artists.len() as int));
                assert(pre.albums =~= store@.albums.take(pre.albums.len() as int));
                assert(tv.take(k + 1).drop_last() =~= tv.take(k as int));
                assert(tv.take(k + 1).last() == tv[k as int]);
                assert(has_song_path(cur.songs, t.path) == has_song_path(pre.songs, t.path)) by {
                    if has_song_path(cur.songs, t.path) {
                        let j = choose|j: int|
                            0 <= j < cur.songs.len() && #[trigger] cur.songs[j].file_path
                                == t.path;
                        if j >= pre.songs.len() {
                            let kk = choose|kk: int|
                                0 <= kk < k && #[trigger] cur.songs[j].file_path == tv[kk].path;
                            assert(tv[kk].path != tv[k as int].path);
                            assert(false);
                        }
                        assert(pre.songs[j].file_path == t.path);
                    }
                    if has_song_path(pre.songs, t.path) {
                        let j = choose|j: int|
                            0 <= j < pre.songs.len() && #[trigger] pre.songs[j].file_path
                                == t.path;
                        assert(cur.songs[j].file_path == t.path);
                    }
                }
                assert forall|j: int|
                    pre.songs.len() <= j < store@.songs.len() implies exists|kk: int|
                    0 <= kk < k + 1 && #[trigger] store@.songs[j].file_path == tv[kk].path by {
                    if j < cur.songs.len() {
                        let kk = choose|kk: int|
                            0 <= kk < k && #[trigger] cur.songs[j].file_path == tv[kk].path;
                        assert(store@.songs[j].file_path == tv[kk].path);
                    } else {
                        assert(store@.songs[j].file_path == tv[k as int].path);
                    }
                }
                if failed == 0 && !(result is Err) {
                    assert forall|kk: int|
                        0 <= kk < k + 1 implies has_song_path(
                        store@.songs,
                        #[trigger] tv[kk].path,
                    ) by {
                        if kk < k {
                            let jj = choose|j: int|
                                0 <= j < cur.songs.len() && #[trigger] cur.songs[j].file_path
                                    == tv[kk].path;
                            assert(store@.songs[jj].file_path == tv[kk].path);
                        } else {
                            if result == Ok::<SaveAction, StoreError>(SaveAction::Added) {
                                assert(store@.songs.len() == cur.songs.len() + 1);
                                assert(store@.songs[cur.songs.len() as int].file_path == t.path);
                            } else {
                                assert(has_song_path(pre.songs, t.path));
                                let jp = choose|j: int|
                                    0 <= j < pre.songs.len() && #[trigger] pre.songs[j].file_path
                                        == t.path;
                                assert(cur.songs[jp].file_path == t.path);
                                assert(store@.songs[jp].file_path == t.path);
                            }
                        }
                    }
                }
                if store_stable(pre, tv, roots) {
                    assert(cur == pre);
                    assert(result == Ok::<SaveAction, StoreError>(SaveAction::Unchanged));
                }
            }
            match result {
                Ok(SaveAction::Added) => {
                    proof {
                        assert(!has_song_path(cur.songs, tv[k as int].path));
                        assert(!has_song_path(pre.songs, tv[k as int].path));
                    }
                    added += 1;
                },
                Ok(SaveAction::Updated) => {
                    proof {
                        assert(has_song_path(pre.songs, tv[k as int].path));
                    }
                    updated += 1;
                },
                Ok(SaveAction::Unchanged) => {
                    proof {
                        assert(has_song_path(pre.songs, tv[k as int].path));
                    }
                },
                Err(_) => {
                    proof {
                        assert(!has_song_path(cur.songs, tv[k as int].path));
                        assert(!has_song_path(pre.songs, tv[k as int].path));
                    }
                    failed += 1;
                },
            }
            k += 1;
        }

        proof {
            assert(tv.take(scanned_count as int) =~= tv);
        }
        (added, updated, failed)
    }

    /// Removes every song whose file this scan did not see, or whose path
    /// lies outside every scan root, handing back how many rows went.
    #[verifier::rlimit(100)]
    #[verifier::spinoff_prover]
    fn remove_missing_songs(&self, store: &mut LibraryStore, tracks: &Vec<ScannedTrack>) -> (removed:
        usize)
        requires
            old(store)@.wf(),
        ensures
            final(store)@.wf(),
            final(store)@.artists == old(store)@.artists,
            final(store)@.albums == old(store)@.albums,
            removed == old(store)@.songs.len() - final(store)@.songs.len(),
            final(store)@.songs.len() <= old(store)@.songs.len(),
            forall|j: int|
                0 <= j < final(store)@.songs.len() ==> keep_path(
                    tracks_view(tracks@),
                    self@,
                    #[trigger] final(store)@.songs[j].file_path,
                ) && exists|i: int|
                    0 <= i < old(store)@.songs.len() && final(store)@.songs[j] == old(
                        store,
                    )@.songs[i],
            forall|i: int|
                0 <= i < old(store)@.songs.len() && keep_path(
                    tracks_view(tracks@),
                    self@,
                    old(store)@.songs[i].file_path,
                ) ==> exists|k: int|
                    0 <= k < final(store)@.songs.len() && #[trigger] final(store)@.songs[k] == old(
                        store,
                    )@.songs[i],
            (exists|i: int|
                0 <= i < old(store)@.songs.len() && !keep_path(
                    tracks_view(tracks@),
                    self@,
                    #[trigger] old(store)@.songs[i].file_path,
                )) ==> removed >= 1,
            (forall|i: int|
                0 <= i < old(store)@.songs.len() ==> keep_path(
                    tracks_view(tracks@),
                    self@,
                    #[trigger] old(store)@.songs[i].file_path,
                )) ==> final(store)@.songs == old(store)@.songs,
    {
        let ghost tv = tracks_view(tracks@);
        let ghost roots = self@;
        let ghost mid = store@;

        let all = store.get_all_songs();
        let n = all.len();
        let mut drop_flags: Vec<bool> = Vec::new();
        let mut j: usize = 0;
        while j < n
            invariant
                tv == tracks_view(tracks@),
                roots == self@,
                mid == store@,
                n == store@.songs.len(),
                n == all@.len(),
                all@.map_values(|s: Song| s@) == store@.songs,
                0 <= j <= n,
                drop_flags@.len() == j,
                forall|i: int|
                    0 <= i < j ==> #[trigger] drop_flags@[i] == !keep_path(
                        tv,
                        roots,
                        store@.songs[i].file_path,
                    ),
            decreases n - j,
        {
            proof {
                assert(store@.songs[j as int] == all@[j as int]@);
            }
            let found = Self::found_in(tracks, all[j].file_path.as_str());
            let in_roots = self.path_in_roots(all[j].file_path.as_str());
            drop_flags.push(!(found && in_roots));
            j += 1;
        }

        let removed = store.remove_flagged_songs(&drop_flags);
        proof {
            lemma_removal_facts(mid, store@.songs, tv, roots, drop_flags@);
        }
        removed
    }

    /// Whether any song of this path was handed over by the scan.
    fn found_in(tracks: &Vec<ScannedTrack>, path: &str) -> (r: bool)
        ensures
            r == in_found(tracks_view(tracks@), path@),
    {
        let n = tracks.len();
        let mut k: usize = 0;
        while k < n
            invariant
                n == tracks@.len(),
                0 <= k <= n,
                forall|j: int| 0 <= j < k ==> #[trigger] tracks_view(tracks@)[j].path != path@,
            decreases n - k,
        {
            if str_eq(tracks[k].path.as_str(), path) {
                proof {
                    assert(tracks_view(tracks@)[k as int].path == path@);
                }
                return true;
            }
            k += 1;
        }
        false
    }

    /// Whether the path lies under one of the scan roots.
    fn path_in_roots(&self, path: &str) -> (r: bool)
        ensures
            r == under_roots(self@, path@),
    {
        let n = self.scan_paths.len();
        let mut k: usize = 0;
        while k < n
            invariant
                n == self.scan_paths@.len(),
                n == self@.len(),
                0 <= k <= n,
                forall|j: int| 0 <= j < k ==> !path_under(path@, #[trigger] self@[j]),
            decreases n - k,
        {
            if path_starts_with(path, self.scan_paths[k].as_str()) {
                proof {
                    assert(path_under(path@, self@[k as int]));
                }
                return true;
            }
            k += 1;
        }
        false
    }
}

/// Scanning twice with no filesystem change does no work the second time:
/// after a pass in which no save failed, a second pass over the same tracks
/// adds nothing, rewrites nothing, removes nothing, fails nothing, and
/// leaves the store exactly as it was.
pub proof fn lemma_scan_idempotent(
    roots: Seq<Seq<char>>,
    pre: StoreV,
    mid: StoreV,
    post: StoreV,
    tv: Seq<TrackV>,
    s1: ScanStats,
    s2: ScanStats,
)
    requires
        scan_outcome(roots, pre, mid, tv, s1),
        scan_outcome(roots, mid, post, tv, s2),
        s1.failed == 0,
    ensures
        s2.added == 0,
        s2.updated == 0,
        s2.removed == 0,
        s2.failed == 0,
        post == mid,
{
    assert forall|k: int| 0 <= k < tv.len() implies track_recorded(mid, #[trigger] tv[k]) by {
        assert(recorded_at(mid, tv[k]));
        let j = choose|j: int|
            0 <= j < mid.songs.len() && #[trigger] mid.songs[j].file_path == tv[k].path
                && song_matches_track(mid, mid.songs[j], tv[k]);
        assert(song_matches_track(mid, mid.songs[j], tv[k]));
    }
    assert(store_stable(mid, tv, roots));
}

/// A file that an earlier pass recorded and a later pass no longer sees is
/// removed: the later pass reports at least one removal, and no row at that
/// path remains.
pub proof fn lemma_scan_removes_missing(
    roots: Seq<Seq<char>>,
    pre: StoreV,
    mid: StoreV,
    post: StoreV,
    tv1: Seq<TrackV>,
    tv2: Seq<TrackV>,
    s1: ScanStats,
    s2: ScanStats,
    p: Seq<char>,
)
    requires
        scan_outcome(roots, pre, mid, tv1, s1),
        scan_outcome(roots, mid, post, tv2, s2),
        has_song_path(mid.songs, p),
        forall|k: int| 0 <= k < tv2.len() ==> #[trigger] tv2[k].path != p,
    ensures
        s2.removed >= 1,
        !has_song_path(post.songs, p),
{
    assert(!in_found(tv2, p)) by {
        if in_found(tv2, p) {
            let k = choose|k: int| 0 <= k < tv2.len() && #[trigger] tv2[k].path == p;
            assert(false);
        }
    }
    let j = choose|j: int| 0 <= j < mid.songs.len() && #[trigger] mid.songs[j].file_path == p;
    assert(!keep_path(tv2, roots, mid.songs[j].file_path));
    if has_song_path(post.songs, p) {
        let jj = choose|jj: int|
            0 <= jj < post.songs.len() && #[trigger] post.songs[jj].file_path == p;
        assert(keep_path(tv2, roots, post.songs[jj].file_path));
        assert(in_found(tv2, p));
        assert(false);
    }
}

/// Relies on dirs::home_dir: the user's home directory as the platform
/// reports it. The result depends on the environment, so nothing is promised
/// of it.
#[verifier::external_body]
fn home_dir_string() -> (r: Option<String>) {
    dirs::home_dir().and_then(|p| p.to_str().map(|s| s.to_owned()))
}

/// What tilde expansion yields against a given home directory: a path of
/// the form `~/rest` becomes the home directory joined with `rest`; any
/// other path, or a missing home, passes through.
pub open spec fn expand_with(path: Seq<char>, home: Option<Seq<char>>) -> Seq<char> {
    if path.len() >= 2 && path[0] == '~' && path[1] == '/' && home is Some {
        if home->0.len() > 0 && home->0.last() == '/' {
            home->0 + path.skip(2)
        } else {
            home->0 + "/"@ + path.skip(2)
        }
    } else {
        path
    }
}

/// Expands a leading `~/` in a path against a given home directory,
/// exactly as `expand_with` describes it.
pub fn expand_tilde_with(path: &str, home: Option<&str>) -> (r: String)
    ensures
        r@ == expand_with(path@, opt_ref_str_view(home)),
{
    let n = path.unicode_len();
    if n >= 2 && path.get_char(0) == '~' && path.get_char(1) == '/' {
        match home {
            Some(home_path) => {
                let rest = path.substring_char(2, n);
                let hn = home_path.unicode_len();
                let ends_sep = hn > 0 && home_path.get_char(hn - 1) == '/';
                if ends_sep {
                    home_path.to_owned().concat(rest)
                } else {
                    home_path.to_owned().concat("/").concat(rest)
                }
            },
            None => path.to_owned(),
        }
    } else {
        path.to_owned()
    }
}

/// Expands a leading `~/` against the home directory the platform reports;
/// what that directory is depends on the environment, so the contract says
/// only that the result is the expansion against some such answer.
pub fn expand_tilde(path: &str) -> (r: String)
    ensures
        exists|h: Option<Seq<char>>| r@ == #[trigger] expand_with(path@, h),
{
    let home = home_dir_string();
    let home_ref: Option<&str> = match &home {
        Some(h) => Some(h.as_str()),
        None => None,
    };
    let r = expand_tilde_with(path, home_ref);
    proof {
        assert(r@ == expand_with(path@, opt_ref_str_view(home_ref)));
    }
    r
}

/// The string is some tilde expansion of the path: against the home the
/// platform reported, or the path itself.
pub open spec fn expanded_from(r: Seq<char>, p: Seq<char>) -> bool {
    exists|h: Option<Seq<char>>| r == #[trigger] expand_with(p, h)
}

/// Expands a leading `~/` in every configured path.
pub fn expand_scan_paths(paths: &[String]) -> (r: Vec<String>)
    ensures
        r@.len() == paths@.len(),
        forall|i: int| 0 <= i < r@.len() ==> expanded_from(#[trigger] r@[i]@, paths@[i]@),
{
    let n = paths.len();
    let mut out: Vec<String> = Vec::new();
    let mut i: usize = 0;
    while i < n
        invariant
            n == paths@.len(),
            0 <= i <= n,
            out@.len() == i,
            forall|j: int| 0 <= j < i ==> expanded_from(#[trigger] out@[j]@, paths@[j]@),
        decreases n - i,
    {
        let expanded = expand_tilde(paths[i].as_str());
        proof {
            assert(expanded_from(expanded@, paths@[i as int]@));
        }
        out.push(expanded);
        i += 1;
    }
    out
}

/// The file name of a path: what follows the last separator.
pub open spec fn base_name(p: Seq<char>) -> Seq<char> {
    p.skip(last_index_of(p, '/') + 1)
}

/// The extension of a path: what follows the last dot of the file name,
/// unless that dot starts the name.
pub open spec fn ext_of(p: Seq<char>) -> Seq<char> {
    base_name(p).skip(last_index_of(base_name(p), '.') + 1)
}

/// The path names an audio file: its file name has an extension beyond a
/// leading dot, and lowercased it is one of the supported ones.
pub open spec fn is_audio_path(p: Seq<char>) -> bool {
    last_index_of(base_name(p), '.') > 0 && is_allowed_ext(ext_of(p))
}

/// The fixed allow-list of audio extensions, up to ASCII case.
pub open spec fn is_allowed_ext(e: Seq<char>) -> bool {
    ||| lower_eq(e, "mp3"@)
    ||| lower_eq(e, "flac"@)
    ||| lower_eq(e, "ogg"@)
    ||| lower_eq(e, "m4a"@)
    ||| lower_eq(e, "aac"@)
    ||| lower_eq(e, "wav"@)
    ||| lower_eq(e, "mp1"@)
    ||| lower_eq(e, "mp2"@)
}

/// Tests an extension against the allow-list.
fn is_allowed_extension(e: &str) -> (r: bool)
    ensures
        r == is_allowed_ext(e@),
{
    if ascii_lower_eq(e, "mp3") {
        return true;
    }
    if ascii_lower_eq(e, "flac") {
        return true;
    }
    if ascii_lower_eq(e, "ogg") {
        return true;
    }
    if ascii_lower_eq(e, "m4a") {
        return true;
    }
    if ascii_lower_eq(e, "aac") {
        return true;
    }
    if ascii_lower_eq(e, "wav") {
        return true;
    }
    if ascii_lower_eq(e, "mp1") {
        return true;
    }
    ascii_lower_eq(e, "mp2")
}

} // verus!
