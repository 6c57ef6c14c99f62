//! The in-memory library store: songs, artists and albums, with the
//! deduplication rules the scanner relies on.
//!
//! Songs are keyed by file path and carry a unique identifier; artists are
//! deduplicated by name, albums by title together with their artist. Every
//! song's artist and album reference points at an existing row.

use vstd::prelude::*;

use crate::types::{Album, AlbumV, Artist, ArtistV, Cuid, Song, SongV};
use crate::text::str_eq;

verus! {

/// The abstract state of the store.
pub ghost struct StoreV {
    pub songs: Seq<SongV>,
    pub artists: Seq<ArtistV>,
    pub albums: Seq<AlbumV>,
}

/// Some song row holds this file path.
pub open spec fn has_song_path(songs: Seq<SongV>, path: Seq<char>) -> bool {
    exists|i: int| 0 <= i < songs.len() && #[trigger] songs[i].file_path == path
}

/// Some song row holds this identifier.
pub open spec fn has_song_id(songs: Seq<SongV>, id: Seq<char>) -> bool {
    exists|i: int| 0 <= i < songs.len() && #[trigger] songs[i].id == id
}

/// Some artist row carries this name.
pub open spec fn has_artist_named(artists: Seq<ArtistV>, name: Seq<char>) -> bool {
    exists|i: int| 0 <= i < artists.len() && #[trigger] artists[i].name == name
}

/// Some artist row carries this identifier.
pub open spec fn has_artist_id(artists: Seq<ArtistV>, id: Seq<char>) -> bool {
    exists|i: int| 0 <= i < artists.len() && #[trigger] artists[i].id == id
}

/// Some album row carries this title/artist key.
pub open spec fn has_album_key(
    albums: Seq<AlbumV>,
    title: Seq<char>,
    artist: Option<Seq<char>>,
) -> bool {
    exists|i: int|
        0 <= i < albums.len() && #[trigger] albums[i].title == title && albums[i].artist == artist
}

/// Some album row carries this identifier.
pub open spec fn has_album_id(albums: Seq<AlbumV>, id: Seq<char>) -> bool {
    exists|i: int| 0 <= i < albums.len() && #[trigger] albums[i].id == id
}

impl StoreV {
    /// Well-formedness: unique song paths and ids, artists unique by name,
    /// albums unique by key, and references from songs resolve.
    pub open spec fn wf(self) -> bool {
        &&& (forall|i: int, j: int|
            0 <= i < j < self.songs.len() ==> #[trigger] self.songs[i].file_path
                != #[trigger] self.songs[j].file_path)
        &&& (forall|i: int, j: int|
            0 <= i < j < self.songs.len() ==> #[trigger] self.songs[i].id
                != #[trigger] self.songs[j].id)
        &&& (forall|i: int, j: int|
            0 <= i < j < self.artists.len() ==> #[trigger] self.artists[i].name
                != #[trigger] self.artists[j].name)
        &&& (forall|i: int, j: int|
            0 <= i < j < self.albums.len() ==> !(#[trigger] self.albums[i].title
                == #[trigger] self.albums[j].title && self.albums[i].artist
                == self.albums[j].artist))
        &&& (forall|i: int|
            0 <= i < self.songs.len() && #[trigger] self.songs[i].artist_id is Some
                ==> has_artist_id(self.artists, self.songs[i].artist_id->0))
        &&& (forall|i: int|
            0 <= i < self.songs.len() && #[trigger] self.songs[i].album_id is Some
                ==> has_album_id(self.albums, self.songs[i].album_id->0))
    }
}

/// The view of an optional borrowed identifier.
pub open spec fn opt_ref_id_view(id: Option<&Cuid>) -> Option<Seq<char>> {
    match id {
        Some(c) => Some(c@),
        None => None,
    }
}

/// The view of an optional borrowed string.
pub open spec fn opt_ref_str_view(s: Option<&str>) -> Option<Seq<char>> {
    match s {
        Some(x) => Some(x@),
        None => None,
    }
}

/// The song row that an insert with these arguments writes.
pub open spec fn new_song_v(
    id: Seq<char>,
    title: Seq<char>,
    artist_id: Option<Seq<char>>,
    album_id: Option<Seq<char>>,
    file_path: Seq<char>,
    duration: Option<i32>,
    track_number: Option<i32>,
    year: Option<i32>,
    genre: Option<Seq<char>>,
    replaygain_track_gain: Option<i32>,
    replaygain_track_peak: Option<i32>,
) -> SongV {
    SongV {
        id: id,
        title: title,
        artist_id: artist_id,
        album_id: album_id,
        file_path: file_path,
        genre: genre,
        date: year,
        duration: duration,
        cover: None,
        track_number: track_number,
        favorite: false,
        replaygain_track_gain: replaygain_track_gain,
        replaygain_track_peak: replaygain_track_peak,
    }
}

/// The song row that a metadata update leaves behind: path, id, cover and
/// favorite flag kept, everything else replaced.
pub open spec fn updated_song_v(
    base: SongV,
    title: Seq<char>,
    artist_id: Option<Seq<char>>,
    album_id: Option<Seq<char>>,
    duration: Option<i32>,
    track_number: Option<i32>,
    year: Option<i32>,
    genre: Option<Seq<char>>,
    replaygain_track_gain: Option<i32>,
    replaygain_track_peak: Option<i32>,
) -> SongV {
    SongV {
        id: base.id,
        title: title,
        artist_id: artist_id,
        album_id: album_id,
        file_path: base.file_path,
        genre: genre,
        date: year,
        duration: duration,
        cover: base.cover,
        track_number: track_number,
        favorite: base.favorite,
        replaygain_track_gain: replaygain_track_gain,
        replaygain_track_peak: replaygain_track_peak,
    }
}

/// The subsequence of `s` that a pass with per-index drop flags leaves
/// behind: element `i` stays exactly when `drop[i]` is false, order kept.
pub open spec fn kept<A>(s: Seq<A>, drop: Seq<bool>) -> Seq<A>
    decreases s.len(),
{
    if s.len() == 0 {
        s
    } else {
        let rest = kept(s.drop_last(), drop.drop_last());
        if drop.len() >= s.len() && drop[s.len() - 1] {
            rest
        } else {
            rest.push(s.last())
        }
    }
}

/// Every element of the kept subsequence comes from an unflagged position.
pub proof fn lemma_kept_members<A>(s: Seq<A>, drop: Seq<bool>)
    requires
        drop.len() == s.len(),
    ensures
        kept(s, drop).len() <= s.len(),
        forall|k: int|
            0 <= k < kept(s, drop).len() ==> exists|i: int|
                0 <= i < s.len() && !drop[i] && #[trigger] kept(s, drop)[k] == s[i],
    decreases s.len(),
{
    if s.len() > 0 {
        lemma_kept_members(s.drop_last(), drop.drop_last());
    }
    assert forall|k: int| 0 <= k < kept(s, drop).len() implies exists|i: int|
        0 <= i < s.len() && !drop[i] && #[trigger] kept(s, drop)[k] == s[i] by {
        if k < kept(s.drop_last(), drop.drop_last()).len() {
            assert(kept(s, drop)[k] == kept(s.drop_last(), drop.drop_last())[k]);
            let i = choose|i: int|
                0 <= i < s.drop_last().len() && !drop.drop_last()[i] && #[trigger] kept(
                    s.drop_last(),
                    drop.drop_last(),
                )[k] == s.drop_last()[i];
            assert(s.drop_last()[i] == s[i]);
            assert(drop.drop_last()[i] == drop[i]);
            assert(kept(s, drop)[k] == s[i]);
        } else {
            assert(!drop[s.len() - 1]);
            assert(kept(s, drop)[k] == s[s.len() - 1]);
        }
    }
}

/// Every unflagged element survives the pass.
pub proof fn lemma_kept_complete<A>(s: Seq<A>, drop: Seq<bool>)
    requires
        drop.len() == s.len(),
    ensures
        forall|i: int|
            0 <= i < s.len() && !drop[i] ==> exists|k: int|
                0 <= k < kept(s, drop).len() && #[trigger] kept(s, drop)[k] == s[i],
    decreases s.len(),
{
    if s.len() > 0 {
        lemma_kept_complete(s.drop_last(), drop.drop_last());
    }
    assert forall|i: int| 0 <= i < s.len() && !drop[i] implies exists|k: int|
        0 <= k < kept(s, drop).len() && #[trigger] kept(s, drop)[k] == s[i] by {
        if i < s.len() - 1 {
            assert(s.drop_last()[i] == s[i]);
            assert(drop.drop_last()[i] == drop[i]);
            let k = choose|k: int|
                0 <= k < kept(s.drop_last(), drop.drop_last()).len() && #[trigger] kept(
                    s.drop_last(),
                    drop.drop_last(),
                )[k] == s.drop_last()[i];
            assert(kept(s, drop)[k] == kept(s.drop_last(), drop.drop_last())[k]);
            assert(kept(s, drop)[k] == s[i]);
        } else {
            assert(!drop[s.len() - 1]);
            assert(kept(s, drop)[kept(s.drop_last(), drop.drop_last()).len() as int] == s[i]);
        }
    }
}

/// A pass keeps elements pairwise distinct under any key that told them
/// apart before.
pub proof fn lemma_kept_distinct_by<A, K>(s: Seq<A>, drop: Seq<bool>, key: spec_fn(A) -> K)
    requires
        drop.len() == s.len(),
        forall|i: int, j: int| 0 <= i < j < s.len() ==> key(#[trigger] s[i]) != key(#[trigger] s[j]),
    ensures
        forall|a: int, b: int|
            0 <= a < b < kept(s, drop).len() ==> key(#[trigger] kept(s, drop)[a]) != key(
                #[trigger] kept(s, drop)[b],
            ),
    decreases s.len(),
{
    if s.len() > 0 {
        assert(forall|i: int| 0 <= i < s.drop_last().len() ==> #[trigger] s.drop_last()[i] == s[i]);
        lemma_kept_distinct_by(s.drop_last(), drop.drop_last(), key);
        lemma_kept_members(s.drop_last(), drop.drop_last());
        assert forall|a: int, b: int|
            0 <= a < b < kept(s, drop).len() implies key(#[trigger] kept(s, drop)[a]) != key(
            #[trigger] kept(s, drop)[b],
        ) by {
            if b < kept(s.drop_last(), drop.drop_last()).len() {
                assert(kept(s, drop)[a] == kept(s.drop_last(), drop.drop_last())[a]);
                assert(kept(s, drop)[b] == kept(s.drop_last(), drop.drop_last())[b]);
            } else {
                assert(!drop[s.len() - 1]);
                assert(kept(s, drop)[b] == s[s.len() - 1]);
                assert(kept(s, drop)[a] == kept(s.drop_last(), drop.drop_last())[a]);
                let i = choose|i: int|
                    0 <= i < s.drop_last().len() && !drop.drop_last()[i] && #[trigger] kept(
                        s.drop_last(),
                        drop.drop_last(),
                    )[a] == s.drop_last()[i];
                assert(s.drop_last()[i] == s[i]);
                assert(key(s[i]) != key(s[s.len() - 1]));
            }
        }
    }
}

/// A pass with at least one flag set loses at least one element.
pub proof fn lemma_kept_drops_one<A>(s: Seq<A>, drop: Seq<bool>, i: int)
    requires
        drop.len() == s.len(),
        0 <= i < s.len(),
        drop[i],
    ensures
        kept(s, drop).len() < s.len(),
    decreases s.len(),
{
    lemma_kept_members(s, drop);
    if i == s.len() - 1 {
        lemma_kept_members(s.drop_last(), drop.drop_last());
    } else {
        lemma_kept_drops_one(s.drop_last(), drop.drop_last(), i);
    }
}

/// A pass that flags nothing changes nothing.
pub proof fn lemma_kept_none<A>(s: Seq<A>, drop: Seq<bool>)
    requires
        drop.len() == s.len(),
        forall|i: int| 0 <= i < drop.len() ==> !drop[i],
    ensures
        kept(s, drop) == s,
    decreases s.len(),
{
    if s.len() > 0 {
        lemma_kept_none(s.drop_last(), drop.drop_last());
        assert(kept(s, drop) =~= s);
    }
}

/// What one orphan-collection pass over the artists leaves: rows with a
/// reference stay (names still unique), rows without one go, and every
/// song's artist reference still resolves.
proof fn lemma_artist_pass(pre: StoreV, flags: Seq<bool>)
    requires
        pre.wf(),
        flags.len() == pre.artists.len(),
        forall|j: int|
            0 <= j < flags.len() ==> #[trigger] flags[j] == !referenced_artist(
                pre.songs,
                pre.artists[j],
            ),
    ensures
        kept(pre.artists, flags).len() <= pre.artists.len(),
        forall|a: int, b: int|
            0 <= a < b < kept(pre.artists, flags).len() ==> #[trigger] kept(
                pre.artists,
                flags,
            )[a].name != #[trigger] kept(pre.artists, flags)[b].name,
        forall|k: int|
            0 <= k < kept(pre.artists, flags).len() ==> referenced_artist(
                pre.songs,
                #[trigger] kept(pre.artists, flags)[k],
            ) && exists|i: int|
                0 <= i < pre.artists.len() && kept(pre.artists, flags)[k] == pre.artists[i],
        forall|i: int|
            0 <= i < pre.artists.len() && referenced_artist(pre.songs, #[trigger] pre.artists[i])
                ==> exists|k: int|
                0 <= k < kept(pre.artists, flags).len() && kept(pre.artists, flags)[k]
                    == pre.artists[i],
        forall|t: int|
            0 <= t < pre.songs.len() && #[trigger] pre.songs[t].artist_id is Some
                ==> has_artist_id(kept(pre.artists, flags), pre.songs[t].artist_id->0),
{
    lemma_kept_members(pre.artists, flags);
    lemma_kept_complete(pre.artists, flags);
    lemma_kept_distinct_by(pre.artists, flags, |a: ArtistV| a.name);
    assert forall|i: int|
        0 <= i < pre.artists.len() && referenced_artist(pre.songs, #[trigger] pre.artists[i])
        implies exists|k: int|
        0 <= k < kept(pre.artists, flags).len() && kept(pre.artists, flags)[k]
            == pre.artists[i] by {
        assert(!flags[i]);
        let k = choose|k: int|
            0 <= k < kept(pre.artists, flags).len() && #[trigger] kept(pre.artists, flags)[k]
                == pre.artists[i];
        assert(0 <= k < kept(pre.artists, flags).len() && kept(pre.artists, flags)[k]
            == pre.artists[i]);
    }
    assert forall|k: int| 0 <= k < kept(pre.artists, flags).len() implies referenced_artist(
        pre.songs,
        #[trigger] kept(pre.artists, flags)[k],
    ) && exists|i: int|
        0 <= i < pre.artists.len() && kept(pre.artists, flags)[k] == pre.artists[i] by {
        let i = choose|i: int|
            0 <= i < pre.artists.len() && !flags[i] && #[trigger] kept(pre.artists, flags)[k]
                == pre.artists[i];
        assert(referenced_artist(pre.songs, pre.artists[i]));
    }
    assert forall|t: int|
        0 <= t < pre.songs.len() && #[trigger] pre.songs[t].artist_id is Some implies
        has_artist_id(kept(pre.artists, flags), pre.songs[t].artist_id->0) by {
        let a = choose|a: int|
            0 <= a < pre.artists.len() && #[trigger] pre.artists[a].id == pre.songs[t].artist_id->0;
        assert(referenced_artist(pre.songs, pre.artists[a])) by {
            assert(pre.songs[t].artist_id == Some(pre.artists[a].id));
        }
        assert(!flags[a]);
        let kk = choose|kk: int|
            0 <= kk < kept(pre.artists, flags).len() && #[trigger] kept(pre.artists, flags)[kk]
                == pre.artists[a];
        assert(kept(pre.artists, flags)[kk].id == pre.songs[t].artist_id->0);
    }
}

/// The same statement for one pass over the albums.
proof fn lemma_album_pass(pre: StoreV, flags: Seq<bool>)
    requires
        pre.wf(),
        flags.len() == pre.albums.len(),
        forall|j: int|
            0 <= j < flags.len() ==> #[trigger] flags[j] == !referenced_album(
                pre.songs,
                pre.albums[j],
            ),
    ensures
        kept(pre.albums, flags).len() <= pre.albums.len(),
        forall|a: int, b: int|
            0 <= a < b < kept(pre.albums, flags).len() ==> !(#[trigger] kept(
                pre.albums,
                flags,
            )[a].title == #[trigger] kept(pre.albums, flags)[b].title && kept(
                pre.albums,
                flags,
            )[a].artist == kept(pre.albums, flags)[b].artist),
        forall|k: int|
            0 <= k < kept(pre.albums, flags).len() ==> referenced_album(
                pre.songs,
                #[trigger] kept(pre.albums, flags)[k],
            ) && exists|i: int|
                0 <= i < pre.albums.len() && kept(pre.albums, flags)[k] == pre.albums[i],
        forall|i: int|
            0 <= i < pre.albums.len() && referenced_album(pre.songs, #[trigger] pre.albums[i])
                ==> exists|k: int|
                0 <= k < kept(pre.albums, flags).len() && kept(pre.albums, flags)[k]
                    == pre.albums[i],
        forall|t: int|
            0 <= t < pre.songs.len() && #[trigger] pre.songs[t].album_id is Some ==> has_album_id(
                kept(pre.albums, flags),
                pre.songs[t].album_id->0,
            ),
{
    lemma_kept_members(pre.albums, flags);
    lemma_kept_complete(pre.albums, flags);
    lemma_kept_distinct_by(pre.albums, flags, |a: AlbumV| (a.title, a.artist));
    assert forall|i: int|
        0 <= i < pre.albums.len() && referenced_album(pre.songs, #[trigger] pre.albums[i])
        implies exists|k: int|
        0 <= k < kept(pre.albums, flags).len() && kept(pre.albums, flags)[k] == pre.albums[i] by {
        assert(!flags[i]);
        let k = choose|k: int|
            0 <= k < kept(pre.albums, flags).len() && #[trigger] kept(pre.albums, flags)[k]
                == pre.albums[i];
        assert(0 <= k < kept(pre.albums, flags).len() && kept(pre.albums, flags)[k]
            == pre.albums[i]);
    }
    assert forall|k: int| 0 <= k < kept(pre.albums, flags).len() implies referenced_album(
        pre.songs,
        #[trigger] kept(pre.albums, flags)[k],
    ) && exists|i: int|
        0 <= i < pre.albums.len() && kept(pre.albums, flags)[k] == pre.albums[i] by {
        let i = choose|i: int|
            0 <= i < pre.albums.len() && !flags[i] && #[trigger] kept(pre.albums, flags)[k]
                == pre.albums[i];
        assert(referenced_album(pre.songs, pre.albums[i]));
    }
    assert forall|t: int|
        0 <= t < pre.songs.len() && #[trigger] pre.songs[t].album_id is Some implies has_album_id(
        kept(pre.albums, flags),
        pre.songs[t].album_id->0,
    ) by {
        let a = choose|a: int|
            0 <= a < pre.albums.len() && #[trigger] pre.albums[a].id == pre.songs[t].album_id->0;
        assert(referenced_album(pre.songs, pre.albums[a])) by {
            assert(pre.songs[t].album_id == Some(pre.albums[a].id));
        }
        assert(!flags[a]);
        let kk = choose|kk: int|
            0 <= kk < kept(pre.albums, flags).len() && #[trigger] kept(pre.albums, flags)[kk]
                == pre.albums[a];
        assert(kept(pre.albums, flags)[kk].id == pre.songs[t].album_id->0);
    }
}

/// Some song references this artist.
pub open spec fn referenced_artist(songs: Seq<SongV>, a: ArtistV) -> bool {
    exists|i: int| 0 <= i < songs.len() && #[trigger] songs[i].artist_id == Some(a.id)
}

/// Some song references this album.
pub open spec fn referenced_album(songs: Seq<SongV>, a: AlbumV) -> bool {
    exists|i: int| 0 <= i < songs.len() && #[trigger] songs[i].album_id == Some(a.id)
}

/// The one way a store write can fail: a freshly generated identifier
/// collided with one already present.
#[derive(Clone, Copy, Debug, PartialEq, Eq, Structural)]
pub enum StoreError {
    DuplicateId,
}

/// The in-memory library store.
pub struct LibraryStore {
    songs: Vec<Song>,
    artists: Vec<Artist>,
    albums: Vec<Album>,
}

impl View for LibraryStore {
    type V = StoreV;

    closed spec fn view(&self) -> StoreV {
        StoreV {
            songs: self.songs@.map_values(|s: Song| s@),
            artists: self.artists@.map_values(|a: Artist| a@),
            albums: self.albums@.map_values(|a: Album| a@),
        }
    }
}

impl LibraryStore {
    /// An empty store.
    pub fn new() -> (r: Self)
        ensures
            r@.songs.len() == 0,
            r@.artists.len() == 0,
            r@.albums.len() == 0,
            r@.wf(),
    {
        let r = Self {
            songs: Vec::new(),
            artists: Vec::new(),
            albums: Vec::new(),
        };
        proof {
            assert(r@.songs =~= Seq::<SongV>::empty());
            assert(r@.artists =~= Seq::<ArtistV>::empty());
            assert(r@.albums =~= Seq::<AlbumV>::empty());
        }
        r
    }

    /// The song at a file path, if one is stored.
    pub fn get_song_by_path(&self, file_path: &str) -> (r: Option<Song>)
        ensures
            match r {
                Some(song) => exists|i: int|
                    0 <= i < self@.songs.len() && #[trigger] self@.songs[i].file_path == file_path@
                        && song@ == self@.songs[i],
                None => !has_song_path(self@.songs, file_path@),
            },
    {
        let n = self.songs.len();
        let mut i: usize = 0;
        while i < n
            invariant
                n == self@.songs.len(),
                n == self.songs@.len(),
                0 <= i <= n,
                forall|j: int| 0 <= j < i ==> #[trigger] self@.songs[j].file_path != file_path@,
            decreases n - i,
        {
            if str_eq(self.songs[i].file_path.as_str(), file_path) {
                let song = self.songs[i].clone();
                proof {
                    assert(self@.songs[i as int] == self.songs@[i as int]@);
                    assert(0 <= i < self@.songs.len() && self@.songs[i as int].file_path
                        == file_path@ && song@ == self@.songs[i as int]);
                }
                return Some(song);
            }
            i += 1;
        }
        None
    }

    /// Whether any song row carries this identifier.
    pub fn has_song_with_id(&self, id: &Cuid) -> (r: bool)
        ensures
            r == has_song_id(self@.songs, id@),
    {
        let n = self.songs.len();
        let mut i: usize = 0;
        while i < n
            invariant
                n == self@.songs.len(),
                n == self.songs@.len(),
                0 <= i <= n,
                forall|j: int| 0 <= j < i ==> #[trigger] self@.songs[j].id != id@,
            decreases n - i,
        {
            if self.songs[i].id.eq_id(id) {
                proof {
                    assert(self@.songs[i as int] == self.songs@[i as int]@);
                    assert(0 <= i < self@.songs.len() && self@.songs[i as int].id == id@);
                }
                return true;
            }
            i += 1;
        }
        false
    }

    /// Inserts a song under a caller-supplied identifier; refused when the
    /// identifier is already in use.
    pub fn insert_song_with_id(
        &mut self,
        id: Cuid,
        title: &str,
        artist_id: Option<&Cuid>,
        album_id: Option<&Cuid>,
        file_path: &str,
        duration: Option<i32>,
        track_number: Option<i32>,
        year: Option<i32>,
        genre: Option<&str>,
        replaygain_track_gain: Option<i32>,
        replaygain_track_peak: Option<i32>,
    ) -> (r: Result<Cuid, StoreError>)
        requires
            old(self)@.wf(),
            !has_song_path(old(self)@.songs, file_path@),
            artist_id is Some ==> has_artist_id(old(self)@.artists, artist_id->0@),
            album_id is Some ==> has_album_id(old(self)@.albums, album_id->0@),
        ensures
            final(self)@.wf(),
            final(self)@.artists == old(self)@.artists,
            final(self)@.albums == old(self)@.albums,
            r is Ok <==> !has_song_id(old(self)@.songs, id@),
            r matches Ok(out) ==> out@ == id@ && final(self)@.songs == old(self)@.songs.push(
                new_song_v(
                    id@,
                    title@,
                    opt_ref_id_view(artist_id),
                    opt_ref_id_view(album_id),
                    file_path@,
                    duration,
                    track_number,
                    year,
                    opt_ref_str_view(genre),
                    replaygain_track_gain,
                    replaygain_track_peak,
                ),
            ),
            r is Err ==> final(self)@.songs == old(self)@.songs,
    {
        if self.has_song_with_id(&id) {
            return Err(StoreError::DuplicateId);
        }
        let out = id.clone();
        let song = Song {
            id,
            title: title.to_owned(),
            artist_id: match artist_id {
                Some(c) => Some(c.clone()),
                None => None,
            },
            album_id: match album_id {
                Some(c) => Some(c.clone()),
                None => None,
            },
            file_path: file_path.to_owned(),
            genre: match genre {
                Some(g) => Some(g.to_owned()),
                None => None,
            },
            date: year,
            duration,
            cover: None,
            track_number,
            favorite: false,
            replaygain_track_gain,
            replaygain_track_peak,
        };
        self.songs.push(song);
        proof {
            assert(self@.songs =~= old(self)@.songs.push(
                new_song_v(
                    id@,
                    title@,
                    opt_ref_id_view(artist_id),
                    opt_ref_id_view(album_id),
                    file_path@,
                    duration,
                    track_number,
                    year,
                    opt_ref_str_view(genre),
                    replaygain_track_gain,
                    replaygain_track_peak,
                ),
            ));
            assert(self@.artists =~= old(self)@.artists);
            assert(self@.albums =~= old(self)@.albums);
        }
        Ok(out)
    }

    /// Inserts a song under a freshly generated identifier; refused only
    /// when that identifier collides with one already present, which an
    /// empty store makes impossible.
    pub fn insert_song(
        &mut self,
        title: &str,
        artist_id: Option<&Cuid>,
        album_id: Option<&Cuid>,
        file_path: &str,
        duration: Option<i32>,
        track_number: Option<i32>,
        year: Option<i32>,
        genre: Option<&str>,
        replaygain_track_gain: Option<i32>,
        replaygain_track_peak: Option<i32>,
    ) -> (r: Result<Cuid, StoreError>)
        requires
            old(self)@.wf(),
            !has_song_path(old(self)@.songs, file_path@),
            artist_id is Some ==> has_artist_id(old(self)@.artists, artist_id->0@),
            album_id is Some ==> has_album_id(old(self)@.albums, album_id->0@),
        ensures
            final(self)@.wf(),
            final(self)@.artists == old(self)@.artists,
            final(self)@.albums == old(self)@.albums,
            r matches Ok(out) ==> !has_song_id(old(self)@.songs, out@) && final(self)@.songs
                == old(self)@.songs.push(
                new_song_v(
                    out@,
                    title@,
                    opt_ref_id_view(artist_id),
                    opt_ref_id_view(album_id),
                    file_path@,
                    duration,
                    track_number,
                    year,
                    opt_ref_str_view(genre),
                    replaygain_track_gain,
                    replaygain_track_peak,
                ),
            ),
            r is Err ==> final(self)@.songs == old(self)@.songs && old(self)@.songs.len() > 0,
            old(self)@.songs.len() == 0 ==> r is Ok,
    {
        let id = Cuid::new();
        self.insert_song_with_id(
            id,
            title,
            artist_id,
            album_id,
            file_path,
            duration,
            track_number,
            year,
            genre,
            replaygain_track_gain,
            replaygain_track_peak,
        )
    }

    /// Rewrites the metadata of the song carrying this identifier; a missing
    /// identifier changes nothing. Path, cover and favorite flag are kept.
    pub fn update_song_metadata(
        &mut self,
        id: &Cuid,
        title: &str,
        artist_id: Option<&Cuid>,
        album_id: Option<&Cuid>,
        duration: Option<i32>,
        track_number: Option<i32>,
        year: Option<i32>,
        genre: Option<&str>,
        replaygain_track_gain: Option<i32>,
        replaygain_track_peak: Option<i32>,
    )
        requires
            old(self)@.wf(),
            artist_id is Some ==> has_artist_id(old(self)@.artists, artist_id->0@),
            album_id is Some ==> has_album_id(old(self)@.albums, album_id->0@),
        ensures
            final(self)@.wf(),
            final(self)@.artists == old(self)@.artists,
            final(self)@.albums == old(self)@.albums,
            forall|i: int|
                0 <= i < old(self)@.songs.len() && #[trigger] old(self)@.songs[i].id == id@
                    ==> final(self)@.songs == old(self)@.songs.update(
                    i,
                    updated_song_v(
                        old(self)@.songs[i],
                        title@,
                        opt_ref_id_view(artist_id),
                        opt_ref_id_view(album_id),
                        duration,
                        track_number,
                        year,
                        opt_ref_str_view(genre),
                        replaygain_track_gain,
                        replaygain_track_peak,
                    ),
                ),
            !has_song_id(old(self)@.songs, id@) ==> final(self)@.songs == old(self)@.songs,
    {
        let n = self.songs.len();
        let mut i: usize = 0;
        while i < n
            invariant
                old(self)@.wf(),
                artist_id is Some ==> has_artist_id(old(self)@.artists, artist_id->0@),
                album_id is Some ==> has_album_id(old(self)@.albums, album_id->0@),
                n == self@.songs.len(),
                n == self.songs@.len(),
                0 <= i <= n,
                self == old(self),
                forall|j: int| 0 <= j < i ==> #[trigger] self@.songs[j].id != id@,
            decreases n - i,
        {
            if self.songs[i].id.eq_id(id) {
                proof {
                    assert(self@.songs[i as int] == self.songs@[i as int]@);
                }
                let base = &self.songs[i];
                let song = Song {
                    id: base.id.clone(),
                    title: title.to_owned(),
                    artist_id: match artist_id {
                        Some(c) => Some(c.clone()),
                        None => None,
                    },
                    album_id: match album_id {
                        Some(c) => Some(c.clone()),
                        None => None,
                    },
                    file_path: base.file_path.clone(),
                    genre: match genre {
                        Some(g) => Some(g.to_owned()),
                        None => None,
                    },
                    date: year,
                    duration,
                    cover: crate::types::opt_string_clone(&base.cover),
                    track_number,
                    favorite: base.favorite,
                    replaygain_track_gain,
                    replaygain_track_peak,
                };
                self.songs.set(i, song);
                proof {
                    assert(self@.songs =~= old(self)@.songs.update(
                        i as int,
                        updated_song_v(
                            old(self)@.songs[i as int],
                            title@,
                            opt_ref_id_view(artist_id),
                            opt_ref_id_view(album_id),
                            duration,
                            track_number,
                            year,
                            opt_ref_str_view(genre),
                            replaygain_track_gain,
                            replaygain_track_peak,
                        ),
                    ));
                    assert(self@.artists =~= old(self)@.artists);
                    assert(self@.albums =~= old(self)@.albums);
                    assert forall|a: int, b: int|
                        0 <= a < b < old(self)@.songs.len() implies #[trigger] self@.songs[a].id
                        != #[trigger] self@.songs[b].id by {
                        assert(old(self)@.songs[a].id != old(self)@.songs[b].id);
                    }
                }
                return ;
            }
            i += 1;
        }
    }

    /// Deletes the song carrying this identifier; a missing identifier
    /// changes nothing.
    pub fn delete_song(&mut self, id: &Cuid)
        requires
            old(self)@.wf(),
        ensures
            final(self)@.wf(),
            final(self)@.artists == old(self)@.artists,
            final(self)@.albums == old(self)@.albums,
            forall|i: int|
                0 <= i < old(self)@.songs.len() && #[trigger] old(self)@.songs[i].id == id@
                    ==> final(self)@.songs == old(self)@.songs.remove(i),
            !has_song_id(old(self)@.songs, id@) ==> final(self)@.songs == old(self)@.songs,
    {
        let n = self.songs.len();
        let mut i: usize = 0;
        while i < n
            invariant
                old(self)@.wf(),
                n == self@.songs.len(),
                n == self.songs@.len(),
                0 <= i <= n,
                self == old(self),
                forall|j: int| 0 <= j < i ==> #[trigger] self@.songs[j].id != id@,
            decreases n - i,
        {
            if self.songs[i].id.eq_id(id) {
                proof {
                    assert(self@.songs[i as int] == self.songs@[i as int]@);
                }
                self.songs.remove(i);
                proof {
                    assert(self@.songs =~= old(self)@.songs.remove(i as int));
                    old(self)@.songs.remove_ensures(i as int);
                    assert(has_song_id(old(self)@.songs, id@)) by {
                        assert(old(self)@.songs[i as int].id == id@);
                    }
                    assert forall|j: int|
                        0 <= j < old(self)@.songs.len() && #[trigger] old(self)@.songs[j].id == id@
                        implies j == i as int by {
                        if j != i as int {
                            assert(old(self)@.songs[j].id != old(self)@.songs[i as int].id);
                        }
                    }
                    assert(self@.artists =~= old(self)@.artists);
                    assert(self@.albums =~= old(self)@.albums);
                    assert forall|a: int, b: int|
                        0 <= a < b < self@.songs.len() implies #[trigger] self@.songs[a].file_path
                        != #[trigger] self@.songs[b].file_path && #[trigger] self@.songs[a].id
                        != #[trigger] self@.songs[b].id by {
                        let a0 = if a < i as int { a } else { a + 1 };
                        let b0 = if b < i as int { b } else { b + 1 };
                        assert(self@.songs[a] == old(self)@.songs.remove(i as int)[a]);
                        assert(self@.songs[b] == old(self)@.songs.remove(i as int)[b]);
                        assert(old(self)@.songs.remove(i as int)[a] == old(self)@.songs[a0]);
                        assert(old(self)@.songs.remove(i as int)[b] == old(self)@.songs[b0]);
                    }
                }
                return ;
            }
            i += 1;
        }
    }

    /// The identifier of the artist with this name, inserting a new row when
    /// none carries it. The second argument mirrors the album-artist hint of
    /// the tag data, which the lookup does not use.
    pub fn insert_artist(&mut self, name: &str, _album_artist: Option<&str>) -> (r: Cuid)
        requires
            old(self)@.wf(),
        ensures
            final(self)@.wf(),
            final(self)@.songs == old(self)@.songs,
            final(self)@.albums == old(self)@.albums,
            exists|a: int|
                0 <= a < final(self)@.artists.len() && #[trigger] final(self)@.artists[a].name
                    == name@ && final(self)@.artists[a].id == r@,
            has_artist_named(old(self)@.artists, name@) ==> final(self)@.artists == old(self)@.artists && exists|a: int|
                0 <= a < old(self)@.artists.len() && #[trigger] old(self)@.artists[a].name == name@
                    && old(self)@.artists[a].id == r@,
            !has_artist_named(old(self)@.artists, name@) ==> final(self)@.artists == old(self)@.artists.push(
                (ArtistV { id: r@, name: name@, image: None, favorite: false }),
            ),
    {
        let n = self.artists.len();
        let mut i: usize = 0;
        while i < n
            invariant
                old(self)@.wf(),
                n == self@.artists.len(),
                n == self.artists@.len(),
                0 <= i <= n,
                self == old(self),
                forall|j: int| 0 <= j < i ==> #[trigger] self@.artists[j].name != name@,
            decreases n - i,
        {
            if str_eq(self.artists[i].name.as_str(), name) {
                let id = self.artists[i].id.clone();
                proof {
                    assert(self@.artists[i as int] == self.artists@[i as int]@);
                    assert(0 <= i < self@.artists.len() && self@.artists[i as int].name == name@
                        && self@.artists[i as int].id == id@);
                }
                return id;
            }
            i += 1;
        }
        let id = Cuid::new();
        let out = id.clone();
        let artist = Artist { id, name: name.to_owned(), image: None, favorite: false };
        self.artists.push(artist);
        proof {
            assert(self@.artists =~= old(self)@.artists.push(
                (ArtistV { id: out@, name: name@, image: None, favorite: false }),
            ));
            assert(self@.songs =~= old(self)@.songs);
            assert(self@.albums =~= old(self)@.albums);
            assert(self@.artists[n as int].name == name@ && self@.artists[n as int].id == out@);
            assert forall|k: int|
                0 <= k < self@.songs.len() && #[trigger] self@.songs[k].artist_id is Some implies
                has_artist_id(self@.artists, self@.songs[k].artist_id->0) by {
                assert(old(self)@.songs[k].artist_id is Some);
                let a = choose|a: int|
                    0 <= a < old(self)@.artists.len() && #[trigger] old(self)@.artists[a].id == old(self)@.songs[k].artist_id->0;
                assert(self@.artists[a].id == self@.songs[k].artist_id->0);
            }
        }
        out
    }

    /// The identifier of the album with this title and artist, inserting a
    /// new row when none carries the pair. Year and genre mirror the tag data
    /// and do not take part in the lookup.
    pub fn insert_album(
        &mut self,
        title: &str,
        artist: Option<&Cuid>,
        _year: Option<i32>,
        _genre: Option<&str>,
    ) -> (r: Cuid)
        requires
            old(self)@.wf(),
        ensures
            final(self)@.wf(),
            final(self)@.songs == old(self)@.songs,
            final(self)@.artists == old(self)@.artists,
            exists|a: int|
                0 <= a < final(self)@.albums.len() && #[trigger] final(self)@.albums[a].title
                    == title@ && final(self)@.albums[a].artist == opt_ref_id_view(artist)
                    && final(self)@.albums[a].id == r@,
            has_album_key(old(self)@.albums, title@, opt_ref_id_view(artist)) ==> final(self)@.albums == old(self)@.albums && exists|a: int|
                0 <= a < old(self)@.albums.len() && #[trigger] old(self)@.albums[a].title == title@
                    && old(self)@.albums[a].artist == opt_ref_id_view(artist) && old(self)@.albums[a].id == r@,
            !has_album_key(old(self)@.albums, title@, opt_ref_id_view(artist)) ==> final(self)@.albums == old(self)@.albums.push(
                (AlbumV {
                    id: r@,
                    title: title@,
                    artist: opt_ref_id_view(artist),
                    cover: None,
                    favorite: false,
                }),
            ),
    {
        let n = self.albums.len();
        let mut i: usize = 0;
        while i < n
            invariant
                old(self)@.wf(),
                n == self@.albums.len(),
                n == self.albums@.len(),
                0 <= i <= n,
                self == old(self),
                forall|j: int|
                    0 <= j < i ==> !(#[trigger] self@.albums[j].title == title@
                        && self@.albums[j].artist == opt_ref_id_view(artist)),
            decreases n - i,
        {
            let key_matches = if str_eq(self.albums[i].title.as_str(), title) {
                match (&self.albums[i].artist, artist) {
                    (Some(x), Some(y)) => x.eq_id(y),
                    (None, None) => true,
                    _ => false,
                }
            } else {
                false
            };
            proof {
                assert(self@.albums[i as int] == self.albums@[i as int]@);
            }
            if key_matches {
                let id = self.albums[i].id.clone();
                proof {
                    assert(0 <= i < self@.albums.len() && self@.albums[i as int].title == title@
                        && self@.albums[i as int].artist == opt_ref_id_view(artist)
                        && self@.albums[i as int].id == id@);
                }
                return id;
            }
            i += 1;
        }
        let id = Cuid::new();
        let out = id.clone();
        let album = Album {
            id,
            title: title.to_owned(),
            artist: match artist {
                Some(c) => Some(c.clone()),
                None => None,
            },
            cover: None,
            favorite: false,
        };
        self.albums.push(album);
        proof {
            assert(self@.albums =~= old(self)@.albums.push(
                (AlbumV {
                    id: out@,
                    title: title@,
                    artist: opt_ref_id_view(artist),
                    cover: None,
                    favorite: false,
                }),
            ));
            assert(self@.songs =~= old(self)@.songs);
            assert(self@.artists =~= old(self)@.artists);
            assert(self@.albums[n as int].title == title@ && self@.albums[n as int].artist
                == opt_ref_id_view(artist) && self@.albums[n as int].id == out@);
            assert forall|k: int|
                0 <= k < self@.songs.len() && #[trigger] self@.songs[k].album_id is Some implies
                has_album_id(self@.albums, self@.songs[k].album_id->0) by {
                assert(old(self)@.songs[k].album_id is Some);
                let a = choose|a: int|
                    0 <= a < old(self)@.albums.len() && #[trigger] old(self)@.albums[a].id == old(self)@.songs[k].album_id->0;
                assert(self@.albums[a].id == self@.songs[k].album_id->0);
            }
        }
        out
    }

    /// The song carrying this identifier, if one is stored.
    pub fn get_song(&self, id: &Cuid) -> (r: Option<Song>)
        ensures
            match r {
                Some(song) => exists|i: int|
                    0 <= i < self@.songs.len() && #[trigger] self@.songs[i].id == id@ && song@
                        == self@.songs[i],
                None => !has_song_id(self@.songs, id@),
            },
    {
        let n = self.songs.len();
        let mut i: usize = 0;
        while i < n
            invariant
                n == self@.songs.len(),
                n == self.songs@.len(),
                0 <= i <= n,
                forall|j: int| 0 <= j < i ==> #[trigger] self@.songs[j].id != id@,
            decreases n - i,
        {
            if self.songs[i].id.eq_id(id) {
                let song = self.songs[i].clone();
                proof {
                    assert(self@.songs[i as int] == self.songs@[i as int]@);
                    assert(0 <= i < self@.songs.len() && self@.songs[i as int].id == id@ && song@
                        == self@.songs[i as int]);
                }
                return Some(song);
            }
            i += 1;
        }
        None
    }

    /// The artist carrying this identifier, if one is stored.
    pub fn get_artist(&self, id: &Cuid) -> (r: Option<Artist>)
        ensures
            match r {
                Some(artist) => exists|i: int|
                    0 <= i < self@.artists.len() && #[trigger] self@.artists[i].id == id@
                        && artist@ == self@.artists[i],
                None => !has_artist_id(self@.artists, id@),
            },
    {
        let n = self.artists.len();
        let mut i: usize = 0;
        while i < n
            invariant
                n == self@.artists.len(),
                n == self.artists@.len(),
                0 <= i <= n,
                forall|j: int| 0 <= j < i ==> #[trigger] self@.artists[j].id != id@,
            decreases n - i,
        {
            if self.artists[i].id.eq_id(id) {
                let artist = self.artists[i].clone();
                proof {
                    assert(self@.artists[i as int] == self.artists@[i as int]@);
                    assert(0 <= i < self@.artists.len() && self@.artists[i as int].id == id@
                        && artist@ == self@.artists[i as int]);
                }
                return Some(artist);
            }
            i += 1;
        }
        None
    }

    /// The album carrying this identifier, if one is stored.
    pub fn get_album(&self, id: &Cuid) -> (r: Option<Album>)
        ensures
            match r {
                Some(album) => exists|i: int|
                    0 <= i < self@.albums.len() && #[trigger] self@.albums[i].id == id@ && album@
                        == self@.albums[i],
                None => !has_album_id(self@.albums, id@),
            },
    {
        let n = self.albums.len();
        let mut i: usize = 0;
        while i < n
            invariant
                n == self@.albums.len(),
                n == self.albums@.len(),
                0 <= i <= n,
                forall|j: int| 0 <= j < i ==> #[trigger] self@.albums[j].id != id@,
            decreases n - i,
        {
            if self.albums[i].id.eq_id(id) {
                let album = self.albums[i].clone();
                proof {
                    assert(self@.albums[i as int] == self.albums@[i as int]@);
                    assert(0 <= i < self@.albums.len() && self@.albums[i as int].id == id@
                        && album@ == self@.albums[i as int]);
                }
                return Some(album);
            }
            i += 1;
        }
        None
    }

    /// All songs, in storage order.
    pub fn get_all_songs(&self) -> (r: &Vec<Song>)
        ensures
            r@.map_values(|s: Song| s@) == self@.songs,
    {
        &self.songs
    }

    /// All artists, in storage order.
    pub fn get_all_artists(&self) -> (r: &Vec<Artist>)
        ensures
            r@.map_values(|a: Artist| a@) == self@.artists,
    {
        &self.artists
    }

    /// All albums, in storage order.
    pub fn get_all_albums(&self) -> (r: &Vec<Album>)
        ensures
            r@.map_values(|a: Album| a@) == self@.albums,
    {
        &self.albums
    }

    /// Removes every song whose drop flag is set, handing back how many went.
    pub fn remove_flagged_songs(&mut self, drop: &Vec<bool>) -> (removed: usize)
        requires
            old(self)@.wf(),
            drop@.len() == old(self)@.songs.len(),
        ensures
            final(self)@.wf(),
            final(self)@.artists == old(self)@.artists,
            final(self)@.albums == old(self)@.albums,
            final(self)@.songs == kept(old(self)@.songs, drop@),
            removed == old(self)@.songs.len() - final(self)@.songs.len(),
    {
        let n = self.songs.len();
        let mut kept_rows: Vec<Song> = Vec::new();
        let mut i: usize = 0;
        while i < n
            invariant
                n == self.songs@.len(),
                n == self@.songs.len(),
                n == drop@.len(),
                0 <= i <= n,
                self == old(self),
                kept_rows@.len() <= i,
                kept_rows@.map_values(|s: Song| s@) == kept(
                    self@.songs.take(i as int),
                    drop@.take(i as int),
                ),
            decreases n - i,
        {
            proof {
                assert(self@.songs.take(i + 1).drop_last() =~= self@.songs.take(i as int));
                assert(drop@.take(i + 1).drop_last() =~= drop@.take(i as int));
                assert(self@.songs.take(i + 1).last() == self@.songs[i as int]);
                assert(self@.songs[i as int] == self.songs@[i as int]@);
            }
            if !drop[i] {
                let song = self.songs[i].clone();
                kept_rows.push(song);
                proof {
                    assert(kept_rows@.map_values(|s: Song| s@) =~= kept(
                        self@.songs.take(i + 1),
                        drop@.take(i + 1),
                    ));
                }
            } else {
                proof {
                    assert(kept_rows@.map_values(|s: Song| s@) =~= kept(
                        self@.songs.take(i + 1),
                        drop@.take(i + 1),
                    ));
                }
            }
            i += 1;
        }
        proof {
            assert(self@.songs.take(n as int) =~= self@.songs);
            assert(drop@.take(n as int) =~= drop@);
        }
        let kept_count = kept_rows.len();
        self.songs = kept_rows;
        proof {
            lemma_kept_members(old(self)@.songs, drop@);
            lemma_kept_distinct_by(old(self)@.songs, drop@, |s: SongV| s.file_path);
            lemma_kept_distinct_by(old(self)@.songs, drop@, |s: SongV| s.id);
            assert(self@.artists =~= old(self)@.artists);
            assert(self@.albums =~= old(self)@.albums);
            assert forall|k: int|
                0 <= k < kept(old(self)@.songs, drop@).len() && #[trigger] kept(
                old(self)@.songs,
                drop@,
            )[k].artist_id is Some implies has_artist_id(
                self@.artists,
                kept(old(self)@.songs, drop@)[k].artist_id->0,
            ) by {
                let i = choose|i: int|
                    0 <= i < old(self)@.songs.len() && !drop@[i] && #[trigger] kept(
                        old(self)@.songs,
                        drop@,
                    )[k] == old(self)@.songs[i];
            }
            assert forall|k: int|
                0 <= k < kept(old(self)@.songs, drop@).len() && #[trigger] kept(
                old(self)@.songs,
                drop@,
            )[k].album_id is Some implies has_album_id(
                self@.albums,
                kept(old(self)@.songs, drop@)[k].album_id->0,
            ) by {
                let i = choose|i: int|
                    0 <= i < old(self)@.songs.len() && !drop@[i] && #[trigger] kept(
                        old(self)@.songs,
                        drop@,
                    )[k] == old(self)@.songs[i];
            }
        }
        n - kept_count
    }

    /// Deletes every artist no song references, handing back how many went.
    #[verifier::rlimit(100)]
    pub fn cleanup_orphaned_artists(&mut self) -> (removed: u64)
        requires
            old(self)@.wf(),
        ensures
            final(self)@.wf(),
            final(self)@.songs == old(self)@.songs,
            final(self)@.albums == old(self)@.albums,
            final(self)@.artists.len() <= old(self)@.artists.len(),
            removed == old(self)@.artists.len() - final(self)@.artists.len(),
            forall|k: int|
                0 <= k < final(self)@.artists.len() ==> referenced_artist(
                    old(self)@.songs,
                    #[trigger] final(self)@.artists[k],
                ) && exists|i: int|
                    0 <= i < old(self)@.artists.len() && final(self)@.artists[k] == old(self)@.artists[i],
            forall|i: int|
                0 <= i < old(self)@.artists.len() && referenced_artist(
                    old(self)@.songs,
                    #[trigger] old(self)@.artists[i],
                ) ==> exists|k: int|
                    0 <= k < final(self)@.artists.len() && final(self)@.artists[k] == old(self)@.artists[i],
    {
        let n = self.artists.len();
        let mut drop_flags: Vec<bool> = Vec::new();
        let mut i: usize = 0;
        while i < n
            invariant
                old(self)@.wf(),
                n == self.artists@.len(),
                n == self@.artists.len(),
                0 <= i <= n,
                self == old(self),
                drop_flags@.len() == i,
                forall|j: int|
                    0 <= j < i ==> #[trigger] drop_flags@[j] == !referenced_artist(
                        self@.songs,
                        self@.artists[j],
                    ),
            decreases n - i,
        {
            proof {
                assert(self@.artists[i as int] == self.artists@[i as int]@);
            }
            let referenced = self.artist_is_referenced(i);
            drop_flags.push(!referenced);
            i += 1;
        }
        let mut kept_rows: Vec<Artist> = Vec::new();
        let mut i: usize = 0;
        while i < n
            invariant
                old(self)@.wf(),
                n == self.artists@.len(),
                n == self@.artists.len(),
                n == drop_flags@.len(),
                0 <= i <= n,
                self == old(self),
                kept_rows@.len() <= i,
                forall|j: int|
                    0 <= j < n ==> #[trigger] drop_flags@[j] == !referenced_artist(
                        self@.songs,
                        self@.artists[j],
                    ),
                kept_rows@.map_values(|a: Artist| a@) == kept(
                    self@.artists.take(i as int),
                    drop_flags@.take(i as int),
                ),
            decreases n - i,
        {
            proof {
                assert(self@.artists.take(i + 1).drop_last() =~= self@.artists.take(i as int));
                assert(drop_flags@.take(i + 1).drop_last() =~= drop_flags@.take(i as int));
                assert(self@.artists.take(i + 1).last() == self@.artists[i as int]);
                assert(self@.artists[i as int] == self.artists@[i as int]@);
            }
            if !drop_flags[i] {
                let artist = self.artists[i].clone();
                kept_rows.push(artist);
                proof {
                    assert(kept_rows@.map_values(|a: Artist| a@) =~= kept(
                        self@.artists.take(i + 1),
                        drop_flags@.take(i + 1),
                    ));
                }
            } else {
                proof {
                    assert(kept_rows@.map_values(|a: Artist| a@) =~= kept(
                        self@.artists.take(i + 1),
                        drop_flags@.take(i + 1),
                    ));
                }
            }
            i += 1;
        }
        proof {
            assert(self@.artists.take(n as int) =~= self@.artists);
            assert(drop_flags@.take(n as int) =~= drop_flags@);
        }
        let kept_count = kept_rows.len();
        self.artists = kept_rows;
        proof {
            lemma_artist_pass(old(self)@, drop_flags@);
            assert(self@.artists =~= kept(old(self)@.artists, drop_flags@));
            assert(self@.songs =~= old(self)@.songs);
            assert(self@.albums =~= old(self)@.albums);
        }
        (n - kept_count) as u64
    }

    /// Whether any song references the artist at this index.
    fn artist_is_referenced(&self, a: usize) -> (r: bool)
        requires
            a < self@.artists.len(),
        ensures
            r == referenced_artist(self@.songs, self@.artists[a as int]),
    {
        let m = self.songs.len();
        let mut k: usize = 0;
        while k < m
            invariant
                m == self.songs@.len(),
                m == self@.songs.len(),
                a < self@.artists.len(),
                a < self.artists@.len(),
                0 <= k <= m,
                forall|j: int|
                    0 <= j < k ==> #[trigger] self@.songs[j].artist_id != Some(
                        self@.artists[a as int].id,
                    ),
            decreases m - k,
        {
            proof {
                assert(self@.songs[k as int] == self.songs@[k as int]@);
                assert(self@.artists[a as int] == self.artists@[a as int]@);
            }
            let hit = match &self.songs[k].artist_id {
                Some(sid) => sid.eq_id(&self.artists[a].id),
                None => false,
            };
            if hit {
                proof {
                    assert(self@.songs[k as int].artist_id == Some(self@.artists[a as int].id));
                }
                return true;
            }
            k += 1;
        }
        false
    }

    /// Deletes every album no song references, handing back how many went.
    #[verifier::rlimit(100)]
    #[verifier::spinoff_prover]
    pub fn cleanup_orphaned_albums(&mut self) -> (removed: u64)
        requires
            old(self)@.wf(),
        ensures
            final(self)@.wf(),
            final(self)@.songs == old(self)@.songs,
            final(self)@.artists == old(self)@.artists,
            final(self)@.albums.len() <= old(self)@.albums.len(),
            removed == old(self)@.albums.len() - final(self)@.albums.len(),
            forall|k: int|
                0 <= k < final(self)@.albums.len() ==> referenced_album(
                    old(self)@.songs,
                    #[trigger] final(self)@.albums[k],
                ) && exists|i: int|
                    0 <= i < old(self)@.albums.len() && final(self)@.albums[k] == old(self)@.albums[i],
            forall|i: int|
                0 <= i < old(self)@.albums.len() && referenced_album(
                    old(self)@.songs,
                    #[trigger] old(self)@.albums[i],
                ) ==> exists|k: int|
                    0 <= k < final(self)@.albums.len() && final(self)@.albums[k] == old(self)@.albums[i],
    {
        let n = self.albums.len();
        let mut drop_flags: Vec<bool> = Vec::new();
        let mut i: usize = 0;
        while i < n
            invariant
                old(self)@.wf(),
                n == self.albums@.len(),
                n == self@.albums.len(),
                0 <= i <= n,
                self == old(self),
                drop_flags@.len() == i,
                forall|j: int|
                    0 <= j < i ==> #[trigger] drop_flags@[j] == !referenced_album(
                        self@.songs,
                        self@.albums[j],
                    ),
            decreases n - i,
        {
            proof {
                assert(self@.albums[i as int] == self.albums@[i as int]@);
            }
            let referenced = self.album_is_referenced(i);
            drop_flags.push(!referenced);
            i += 1;
        }
        let mut kept_rows: Vec<Album> = Vec::new();
        let mut i: usize = 0;
        while i < n
            invariant
                old(self)@.wf(),
                n == self.albums@.len(),
                n == self@.albums.len(),
                n == drop_flags@.len(),
                0 <= i <= n,
                self == old(self),
                kept_rows@.len() <= i,
                forall|j: int|
                    0 <= j < n ==> #[trigger] drop_flags@[j] == !referenced_album(
                        self@.songs,
                        self@.albums[j],
                    ),
                kept_rows@.map_values(|a: Album| a@) == kept(
                    self@.albums.take(i as int),
                    drop_flags@.take(i as int),
                ),
            decreases n - i,
        {
            proof {
                assert(self@.albums.take(i + 1).drop_last() =~= self@.albums.take(i as int));
                assert(drop_flags@.take(i + 1).drop_last() =~= drop_flags@.take(i as int));
                assert(self@.albums.take(i + 1).last() == self@.albums[i as int]);
                assert(self@.albums[i as int] == self.albums@[i as int]@);
            }
            if !drop_flags[i] {
                let album = self.albums[i].clone();
                kept_rows.push(album);
                proof {
                    assert(kept_rows@.map_values(|a: Album| a@) =~= kept(
                        self@.albums.take(i + 1),
                        drop_flags@.take(i + 1),
                    ));
                }
            } else {
                proof {
                    assert(kept_rows@.map_values(|a: Album| a@) =~= kept(
                        self@.albums.take(i + 1),
                        drop_flags@.take(i + 1),
                    ));
                }
            }
            i += 1;
        }
        proof {
            assert(self@.albums.take(n as int) =~= self@.albums);
            assert(drop_flags@.take(n as int) =~= drop_flags@);
        }
        let kept_count = kept_rows.len();
        self.albums = kept_rows;
        proof {
            lemma_album_pass(old(self)@, drop_flags@);
            assert(self@.albums =~= kept(old(self)@.albums, drop_flags@));
            assert(self@.songs =~= old(self)@.songs);
            assert(self@.artists =~= old(self)@.artists);
        }
        (n - kept_count) as u64
    }

    /// Whether any song references the album at this index.
    fn album_is_referenced(&self, a: usize) -> (r: bool)
        requires
            a < self@.albums.len(),
        ensures
            r == referenced_album(self@.songs, self@.albums[a as int]),
    {
        let m = self.songs.len();
        let mut k: usize = 0;
        while k < m
            invariant
                m == self.songs@.len(),
                m == self@.songs.len(),
                a < self@.albums.len(),
                a < self.albums@.len(),
                0 <= k <= m,
                forall|j: int|
                    0 <= j < k ==> #[trigger] self@.songs[j].album_id != Some(
                        self@.albums[a as int].id,
                    ),
            decreases m - k,
        {
            proof {
                assert(self@.songs[k as int] == self.songs@[k as int]@);
                assert(self@.albums[a as int] == self.albums@[a as int]@);
            }
            let hit = match &self.songs[k].album_id {
                Some(sid) => sid.eq_id(&self.albums[a].id),
                None => false,
            };
            if hit {
                proof {
                    assert(self@.songs[k as int].album_id == Some(self@.albums[a as int].id));
                }
                return true;
            }
            k += 1;
        }
        false
    }
}

} // verus!
