//! Identifiers and persistent row types of the music library.

use vstd::prelude::*;

verus! {

/// A collision-resistant opaque identifier for library rows.
///
/// Freshly generated ids come from the `cuid2` generator; the library treats
/// the identifier as an opaque string and only ever compares ids for
/// equality.
#[derive(Debug)]
pub struct Cuid(String);

impl View for Cuid {
    type V = Seq<char>;

    closed spec fn view(&self) -> Seq<char> {
        self.0@
    }
}

impl DeepView for Cuid {
    type V = Seq<char>;

    open spec fn deep_view(&self) -> Seq<char> {
        self@
    }
}

/// Relies on cuid2::create_id: a fresh random id, one starting letter plus a
/// base-36 hash body truncated to 23 characters.
#[verifier::external_body]
fn fresh_id_string() -> (r: String)
    ensures
        1 <= r@.len() <= 24,
{
    cuid2::create_id()
}

impl Cuid {
    /// A fresh identifier. Two calls may (and almost surely do) differ;
    /// nothing here depends on uniqueness being certain.
    pub fn new() -> (r: Cuid)
        ensures
            1 <= r@.len() <= 24,
    {
        Cuid(fresh_id_string())
    }

    /// Equality of identifiers, by their text.
    pub fn eq_id(&self, other: &Cuid) -> (r: bool)
        ensures
            r == (self@ == other@),
    {
        self.0 == other.0
    }

    /// The identifier's text.
    pub fn as_str(&self) -> (r: &str)
        ensures
            r@ == self@,
    {
        self.0.as_str()
    }

    /// An identifier from a known string, for callers that load rows from
    /// persistence.
    pub fn from_string(s: String) -> (r: Cuid)
        ensures
            r@ == s@,
    {
        Cuid(s)
    }
}

impl Clone for Cuid {
    fn clone(&self) -> (r: Self)
        ensures
            r@ == self@,
    {
        Cuid(self.0.clone())
    }
}

/// Equality of optional identifiers, by their text.
pub fn opt_cuid_eq(a: &Option<Cuid>, b: &Option<Cuid>) -> (r: bool)
    ensures
        r == (a.deep_view() == b.deep_view()),
{
    match (a, b) {
        (Some(x), Some(y)) => x.eq_id(y),
        (None, None) => true,
        _ => false,
    }
}

/// Clones an optional identifier.
pub fn opt_cuid_clone(a: &Option<Cuid>) -> (r: Option<Cuid>)
    ensures
        r.deep_view() == a.deep_view(),
{
    match a {
        Some(x) => Some(x.clone()),
        None => None,
    }
}

/// Clones an optional string.
pub fn opt_string_clone(a: &Option<String>) -> (r: Option<String>)
    ensures
        r.deep_view() == a.deep_view(),
{
    match a {
        Some(x) => Some(x.clone()),
        None => None,
    }
}

/// The abstract value of a song row.
pub ghost struct SongV {
    pub id: Seq<char>,
    pub title: Seq<char>,
    pub artist_id: Option<Seq<char>>,
    pub album_id: Option<Seq<char>>,
    pub file_path: Seq<char>,
    pub genre: Option<Seq<char>>,
    pub date: Option<i32>,
    pub duration: Option<i32>,
    pub cover: Option<Seq<char>>,
    pub track_number: Option<i32>,
    pub favorite: bool,
    pub replaygain_track_gain: Option<i32>,
    pub replaygain_track_peak: Option<i32>,
}

/// A song row: one audio file of the library, keyed for deduplication by its
/// file path. The release year is kept as a number; ReplayGain gain is in
/// milli-decibels, peak in thousandths of full scale.
#[derive(Debug)]
pub struct Song {
    pub id: Cuid,
    pub title: String,
    pub artist_id: Option<Cuid>,
    pub album_id: Option<Cuid>,
    pub file_path: String,
    pub genre: Option<String>,
    pub date: Option<i32>,
    pub duration: Option<i32>,
    pub cover: Option<String>,
    pub track_number: Option<i32>,
    pub favorite: bool,
    pub replaygain_track_gain: Option<i32>,
    pub replaygain_track_peak: Option<i32>,
}

impl View for Song {
    type V = SongV;

    open spec fn view(&self) -> SongV {
        SongV {
            id: self.id@,
            title: self.title@,
            artist_id: self.artist_id.deep_view(),
            album_id: self.album_id.deep_view(),
            file_path: self.file_path@,
            genre: self.genre.deep_view(),
            date: self.date,
            duration: self.duration,
            cover: self.cover.deep_view(),
            track_number: self.track_number,
            favorite: self.favorite,
            replaygain_track_gain: self.replaygain_track_gain,
            replaygain_track_peak: self.replaygain_track_peak,
        }
    }
}

impl Clone for Song {
    fn clone(&self) -> (r: Self)
        ensures
            r@ == self@,
    {
        Self {
            id: self.id.clone(),
            title: self.title.clone(),
            artist_id: opt_cuid_clone(&self.artist_id),
            album_id: opt_cuid_clone(&self.album_id),
            file_path: self.file_path.clone(),
            genre: opt_string_clone(&self.genre),
            date: self.date,
            duration: self.duration,
            cover: opt_string_clone(&self.cover),
            track_number: self.track_number,
            favorite: self.favorite,
            replaygain_track_gain: self.replaygain_track_gain,
            replaygain_track_peak: self.replaygain_track_peak,
        }
    }
}

/// The abstract value of an artist row.
pub ghost struct ArtistV {
    pub id: Seq<char>,
    pub name: Seq<char>,
    pub image: Option<Seq<char>>,
    pub favorite: bool,
}

/// An artist row, deduplicated by name.
#[derive(Debug)]
pub struct Artist {
    pub id: Cuid,
    pub name: String,
    pub image: Option<String>,
    pub favorite: bool,
}

impl View for Artist {
    type V = ArtistV;

    open spec fn view(&self) -> ArtistV {
        ArtistV {
            id: self.id@,
            name: self.name@,
            image: self.image.deep_view(),
            favorite: self.favorite,
        }
    }
}

impl Clone for Artist {
    fn clone(&self) -> (r: Self)
        ensures
            r@ == self@,
    {
        Self {
            id: self.id.clone(),
            name: self.name.clone(),
            image: opt_string_clone(&self.image),
            favorite: self.favorite,
        }
    }
}

/// The abstract value of an album row.
pub ghost struct AlbumV {
    pub id: Seq<char>,
    pub title: Seq<char>,
    pub artist: Option<Seq<char>>,
    pub cover: Option<Seq<char>>,
    pub favorite: bool,
}

/// An album row, deduplicated by title together with its artist.
#[derive(Debug)]
pub struct Album {
    pub id: Cuid,
    pub title: String,
    pub artist: Option<Cuid>,
    pub cover: Option<String>,
    pub favorite: bool,
}

impl View for Album {
    type V = AlbumV;

    open spec fn view(&self) -> AlbumV {
        AlbumV {
            id: self.id@,
            title: self.title@,
            artist: self.artist.deep_view(),
            cover: self.cover.deep_view(),
            favorite: self.favorite,
        }
    }
}

impl Clone for Album {
    fn clone(&self) -> (r: Self)
        ensures
            r@ == self@,
    {
        Self {
            id: self.id.clone(),
            title: self.title.clone(),
            artist: opt_cuid_clone(&self.artist),
            cover: opt_string_clone(&self.cover),
            favorite: self.favorite,
        }
    }
}

/// A playlist row.
#[derive(Debug)]
pub struct Playlist {
    pub id: Cuid,
    pub name: String,
    pub description: Option<String>,
    pub image: Option<String>,
}

/// The kind of a recorded playback event.
#[derive(Clone, Copy, Debug, PartialEq, Eq, Structural)]
pub enum EventType {
    Play,
    Stop,
    Pause,
    Resume,
}

/// A recorded playback event.
#[derive(Debug)]
pub struct Event {
    pub id: Cuid,
    pub event_type: EventType,
    pub context_id: Option<Cuid>,
}

/// What a playback event was about.
#[derive(Debug)]
pub struct EventContext {
    pub id: Cuid,
    pub song_id: Option<Cuid>,
    pub playlist_id: Option<Cuid>,
}

} // verus!
