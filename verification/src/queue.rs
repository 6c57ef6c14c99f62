//! The play queue: an ordered list of items, an optional current position,
//! a repeat mode and a shuffle flag.
//!
//! The current index is `None` exactly when the queue is empty, and otherwise
//! a valid offset; every operation preserves that invariant. The shuffle flag
//! is tracked but does not reorder traversal.

use vstd::prelude::*;

use crate::types::Cuid;

verus! {

/// One entry of the play queue: a file path plus optional display metadata
/// and optional ReplayGain data (gain in milli-decibels, peak in
/// thousandths of full scale).
#[derive(Debug)]
pub struct QueueItem {
    pub song_id: Option<Cuid>,
    pub path: String,
    pub title: Option<String>,
    pub artist_name: Option<String>,
    pub album_name: Option<String>,
    pub duration: Option<i32>,
    pub replaygain_track_gain: Option<i32>,
    pub replaygain_track_peak: Option<i32>,
}

/// How the queue behaves at its ends.
#[derive(Clone, Copy, Debug, PartialEq, Eq, Structural)]
pub enum RepeatMode {
    Off,
    All,
    One,
}

impl QueueItem {
    /// An item carrying only a path.
    pub fn new(path: String) -> (r: Self)
        ensures
            r.path@ == path@,
            r.song_id is None,
            r.title is None,
            r.artist_name is None,
            r.album_name is None,
            r.duration is None,
            r.replaygain_track_gain is None,
            r.replaygain_track_peak is None,
    {
        Self {
            song_id: None,
            path,
            title: None,
            artist_name: None,
            album_name: None,
            duration: None,
            replaygain_track_gain: None,
            replaygain_track_peak: None,
        }
    }

    /// An item with display metadata; ReplayGain fields start unset.
    pub fn with_metadata(
        path: String,
        song_id: Option<Cuid>,
        title: Option<String>,
        artist_name: Option<String>,
        album_name: Option<String>,
        duration: Option<i32>,
    ) -> (r: Self)
        ensures
            r.path@ == path@,
            r.song_id.deep_view() == song_id.deep_view(),
            r.title.deep_view() == title.deep_view(),
            r.artist_name.deep_view() == artist_name.deep_view(),
            r.album_name.deep_view() == album_name.deep_view(),
            r.duration == duration,
            r.replaygain_track_gain is None,
            r.replaygain_track_peak is None,
    {
        Self {
            song_id,
            path,
            title,
            artist_name,
            album_name,
            duration,
            replaygain_track_gain: None,
            replaygain_track_peak: None,
        }
    }
}

impl Clone for QueueItem {
    fn clone(&self) -> (r: Self)
        ensures
            r.path@ == self.path@,
            r.song_id.deep_view() == self.song_id.deep_view(),
            r.title.deep_view() == self.title.deep_view(),
            r.artist_name.deep_view() == self.artist_name.deep_view(),
            r.album_name.deep_view() == self.album_name.deep_view(),
            r.duration == self.duration,
            r.replaygain_track_gain == self.replaygain_track_gain,
            r.replaygain_track_peak == self.replaygain_track_peak,
    {
        Self {
            song_id: match &self.song_id {
                Some(id) => Some(id.clone()),
                None => None,
            },
            path: self.path.clone(),
            title: self.title.clone(),
            artist_name: self.artist_name.clone(),
            album_name: self.album_name.clone(),
            duration: self.duration,
            replaygain_track_gain: self.replaygain_track_gain,
            replaygain_track_peak: self.replaygain_track_peak,
        }
    }
}

/// The abstract state of a queue.
pub ghost struct QueueView {
    pub items: Seq<QueueItem>,
    pub current: Option<int>,
    pub shuffle: bool,
    pub repeat: RepeatMode,
}

impl QueueView {
    /// The position invariant: no position on an empty queue, a valid
    /// offset otherwise.
    pub open spec fn inv(self) -> bool {
        &&& (self.current is None <==> self.items.len() == 0)
        &&& (self.current is Some ==> 0 <= self.current->0 < self.items.len())
    }

    /// Whether a step forward would land on an item.
    pub open spec fn can_advance(self) -> bool {
        self.items.len() > 0 && (match self.repeat {
            RepeatMode::One | RepeatMode::All => true,
            RepeatMode::Off => self.current is Some && self.current->0 + 1 < self.items.len(),
        })
    }

    /// Whether a step backward would land on an item.
    pub open spec fn can_retreat(self) -> bool {
        self.items.len() > 0 && (match self.repeat {
            RepeatMode::One | RepeatMode::All => true,
            RepeatMode::Off => self.current is Some && self.current->0 > 0,
        })
    }

    /// The position after one step forward, defined when `can_advance`.
    pub open spec fn advanced_position(self) -> int {
        match self.repeat {
            RepeatMode::One => self.current->0,
            RepeatMode::All => (self.current->0 + 1) % (self.items.len() as int),
            RepeatMode::Off => self.current->0 + 1,
        }
    }

    /// The position after one step backward, defined when `can_retreat`.
    pub open spec fn retreated_position(self) -> int {
        match self.repeat {
            RepeatMode::One => self.current->0,
            RepeatMode::All => if self.current->0 == 0 {
                self.items.len() - 1
            } else {
                self.current->0 - 1
            },
            RepeatMode::Off => self.current->0 - 1,
        }
    }
}

/// The play queue.
pub struct Queue {
    items: Vec<QueueItem>,
    current_index: Option<usize>,
    shuffle: bool,
    repeat: RepeatMode,
}

impl View for Queue {
    type V = QueueView;

    closed spec fn view(&self) -> QueueView {
        QueueView {
            items: self.items@,
            current: match self.current_index {
                Some(i) => Some(i as int),
                None => None,
            },
            shuffle: self.shuffle,
            repeat: self.repeat,
        }
    }
}

impl Queue {
    /// An empty queue: no position, no shuffle, repeat off.
    pub fn new() -> (r: Self)
        ensures
            r@.items.len() == 0,
            r@.current is None,
            !r@.shuffle,
            r@.repeat == RepeatMode::Off,
            r@.inv(),
    {
        Self {
            items: Vec::new(),
            current_index: None,
            shuffle: false,
            repeat: RepeatMode::Off,
        }
    }

    /// Appends one item; a previously empty queue gains position 0.
    pub fn add(&mut self, item: QueueItem)
        requires
            old(self)@.inv(),
        ensures
            final(self)@.inv(),
            final(self)@.items == old(self)@.items.push(item),
            final(self)@.current == (if old(self)@.current is None {
                Some(0int)
            } else {
                old(self)@.current
            }),
            final(self)@.shuffle == old(self)@.shuffle,
            final(self)@.repeat == old(self)@.repeat,
    {
        self.items.push(item);
        if self.current_index.is_none() && !self.items.is_empty() {
            self.current_index = Some(0);
        }
    }

    /// Appends many items; a previously empty queue that gains items gains
    /// position 0.
    pub fn add_many(&mut self, items: Vec<QueueItem>)
        requires
            old(self)@.inv(),
        ensures
            final(self)@.inv(),
            final(self)@.items == old(self)@.items + items@,
            final(self)@.current == (if old(self)@.items.len() == 0 && items@.len() > 0 {
                Some(0int)
            } else {
                old(self)@.current
            }),
            final(self)@.shuffle == old(self)@.shuffle,
            final(self)@.repeat == old(self)@.repeat,
    {
        let was_empty = self.items.is_empty();
        let mut items = items;
        self.items.append(&mut items);
        if was_empty && !self.items.is_empty() {
            self.current_index = Some(0);
        }
    }

    /// The item at the current position, if any.
    pub fn current(&self) -> (r: Option<&QueueItem>)
        requires
            self@.inv(),
        ensures
            match r {
                Some(item) => self@.current is Some && *item == self@.items[self@.current->0],
                None => self@.current is None,
            },
    {
        match self.current_index {
            Some(idx) => Some(&self.items[idx]),
            None => None,
        }
    }

    /// The current position, if any.
    pub fn current_index(&self) -> (r: Option<usize>)
        ensures
            match r {
                Some(i) => self@.current == Some(i as int),
                None => self@.current is None,
            },
    {
        self.current_index
    }

    /// A step forward. Under `One` the position stays; under `All` it wraps;
    /// under `Off` it advances only while in bounds and answers `None` at the
    /// end, leaving the position unchanged. Items, shuffle and repeat are
    /// never changed.
    pub fn next(&mut self) -> (r: Option<&QueueItem>)
        requires
            old(self)@.inv(),
        ensures
            final(self)@.inv(),
            final(self)@.items == old(self)@.items,
            final(self)@.shuffle == old(self)@.shuffle,
            final(self)@.repeat == old(self)@.repeat,
            r is Some <==> old(self)@.can_advance(),
            old(self)@.can_advance() ==> {
                &&& final(self)@.current == Some(old(self)@.advanced_position())
                &&& *(r->0) == final(self)@.items[old(self)@.advanced_position()]
            },
            !old(self)@.can_advance() ==> final(self)@.current == old(self)@.current,
    {
        let n = self.items.len();
        if n == 0 {
            return None;
        }

        match self.repeat {
            RepeatMode::One => {
                return self.current();
            },
            RepeatMode::All => {
                if let Some(idx) = self.current_index {
                    self.current_index = Some((idx + 1) % n);
                } else {
                    self.current_index = Some(0);
                }
            },
            RepeatMode::Off => {
                if let Some(idx) = self.current_index {
                    if idx + 1 < n {
                        self.current_index = Some(idx + 1);
                    } else {
                        return None;
                    }
                } else {
                    self.current_index = Some(0);
                }
            },
        }

        self.current()
    }

    /// A step backward, symmetric to `next`: under `All` position 0 wraps to
    /// the last item; under `Off` the start answers `None`.
    pub fn previous(&mut self) -> (r: Option<&QueueItem>)
        requires
            old(self)@.inv(),
        ensures
            final(self)@.inv(),
            final(self)@.items == old(self)@.items,
            final(self)@.shuffle == old(self)@.shuffle,
            final(self)@.repeat == old(self)@.repeat,
            r is Some <==> old(self)@.can_retreat(),
            old(self)@.can_retreat() ==> {
                &&& final(self)@.current == Some(old(self)@.retreated_position())
                &&& *(r->0) == final(self)@.items[old(self)@.retreated_position()]
            },
            !old(self)@.can_retreat() ==> final(self)@.current == old(self)@.current,
    {
        if self.items.is_empty() {
            return None;
        }

        match self.repeat {
            RepeatMode::One => {
                return self.current();
            },
            RepeatMode::All => {
                if let Some(idx) = self.current_index {
                    if idx == 0 {
                        self.current_index = Some(self.items.len() - 1);
                    } else {
                        self.current_index = Some(idx - 1);
                    }
                } else {
                    self.current_index = Some(0);
                }
            },
            RepeatMode::Off => {
                if let Some(idx) = self.current_index {
                    if idx > 0 {
                        self.current_index = Some(idx - 1);
                    } else {
                        return None;
                    }
                } else {
                    self.current_index = Some(0);
                }
            },
        }

        self.current()
    }

    /// Moves to an index if it is in bounds, else does nothing.
    pub fn jump_to(&mut self, index: usize) -> (r: Option<&QueueItem>)
        requires
            old(self)@.inv(),
        ensures
            final(self)@.inv(),
            final(self)@.items == old(self)@.items,
            final(self)@.shuffle == old(self)@.shuffle,
            final(self)@.repeat == old(self)@.repeat,
            index < old(self)@.items.len() ==> {
                &&& final(self)@.current == Some(index as int)
                &&& r is Some && *(r->0) == final(self)@.items[index as int]
            },
            index >= old(self)@.items.len() ==> {
                &&& final(self)@.current == old(self)@.current
                &&& r is None
            },
    {
        if index < self.items.len() {
            self.current_index = Some(index);
            self.current()
        } else {
            None
        }
    }

    /// Empties the queue and clears the position; shuffle and repeat stay.
    pub fn clear(&mut self)
        ensures
            final(self)@.inv(),
            final(self)@.items.len() == 0,
            final(self)@.current is None,
            final(self)@.shuffle == old(self)@.shuffle,
            final(self)@.repeat == old(self)@.repeat,
    {
        self.items.clear();
        self.current_index = None;
    }

    /// Removes the item at an index, handing it back. A position above the
    /// removed index shifts down; a removed current position is capped to the
    /// new last item, or cleared when nothing is left.
    pub fn remove(&mut self, index: usize) -> (r: Option<QueueItem>)
        requires
            old(self)@.inv(),
        ensures
            final(self)@.inv(),
            final(self)@.shuffle == old(self)@.shuffle,
            final(self)@.repeat == old(self)@.repeat,
            index >= old(self)@.items.len() ==> {
                &&& r is None
                &&& final(self)@.items == old(self)@.items
                &&& final(self)@.current == old(self)@.current
            },
            index < old(self)@.items.len() ==> {
                &&& r is Some && r->0 == old(self)@.items[index as int]
                &&& final(self)@.items == old(self)@.items.remove(index as int)
                &&& final(self)@.current == (if old(self)@.current->0 == index {
                    if old(self)@.items.len() == 1 {
                        None::<int>
                    } else if index == old(self)@.items.len() - 1 {
                        Some(index - 1)
                    } else {
                        Some(index as int)
                    }
                } else if old(self)@.current->0 > index {
                    Some(old(self)@.current->0 - 1)
                } else {
                    old(self)@.current
                })
            },
    {
        if index < self.items.len() {
            let item = self.items.remove(index);

            if let Some(current) = self.current_index {
                if current == index {
                    if self.items.is_empty() {
                        self.current_index = None;
                    } else if current >= self.items.len() {
                        self.current_index = Some(self.items.len() - 1);
                    }
                } else if current > index {
                    self.current_index = Some(current - 1);
                }
            }

            Some(item)
        } else {
            None
        }
    }

    /// All items, in order.
    pub fn items(&self) -> (r: &[QueueItem])
        ensures
            r@ == self@.items,
    {
        self.items.as_slice()
    }

    /// The number of items.
    pub fn len(&self) -> (r: usize)
        ensures
            r == self@.items.len(),
    {
        self.items.len()
    }

    /// Whether the queue holds no items.
    pub fn is_empty(&self) -> (r: bool)
        ensures
            r == (self@.items.len() == 0),
    {
        self.items.is_empty()
    }

    /// Flips the shuffle flag; nothing else changes.
    pub fn toggle_shuffle(&mut self)
        ensures
            final(self)@.shuffle == !old(self)@.shuffle,
            final(self)@.items == old(self)@.items,
            final(self)@.current == old(self)@.current,
            final(self)@.repeat == old(self)@.repeat,
    {
        self.shuffle = !self.shuffle;
    }

    /// Sets the shuffle flag; nothing else changes.
    pub fn set_shuffle(&mut self, shuffle: bool)
        ensures
            final(self)@.shuffle == shuffle,
            final(self)@.items == old(self)@.items,
            final(self)@.current == old(self)@.current,
            final(self)@.repeat == old(self)@.repeat,
    {
        self.shuffle = shuffle;
    }

    /// The shuffle flag.
    pub fn is_shuffle(&self) -> (r: bool)
        ensures
            r == self@.shuffle,
    {
        self.shuffle
    }

    /// Steps the repeat mode through Off, All, One, and back to Off.
    pub fn cycle_repeat(&mut self)
        ensures
            final(self)@.repeat == (match old(self)@.repeat {
                RepeatMode::Off => RepeatMode::All,
                RepeatMode::All => RepeatMode::One,
                RepeatMode::One => RepeatMode::Off,
            }),
            final(self)@.items == old(self)@.items,
            final(self)@.current == old(self)@.current,
            final(self)@.shuffle == old(self)@.shuffle,
    {
        self.repeat = match self.repeat {
            RepeatMode::Off => RepeatMode::All,
            RepeatMode::All => RepeatMode::One,
            RepeatMode::One => RepeatMode::Off,
        };
    }

    /// Sets the repeat mode; nothing else changes.
    pub fn set_repeat(&mut self, mode: RepeatMode)
        ensures
            final(self)@.repeat == mode,
            final(self)@.items == old(self)@.items,
            final(self)@.current == old(self)@.current,
            final(self)@.shuffle == old(self)@.shuffle,
    {
        self.repeat = mode;
    }

    /// The repeat mode.
    pub fn repeat_mode(&self) -> (r: RepeatMode)
        ensures
            r == self@.repeat,
    {
        self.repeat
    }

    /// Mirrors the boundary logic of `next` without mutating state.
    pub fn has_next(&self) -> (r: bool)
        requires
            self@.inv(),
        ensures
            r == self@.can_advance(),
    {
        if self.items.is_empty() {
            return false;
        }

        let n = self.items.len();
        match self.repeat {
            RepeatMode::One | RepeatMode::All => true,
            RepeatMode::Off => {
                if let Some(idx) = self.current_index {
                    idx + 1 < n
                } else {
                    n > 0
                }
            },
        }
    }

    /// Mirrors the boundary logic of `previous` without mutating state.
    pub fn has_previous(&self) -> (r: bool)
        requires
            self@.inv(),
        ensures
            r == self@.can_retreat(),
    {
        if self.items.is_empty() {
            return false;
        }

        match self.repeat {
            RepeatMode::One | RepeatMode::All => true,
            RepeatMode::Off => {
                if let Some(idx) = self.current_index {
                    idx > 0
                } else {
                    false
                }
            },
        }
    }
}

} // verus!
