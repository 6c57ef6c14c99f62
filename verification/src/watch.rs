//! Decisions over debounced filesystem events: whether a burst of changes
//! calls for a library rescan or a configuration reload.
//!
//! The host application runs the watcher and hands each debounced burst
//! over as plain events; the debounce windows it should use are the
//! constants here.

use vstd::prelude::*;

use crate::scan::{is_audio_path, MusicScanner};

verus! {

/// The debounce window for library content changes, in seconds.
pub const LIBRARY_DEBOUNCE_SECS: u64 = 2;

/// The debounce window for settings-file changes, in seconds.
pub const CONFIG_DEBOUNCE_SECS: u64 = 1;

/// The kind of one filesystem event, as far as the decisions here read it.
#[derive(Clone, Copy, Debug, PartialEq, Eq, Structural)]
pub enum FsEventKind {
    Create,
    ModifyData,
    Remove,
    Other,
}

/// One filesystem event: its kind and the paths it names.
#[derive(Debug)]
pub struct WatchEvent {
    pub kind: FsEventKind,
    pub paths: Vec<String>,
}

/// An event kind that can change library content.
pub open spec fn meaningful_kind(k: FsEventKind) -> bool {
    k == FsEventKind::Create || k == FsEventKind::ModifyData || k == FsEventKind::Remove
}

/// The burst touches an audio file in a meaningful way.
pub open spec fn burst_touches_audio(events: Seq<WatchEvent>) -> bool {
    exists|e: int, p: int|
        0 <= e < events.len() && 0 <= p < events[e].paths@.len() && meaningful_kind(
            #[trigger] events[e].kind,
        ) && is_audio_path(#[trigger] events[e].paths@[p]@)
}

/// Whether a debounced burst of library events calls for a rescan: some
/// created, data-modified or removed path names an audio file.
pub fn rescan_needed(events: &Vec<WatchEvent>) -> (r: bool)
    ensures
        r == burst_touches_audio(events@),
{
    let n = events.len();
    let mut e: usize = 0;
    while e < n
        invariant
            n == events@.len(),
            0 <= e <= n,
            forall|e0: int, p0: int|
                0 <= e0 < e && 0 <= p0 < events@[e0].paths@.len() ==> !(meaningful_kind(
                    #[trigger] events@[e0].kind,
                ) && is_audio_path(#[trigger] events@[e0].paths@[p0]@)),
        decreases n - e,
    {
        let ev = &events[e];
        let meaningful = match ev.kind {
            FsEventKind::Create | FsEventKind::ModifyData | FsEventKind::Remove => true,
            FsEventKind::Other => false,
        };
        if meaningful {
            let m = ev.paths.len();
            let mut p: usize = 0;
            while p < m
                invariant
                    n == events@.len(),
                    e < n,
                    m == events@[e as int].paths@.len(),
                    ev == &events@[e as int],
                    meaningful_kind(events@[e as int].kind),
                    0 <= p <= m,
                    forall|p0: int|
                        0 <= p0 < p ==> !is_audio_path(
                            #[trigger] events@[e as int].paths@[p0]@,
                        ),
                decreases m - p,
            {
                if MusicScanner::is_audio_file(ev.paths[p].as_str()) {
                    proof {
                        assert(meaningful_kind(events@[e as int].kind) && is_audio_path(
                            events@[e as int].paths@[p as int]@,
                        ));
                    }
                    return true;
                }
                p += 1;
            }
        }
        e += 1;
    }
    false
}

/// The burst rewrote or created the watched file's data.
pub open spec fn burst_changes_data(events: Seq<WatchEvent>) -> bool {
    exists|e: int|
        0 <= e < events.len() && (#[trigger] events[e].kind == FsEventKind::ModifyData
            || events[e].kind == FsEventKind::Create)
}

/// Whether a debounced burst on the settings file calls for a reload: some
/// event created the file or modified its data.
pub fn config_reload_needed(events: &Vec<WatchEvent>) -> (r: bool)
    ensures
        r == burst_changes_data(events@),
{
    let n = events.len();
    let mut e: usize = 0;
    while e < n
        invariant
            n == events@.len(),
            0 <= e <= n,
            forall|e0: int|
                0 <= e0 < e ==> !(#[trigger] events@[e0].kind == FsEventKind::ModifyData
                    || events@[e0].kind == FsEventKind::Create),
        decreases n - e,
    {
        let hit = match events[e].kind {
            FsEventKind::ModifyData | FsEventKind::Create => true,
            _ => false,
        };
        if hit {
            return true;
        }
        e += 1;
    }
    false
}

} // verus!
