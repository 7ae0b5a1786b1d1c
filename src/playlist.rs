use vstd::prelude::*;

verus! {

/// One queued file, its length and how far it has played, in seconds.
#[derive(Clone, Debug)]
pub struct Track {
    pub file_path: String,
    pub track_length: u64,
    pub elapsed_seconds: u64,
}

impl Track {
    /// A track for `file_path`; a missing length or position counts as 0.
    pub fn new(file_path: &str, track_length: Option<u64>, current_position: Option<u64>) -> (r:
        Track)
        ensures
            r.file_path@ == file_path@,
            r.track_length == match track_length {
                Some(l) => l,
                None => 0,
            },
            r.elapsed_seconds == match current_position {
                Some(p) => p,
                None => 0,
            },
    {
        Track {
            file_path: file_path.to_owned(),
            track_length: match track_length {
                Some(l) => l,
                None => 0,
            },
            elapsed_seconds: match current_position {
                Some(p) => p,
                None => 0,
            },
        }
    }

    /// A copy of the track.
    pub fn duplicate(&self) -> (r: Track)
        ensures
            r == *self,
    {
        Track {
            file_path: self.file_path.clone(),
            track_length: self.track_length,
            elapsed_seconds: self.elapsed_seconds,
        }
    }
}

/// The playlist the front end shows, with the index of the playing track.
#[derive(Clone, Debug)]
pub struct PlaylistData {
    pub tracks: Vec<Track>,
    pub current_track: u64,
}

impl PlaylistData {
    /// A playlist of `tracks`, playing `current_track` (the first when not given).
    pub fn new(tracks: Vec<Track>, current_track: Option<u64>) -> (r: PlaylistData)
        ensures
            r.tracks@ == tracks@,
            r.current_track == match current_track {
                Some(c) => c,
                None => 0,
            },
    {
        PlaylistData {
            tracks,
            current_track: match current_track {
                Some(c) => c,
                None => 0,
            },
        }
    }

    /// The playing track, when the index points into the list.
    pub fn get_current_track(&self) -> (r: Option<Track>)
        ensures
            self.current_track < self.tracks@.len() ==> r == Some(
                self.tracks@[self.current_track as int],
            ),
            self.current_track >= self.tracks@.len() ==> r is None,
    {
        if self.current_track < self.tracks.len() as u64 {
            Some(self.tracks[self.current_track as usize].duplicate())
        } else {
            None
        }
    }
}

/// Index of the playing track: tracks in the list minus tracks still
/// queued (0 when more are queued than listed).
pub open spec fn current_index(total: nat, remaining: nat) -> nat {
    if remaining <= total {
        (total - remaining) as nat
    } else {
        0
    }
}

/// `new` is `old` brought up to date with a queue that has `remaining`
/// files left and has played the first for `elapsed` seconds: the playing
/// index is the count of finished tracks, the playing track gets `elapsed`,
/// every other track 0.
pub open spec fn synced_playlist(old: PlaylistData, new: PlaylistData, remaining: nat, elapsed: u64) -> bool {
    &&& new.current_track == current_index(old.tracks@.len(), remaining)
    &&& new.tracks@.len() == old.tracks@.len()
    &&& forall|i: int|
        0 <= i < new.tracks@.len() ==> {
            &&& (#[trigger] new.tracks@[i]).file_path == old.tracks@[i].file_path
            &&& new.tracks@[i].track_length == old.tracks@[i].track_length
            &&& new.tracks@[i].elapsed_seconds == if i == new.current_track {
                elapsed
            } else {
                0
            }
        }
}

/// The playlist brought up to date with the queue that plays it: the
/// playing track gets `elapsed` seconds, every other track 0.
pub fn get_current_playlist_state(old_state: &PlaylistData, remaining: u64, elapsed: u64) -> (r:
    PlaylistData)
    ensures
        synced_playlist(*old_state, r, remaining as nat, elapsed),
{
    let total = old_state.tracks.len() as u64;
    let current = if remaining <= total {
        total - remaining
    } else {
        0
    };
    let mut tracks: Vec<Track> = Vec::new();
    let mut i: usize = 0;
    while i < old_state.tracks.len()
        invariant
            i <= old_state.tracks@.len(),
            total == old_state.tracks@.len(),
            current == current_index(old_state.tracks@.len(), remaining as nat),
            tracks@.len() == i,
            forall|j: int|
                0 <= j < i ==> {
                    &&& (#[trigger] tracks@[j]).file_path == old_state.tracks@[j].file_path
                    &&& tracks@[j].track_length == old_state.tracks@[j].track_length
                    &&& tracks@[j].elapsed_seconds == if j == current {
                        elapsed
                    } else {
                        0
                    }
                },
        decreases old_state.tracks@.len() - i,
    {
        let t = &old_state.tracks[i];
        tracks.push(
            Track {
                file_path: t.file_path.clone(),
                track_length: t.track_length,
                elapsed_seconds: if i as u64 == current {
                    elapsed
                } else {
                    0
                },
            },
        );
        i = i + 1;
    }
    PlaylistData { tracks, current_track: current }
}

} // verus!
