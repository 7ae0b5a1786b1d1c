use vstd::prelude::*;

use crate::playlist::PlaylistData;
use crate::runtime::RuntimeData;
use crate::toggle_states::{Flag, ToggleStates};

verus! {

pub const PAUSE_MUSIC: u16 = 1;
pub const SOLO_MUSIC: u16 = 2;
pub const MUTE_ALL: u16 = 4;
pub const LOOP: u16 = 16;
pub const STOP_ALL: u16 = 32;
pub const SHUFFLE: u16 = 256;
pub const SHIFT: u16 = 1024;

/// Every bit that names a player flag.
pub const PLAYER_BITS: u16 = 1335;

/// Every bit that names a toggle flag.
pub const TOGGLE_BITS: u16 = 0x1fff;

/// The audio player's view of the toggle flags; each player flag sits on
/// the bit of the toggle flag it mirrors.
#[derive(Clone, Copy, Debug, PartialEq, Eq, Structural)]
pub struct PlayerStatus {
    pub bits: u16,
}

impl PlayerStatus {
    pub open spec fn has(self, m: u16) -> bool {
        self.bits & m != 0
    }

    pub fn is_everything_stopped(self) -> (r: bool)
        ensures
            r == self.has(STOP_ALL),
    {
        self.bits & STOP_ALL != 0
    }

    pub fn is_music_playable(self) -> (r: bool)
        ensures
            r == (self.has(STOP_ALL) || self.has(PAUSE_MUSIC)),
    {
        self.bits & STOP_ALL != 0 || self.bits & PAUSE_MUSIC != 0
    }

    pub fn is_shuffle_requested(self) -> (r: bool)
        ensures
            r == self.has(SHUFFLE),
    {
        self.bits & SHUFFLE != 0
    }

    pub fn is_music_muted(self) -> (r: bool)
        ensures
            r == self.has(MUTE_ALL),
    {
        self.bits & MUTE_ALL != 0
    }

    pub fn is_music_paused(self) -> (r: bool)
        ensures
            r == self.has(PAUSE_MUSIC),
    {
        self.bits & PAUSE_MUSIC != 0
    }

    pub fn is_sound_muted(self) -> (r: bool)
        ensures
            r == (self.has(SOLO_MUSIC) || self.has(MUTE_ALL)),
    {
        self.bits & SOLO_MUSIC != 0 || self.bits & MUTE_ALL != 0
    }
}

impl From<ToggleStates> for PlayerStatus {
    /// The same bits when every set bit names a player flag, none otherwise.
    fn from(state: ToggleStates) -> Self {
        let b = state.bits();
        if b & !PLAYER_BITS == 0 {
            PlayerStatus { bits: b }
        } else {
            PlayerStatus { bits: 0 }
        }
    }
}

impl vstd::std_specs::convert::FromSpecImpl<ToggleStates> for PlayerStatus {
    open spec fn obeys_from_spec() -> bool {
        true
    }

    open spec fn from_spec(v: ToggleStates) -> Self {
        if v.raw() & !PLAYER_BITS == 0 {
            PlayerStatus { bits: v.raw() }
        } else {
            PlayerStatus { bits: 0 }
        }
    }
}

impl From<PlayerStatus> for ToggleStates {
    /// The same bits when every set bit names a toggle flag, none otherwise.
    fn from(state: PlayerStatus) -> Self {
        if state.bits & !TOGGLE_BITS == 0 {
            ToggleStates { bits: state.bits }
        } else {
            ToggleStates { bits: 0 }
        }
    }
}

impl vstd::std_specs::convert::FromSpecImpl<PlayerStatus> for ToggleStates {
    open spec fn obeys_from_spec() -> bool {
        true
    }

    open spec fn from_spec(v: PlayerStatus) -> Self {
        if v.bits & !TOGGLE_BITS == 0 {
            ToggleStates { bits: v.bits }
        } else {
            ToggleStates { bits: 0 }
        }
    }
}

/// Local progress of the audio player between two snapshots, with times
/// in milliseconds.
#[derive(Clone, Copy, Debug, PartialEq, Eq, Structural)]
pub struct PlayerInfo {
    pub last_refresh: u64,
    pub last_local_update: u64,
    pub refresh_interval: u64,
    pub local_elapsed: u64,
    pub status: PlayerStatus,
}

/// The length of the playing track, when the playlist points at one.
pub open spec fn playing_length(playlist: Option<PlaylistData>) -> Option<u64> {
    match playlist {
        Some(p) => if p.current_track < p.tracks@.len() {
            Some(p.tracks@[p.current_track as int].track_length)
        } else {
            None
        },
        None => None,
    }
}

impl PlayerInfo {
    /// A player started at time `now`, refreshing every 10 ms.
    pub fn new(now: u64) -> (r: PlayerInfo)
        ensures
            r.last_refresh == now,
            r.last_local_update == now,
            r.refresh_interval == 10,
            r.local_elapsed == 0,
            r.status.bits == 0,
    {
        PlayerInfo {
            last_refresh: now,
            last_local_update: now,
            refresh_interval: 10,
            local_elapsed: 0,
            status: PlayerStatus { bits: 0 },
        }
    }

    /// Whether a refresh is due at time `now`.
    pub fn refresh_due(&self, now: u64) -> (r: bool)
        ensures
            r == (now >= self.last_refresh && now - self.last_refresh >= self.refresh_interval),
    {
        now >= self.last_refresh && now - self.last_refresh >= self.refresh_interval
    }

    /// Moves the local play position on by `delta_ms`, but not past the end
    /// of a track of known length; with no playing track it goes back to 0.
    pub fn update_local_progress(&mut self, playlist: &Option<PlaylistData>, delta_ms: u64)
        ensures
            ({
                let moved = if old(self).local_elapsed + delta_ms > u64::MAX {
                    u64::MAX as int
                } else {
                    old(self).local_elapsed + delta_ms
                };
                final(self).local_elapsed == match playing_length(*playlist) {
                    Some(len) => if len > 0 && moved > len * 1000 {
                        len * 1000
                    } else {
                        moved
                    },
                    None => if playlist is Some {
                        0
                    } else {
                        old(self).local_elapsed as int
                    },
                }
            }),
            final(self).status == old(self).status,
            final(self).last_refresh == old(self).last_refresh,
    {
        match playlist {
            Some(p) => {
                if p.current_track < p.tracks.len() as u64 {
                    let len = p.tracks[p.current_track as usize].track_length;
                    let moved = self.local_elapsed.saturating_add(delta_ms);
                    if len > 0 && (moved as u128) > (len as u128) * 1000 {
                        self.local_elapsed = (len * 1000) as u64;
                    } else {
                        self.local_elapsed = moved;
                    }
                } else {
                    self.local_elapsed = 0;
                }
            },
            None => {},
        }
    }
}

/// What the audio player shows of a snapshot.
#[derive(Clone, Copy, Debug, PartialEq, Eq, Structural)]
pub struct PlayerView {
    pub local_elapsed: u64,
    pub mute_on: bool,
    pub shuffle_on: bool,
    pub loop_on: bool,
    pub pause_on: bool,
}

/// Reads the player view off a snapshot: the playing track's position in
/// milliseconds (0 with no playing track) and the mute, shuffle (Send),
/// loop (Select) and pause (ClipStop) flags.
pub fn player_view(data: &RuntimeData) -> (r: PlayerView)
    ensures
        r.mute_on == data.button_states.has(Flag::Mute),
        r.shuffle_on == data.button_states.has(Flag::Send),
        r.loop_on == data.button_states.has(Flag::Select),
        r.pause_on == data.button_states.has(Flag::ClipStop),
        r.local_elapsed == match data.current_playlist {
            Some(p) => if p.current_track < p.tracks@.len() {
                let e = p.tracks@[p.current_track as int].elapsed_seconds * 1000;
                if e > u64::MAX { u64::MAX as int } else { e }
            } else {
                0
            },
            None => 0,
        },
{
    let local_elapsed = match &data.current_playlist {
        Some(p) => if p.current_track < p.tracks.len() as u64 {
            let e = p.tracks[p.current_track as usize].elapsed_seconds;
            if e > u64::MAX / 1000 {
                u64::MAX
            } else {
                e * 1000
            }
        } else {
            0
        },
        None => 0,
    };
    PlayerView {
        local_elapsed,
        mute_on: data.button_states.contains(Flag::Mute),
        shuffle_on: data.button_states.contains(Flag::Send),
        loop_on: data.button_states.contains(Flag::Select),
        pause_on: data.button_states.contains(Flag::ClipStop),
    }
}

} // verus!
