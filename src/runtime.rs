use vstd::prelude::*;
use vstd::string::StringExecFns;

use crate::knob::{KnobValues, knob_at};
use crate::playlist::PlaylistData;
use crate::toggle_states::ToggleStates;

verus! {

/// Number of pads on the control surface.
pub const PAD_COUNT: usize = 40;

/// Knob that sets the music volume.
pub const MUSIC_VOLUME_KNOB: u8 = 1;

/// Knob that sets the ambience volume.
pub const AMBIENCE_VOLUME_KNOB: u8 = 5;

/// Knob that sets the sound-effect volume.
pub const SOUND_EFFECT_VOLUME_KNOB: u8 = 7;

/// The three folders that samples are looked up in.
#[derive(Clone, Debug)]
pub struct SettingsData {
    pub music_folder: String,
    pub ambience_folder: String,
    pub sound_effect_folder: String,
}

impl Default for SettingsData {
    fn default() -> (r: SettingsData)
        ensures
            r.music_folder@ == "music"@,
            r.ambience_folder@ == "ambience"@,
            r.sound_effect_folder@ == "sound"@,
    {
        SettingsData {
            music_folder: String::from_str("music"),
            ambience_folder: String::from_str("ambience"),
            sound_effect_folder: String::from_str("sound"),
        }
    }
}

impl SettingsData {
    /// Takes over the three folders of `new_data`.
    pub fn copy_data(&mut self, new_data: &Self)
        ensures
            final(self).music_folder == new_data.music_folder,
            final(self).ambience_folder == new_data.ambience_folder,
            final(self).sound_effect_folder == new_data.sound_effect_folder,
    {
        self.music_folder = new_data.music_folder.clone();
        self.ambience_folder = new_data.ambience_folder.clone();
        self.sound_effect_folder = new_data.sound_effect_folder.clone();
    }
}

/// One line of the information list: its place and its text.
#[derive(Clone, Debug)]
pub struct InformationEntry {
    pub position: usize,
    pub data: String,
}

/// The state snapshot shared with the front end.
#[derive(Clone, Debug)]
pub struct RuntimeData {
    pub settings_data: SettingsData,
    pub pad_labels: Vec<String>,
    pub knob_values: KnobValues,
    pub button_states: ToggleStates,
    pub last_pad_pressed: Option<u8>,
    pub current_playlist: Option<PlaylistData>,
}

fn empty_labels(n: usize) -> (r: Vec<String>)
    ensures
        r@.len() == n,
        forall|i: int| 0 <= i < n ==> (#[trigger] r@[i])@.len() == 0,
{
    let mut r: Vec<String> = Vec::new();
    let mut i: usize = 0;
    while i < n
        invariant
            i <= n,
            r@.len() == i,
            forall|j: int| 0 <= j < i ==> (#[trigger] r@[j])@.len() == 0,
        decreases n - i,
    {
        r.push(String::new());
        i = i + 1;
    }
    r
}

impl RuntimeData {
    /// A snapshot; what is not given starts as 40 empty pad labels, the
    /// start-up knob table and no flag on.
    pub fn new(
        settings_data: SettingsData,
        pad_labels: Option<Vec<String>>,
        knob_values: Option<KnobValues>,
        button_states: Option<ToggleStates>,
        last_pad_pressed: Option<u8>,
        current_playlist: Option<PlaylistData>,
    ) -> (r: RuntimeData)
        ensures
            r.settings_data == settings_data,
            match pad_labels {
                Some(l) => r.pad_labels == l,
                None => r.pad_labels@.len() == PAD_COUNT && forall|i: int|
                    0 <= i < PAD_COUNT ==> (#[trigger] r.pad_labels@[i])@.len() == 0,
            },
            match knob_values {
                Some(k) => r.knob_values == k,
                None => r.knob_values.values@ == seq![100u16, 0, 0, 0, 100, 0, 100, 0]
                    && r.knob_values.wf(),
            },
            match button_states {
                Some(b) => r.button_states == b,
                None => r.button_states.raw() == 0,
            },
            r.last_pad_pressed == last_pad_pressed,
            r.current_playlist == current_playlist,
    {
        RuntimeData {
            settings_data,
            pad_labels: match pad_labels {
                Some(l) => l,
                None => empty_labels(PAD_COUNT),
            },
            knob_values: match knob_values {
                Some(k) => k,
                None => KnobValues::new(),
            },
            button_states: match button_states {
                Some(b) => b,
                None => ToggleStates::empty(),
            },
            last_pad_pressed,
            current_playlist,
        }
    }

    /// Takes over everything of `new_data` but the knob values.
    pub fn copy_data(&mut self, new_data: Self)
        ensures
            final(self).settings_data == new_data.settings_data,
            final(self).pad_labels == new_data.pad_labels,
            final(self).knob_values == old(self).knob_values,
            final(self).button_states == new_data.button_states,
            final(self).last_pad_pressed == new_data.last_pad_pressed,
            final(self).current_playlist == new_data.current_playlist,
    {
        self.button_states = new_data.button_states;
        self.pad_labels = new_data.pad_labels;
        self.settings_data = new_data.settings_data;
        self.current_playlist = new_data.current_playlist;
        self.last_pad_pressed = new_data.last_pad_pressed;
    }

    pub fn get_music_volume(&self) -> (r: Option<u16>)
        ensures
            r == knob_at(self.knob_values.values@, MUSIC_VOLUME_KNOB),
    {
        self.knob_values.get(MUSIC_VOLUME_KNOB)
    }

    pub fn get_ambience_volume(&self) -> (r: Option<u16>)
        ensures
            r == knob_at(self.knob_values.values@, AMBIENCE_VOLUME_KNOB),
    {
        self.knob_values.get(AMBIENCE_VOLUME_KNOB)
    }

    pub fn get_sound_effect_volume(&self) -> (r: Option<u16>)
        ensures
            r == knob_at(self.knob_values.values@, SOUND_EFFECT_VOLUME_KNOB),
    {
        self.knob_values.get(SOUND_EFFECT_VOLUME_KNOB)
    }
}

} // verus!
