use vstd::prelude::*;

use crate::controls::{InputGroup, KnobCtrlKey, SoftKey};
use crate::effect::{Effect, FilterKind, LedMode, QueueKind, LED_GREEN, LED_OFF};
use crate::explorer::{
    album_map, get_album_name_from_folder_in_path, labels_below, lemma_labels_stop,
    map_to_indexed_vec, pad_labels_of, views,
};
use crate::filter::change_filter_frequency_value;
use crate::knob::{KnobValueUpdate, KNOB_STEP};
use crate::music_state::{
    knob_ctrl_effects, knob_effects, knob_next, lists_files, momentary_led, pad_leds, pad_post,
    played, pressed_effects, pressed_next, resume_pause_effects, resume_pause_next,
    soft_key_effects, soft_key_next, spec_pad_color, stop_all_effects, stop_all_next, MusicState,
    StateView, lemma_knob_next_wf, lemma_soft_key_next_wf, lemma_pressed_next_wf,
};
use crate::playlist::{get_current_playlist_state, synced_playlist, PlaylistData, Track};
use crate::queue::{change_volume, increase_volume, synced, PlaybackQueue, QueueView};
use crate::runtime::{RuntimeData, MUSIC_VOLUME_KNOB};
use crate::toggle_states::Flag;

verus! {

/// Relies on fastrand::shuffle: it reorders the slice in place (a
/// Fisher-Yates pass of swaps), so the same files remain, each once.
#[verifier::external_body]
fn shuffle_files(files: &mut Vec<String>)
    ensures
        final(files)@.len() == old(files)@.len(),
        final(files)@.to_multiset() == old(files)@.to_multiset(),
{
    fastrand::shuffle(files.as_mut_slice());
}

/// A playlist of `files`, none started, the first one playing.
pub fn playlist_of(files: &Vec<String>) -> (r: PlaylistData)
    ensures
        lists_files(Some(r), files@),
{
    let mut tracks: Vec<Track> = Vec::new();
    let mut i: usize = 0;
    while i < files.len()
        invariant
            i <= files@.len(),
            tracks@.len() == i,
            forall|j: int|
                0 <= j < i ==> {
                    &&& (#[trigger] tracks@[j]).file_path == files@[j]
                    &&& tracks@[j].track_length == 0
                    &&& tracks@[j].elapsed_seconds == 0
                },
        decreases files@.len() - i,
    {
        tracks.push(Track { file_path: files[i].clone(), track_length: 0, elapsed_seconds: 0 });
        i = i + 1;
    }
    PlaylistData { tracks, current_track: 0 }
}

/// Starts `files` on `queue`, at `volume` when given. With no file the
/// queue is left alone and no playlist comes back.
pub fn play_song(queue: &mut PlaybackQueue, files: Vec<String>, volume: Option<u16>) -> (r: Option<
    PlaylistData,
>)
    ensures
        files@.len() == 0 ==> r is None && *final(queue) == *old(queue),
        files@.len() > 0 ==> final(queue)@ == played(old(queue)@, files@, volume) && lists_files(
            r,
            files@,
        ),
{
    if files.len() == 0 {
        return None;
    }
    if let Some(v) = volume {
        change_volume(queue, v as i64);
    }
    let playlist = playlist_of(&files);
    queue.play_files(files);
    Some(playlist)
}

/// LED colour of a lit pad.
pub fn pad_color(index: u8) -> (r: u8)
    ensures
        r == spec_pad_color(index),
{
    if index < 127 {
        index + 1
    } else {
        LED_GREEN
    }
}

/// The router for the pad-and-knob half of the control surface.
pub struct PadHandler;

impl PadHandler {
    /// A tick of knob `index`.
    pub fn handle_knob(state: &mut MusicState, index: u8, value: KnobValueUpdate) -> (fx: Vec<
        Effect,
    >)
        ensures
            old(state).wf() ==> final(state).wf(),
            final(state).sv() == knob_next(old(state).sv(), index, value),
            fx@ == knob_effects(old(state).sv(), index, value),
            final(state).same_outside_view(&*old(state)),
    {
        proof {
            if old(state).wf() {
                lemma_knob_next_wf(old(state).sv(), index, value);
            }
        }
        let muted = state.data.button_states.contains(Flag::Mute);
        let d = value.signed_delta() as i32;
        let step = d * KNOB_STEP as i32;
        let mut fx: Vec<Effect> = Vec::new();
        if index == 1 {
            if !muted {
                let v = increase_volume(&mut state.audio_sinks.music_queue, step);
                fx.push(Effect::SetVolume(QueueKind::Music, v));
            }
        } else if index == 5 {
            let v = increase_volume(&mut state.audio_sinks.ambience_queue, step);
            fx.push(Effect::SetVolume(QueueKind::Ambience, v));
        } else if index == 7 {
            let v = increase_volume(&mut state.audio_sinks.sound_effect_queue, step);
            fx.push(Effect::SetVolume(QueueKind::SoundEffect, v));
        } else if index == 2 {
            let s = change_filter_frequency_value(&mut state.music_filter, d, FilterKind::LowPass);
            fx.push(Effect::Filter(QueueKind::Music, s));
        } else if index == 3 {
            let s = change_filter_frequency_value(&mut state.music_filter, d, FilterKind::HighPass);
            fx.push(Effect::Filter(QueueKind::Music, s));
        } else if index == 4 {
            let s = change_filter_frequency_value(
                &mut state.music_filter,
                d,
                FilterKind::SinglePoleLowPassApprox,
            );
            fx.push(Effect::Filter(QueueKind::Music, s));
        } else if index == 6 {
            let s = change_filter_frequency_value(
                &mut state.ambience_filter,
                d,
                FilterKind::LowPass,
            );
            fx.push(Effect::Filter(QueueKind::Ambience, s));
        } else if index == 8 {
            let s = change_filter_frequency_value(
                &mut state.sound_effect_filter,
                d,
                FilterKind::HighPass,
            );
            fx.push(Effect::Filter(QueueKind::SoundEffect, s));
        }
        if !muted {
            state.data.knob_values.apply_tick(index, value);
        }
        assert(fx@ =~= knob_effects(old(state).sv(), index, value));
        fx
    }

    /// The filter button.
    pub fn handle_resume_pause(state: &mut MusicState) -> (fx: Vec<Effect>)
        ensures
            old(state).wf() ==> final(state).wf(),
            final(state).sv() == resume_pause_next(old(state).sv()),
            fx@ == resume_pause_effects(old(state).sv()),
            final(state).same_outside_view(&*old(state)),
    {
        let led = state.data.button_states.toggle_button(Flag::Filter, 91, LED_GREEN);
        let on = state.data.button_states.contains(Flag::Filter);
        let kind = if on {
            FilterKind::LowPass
        } else {
            FilterKind::AllPass
        };
        let s1 = change_filter_frequency_value(
            &mut state.music_filter,
            if on {
                1
            } else {
                0
            },
            kind,
        );
        let s2 = change_filter_frequency_value(&mut state.music_filter, 1, kind);
        let fx = vec![led, Effect::Filter(QueueKind::Music, s1), Effect::Filter(QueueKind::Music, s2)];
        assert(fx@ =~= resume_pause_effects(old(state).sv()));
        fx
    }

    /// A soft key.
    pub fn handle_soft_key(state: &mut MusicState, key: SoftKey) -> (fx: Vec<Effect>)
        ensures
            old(state).wf() ==> final(state).wf(),
            final(state).sv() == soft_key_next(old(state).sv(), key),
            fx@ == soft_key_effects(old(state).sv(), key),
            final(state).same_outside_view(&*old(state)),
    {
        proof {
            if old(state).wf() {
                lemma_soft_key_next_wf(old(state).sv(), key);
            }
        }
        let flag = key.flag();
        let led = state.data.button_states.toggle_button(flag, key.code(), LED_GREEN);
        let mut fx: Vec<Effect> = vec![led];
        match key {
            SoftKey::Mute => {
                if state.data.button_states.contains(Flag::Mute) {
                    let v = state.audio_sinks.music_queue.volume;
                    state.data.knob_values.set(MUSIC_VOLUME_KNOB, v);
                    let r = change_volume(&mut state.audio_sinks.music_queue, 0);
                    fx.push(Effect::SetVolume(QueueKind::Music, r));
                } else {
                    let stored = match state.data.knob_values.get(MUSIC_VOLUME_KNOB) {
                        Some(v) => v,
                        None => 0,
                    };
                    let r = change_volume(&mut state.audio_sinks.music_queue, stored as i64);
                    fx.push(Effect::SetVolume(QueueKind::Music, r));
                }
            },
            SoftKey::ClipStop => {
                if state.data.button_states.contains(Flag::ClipStop) {
                    state.audio_sinks.music_queue.pause();
                    fx.push(Effect::Pause(QueueKind::Music));
                } else if !state.data.button_states.contains(Flag::StopAll) {
                    state.audio_sinks.music_queue.resume();
                    fx.push(Effect::Resume(QueueKind::Music));
                }
            },
            SoftKey::Solo => {
                state.audio_sinks.sound_effect_queue.stop();
                state.audio_sinks.ambience_queue.stop();
                fx.push(Effect::Stop(QueueKind::SoundEffect));
                fx.push(Effect::Stop(QueueKind::Ambience));
            },
            _ => {},
        }
        assert(final(state).sv().ambience.files =~= soft_key_next(old(state).sv(), key).ambience.files);
        assert(final(state).sv().sound_effect.files =~= soft_key_next(old(state).sv(), key).sound_effect.files);
        assert(fx@ =~= soft_key_effects(old(state).sv(), key));
        fx
    }

    /// A knob-control key: it only flips its flag.
    pub fn handle_knob_ctrl(state: &mut MusicState, key: KnobCtrlKey) -> (fx: Vec<Effect>)
        ensures
            old(state).wf() ==> final(state).wf(),
            final(state).sv() == old(state).sv().toggled(key.spec_flag()),
            fx@ == knob_ctrl_effects(old(state).sv(), key),
            final(state).same_outside_view(&*old(state)),
    {
        let led = state.data.button_states.toggle_button(key.flag(), key.code(), LED_GREEN);
        let fx = vec![led];
        assert(fx@ =~= knob_ctrl_effects(old(state).sv(), key));
        fx
    }

    /// The stop-all button.
    pub fn handle_stop_all(state: &mut MusicState) -> (fx: Vec<Effect>)
        ensures
            old(state).wf() ==> final(state).wf(),
            final(state).sv() == stop_all_next(old(state).sv()),
            fx@ == stop_all_effects(old(state).sv()),
            final(state).same_outside_view(&*old(state)),
    {
        let led = state.data.button_states.toggle_button(Flag::StopAll, 81, LED_GREEN);
        let mut fx: Vec<Effect> = vec![led];
        if state.data.button_states.contains(Flag::StopAll) {
            state.audio_sinks.music_queue.pause();
            state.audio_sinks.ambience_queue.pause();
            state.audio_sinks.sound_effect_queue.pause();
            fx.push(Effect::Pause(QueueKind::Music));
            fx.push(Effect::Pause(QueueKind::Ambience));
            fx.push(Effect::Pause(QueueKind::SoundEffect));
        } else {
            if !state.data.button_states.contains(Flag::ClipStop) {
                state.audio_sinks.music_queue.resume();
                fx.push(Effect::Resume(QueueKind::Music));
            }
            state.audio_sinks.ambience_queue.resume();
            state.audio_sinks.sound_effect_queue.resume();
            fx.push(Effect::Resume(QueueKind::Ambience));
            fx.push(Effect::Resume(QueueKind::SoundEffect));
        }
        assert(fx@ =~= stop_all_effects(old(state).sv()));
        fx
    }

    /// A pad press; `pad_folder` holds the files, sorted by path, of the
    /// music sub-folder whose name starts with the pad's prefix, or nothing
    /// when no such folder exists.
    pub fn handle_pad(state: &mut MusicState, index: u8, pad_folder: Option<Vec<String>>) -> (fx:
        Vec<Effect>)
        ensures
            old(state).wf() ==> final(state).wf(),
            pad_post(old(state), final(state), index, pad_folder, fx@),
    {
        let old_pad = state.data.last_pad_pressed;
        state.data.last_pad_pressed = Some(index);
        let mut fx: Vec<Effect> = Vec::new();
        match pad_folder {
            Some(files) => {
                let mut files = files;
                let n = files.len();
                if state.data.button_states.contains(Flag::Send) {
                    shuffle_files(&mut files);
                }
                let volume = state.data.get_music_volume();
                let playlist = play_song(&mut state.audio_sinks.music_queue, files, volume);
                state.data.current_playlist = playlist;
                if n > 0 {
                    fx.push(Effect::Play(QueueKind::Music));
                }
            },
            None => {},
        }
        if let Some(l) = old_pad {
            fx.push(Effect::Led { key: l, mode: LedMode::On10Percent, color: LED_OFF });
        }
        fx.push(Effect::Led { key: index, mode: LedMode::On100Percent, color: pad_color(index) });
        assert(fx@ =~= match pad_folder {
            Some(files) => if files@.len() > 0 {
                seq![Effect::Play(QueueKind::Music)] + pad_leds(old(state).sv().last_pad, index)
            } else {
                pad_leds(old(state).sv().last_pad, index)
            },
            None => pad_leds(old(state).sv().last_pad, index),
        });
        fx
    }
    /// A press (or a turn, for a knob) of `input`; `value` is the encoder
    /// value of a knob, and `pad_folder` the lookup result for a pad.
    pub fn handle_input_pressed(
        state: &mut MusicState,
        input: InputGroup,
        value: u8,
        pad_folder: Option<Vec<String>>,
    ) -> (fx: Vec<Effect>)
        ensures
            old(state).wf() ==> final(state).wf(),
            input is Pads ==> pad_post(old(state), final(state), input->Pads_0, pad_folder, fx@),
            !(input is Pads) ==> {
                &&& final(state).sv() == pressed_next(old(state).sv(), input, value)
                &&& fx@ == pressed_effects(old(state).sv(), input, value)
                &&& final(state).same_outside_view(&*old(state))
            },
    {
        proof {
            if old(state).wf() {
                lemma_pressed_next_wf(old(state).sv(), input, value);
            }
        }
        match input {
            InputGroup::Pads(i) => Self::handle_pad(state, i, pad_folder),
            InputGroup::Knob(i) => Self::handle_knob(state, i, KnobValueUpdate::from(value)),
            InputGroup::ResumePause => Self::handle_resume_pause(state),
            InputGroup::SoftKeys(k) => Self::handle_soft_key(state, k),
            InputGroup::KnobCtrl(k) => Self::handle_knob_ctrl(state, k),
            InputGroup::StopAllClips => Self::handle_stop_all(state),
            InputGroup::Shift => {
                let led = state.data.button_states.toggle_button(Flag::Shift, 98, LED_GREEN);
                let fx = vec![led];
                assert(fx@ =~= pressed_effects(old(state).sv(), input, value));
                fx
            },
            InputGroup::Start => {
                let led = state.data.button_states.toggle_button(Flag::Start, 92, LED_GREEN);
                let fx = vec![led];
                assert(fx@ =~= pressed_effects(old(state).sv(), input, value));
                fx
            },
            InputGroup::Right => {
                state.audio_sinks.music_queue.skip_one();
                let fx = vec![momentary_button_led(67, true), Effect::SkipOne(QueueKind::Music)];
                assert(fx@ =~= pressed_effects(old(state).sv(), input, value));
                fx
            },
            _ => {
                let fx = vec![momentary_button_led(input.code(), true)];
                assert(fx@ =~= pressed_effects(old(state).sv(), input, value));
                fx
            },
        }
    }

    /// A release: the arrow buttons turn their LED off, the rest do nothing.
    pub fn handle_input_released(input: InputGroup) -> (fx: Vec<Effect>)
        ensures
            fx@ == match input {
                InputGroup::Left | InputGroup::Right | InputGroup::Up | InputGroup::Down => seq![
                    momentary_led(input.spec_code(), false),
                ],
                _ => seq![],
            },
    {
        match input {
            InputGroup::Left | InputGroup::Right | InputGroup::Up | InputGroup::Down => {
                let fx = vec![momentary_button_led(input.code(), false)];
                assert(fx@ =~= seq![momentary_led(input.spec_code(), false)]);
                fx
            },
            _ => {
                let fx: Vec<Effect> = Vec::new();
                assert(fx@ =~= seq![]);
                fx
            },
        }
    }

    /// One hardware event: a press when `value` is above 0, a release
    /// otherwise, followed by a snapshot for the front end.
    pub fn listener(
        state: &mut MusicState,
        input: InputGroup,
        value: u8,
        pad_folder: Option<Vec<String>>,
    ) -> (fx: Vec<Effect>)
        ensures
            old(state).wf() ==> final(state).wf(),
            fx@.len() > 0 && fx@.last() == Effect::Snapshot,
            value > 0 && input is Pads ==> pad_post(
                old(state),
                final(state),
                input->Pads_0,
                pad_folder,
                fx@.drop_last(),
            ),
            value > 0 && !(input is Pads) ==> {
                &&& final(state).sv() == pressed_next(old(state).sv(), input, value)
                &&& fx@.drop_last() == pressed_effects(old(state).sv(), input, value)
                &&& final(state).same_outside_view(&*old(state))
            },
            value == 0 ==> final(state).sv() == old(state).sv() && final(state).same_outside_view(&*old(state)),
    {
        let mut fx = if value > 0 {
            Self::handle_input_pressed(state, input, value, pad_folder)
        } else {
            Self::handle_input_released(input)
        };
        let ghost before = fx@;
        fx.push(Effect::Snapshot);
        assert(fx@.drop_last() =~= before);
        fx
    }

    /// Brings the playlist in `data` up to date with the music queue, which
    /// has `remaining` files left and has played the first for `elapsed` seconds.
    pub fn refresh(data: &mut RuntimeData, remaining: u64, elapsed: u64)
        ensures
            final(data).settings_data == old(data).settings_data,
            final(data).pad_labels == old(data).pad_labels,
            final(data).knob_values == old(data).knob_values,
            final(data).button_states == old(data).button_states,
            final(data).last_pad_pressed == old(data).last_pad_pressed,
            match old(data).current_playlist {
                None => final(data).current_playlist is None,
                Some(p) => final(data).current_playlist is Some && synced_playlist(
                    p,
                    final(data).current_playlist.unwrap(),
                    remaining as nat,
                    elapsed,
                ),
            },
    {
        let updated = match &data.current_playlist {
            Some(p) => Some(get_current_playlist_state(p, remaining, elapsed)),
            None => None,
        };
        data.current_playlist = updated;
    }

    /// Pad labels from the names of the music root's sub-folders: the album
    /// names in index order.
    pub fn get_pad_albums_list(folder_names: &Vec<String>) -> (r: Vec<String>)
        ensures
            views(r@) == pad_labels_of(folder_names@),
    {
        let albums = get_album_name_from_folder_in_path(folder_names);
        let ghost m = album_map(views(folder_names@));
        let indexed = map_to_indexed_vec(&albums);
        let mut r: Vec<String> = Vec::new();
        let mut i: usize = 0;
        while i < indexed.len()
            invariant
                i <= indexed@.len(),
                indexed@.len() <= 256,
                albums@.dom() == m.dom(),
                forall|k: u8| #[trigger] albums@.contains_key(k) ==> albums@[k]@ == m[k],
                forall|j: int|
                    0 <= j < indexed@.len() ==> (#[trigger] indexed@[j] == if albums@.contains_key(j as u8) {
                        Some(albums@[j as u8])
                    } else {
                        None
                    }),
                views(r@) == labels_below(m, i as int),
            decreases indexed@.len() - i,
        {
            let ghost prev = r@;
            match &indexed[i] {
                Some(name) => {
                    r.push(name.clone());
                    assert(albums@.contains_key(i as u8));
                    assert(views(r@) =~= views(prev).push(m[i as u8]));
                },
                None => {
                    assert(!albums@.contains_key(i as u8));
                },
            }
            i = i + 1;
        }
        proof {
            assert forall|k: u8| k >= indexed@.len() implies !#[trigger] m.contains_key(k) by {
                assert(!albums@.contains_key(k));
            }
            lemma_labels_stop(m, indexed@.len() as int, 256);
        }
        r
    }

    /// Relabels the pads from the names of the music root's sub-folders.
    pub fn update_pad_albums_list(data: &mut RuntimeData, folder_names: &Vec<String>)
        ensures
            views(final(data).pad_labels@) == pad_labels_of(folder_names@),
            final(data).settings_data == old(data).settings_data,
            final(data).knob_values == old(data).knob_values,
            final(data).button_states == old(data).button_states,
            final(data).last_pad_pressed == old(data).last_pad_pressed,
            final(data).current_playlist == old(data).current_playlist,
    {
        data.pad_labels = Self::get_pad_albums_list(folder_names);
    }
}

/// The LED of a momentary button, lit or off.
pub fn momentary_button_led(code: u8, on: bool) -> (r: Effect)
    ensures
        r == momentary_led(code, on),
{
    Effect::Led { key: code, mode: LedMode::On100Percent, color: if on { LED_GREEN } else { LED_OFF } }
}

/// The paths of `tracks`, in order.
pub open spec fn paths_of(tracks: Seq<Track>) -> Seq<String> {
    tracks.map_values(|t: Track| t.file_path)
}

fn track_paths(tracks: &Vec<Track>) -> (r: Vec<String>)
    ensures
        r@ == paths_of(tracks@),
{
    let mut r: Vec<String> = Vec::new();
    let mut i: usize = 0;
    while i < tracks.len()
        invariant
            i <= tracks@.len(),
            r@ == paths_of(tracks@.subrange(0, i as int)),
        decreases tracks@.len() - i,
    {
        r.push(tracks[i].file_path.clone());
        i = i + 1;
        assert(paths_of(tracks@.subrange(0, i as int)) =~= paths_of(tracks@.subrange(0, i - 1)).push(
            tracks@[i - 1].file_path,
        ));
    }
    assert(tracks@.subrange(0, tracks@.len() as int) =~= tracks@);
    r
}

impl MusicState {
    /// Records what the output side could load after starting `queue`:
    /// the queue holds exactly the loaded tracks, and for music the
    /// playlist lists them with their lengths.
    pub fn record_loaded_tracks(&mut self, queue: QueueKind, tracks: Vec<Track>)
        ensures
            old(self).wf() ==> final(self).wf(),
            final(self).sv() == old(self).sv().with_queue(
                queue,
                QueueView { files: paths_of(tracks@), ..old(self).sv().queue(queue) },
            ),
            final(self).data.settings_data == old(self).data.settings_data,
            final(self).data.pad_labels == old(self).data.pad_labels,
            queue == QueueKind::Music ==> final(self).data.current_playlist == Some(
                PlaylistData { tracks, current_track: 0 },
            ),
            queue != QueueKind::Music ==> final(self).data.current_playlist
                == old(self).data.current_playlist,
    {
        let paths = track_paths(&tracks);
        match queue {
            QueueKind::Music => {
                self.audio_sinks.music_queue.files = paths;
                self.data.current_playlist = Some(PlaylistData { tracks, current_track: 0 });
            },
            QueueKind::Ambience => {
                self.audio_sinks.ambience_queue.files = paths;
            },
            QueueKind::SoundEffect => {
                self.audio_sinks.sound_effect_queue.files = paths;
            },
        }
    }

    /// Brings each queue model in line with its output: how many files each
    /// has left, and how far music has played into the first.
    pub fn sync_with_output(&mut self, remaining: [usize; 3], music_elapsed: u64)
        ensures
            old(self).wf() ==> final(self).wf(),
            final(self).data == old(self).data,
            final(self).sv() == (StateView {
                music: synced(old(self).sv().music, remaining[0] as nat, music_elapsed),
                ambience: synced(old(self).sv().ambience, remaining[1] as nat, 0),
                sound_effect: synced(old(self).sv().sound_effect, remaining[2] as nat, 0),
                ..old(self).sv()
            }),
    {
        self.audio_sinks.music_queue.sync_with_output(remaining[0], music_elapsed);
        self.audio_sinks.ambience_queue.sync_with_output(remaining[1], 0);
        self.audio_sinks.sound_effect_queue.sync_with_output(remaining[2], 0);
    }
}

} // verus!
