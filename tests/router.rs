use teatro::controls::{
    is_ambience_key, map_key_to_black_key_index, map_key_to_white_key_index, InputGroup,
    KnobCtrlKey, SoftKey,
};
use teatro::effect::{CoreError, Effect, FilterKind, LedMode, QueueKind, LED_GREEN, LED_OFF};
use teatro::filter::{change_filter_frequency_value, FilterData, SAMPLE_RATE_HZ};
use teatro::keyboard_handler::KeyboardHandler;
use teatro::knob::{KnobValueUpdate, KnobValues};
use teatro::music_state::MusicState;
use teatro::pad_handler::PadHandler;
use teatro::playlist::{get_current_playlist_state, PlaylistData, Track};
use teatro::queue::{
    add_track_to_queue, change_volume, get_current_track_elapsed_time, get_n_of_remaining_tracks,
    increase_volume, play_track, PlaybackQueue,
};
use teatro::relay::{relay_command, Command, CommsCommand, Device};
use teatro::runtime::{RuntimeData, SettingsData};
use teatro::toggle_states::{Flag, ToggleStates};

fn fresh_state() -> MusicState {
    let data = RuntimeData::new(SettingsData::default(), None, None, None, None, None);
    MusicState::new(data)
}

fn strings(v: &[&str]) -> Vec<String> {
    v.iter().map(|s| s.to_string()).collect()
}

#[test]
fn toggle_twice_restores_every_flag() {
    let flags = [
        Flag::ClipStop,
        Flag::Solo,
        Flag::Mute,
        Flag::RecArm,
        Flag::Select,
        Flag::StopAll,
        Flag::Volume,
        Flag::Pan,
        Flag::Send,
        Flag::Device,
        Flag::Shift,
        Flag::Filter,
        Flag::Start,
    ];
    let mut s = ToggleStates::empty();
    s.toggle(Flag::Solo);
    let start = s;
    for f in flags {
        let once = s.toggle(f);
        assert_eq!(once.contains(f), !start.contains(f));
        s.toggle(f);
        assert_eq!(s, start);
    }
}

#[test]
fn toggle_returns_new_set_and_touches_one_bit() {
    let mut s = ToggleStates::empty();
    let r = s.toggle(Flag::Mute);
    assert_eq!(r.bits(), 4);
    assert!(s.contains(Flag::Mute));
    assert!(!s.contains(Flag::Solo));
    s.toggle(Flag::Start);
    assert_eq!(s.bits(), 4 | (1 << 12));
}

#[test]
fn toggle_button_reports_led() {
    let mut s = ToggleStates::empty();
    let on = s.toggle_button(Flag::Solo, 83, LED_GREEN);
    assert_eq!(on, Effect::Led { key: 83, mode: LedMode::On100Percent, color: LED_GREEN });
    let off = s.toggle_button(Flag::Solo, 83, LED_GREEN);
    assert_eq!(off, Effect::Led { key: 83, mode: LedMode::On100Percent, color: LED_OFF });
}

#[test]
fn stop_all_pauses_everything_then_resumes() {
    let mut st = fresh_state();
    let fx = PadHandler::handle_input_pressed(&mut st, InputGroup::StopAllClips, 1, None);
    assert!(st.data.button_states.contains(Flag::StopAll));
    assert!(st.audio_sinks.music_queue.paused);
    assert!(st.audio_sinks.ambience_queue.paused);
    assert!(st.audio_sinks.sound_effect_queue.paused);
    assert_eq!(fx.len(), 4);
    assert_eq!(fx[1], Effect::Pause(QueueKind::Music));

    let fx = PadHandler::handle_input_pressed(&mut st, InputGroup::StopAllClips, 1, None);
    assert!(!st.data.button_states.contains(Flag::StopAll));
    assert!(!st.audio_sinks.music_queue.paused);
    assert!(!st.audio_sinks.ambience_queue.paused);
    assert!(!st.audio_sinks.sound_effect_queue.paused);
    assert_eq!(
        fx[1..].to_vec(),
        vec![
            Effect::Resume(QueueKind::Music),
            Effect::Resume(QueueKind::Ambience),
            Effect::Resume(QueueKind::SoundEffect)
        ]
    );
}

#[test]
fn clearing_stop_all_keeps_music_paused_under_clip_stop() {
    let mut st = fresh_state();
    PadHandler::handle_input_pressed(&mut st, InputGroup::SoftKeys(SoftKey::ClipStop), 1, None);
    assert!(st.audio_sinks.music_queue.paused);
    PadHandler::handle_input_pressed(&mut st, InputGroup::StopAllClips, 1, None);
    let fx = PadHandler::handle_input_pressed(&mut st, InputGroup::StopAllClips, 1, None);
    assert!(st.audio_sinks.music_queue.paused);
    assert!(!st.audio_sinks.ambience_queue.paused);
    assert!(!st.audio_sinks.sound_effect_queue.paused);
    assert!(!fx.contains(&Effect::Resume(QueueKind::Music)));
}

#[test]
fn clip_stop_release_does_not_resume_under_stop_all() {
    let mut st = fresh_state();
    PadHandler::handle_input_pressed(&mut st, InputGroup::StopAllClips, 1, None);
    PadHandler::handle_input_pressed(&mut st, InputGroup::SoftKeys(SoftKey::ClipStop), 1, None);
    let fx =
        PadHandler::handle_input_pressed(&mut st, InputGroup::SoftKeys(SoftKey::ClipStop), 1, None);
    assert_eq!(fx.len(), 1);
    assert!(st.audio_sinks.music_queue.paused);
}

#[test]
fn cutoff_never_passes_nyquist() {
    let mut c = FilterData::new(SAMPLE_RATE_HZ);
    let nyquist = SAMPLE_RATE_HZ as u64 * 500;
    for i in 0..500 {
        let delta = if i % 3 == 0 { -7 } else { 9 };
        let s = change_filter_frequency_value(&mut c, delta, FilterKind::LowPass);
        assert!(s.cutoff_millihertz <= nyquist);
        assert!(c.previous_filter_percentage <= 1000);
    }
    let mut high = FilterData { previous_filter_percentage: 60000, filter_type: FilterKind::HighPass, sample_rate_hz: 48000 };
    let s = high.setting();
    assert_eq!(s.cutoff_millihertz, 48000 * 500);
    let s = change_filter_frequency_value(&mut high, 0, FilterKind::HighPass);
    assert_eq!(s.cutoff_millihertz, 48000 * 1000 / 100);
}

#[test]
fn filter_step_exact_values() {
    let mut c = FilterData::new(SAMPLE_RATE_HZ);
    assert_eq!(c.setting().cutoff_millihertz, 441000);
    let s = change_filter_frequency_value(&mut c, -2, FilterKind::LowPass);
    assert_eq!(c.previous_filter_percentage, 990);
    assert_eq!(s, teatro::effect::FilterSetting { kind: FilterKind::LowPass, cutoff_millihertz: 436590 });
    let s = change_filter_frequency_value(&mut c, 1000, FilterKind::HighPass);
    assert_eq!(c.previous_filter_percentage, 1000);
    assert_eq!(s.kind, FilterKind::HighPass);
    change_filter_frequency_value(&mut c, -1000, FilterKind::HighPass);
    assert_eq!(c.previous_filter_percentage, 0);
}

#[test]
fn set_volume_then_read_is_clamped() {
    let mut q = PlaybackQueue::new();
    assert_eq!(change_volume(&mut q, 1500), 1000);
    assert_eq!(q.get_volume(), 1000);
    assert_eq!(change_volume(&mut q, -3), 0);
    assert_eq!(q.get_volume(), 0);
    assert_eq!(change_volume(&mut q, 437), 437);
    assert_eq!(q.get_volume(), 437);
    assert_eq!(increase_volume(&mut q, 600), 1000);
    assert_eq!(increase_volume(&mut q, -5), 995);
}

#[test]
fn mute_then_unmute_restores_volume() {
    let mut st = fresh_state();
    change_volume(&mut st.audio_sinks.music_queue, 613);
    let fx = PadHandler::handle_input_pressed(&mut st, InputGroup::SoftKeys(SoftKey::Mute), 1, None);
    assert_eq!(st.audio_sinks.music_queue.volume, 0);
    assert_eq!(fx[1], Effect::SetVolume(QueueKind::Music, 0));
    assert_eq!(st.data.get_music_volume(), Some(613));
    let fx = PadHandler::handle_input_pressed(&mut st, InputGroup::SoftKeys(SoftKey::Mute), 1, None);
    assert_eq!(st.audio_sinks.music_queue.volume, 613);
    assert_eq!(fx[1], Effect::SetVolume(QueueKind::Music, 613));
    assert!(!st.data.button_states.contains(Flag::Mute));
}

#[test]
fn mute_knob_ticks_unmute_restores_volume() {
    let mut st = fresh_state();
    change_volume(&mut st.audio_sinks.music_queue, 250);
    PadHandler::handle_input_pressed(&mut st, InputGroup::SoftKeys(SoftKey::Mute), 1, None);
    for knob in 1..=9u8 {
        PadHandler::handle_input_pressed(&mut st, InputGroup::Knob(knob), 1, None);
        PadHandler::handle_input_pressed(&mut st, InputGroup::Knob(knob), 1, None);
        PadHandler::handle_input_pressed(&mut st, InputGroup::Knob(knob), 127, None);
    }
    PadHandler::handle_input_pressed(&mut st, InputGroup::SoftKeys(SoftKey::Mute), 1, None);
    assert_eq!(st.audio_sinks.music_queue.volume, 250);
    assert_eq!(st.data.knob_values.values.len(), 8);
}

#[test]
fn muted_music_knob_does_not_move() {
    let mut st = fresh_state();
    PadHandler::handle_input_pressed(&mut st, InputGroup::SoftKeys(SoftKey::Mute), 1, None);
    let fx = PadHandler::handle_input_pressed(&mut st, InputGroup::Knob(1), 1, None);
    assert!(fx.is_empty());
    assert_eq!(st.audio_sinks.music_queue.volume, 0);
}

#[test]
fn pad_five_plays_tavern_folder_in_order() {
    let mut st = fresh_state();
    let files = strings(&["/music/05_Tavern/a.mp3", "/music/05_Tavern/b.mp3"]);
    let fx = PadHandler::handle_input_pressed(&mut st, InputGroup::Pads(5), 1, Some(files.clone()));
    assert_eq!(st.audio_sinks.music_queue.files, files);
    assert!(!st.audio_sinks.music_queue.paused);
    assert_eq!(st.audio_sinks.music_queue.volume, 100);
    assert_eq!(fx[0], Effect::Play(QueueKind::Music));
    assert_eq!(fx[1], Effect::Led { key: 5, mode: LedMode::On100Percent, color: 6 });
    let playlist = st.data.current_playlist.clone().unwrap();
    assert_eq!(playlist.current_track, 0);
    assert_eq!(playlist.get_current_track().unwrap().file_path, "/music/05_Tavern/a.mp3");
    assert_eq!(st.data.last_pad_pressed, Some(5));
}

#[test]
fn pad_without_folder_changes_only_the_leds() {
    let mut st = fresh_state();
    PadHandler::handle_input_pressed(&mut st, InputGroup::Pads(3), 1, Some(strings(&["x.mp3"])));
    let fx = PadHandler::handle_input_pressed(&mut st, InputGroup::Pads(7), 1, None);
    assert_eq!(
        fx,
        vec![
            Effect::Led { key: 3, mode: LedMode::On10Percent, color: LED_OFF },
            Effect::Led { key: 7, mode: LedMode::On100Percent, color: 8 },
        ]
    );
    assert_eq!(st.audio_sinks.music_queue.files, strings(&["x.mp3"]));
    assert!(st.data.current_playlist.is_some());
    let fx = PadHandler::handle_input_pressed(&mut st, InputGroup::Pads(8), 1, Some(Vec::new()));
    assert_eq!(fx.len(), 2);
    assert!(st.data.current_playlist.is_none());
}

#[test]
fn shuffle_flag_permutes_pad_files() {
    let mut st = fresh_state();
    PadHandler::handle_input_pressed(&mut st, InputGroup::KnobCtrl(KnobCtrlKey::Send), 1, None);
    let files: Vec<String> = (0..12).map(|i| format!("{i:02}.mp3")).collect();
    PadHandler::handle_input_pressed(&mut st, InputGroup::Pads(0), 1, Some(files.clone()));
    let mut played = st.audio_sinks.music_queue.files.clone();
    assert_ne!(played, files);
    played.sort();
    assert_eq!(played, files);
}

#[test]
fn knob_ticks_saturate_at_both_ends() {
    let mut k = KnobValues::new();
    for _ in 0..400 {
        k.apply_tick(2, KnobValueUpdate::Increment);
    }
    assert_eq!(k.get(2), Some(1000));
    for _ in 0..400 {
        k.apply_tick(2, KnobValueUpdate::Decrement);
    }
    assert_eq!(k.get(2), Some(0));
    k.apply_tick(9, KnobValueUpdate::Increment);
    assert_eq!(k.get(9), None);
    assert_eq!(k.get(0), None);
}

#[test]
fn knob_encoder_direction() {
    assert_eq!(KnobValueUpdate::from(1u8), KnobValueUpdate::Increment);
    assert_eq!(KnobValueUpdate::from(63u8), KnobValueUpdate::Increment);
    assert_eq!(KnobValueUpdate::from(64u8), KnobValueUpdate::Decrement);
    assert_eq!(KnobValueUpdate::from(127u8), KnobValueUpdate::Decrement);
    assert_eq!(u8::from(KnobValueUpdate::Decrement), 127);
    assert_eq!(i8::from(KnobValueUpdate::Decrement), -1);
    assert_eq!(KnobValueUpdate::from(-3i32), KnobValueUpdate::Decrement);
    assert_eq!(KnobValueUpdate::from(0i64), KnobValueUpdate::Decrement);
    assert_eq!(KnobValueUpdate::from(5i16), KnobValueUpdate::Increment);
    assert_eq!(KnobValueUpdate::from(64usize), KnobValueUpdate::Decrement);
    assert_eq!(KnobValueUpdate::from(63usize), KnobValueUpdate::Increment);
}

#[test]
fn knob_turns_move_volume_filter_and_stored_value() {
    let mut st = fresh_state();
    let fx = PadHandler::handle_input_pressed(&mut st, InputGroup::Knob(5), 127, None);
    assert_eq!(fx, vec![Effect::SetVolume(QueueKind::Ambience, 995)]);
    assert_eq!(st.data.get_ambience_volume(), Some(95));
    let fx = PadHandler::handle_input_pressed(&mut st, InputGroup::Knob(8), 127, None);
    assert_eq!(st.sound_effect_filter.previous_filter_percentage, 995);
    assert_eq!(st.sound_effect_filter.filter_type, FilterKind::HighPass);
    assert_eq!(fx, vec![Effect::Filter(QueueKind::SoundEffect, st.sound_effect_filter.setting())]);
    let fx = PadHandler::handle_input_pressed(&mut st, InputGroup::Knob(4), 1, None);
    assert_eq!(st.music_filter.filter_type, FilterKind::SinglePoleLowPassApprox);
    assert_eq!(fx.len(), 1);
}

#[test]
fn skip_track_takes_one_from_music_only() {
    let mut st = fresh_state();
    PadHandler::handle_input_pressed(&mut st, InputGroup::Pads(1), 1, Some(strings(&["a", "b", "c"])));
    st.audio_sinks.ambience_queue.play_files(strings(&["wind"]));
    let fx = relay_command(&mut st, Command::SkipTrackPressed { device: Device::ToBackend }, None, None);
    assert_eq!(get_n_of_remaining_tracks(&st.audio_sinks.music_queue), 2);
    assert_eq!(get_n_of_remaining_tracks(&st.audio_sinks.ambience_queue), 1);
    assert_eq!(get_n_of_remaining_tracks(&st.audio_sinks.sound_effect_queue), 0);
    assert!(fx.contains(&Effect::SkipOne(QueueKind::Music)));
    assert_eq!(
        fx.last(),
        Some(&Effect::Led { key: 67, mode: LedMode::On100Percent, color: LED_OFF })
    );
}

#[test]
fn commands_for_the_front_end_are_ignored() {
    let mut st = fresh_state();
    let fx = relay_command(&mut st, Command::MutePressed { device: Device::ToGui }, None, None);
    assert!(fx.is_empty());
    assert!(!st.data.button_states.contains(Flag::Mute));
    let fx = relay_command(&mut st, Command::Refresh { device: Device::ToBackend }, None, None);
    assert_eq!(fx, vec![Effect::Snapshot]);
}

#[test]
fn relayed_pad_and_knob_ask_for_refresh() {
    let mut st = fresh_state();
    let fx = relay_command(
        &mut st,
        CommsCommand::PadPressed { key: 2 }.for_backend(),
        Some(strings(&["q.mp3"])),
        None,
    );
    assert_eq!(fx.last(), Some(&Effect::RequestRefresh));
    assert_eq!(st.audio_sinks.music_queue.files, strings(&["q.mp3"]));
    let fx = relay_command(&mut st, Command::PadPressed { key: 40, device: Device::ToBackend }, None, None);
    assert!(fx.is_empty());
    let fx = relay_command(
        &mut st,
        Command::KnobPercentageChanged { knob: 7, value: KnobValueUpdate::Increment, device: Device::ToBackend },
        None,
        None,
    );
    assert_eq!(fx, vec![Effect::SetVolume(QueueKind::SoundEffect, 1000), Effect::RequestRefresh]);
}

#[test]
fn solo_stops_ambience_and_effects() {
    let mut st = fresh_state();
    st.audio_sinks.ambience_queue.play_files(strings(&["rain"]));
    st.audio_sinks.sound_effect_queue.play_files(strings(&["door"]));
    let fx = relay_command(&mut st, Command::SoloPressed { device: Device::ToBackend }, None, None);
    assert!(st.audio_sinks.ambience_queue.files.is_empty());
    assert!(st.audio_sinks.sound_effect_queue.files.is_empty());
    assert!(st.data.button_states.contains(Flag::Solo));
    assert_eq!(&fx[1..], &[Effect::Stop(QueueKind::SoundEffect), Effect::Stop(QueueKind::Ambience)]);
}

#[test]
fn resume_pause_switches_music_filter() {
    let mut st = fresh_state();
    let fx = PadHandler::handle_input_pressed(&mut st, InputGroup::ResumePause, 1, None);
    assert!(st.data.button_states.contains(Flag::Filter));
    assert_eq!(st.music_filter.filter_type, FilterKind::LowPass);
    assert_eq!(fx.len(), 3);
    assert_eq!(fx[0], Effect::Led { key: 91, mode: LedMode::On100Percent, color: LED_GREEN });
    PadHandler::handle_input_pressed(&mut st, InputGroup::ResumePause, 1, None);
    assert_eq!(st.music_filter.filter_type, FilterKind::AllPass);
}

#[test]
fn arrow_buttons_light_while_held() {
    let fx = PadHandler::handle_input_released(InputGroup::Up);
    assert_eq!(fx, vec![Effect::Led { key: 64, mode: LedMode::On100Percent, color: LED_OFF }]);
    assert!(PadHandler::handle_input_released(InputGroup::Shift).is_empty());
    let mut st = fresh_state();
    let fx = PadHandler::listener(&mut st, InputGroup::Left, 1, None);
    assert_eq!(
        fx,
        vec![Effect::Led { key: 66, mode: LedMode::On100Percent, color: LED_GREEN }, Effect::Snapshot]
    );
}

#[test]
fn keyboard_keys_pick_queue_and_volume() {
    assert!(is_ambience_key(2));
    assert!(!is_ambience_key(3));
    assert_eq!(map_key_to_white_key_index(25), 15);
    assert_eq!(map_key_to_white_key_index(2), 0);
    assert_eq!(map_key_to_black_key_index(23), 10);
    assert_eq!(map_key_to_black_key_index(1), 0);

    let mut st = fresh_state();
    let look = KeyboardHandler::lookup(&st.data, 4).unwrap();
    assert_eq!(look.queue, QueueKind::Ambience);
    assert_eq!(look.folder, "ambience");
    assert_eq!(look.prefix, "02_");
    let look = KeyboardHandler::lookup(&st.data, 25).unwrap();
    assert_eq!(look.folder, "sound");
    assert_eq!(look.prefix, "15_");
    assert!(KeyboardHandler::lookup(&st.data, 26).is_none());

    let fx = KeyboardHandler::handle_input(&mut st, 4, Some("02_rain.ogg".to_string())).unwrap();
    assert_eq!(fx, vec![Effect::Play(QueueKind::Ambience)]);
    assert_eq!(st.audio_sinks.ambience_queue.files, strings(&["02_rain.ogg"]));
    assert_eq!(st.audio_sinks.ambience_queue.volume, 100);
    assert!(st.data.current_playlist.is_none());
}

#[test]
fn keyboard_errors() {
    let mut st = fresh_state();
    assert_eq!(KeyboardHandler::handle_input(&mut st, 0, Some("x".to_string())), Err(CoreError::InvalidInput));
    assert_eq!(KeyboardHandler::handle_input(&mut st, 1, None), Err(CoreError::ResourceNotFound));
    assert!(st.audio_sinks.sound_effect_queue.files.is_empty());
    assert_eq!(KeyboardHandler::listener(&mut st, 1, 0, None), Ok(Vec::new()));
}

#[test]
fn queue_operations() {
    let mut q = PlaybackQueue::new();
    play_track(&mut q, "a".to_string());
    add_track_to_queue(&mut q, "b".to_string(), false);
    q.pause();
    add_track_to_queue(&mut q, "c".to_string(), true);
    assert!(!q.paused);
    assert_eq!(q.files, strings(&["a", "b", "c"]));
    q.sync_with_output(2, 17);
    assert_eq!(q.files, strings(&["b", "c"]));
    assert_eq!(get_current_track_elapsed_time(&q), 17);
    q.skip_one();
    assert_eq!(q.files, strings(&["c"]));
    q.stop();
    assert!(q.files.is_empty());
    q.skip_one();
    assert!(q.files.is_empty());
}

#[test]
fn playlist_state_follows_queue() {
    let tracks = vec![
        Track::new("a", Some(100), None),
        Track::new("b", Some(200), Some(9)),
        Track::new("c", None, None),
    ];
    let p = PlaylistData::new(tracks, None);
    let s = get_current_playlist_state(&p, 2, 42);
    assert_eq!(s.current_track, 1);
    assert_eq!(s.tracks[1].elapsed_seconds, 42);
    assert_eq!(s.tracks[0].elapsed_seconds, 0);
    assert_eq!(s.tracks[2].elapsed_seconds, 0);
    assert_eq!(s.tracks[2].track_length, 0);
    assert_eq!(s.get_current_track().unwrap().file_path, "b");
    let s = get_current_playlist_state(&p, 7, 1);
    assert_eq!(s.current_track, 0);
    let done = get_current_playlist_state(&p, 0, 0);
    assert!(done.get_current_track().is_none());
}

#[test]
fn refresh_updates_playlist_and_record_keeps_loaded() {
    let mut st = fresh_state();
    PadHandler::handle_input_pressed(&mut st, InputGroup::Pads(1), 1, Some(strings(&["a", "bad", "c"])));
    st.record_loaded_tracks(
        QueueKind::Music,
        vec![Track::new("a", Some(30), None), Track::new("c", Some(40), None)],
    );
    assert_eq!(st.audio_sinks.music_queue.files, strings(&["a", "c"]));
    st.sync_with_output([1, 0, 0], 12);
    assert_eq!(st.audio_sinks.music_queue.files, strings(&["c"]));
    PadHandler::refresh(&mut st.data, 1, 12);
    let p = st.data.current_playlist.clone().unwrap();
    assert_eq!(p.current_track, 1);
    assert_eq!(p.tracks[1].elapsed_seconds, 12);
    assert_eq!(p.tracks[1].track_length, 40);
}
