use std::collections::HashMap;

use teatro::explorer::{get_album_name_from_folder_in_path, map_to_indexed_vec, parse_album_folder};
use teatro::pad_handler::PadHandler;
use teatro::player_status::{player_view, PlayerInfo, PlayerStatus};
use teatro::playlist::{PlaylistData, Track};
use teatro::runtime::{InformationEntry, RuntimeData, SettingsData};
use teatro::text::{format_time, index_prefix};
use teatro::toggle_states::{Flag, ToggleStates};

fn strings(v: &[&str]) -> Vec<String> {
    v.iter().map(|s| s.to_string()).collect()
}

#[test]
fn time_is_minutes_and_seconds() {
    assert_eq!(format_time(0), "00:00");
    assert_eq!(format_time(61_999), "01:01");
    assert_eq!(format_time(599_000), "09:59");
    assert_eq!(format_time(6_000_000), "100:00");
}

#[test]
fn prefixes_are_two_digits() {
    assert_eq!(index_prefix(5), "05_");
    assert_eq!(index_prefix(0), "00_");
    assert_eq!(index_prefix(39), "39_");
    assert_eq!(index_prefix(200), "200_");
}

#[test]
fn album_folder_names() {
    assert_eq!(parse_album_folder("05_Tavern"), Some((5, "Tavern".to_string())));
    assert_eq!(parse_album_folder("+7_x_y"), Some((7, "x_y".to_string())));
    assert_eq!(parse_album_folder("255_"), Some((255, String::new())));
    assert_eq!(parse_album_folder("256_big"), None);
    assert_eq!(parse_album_folder("_none"), None);
    assert_eq!(parse_album_folder("a1_name"), None);
    assert_eq!(parse_album_folder("notes"), None);
    assert_eq!(parse_album_folder("+_x"), None);
}

#[test]
fn indexed_vec_lays_out_by_key() {
    let mut m = HashMap::new();
    m.insert(2u8, "two".to_string());
    m.insert(0u8, "zero".to_string());
    let v = map_to_indexed_vec(&m);
    assert_eq!(v, vec![Some("zero".to_string()), None, Some("two".to_string())]);
    assert!(map_to_indexed_vec(&HashMap::new()).is_empty());
}

#[test]
fn pad_labels_follow_folder_indices() {
    let names = strings(&["03_Forest", "01_Tavern", "readme", "01_Inn", "10_Sea"]);
    let albums = get_album_name_from_folder_in_path(&names);
    assert_eq!(albums.len(), 3);
    assert_eq!(albums[&1], "Inn");
    assert_eq!(PadHandler::get_pad_albums_list(&names), strings(&["Inn", "Forest", "Sea"]));
    let mut data = RuntimeData::new(SettingsData::default(), None, None, None, None, None);
    assert_eq!(data.pad_labels.len(), 40);
    PadHandler::update_pad_albums_list(&mut data, &names);
    assert_eq!(data.pad_labels, strings(&["Inn", "Forest", "Sea"]));
}

#[test]
fn player_status_reads_flags() {
    let mut t = ToggleStates::empty();
    t.toggle(Flag::StopAll);
    let p = PlayerStatus::from(t);
    assert!(p.is_everything_stopped());
    assert!(p.is_music_playable());
    assert!(!p.is_music_paused());
    t.toggle(Flag::Filter);
    assert_eq!(PlayerStatus::from(t).bits, 0);
    let back = ToggleStates::from(PlayerStatus { bits: 4 | 2 });
    assert!(back.contains(Flag::Mute));
    assert!(PlayerStatus { bits: 2 }.is_sound_muted());
    assert!(PlayerStatus { bits: 256 }.is_shuffle_requested());
    assert!(PlayerStatus { bits: 4 }.is_music_muted());
}

#[test]
fn player_progress_and_view() {
    let playlist = Some(PlaylistData::new(vec![Track::new("a", Some(2), Some(1))], None));
    let mut info = PlayerInfo::new(100);
    assert!(!info.refresh_due(105));
    assert!(info.refresh_due(110));
    info.update_local_progress(&playlist, 1500);
    assert_eq!(info.local_elapsed, 1500);
    info.update_local_progress(&playlist, 1500);
    assert_eq!(info.local_elapsed, 2000);
    info.update_local_progress(&Some(PlaylistData::new(Vec::new(), None)), 10);
    assert_eq!(info.local_elapsed, 0);

    let mut flags = ToggleStates::empty();
    flags.toggle(Flag::Send);
    flags.toggle(Flag::ClipStop);
    let data = RuntimeData::new(SettingsData::default(), None, None, Some(flags), None, playlist);
    let v = player_view(&data);
    assert_eq!(v.local_elapsed, 1000);
    assert!(v.shuffle_on && v.pause_on && !v.mute_on && !v.loop_on);
}

#[test]
fn settings_copy_and_defaults() {
    let mut s = SettingsData::default();
    assert_eq!(s.music_folder, "music");
    assert_eq!(s.ambience_folder, "ambience");
    assert_eq!(s.sound_effect_folder, "sound");
    let other = SettingsData {
        music_folder: "m".to_string(),
        ambience_folder: "a".to_string(),
        sound_effect_folder: "s".to_string(),
    };
    s.copy_data(&other);
    assert_eq!(s.music_folder, "m");
    assert_eq!(s.sound_effect_folder, "s");
    let entry = InformationEntry { position: 3, data: "hp".to_string() };
    assert_eq!(entry.position, 3);
}

#[test]
fn runtime_copy_keeps_knobs() {
    let mut a = RuntimeData::new(SettingsData::default(), None, None, None, Some(3), None);
    a.knob_values.set(1, 500);
    let b = RuntimeData::new(SettingsData::default(), Some(strings(&["x"])), None, None, Some(9), None);
    a.copy_data(b);
    assert_eq!(a.last_pad_pressed, Some(9));
    assert_eq!(a.pad_labels, strings(&["x"]));
    assert_eq!(a.get_music_volume(), Some(500));
    assert_eq!(a.get_sound_effect_volume(), Some(100));
}
