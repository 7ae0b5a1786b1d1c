use vstd::prelude::*;

use crate::controls::{
    map_key_to_black_key_index, map_key_to_white_key_index, spec_black_index, spec_white_index,
};
use crate::effect::{CoreError, Effect, QueueKind};
use crate::knob::knob_at;
use crate::music_state::{played, MusicState, StateView};
use crate::pad_handler::play_song;
use crate::runtime::{RuntimeData, AMBIENCE_VOLUME_KNOB, SOUND_EFFECT_VOLUME_KNOB};
use crate::text::{index_prefix, spec_index_prefix};

verus! {

/// Where a keyboard key's sample lives: white keys play sound effects,
/// black keys ambience, each numbered from the left.
pub open spec fn key_slot(key: u8) -> Option<(QueueKind, u8)> {
    if spec_white_index(key) > 0 {
        Some((QueueKind::SoundEffect, spec_white_index(key)))
    } else if spec_black_index(key) > 0 {
        Some((QueueKind::Ambience, spec_black_index(key)))
    } else {
        None
    }
}

/// The knob that holds a queue's volume.
pub open spec fn volume_knob(q: QueueKind) -> u8 {
    match q {
        QueueKind::Music => 1,
        QueueKind::Ambience => 5,
        QueueKind::SoundEffect => 7,
    }
}

/// A key press with `file` the sample found for it: the key's queue
/// restarts on that file at its volume knob's value. An unmapped key or a
/// missing file changes nothing.
pub open spec fn key_press_next(s: StateView, key: u8, file: Option<String>) -> StateView {
    match key_slot(key) {
        Some(slot) => match file {
            Some(f) => s.with_queue(
                slot.0,
                played(s.queue(slot.0), seq![f], knob_at(s.knobs, volume_knob(slot.0))),
            ),
            None => s,
        },
        None => s,
    }
}

pub open spec fn key_press_result(key: u8, file: Option<String>) -> Result<Seq<Effect>, CoreError> {
    match key_slot(key) {
        Some(slot) => match file {
            Some(_) => Ok(seq![Effect::Play(slot.0)]),
            None => Err(CoreError::ResourceNotFound),
        },
        None => Err(CoreError::InvalidInput),
    }
}

/// Where to look for a key's sample: the folder and the file-name prefix.
pub struct SampleLookup {
    pub queue: QueueKind,
    pub folder: String,
    pub prefix: String,
}

/// The router for the keyboard half of the control surface.
pub struct KeyboardHandler;

impl KeyboardHandler {
    /// The queue and sample number of `key`.
    pub fn sample_slot(key: u8) -> (r: Option<(QueueKind, u8)>)
        ensures
            r == key_slot(key),
    {
        let w = map_key_to_white_key_index(key);
        if w > 0 {
            Some((QueueKind::SoundEffect, w))
        } else {
            let b = map_key_to_black_key_index(key);
            if b > 0 {
                Some((QueueKind::Ambience, b))
            } else {
                None
            }
        }
    }

    /// Where the sample of `key` is to be looked up.
    pub fn lookup(data: &RuntimeData, key: u8) -> (r: Option<SampleLookup>)
        ensures
            match key_slot(key) {
                None => r is None,
                Some(slot) => {
                    &&& r is Some
                    &&& r.unwrap().queue == slot.0
                    &&& r.unwrap().prefix@ == spec_index_prefix(slot.1 as nat)
                    &&& r.unwrap().folder == if slot.0 == QueueKind::Ambience {
                        data.settings_data.ambience_folder
                    } else {
                        data.settings_data.sound_effect_folder
                    }
                },
            },
    {
        match Self::sample_slot(key) {
            None => None,
            Some((queue, index)) => {
                let folder = match queue {
                    QueueKind::Ambience => data.settings_data.ambience_folder.clone(),
                    _ => data.settings_data.sound_effect_folder.clone(),
                };
                Some(SampleLookup { queue, folder, prefix: index_prefix(index) })
            },
        }
    }

    /// A key press; `file` is the sample found under the key's folder and
    /// prefix, or nothing when none was found.
    pub fn handle_input(state: &mut MusicState, key: u8, file: Option<String>) -> (r: Result<
        Vec<Effect>,
        CoreError,
    >)
        ensures
            old(state).wf() ==> final(state).wf(),
            final(state).sv() == key_press_next(old(state).sv(), key, file),
            final(state).same_outside_view(&*old(state)),
            match r {
                Ok(fx) => key_press_result(key, file) == Ok::<Seq<Effect>, CoreError>(fx@),
                Err(e) => key_press_result(key, file) == Err::<Seq<Effect>, CoreError>(e),
            },
    {
        match Self::sample_slot(key) {
            None => Err(CoreError::InvalidInput),
            Some((queue, _)) => match file {
                None => Err(CoreError::ResourceNotFound),
                Some(f) => {
                    let ghost g = f;
                    let volume = match queue {
                        QueueKind::Ambience => state.data.knob_values.get(AMBIENCE_VOLUME_KNOB),
                        _ => state.data.knob_values.get(SOUND_EFFECT_VOLUME_KNOB),
                    };
                    let files = vec![f];
                    assert(files@ =~= seq![g]);
                    match queue {
                        QueueKind::Ambience => {
                            play_song(&mut state.audio_sinks.ambience_queue, files, volume);
                        },
                        _ => {
                            play_song(&mut state.audio_sinks.sound_effect_queue, files, volume);
                        },
                    }
                    let fx = vec![Effect::Play(queue)];
                    assert(fx@ =~= seq![Effect::Play(queue)]);
                    Ok(fx)
                },
            },
        }
    }

    /// One keyboard event: a press (`value` above 0) is handled, a release
    /// does nothing.
    pub fn listener(state: &mut MusicState, key: u8, value: u8, file: Option<String>) -> (r: Result<
        Vec<Effect>,
        CoreError,
    >)
        ensures
            old(state).wf() ==> final(state).wf(),
            value == 0 ==> final(state).sv() == old(state).sv() && r is Ok && r.unwrap()@.len() == 0,
            value > 0 ==> final(state).sv() == key_press_next(old(state).sv(), key, file),
            value > 0 ==> match r {
                Ok(fx) => key_press_result(key, file) == Ok::<Seq<Effect>, CoreError>(fx@),
                Err(e) => key_press_result(key, file) == Err::<Seq<Effect>, CoreError>(e),
            },
            final(state).same_outside_view(&*old(state)),
    {
        if value == 0 {
            Ok(Vec::new())
        } else {
            Self::handle_input(state, key, file)
        }
    }
}

} // verus!
