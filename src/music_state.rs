use vstd::prelude::*;

use crate::controls::{InputGroup, KnobCtrlKey, SoftKey};
use crate::playlist::PlaylistData;
use crate::effect::{Effect, FilterKind, LedMode, QueueKind, LED_GREEN, LED_OFF};
use crate::filter::{FilterData, SAMPLE_RATE_HZ};
use crate::knob::{clamp_scale, knob_at, stepped, KnobValueUpdate, FULL_SCALE, KNOB_COUNT, KNOB_STEP};
use crate::queue::{AudioSinks, QueueView};
use crate::runtime::RuntimeData;
use crate::toggle_states::{led_for, Flag, ToggleStates};

verus! {

/// Everything the input handlers read and change: the snapshot data, the
/// three queues and the three filter channels.
#[derive(Clone, Debug)]
pub struct MusicState {
    pub data: RuntimeData,
    pub audio_sinks: AudioSinks,
    pub music_filter: FilterData,
    pub ambience_filter: FilterData,
    pub sound_effect_filter: FilterData,
}

/// The part of [`MusicState`] the handlers change, as plain values.
pub struct StateView {
    pub flags: ToggleStates,
    pub knobs: Seq<u16>,
    pub last_pad: Option<u8>,
    pub music: QueueView,
    pub ambience: QueueView,
    pub sound_effect: QueueView,
    pub music_filter: FilterData,
    pub ambience_filter: FilterData,
    pub sound_effect_filter: FilterData,
}

impl MusicState {
    pub open spec fn sv(&self) -> StateView {
        StateView {
            flags: self.data.button_states,
            knobs: self.data.knob_values.values@,
            last_pad: self.data.last_pad_pressed,
            music: self.audio_sinks.music_queue@,
            ambience: self.audio_sinks.ambience_queue@,
            sound_effect: self.audio_sinks.sound_effect_queue@,
            music_filter: self.music_filter,
            ambience_filter: self.ambience_filter,
            sound_effect_filter: self.sound_effect_filter,
        }
    }

    pub open spec fn wf(&self) -> bool {
        self.sv().wf()
    }

    /// The settings, pad labels and playlist are as in `other`.
    pub open spec fn same_outside_view(&self, other: &MusicState) -> bool {
        &&& self.data.settings_data == other.data.settings_data
        &&& self.data.pad_labels == other.data.pad_labels
        &&& self.data.current_playlist == other.data.current_playlist
    }

    /// A state around `data`: empty queues at full volume and open filters.
    pub fn new(data: RuntimeData) -> (r: MusicState)
        ensures
            r.data == data,
            data.knob_values.wf() ==> r.wf(),
            r.audio_sinks.music_queue@.files.len() == 0,
            r.audio_sinks.ambience_queue@.files.len() == 0,
            r.audio_sinks.sound_effect_queue@.files.len() == 0,
            r.music_filter == FilterData::new_spec(SAMPLE_RATE_HZ),
            r.ambience_filter == FilterData::new_spec(SAMPLE_RATE_HZ),
            r.sound_effect_filter == FilterData::new_spec(SAMPLE_RATE_HZ),
    {
        MusicState {
            data,
            audio_sinks: AudioSinks::new(),
            music_filter: FilterData::new(SAMPLE_RATE_HZ),
            ambience_filter: FilterData::new(SAMPLE_RATE_HZ),
            sound_effect_filter: FilterData::new(SAMPLE_RATE_HZ),
        }
    }
}

impl StateView {
    /// The knob table has the eight knobs and every stored value and queue
    /// volume lies within full scale.
    pub open spec fn wf(self) -> bool {
        &&& self.knobs.len() == KNOB_COUNT
        &&& forall|i: int| 0 <= i < self.knobs.len() ==> #[trigger] self.knobs[i] <= FULL_SCALE
        &&& self.music.volume <= FULL_SCALE
        &&& self.ambience.volume <= FULL_SCALE
        &&& self.sound_effect.volume <= FULL_SCALE
    }

    pub open spec fn queue(self, k: QueueKind) -> QueueView {
        match k {
            QueueKind::Music => self.music,
            QueueKind::Ambience => self.ambience,
            QueueKind::SoundEffect => self.sound_effect,
        }
    }

    pub open spec fn with_queue(self, k: QueueKind, q: QueueView) -> StateView {
        match k {
            QueueKind::Music => StateView { music: q, ..self },
            QueueKind::Ambience => StateView { ambience: q, ..self },
            QueueKind::SoundEffect => StateView { sound_effect: q, ..self },
        }
    }

    pub open spec fn toggled(self, f: Flag) -> StateView {
        StateView { flags: self.flags.toggled(f), ..self }
    }
}

pub open spec fn with_paused(q: QueueView, paused: bool) -> QueueView {
    QueueView { paused, ..q }
}

pub open spec fn with_volume(q: QueueView, v: int) -> QueueView {
    QueueView { volume: clamp_scale(v) as u16, ..q }
}

pub open spec fn stopped(q: QueueView) -> QueueView {
    QueueView { files: Seq::empty(), elapsed_seconds: 0, ..q }
}

pub open spec fn skipped(q: QueueView) -> QueueView {
    QueueView {
        files: if q.files.len() > 0 {
            q.files.subrange(1, q.files.len() as int)
        } else {
            q.files
        },
        elapsed_seconds: 0,
        ..q
    }
}

/// `v` stored for knob `index`, when the table has that knob.
pub open spec fn set_knob(knobs: Seq<u16>, index: u8, v: u16) -> Seq<u16> {
    if 1 <= index <= knobs.len() {
        knobs.update(index - 1, v)
    } else {
        knobs
    }
}

/// Knob `index` moved one step by `u`, when the table has that knob.
pub open spec fn tick_knob(knobs: Seq<u16>, index: u8, u: KnobValueUpdate) -> Seq<u16> {
    if 1 <= index <= knobs.len() {
        knobs.update(index - 1, stepped(knobs[index - 1] as int, u) as u16)
    } else {
        knobs
    }
}

/// Knob `index`'s value, 0 when the table lacks it.
pub open spec fn knob_or_zero(knobs: Seq<u16>, index: u8) -> int {
    match knob_at(knobs, index) {
        Some(v) => v as int,
        None => 0,
    }
}

/// The queue whose volume knob `index` sets, if any.
pub open spec fn volume_knob_queue(index: u8) -> Option<QueueKind> {
    if index == 1 {
        Some(QueueKind::Music)
    } else if index == 5 {
        Some(QueueKind::Ambience)
    } else if index == 7 {
        Some(QueueKind::SoundEffect)
    } else {
        None
    }
}

/// The filter channel and response knob `index` drives, if any.
pub open spec fn filter_knob(index: u8) -> Option<(QueueKind, FilterKind)> {
    if index == 2 {
        Some((QueueKind::Music, FilterKind::LowPass))
    } else if index == 3 {
        Some((QueueKind::Music, FilterKind::HighPass))
    } else if index == 4 {
        Some((QueueKind::Music, FilterKind::SinglePoleLowPassApprox))
    } else if index == 6 {
        Some((QueueKind::Ambience, FilterKind::LowPass))
    } else if index == 8 {
        Some((QueueKind::SoundEffect, FilterKind::HighPass))
    } else {
        None
    }
}

impl StateView {
    pub open spec fn filter(self, k: QueueKind) -> FilterData {
        match k {
            QueueKind::Music => self.music_filter,
            QueueKind::Ambience => self.ambience_filter,
            QueueKind::SoundEffect => self.sound_effect_filter,
        }
    }

    pub open spec fn with_filter(self, k: QueueKind, f: FilterData) -> StateView {
        match k {
            QueueKind::Music => StateView { music_filter: f, ..self },
            QueueKind::Ambience => StateView { ambience_filter: f, ..self },
            QueueKind::SoundEffect => StateView { sound_effect_filter: f, ..self },
        }
    }
}

/// Whether a volume knob is blocked: the music volume does not move while muted.
pub open spec fn volume_blocked(s: StateView, index: u8) -> bool {
    index == 1 && s.flags.has(Flag::Mute)
}

/// One tick of knob `index`: a volume knob moves its queue's volume, a
/// filter knob moves its channel's cutoff, and unless muted the knob's
/// stored value moves too.
pub open spec fn knob_next(s: StateView, index: u8, u: KnobValueUpdate) -> StateView {
    let t = match volume_knob_queue(index) {
        Some(k) => if volume_blocked(s, index) {
            s
        } else {
            s.with_queue(k, with_volume(s.queue(k), s.queue(k).volume + u.delta() * KNOB_STEP))
        },
        None => match filter_knob(index) {
            Some(p) => s.with_filter(p.0, s.filter(p.0).changed(u.delta(), p.1)),
            None => s,
        },
    };
    if s.flags.has(Flag::Mute) {
        t
    } else {
        StateView { knobs: tick_knob(t.knobs, index, u), ..t }
    }
}

pub open spec fn knob_effects(s: StateView, index: u8, u: KnobValueUpdate) -> Seq<Effect> {
    let n = knob_next(s, index, u);
    match volume_knob_queue(index) {
        Some(k) => if volume_blocked(s, index) {
            seq![]
        } else {
            seq![Effect::SetVolume(k, n.queue(k).volume)]
        },
        None => match filter_knob(index) {
            Some(p) => seq![Effect::Filter(p.0, n.filter(p.0).spec_setting())],
            None => seq![],
        },
    }
}

/// The filter button: flips the filter flag, then applies two changes to
/// the music filter, a low-pass opening by one step twice when the flag is
/// now on, an all-pass at the current and then one step more when off.
pub open spec fn resume_pause_next(s: StateView) -> StateView {
    let t = s.toggled(Flag::Filter);
    let on = t.flags.has(Flag::Filter);
    let kind = if on {
        FilterKind::LowPass
    } else {
        FilterKind::AllPass
    };
    let f1 = t.music_filter.changed(if on { 1 } else { 0 }, kind);
    StateView { music_filter: f1.changed(1, kind), ..t }
}

pub open spec fn resume_pause_effects(s: StateView) -> Seq<Effect> {
    let t = s.toggled(Flag::Filter);
    let on = t.flags.has(Flag::Filter);
    let kind = if on {
        FilterKind::LowPass
    } else {
        FilterKind::AllPass
    };
    let f1 = t.music_filter.changed(if on { 1 } else { 0 }, kind);
    seq![
        led_for(91, on, LED_GREEN),
        Effect::Filter(QueueKind::Music, f1.spec_setting()),
        Effect::Filter(QueueKind::Music, f1.changed(1, kind).spec_setting()),
    ]
}

/// A soft key: flips its flag, then
/// - Mute: when now muted, keeps the music volume as knob 1's value and
///   silences music; when unmuted, restores music to knob 1's value;
/// - ClipStop: pauses music when now set, resumes it when cleared unless
///   everything is stopped;
/// - Solo: stops the ambience and sound-effect queues.
pub open spec fn soft_key_next(s: StateView, k: SoftKey) -> StateView {
    let t = s.toggled(k.spec_flag());
    match k {
        SoftKey::Mute => if t.flags.has(Flag::Mute) {
            StateView {
                knobs: set_knob(t.knobs, 1, t.music.volume),
                music: with_volume(t.music, 0),
                ..t
            }
        } else {
            StateView { music: with_volume(t.music, knob_or_zero(t.knobs, 1)), ..t }
        },
        SoftKey::ClipStop => if t.flags.has(Flag::ClipStop) {
            StateView { music: with_paused(t.music, true), ..t }
        } else if !t.flags.has(Flag::StopAll) {
            StateView { music: with_paused(t.music, false), ..t }
        } else {
            t
        },
        SoftKey::Solo => StateView {
            ambience: stopped(t.ambience),
            sound_effect: stopped(t.sound_effect),
            ..t
        },
        _ => t,
    }
}

pub open spec fn soft_key_effects(s: StateView, k: SoftKey) -> Seq<Effect> {
    let n = soft_key_next(s, k);
    let led = led_for(k.spec_code(), n.flags.has(k.spec_flag()), LED_GREEN);
    match k {
        SoftKey::Mute => seq![led, Effect::SetVolume(QueueKind::Music, n.music.volume)],
        SoftKey::ClipStop => if n.flags.has(Flag::ClipStop) {
            seq![led, Effect::Pause(QueueKind::Music)]
        } else if !n.flags.has(Flag::StopAll) {
            seq![led, Effect::Resume(QueueKind::Music)]
        } else {
            seq![led]
        },
        SoftKey::Solo => seq![
            led,
            Effect::Stop(QueueKind::SoundEffect),
            Effect::Stop(QueueKind::Ambience),
        ],
        _ => seq![led],
    }
}

/// Stop-all: flips the flag; when now set every queue pauses, when cleared
/// ambience and sound effects resume, and music resumes unless ClipStop is set.
pub open spec fn stop_all_next(s: StateView) -> StateView {
    let t = s.toggled(Flag::StopAll);
    if t.flags.has(Flag::StopAll) {
        StateView {
            music: with_paused(t.music, true),
            ambience: with_paused(t.ambience, true),
            sound_effect: with_paused(t.sound_effect, true),
            ..t
        }
    } else {
        StateView {
            music: if t.flags.has(Flag::ClipStop) {
                t.music
            } else {
                with_paused(t.music, false)
            },
            ambience: with_paused(t.ambience, false),
            sound_effect: with_paused(t.sound_effect, false),
            ..t
        }
    }
}

pub open spec fn stop_all_effects(s: StateView) -> Seq<Effect> {
    let t = s.toggled(Flag::StopAll);
    let led = led_for(81, t.flags.has(Flag::StopAll), LED_GREEN);
    if t.flags.has(Flag::StopAll) {
        seq![
            led,
            Effect::Pause(QueueKind::Music),
            Effect::Pause(QueueKind::Ambience),
            Effect::Pause(QueueKind::SoundEffect),
        ]
    } else if t.flags.has(Flag::ClipStop) {
        seq![led, Effect::Resume(QueueKind::Ambience), Effect::Resume(QueueKind::SoundEffect)]
    } else {
        seq![
            led,
            Effect::Resume(QueueKind::Music),
            Effect::Resume(QueueKind::Ambience),
            Effect::Resume(QueueKind::SoundEffect),
        ]
    }
}

/// A knob-control key only flips its flag.
pub open spec fn knob_ctrl_effects(s: StateView, k: KnobCtrlKey) -> Seq<Effect> {
    seq![led_for(k.spec_code(), s.toggled(k.spec_flag()).flags.has(k.spec_flag()), LED_GREEN)]
}

/// The LED of a momentary button.
pub open spec fn momentary_led(code: u8, on: bool) -> Effect {
    Effect::Led { key: code, mode: LedMode::On100Percent, color: if on { LED_GREEN } else { LED_OFF } }
}

} // verus!

verus! {

/// A queue after it was cleared and started on `files`, at `volume` when given.
pub open spec fn played(q: QueueView, files: Seq<String>, volume: Option<u16>) -> QueueView {
    QueueView {
        files,
        paused: false,
        volume: match volume {
            Some(v) => clamp_scale(v as int) as u16,
            None => q.volume,
        },
        elapsed_seconds: 0,
    }
}

/// The outcome of a non-pad press of `input` with encoder `value`.
pub open spec fn pressed_next(s: StateView, input: InputGroup, value: u8) -> StateView {
    match input {
        InputGroup::Knob(i) => knob_next(s, i, KnobValueUpdate::spec_from_encoder(value)),
        InputGroup::ResumePause => resume_pause_next(s),
        InputGroup::SoftKeys(k) => soft_key_next(s, k),
        InputGroup::KnobCtrl(k) => s.toggled(k.spec_flag()),
        InputGroup::StopAllClips => stop_all_next(s),
        InputGroup::Shift => s.toggled(Flag::Shift),
        InputGroup::Start => s.toggled(Flag::Start),
        InputGroup::Right => StateView { music: skipped(s.music), ..s },
        _ => s,
    }
}

pub open spec fn pressed_effects(s: StateView, input: InputGroup, value: u8) -> Seq<
    Effect,
> {
    match input {
        InputGroup::Knob(i) => knob_effects(s, i, KnobValueUpdate::spec_from_encoder(value)),
        InputGroup::ResumePause => resume_pause_effects(s),
        InputGroup::SoftKeys(k) => soft_key_effects(s, k),
        InputGroup::KnobCtrl(k) => knob_ctrl_effects(s, k),
        InputGroup::StopAllClips => stop_all_effects(s),
        InputGroup::Shift => seq![led_for(98, s.toggled(Flag::Shift).flags.has(Flag::Shift), LED_GREEN)],
        InputGroup::Start => seq![led_for(92, s.toggled(Flag::Start).flags.has(Flag::Start), LED_GREEN)],
        InputGroup::Right => seq![momentary_led(67, true), Effect::SkipOne(QueueKind::Music)],
        InputGroup::Left => seq![momentary_led(66, true)],
        InputGroup::Up => seq![momentary_led(64, true)],
        InputGroup::Down => seq![momentary_led(65, true)],
        InputGroup::Pads(_) => seq![],
    }
}

/// LED colour of a lit pad: the colour numbered one above the pad index.
pub open spec fn spec_pad_color(index: u8) -> u8 {
    if index < 127 {
        (index + 1) as u8
    } else {
        LED_GREEN
    }
}

/// Dim the pad pressed before, if any, then light the new one.
pub open spec fn pad_leds(last: Option<u8>, index: u8) -> Seq<Effect> {
    let lit = Effect::Led { key: index, mode: LedMode::On100Percent, color: spec_pad_color(index) };
    match last {
        Some(l) => seq![Effect::Led { key: l, mode: LedMode::On10Percent, color: LED_OFF }, lit],
        None => seq![lit],
    }
}

/// `p` lists `files`, in order, none of them started, the first one playing.
pub open spec fn lists_files(p: Option<PlaylistData>, files: Seq<String>) -> bool {
    &&& p is Some
    &&& p.unwrap().current_track == 0
    &&& p.unwrap().tracks@.len() == files.len()
    &&& forall|i: int|
        0 <= i < files.len() ==> {
            &&& (#[trigger] p.unwrap().tracks@[i]).file_path == files[i]
            &&& p.unwrap().tracks@[i].track_length == 0
            &&& p.unwrap().tracks@[i].elapsed_seconds == 0
        }
}

/// A pad press: the pad becomes the last pressed; when its music folder was
/// found and holds files, music restarts on them (shuffled when Send is on)
/// at knob 1's volume and the playlist lists them; a folder with no files
/// clears the playlist; a missing folder changes nothing else. The old pad
/// is dimmed and the new one lit.
pub open spec fn pad_post(
    old: &MusicState,
    new: &MusicState,
    index: u8,
    folder: Option<Vec<String>>,
    fx: Seq<Effect>,
) -> bool {
    let s = old.sv();
    let n = new.sv();
    &&& n.last_pad == Some(index)
    &&& n.flags == s.flags
    &&& n.knobs == s.knobs
    &&& n.ambience == s.ambience
    &&& n.sound_effect == s.sound_effect
    &&& n.music_filter == s.music_filter
    &&& n.ambience_filter == s.ambience_filter
    &&& n.sound_effect_filter == s.sound_effect_filter
    &&& new.data.settings_data == old.data.settings_data
    &&& new.data.pad_labels == old.data.pad_labels
    &&& match folder {
        Some(files) => if files@.len() > 0 {
            &&& if s.flags.has(Flag::Send) {
                n.music.files.to_multiset() == files@.to_multiset()
            } else {
                n.music.files == files@
            }
            &&& n.music == played(s.music, n.music.files, knob_at(s.knobs, 1))
            &&& n.music.files.len() == files@.len()
            &&& lists_files(new.data.current_playlist, n.music.files)
            &&& fx == seq![Effect::Play(QueueKind::Music)] + pad_leds(s.last_pad, index)
        } else {
            &&& n.music == s.music
            &&& new.data.current_playlist is None
            &&& fx == pad_leds(s.last_pad, index)
        },
        None => {
            &&& n.music == s.music
            &&& new.data.current_playlist == old.data.current_playlist
            &&& fx == pad_leds(s.last_pad, index)
        },
    }
}

} // verus!

verus! {

/// Setting stop-all pauses all three queues; clearing it resumes ambience
/// and sound effects unconditionally, and music only when clip-stop is clear.
pub proof fn lemma_stop_all_policy(s: StateView)
    ensures
        ({
            let n = stop_all_next(s);
            &&& n.flags.has(Flag::StopAll) == !s.flags.has(Flag::StopAll)
            &&& n.flags.has(Flag::ClipStop) == s.flags.has(Flag::ClipStop)
            &&& n.flags.has(Flag::StopAll) ==> n.music.paused && n.ambience.paused
                && n.sound_effect.paused
            &&& !n.flags.has(Flag::StopAll) ==> !n.ambience.paused && !n.sound_effect.paused
            &&& !n.flags.has(Flag::StopAll) && !n.flags.has(Flag::ClipStop) ==> !n.music.paused
            &&& !n.flags.has(Flag::StopAll) && n.flags.has(Flag::ClipStop) ==> n.music == s.music
        }),
{
    crate::toggle_states::lemma_flip_only(s.flags, Flag::StopAll);
}

/// The state after a sequence of knob ticks, each a knob index and a direction.
pub open spec fn knob_ticks_applied(s: StateView, ticks: Seq<(u8, KnobValueUpdate)>) -> StateView
    decreases ticks.len(),
{
    if ticks.len() == 0 {
        s
    } else {
        let t = knob_ticks_applied(s, ticks.drop_last());
        knob_next(t, ticks.last().0, ticks.last().1)
    }
}

/// While muted, knob ticks leave the flags, the knob table and the music
/// queue alone.
pub proof fn lemma_muted_ticks(s: StateView, ticks: Seq<(u8, KnobValueUpdate)>)
    requires
        s.flags.has(Flag::Mute),
    ensures
        knob_ticks_applied(s, ticks).flags == s.flags,
        knob_ticks_applied(s, ticks).knobs == s.knobs,
        knob_ticks_applied(s, ticks).music == s.music,
    decreases ticks.len(),
{
    if ticks.len() > 0 {
        lemma_muted_ticks(s, ticks.drop_last());
    }
}

/// Muting, then any knob ticks, then unmuting gives the music back the
/// exact volume it had before muting.
pub proof fn lemma_mute_round_trip(s: StateView, ticks: Seq<(u8, KnobValueUpdate)>)
    requires
        s.wf(),
        !s.flags.has(Flag::Mute),
    ensures
        soft_key_next(s, SoftKey::Mute).music.volume == 0,
        ({
            let t = knob_ticks_applied(soft_key_next(s, SoftKey::Mute), ticks);
            let u = soft_key_next(t, SoftKey::Mute);
            &&& u.music.volume == s.music.volume
            &&& u.flags == s.flags
            &&& !u.flags.has(Flag::Mute)
        }),
{
    let m = soft_key_next(s, SoftKey::Mute);
    crate::toggle_states::lemma_flip_only(s.flags, Flag::Mute);
    crate::toggle_states::lemma_flip_only(m.flags, Flag::Mute);
    crate::toggle_states::lemma_toggle_involution(s.flags, Flag::Mute);
    assert(m.knobs[0] == s.music.volume);
    lemma_muted_ticks(m, ticks);
}

/// Skipping a track takes exactly one file off the music queue and leaves
/// the ambience and sound-effect queues as they were.
pub proof fn lemma_skip_track(s: StateView, value: u8)
    requires
        s.music.files.len() > 0,
    ensures
        pressed_next(s, InputGroup::Right, value).music.files.len() == s.music.files.len() - 1,
        pressed_next(s, InputGroup::Right, value).ambience == s.ambience,
        pressed_next(s, InputGroup::Right, value).sound_effect == s.sound_effect,
{
}

} // verus!

verus! {

proof fn lemma_tick_knob_wf(knobs: Seq<u16>, index: u8, u: KnobValueUpdate)
    requires
        forall|i: int| 0 <= i < knobs.len() ==> #[trigger] knobs[i] <= FULL_SCALE,
    ensures
        tick_knob(knobs, index, u).len() == knobs.len(),
        forall|i: int| 0 <= i < knobs.len() ==> #[trigger] tick_knob(knobs, index, u)[i] <= FULL_SCALE,
{
}

/// A knob tick keeps the state well formed.
pub proof fn lemma_knob_next_wf(s: StateView, index: u8, u: KnobValueUpdate)
    requires
        s.wf(),
    ensures
        knob_next(s, index, u).wf(),
{
    lemma_tick_knob_wf(s.knobs, index, u);
}

/// A soft key keeps the state well formed.
pub proof fn lemma_soft_key_next_wf(s: StateView, k: SoftKey)
    requires
        s.wf(),
    ensures
        soft_key_next(s, k).wf(),
{
    let n = soft_key_next(s, k);
    assert forall|i: int| 0 <= i < n.knobs.len() implies #[trigger] n.knobs[i] <= FULL_SCALE by {
        if k == SoftKey::Mute && i == 0 {
        } else {
            assert(n.knobs[i] == s.knobs[i]);
        }
    }
}

/// Every non-pad press keeps the state well formed.
pub proof fn lemma_pressed_next_wf(s: StateView, input: InputGroup, value: u8)
    requires
        s.wf(),
    ensures
        pressed_next(s, input, value).wf(),
{
    match input {
        InputGroup::Knob(i) => lemma_knob_next_wf(s, i, KnobValueUpdate::spec_from_encoder(value)),
        InputGroup::SoftKeys(k) => lemma_soft_key_next_wf(s, k),
        _ => {},
    }
}

/// A pad press keeps the state well formed.
pub proof fn lemma_pad_post_wf(
    old: &MusicState,
    new: &MusicState,
    index: u8,
    folder: Option<Vec<String>>,
    fx: Seq<Effect>,
)
    requires
        old.wf(),
        pad_post(old, new, index, folder, fx),
    ensures
        new.wf(),
{
}

} // verus!
