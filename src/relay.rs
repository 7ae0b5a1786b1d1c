use vstd::prelude::*;

use crate::controls::{InputGroup, KnobCtrlKey, SoftKey};
use crate::effect::Effect;
use crate::keyboard_handler::{key_press_next, key_press_result, KeyboardHandler};
use crate::knob::KnobValueUpdate;
use crate::music_state::{momentary_led, pad_post, pressed_effects, pressed_next, MusicState};
use crate::pad_handler::{momentary_button_led, PadHandler};

verus! {

/// Which side a command is meant for; it keeps commands from looping
/// between the front end and the back end.
#[derive(Clone, Copy, Debug, PartialEq, Eq, Structural)]
pub enum Device {
    ToGui,
    ToBackend,
}

/// An intent from the front end or the hardware, tagged with its target.
#[derive(Clone, Copy, Debug, PartialEq, Eq, Structural)]
pub enum Command {
    Refresh { device: Device },
    PadPressed { key: u8, device: Device },
    WhiteKeyPressed { key: u8, device: Device },
    BlackKeyPressed { key: u8, device: Device },
    KnobPercentageChanged { knob: u8, value: KnobValueUpdate, device: Device },
    LoopPressed { device: Device },
    ShufflePressed { device: Device },
    SkipTrackPressed { device: Device },
    MutePressed { device: Device },
    PausePressed { device: Device },
    StopAllPressed { device: Device },
    SoloPressed { device: Device },
}

/// The same intents without a target, as the front end sends them.
#[derive(Clone, Copy, Debug, PartialEq, Eq, Structural)]
pub enum CommsCommand {
    Refresh,
    PadPressed { key: u8 },
    WhiteKeyPressed { key: u8 },
    BlackKeyPressed { key: u8 },
    KnobPercentageChanged { knob: u8, value: KnobValueUpdate },
    LoopPressed,
    ShufflePressed,
    SkipTrackPressed,
    MutePressed,
    PausePressed,
    StopAllPressed,
    SoloPressed,
}

impl CommsCommand {
    pub open spec fn spec_for_backend(self) -> Command {
        let d = Device::ToBackend;
        match self {
            CommsCommand::Refresh => Command::Refresh { device: d },
            CommsCommand::PadPressed { key } => Command::PadPressed { key, device: d },
            CommsCommand::WhiteKeyPressed { key } => Command::WhiteKeyPressed { key, device: d },
            CommsCommand::BlackKeyPressed { key } => Command::BlackKeyPressed { key, device: d },
            CommsCommand::KnobPercentageChanged { knob, value } => Command::KnobPercentageChanged {
                knob,
                value,
                device: d,
            },
            CommsCommand::LoopPressed => Command::LoopPressed { device: d },
            CommsCommand::ShufflePressed => Command::ShufflePressed { device: d },
            CommsCommand::SkipTrackPressed => Command::SkipTrackPressed { device: d },
            CommsCommand::MutePressed => Command::MutePressed { device: d },
            CommsCommand::PausePressed => Command::PausePressed { device: d },
            CommsCommand::StopAllPressed => Command::StopAllPressed { device: d },
            CommsCommand::SoloPressed => Command::SoloPressed { device: d },
        }
    }

    /// The command addressed to the back end.
    pub fn for_backend(self) -> (r: Command)
        ensures
            r == self.spec_for_backend(),
    {
        let d = Device::ToBackend;
        match self {
            CommsCommand::Refresh => Command::Refresh { device: d },
            CommsCommand::PadPressed { key } => Command::PadPressed { key, device: d },
            CommsCommand::WhiteKeyPressed { key } => Command::WhiteKeyPressed { key, device: d },
            CommsCommand::BlackKeyPressed { key } => Command::BlackKeyPressed { key, device: d },
            CommsCommand::KnobPercentageChanged { knob, value } => Command::KnobPercentageChanged {
                knob,
                value,
                device: d,
            },
            CommsCommand::LoopPressed => Command::LoopPressed { device: d },
            CommsCommand::ShufflePressed => Command::ShufflePressed { device: d },
            CommsCommand::SkipTrackPressed => Command::SkipTrackPressed { device: d },
            CommsCommand::MutePressed => Command::MutePressed { device: d },
            CommsCommand::PausePressed => Command::PausePressed { device: d },
            CommsCommand::StopAllPressed => Command::StopAllPressed { device: d },
            CommsCommand::SoloPressed => Command::SoloPressed { device: d },
        }
    }
}

impl Command {
    pub open spec fn device(self) -> Device {
        match self {
            Command::Refresh { device } => device,
            Command::PadPressed { device, .. } => device,
            Command::WhiteKeyPressed { device, .. } => device,
            Command::BlackKeyPressed { device, .. } => device,
            Command::KnobPercentageChanged { device, .. } => device,
            Command::LoopPressed { device } => device,
            Command::ShufflePressed { device } => device,
            Command::SkipTrackPressed { device } => device,
            Command::MutePressed { device } => device,
            Command::PausePressed { device } => device,
            Command::StopAllPressed { device } => device,
            Command::SoloPressed { device } => device,
        }
    }

    /// The hardware input a command stands for, with its value, for the
    /// commands that replay one.
    pub open spec fn replayed_input(self) -> Option<(InputGroup, u8)> {
        match self {
            Command::KnobPercentageChanged { knob, value, .. } => Some(
                (
                    InputGroup::Knob(knob),
                    match value {
                        KnobValueUpdate::Increment => 1u8,
                        KnobValueUpdate::Decrement => 127u8,
                    },
                ),
            ),
            Command::ShufflePressed { .. } => Some((InputGroup::KnobCtrl(KnobCtrlKey::Send), 1u8)),
            Command::LoopPressed { .. } => Some((InputGroup::SoftKeys(SoftKey::Select), 1u8)),
            Command::SkipTrackPressed { .. } => Some((InputGroup::Right, 1u8)),
            Command::MutePressed { .. } => Some((InputGroup::SoftKeys(SoftKey::Mute), 1u8)),
            Command::PausePressed { .. } => Some((InputGroup::SoftKeys(SoftKey::ClipStop), 1u8)),
            Command::StopAllPressed { .. } => Some((InputGroup::StopAllClips, 1u8)),
            Command::SoloPressed { .. } => Some((InputGroup::SoftKeys(SoftKey::Solo), 1u8)),
            _ => None,
        }
    }

    /// What follows the replayed input's own effects: a knob change asks
    /// for a refresh, a skip releases the button.
    pub open spec fn replay_tail(self) -> Seq<Effect> {
        match self {
            Command::KnobPercentageChanged { .. } => seq![Effect::RequestRefresh],
            Command::SkipTrackPressed { .. } => seq![momentary_led(67, false)],
            _ => seq![],
        }
    }
}

/// Acts on one command from the front end, through the same handlers as
/// hardware input. Commands for the front end are ignored. `pad_folder` is
/// the lookup result for a pad command and `key_file` for a key command.
pub fn relay_command(
    state: &mut MusicState,
    command: Command,
    pad_folder: Option<Vec<String>>,
    key_file: Option<String>,
) -> (fx: Vec<Effect>)
    ensures
        old(state).wf() ==> final(state).wf(),
        command.device() == Device::ToGui ==> fx@.len() == 0 && final(state).sv() == old(state).sv()
            && final(state).same_outside_view(&*old(state)),
        command.device() == Device::ToBackend ==> match command {
            Command::Refresh { .. } => {
                &&& fx@ == seq![Effect::Snapshot]
                &&& final(state).sv() == old(state).sv()
                &&& final(state).same_outside_view(&*old(state))
            },
            Command::PadPressed { key, .. } => if key < 40 {
                &&& fx@.len() > 0
                &&& fx@.last() == Effect::RequestRefresh
                &&& pad_post(old(state), final(state), key, pad_folder, fx@.drop_last())
            } else {
                &&& fx@.len() == 0
                &&& final(state).sv() == old(state).sv()
                &&& final(state).same_outside_view(&*old(state))
            },
            Command::WhiteKeyPressed { key, .. } | Command::BlackKeyPressed { key, .. } => {
                &&& final(state).sv() == key_press_next(old(state).sv(), key, key_file)
                &&& final(state).same_outside_view(&*old(state))
                &&& fx@ == match key_press_result(key, key_file) {
                    Ok(f) => f,
                    Err(_) => seq![],
                }
            },
            _ => {
                let (input, value) = command.replayed_input().unwrap();
                &&& final(state).sv() == pressed_next(old(state).sv(), input, value)
                &&& final(state).same_outside_view(&*old(state))
                &&& fx@ == pressed_effects(old(state).sv(), input, value) + command.replay_tail()
            },
        },
{
    if command.device_of() == Device::ToGui {
        return Vec::new();
    }
    match command {
        Command::Refresh { .. } => vec![Effect::Snapshot],
        Command::PadPressed { key, .. } => {
            if key < 40 {
                let mut fx = PadHandler::handle_input_pressed(
                    state,
                    InputGroup::Pads(key),
                    1,
                    pad_folder,
                );
                let ghost before = fx@;
                fx.push(Effect::RequestRefresh);
                assert(fx@.drop_last() =~= before);
                fx
            } else {
                Vec::new()
            }
        },
        Command::WhiteKeyPressed { key, .. } | Command::BlackKeyPressed { key, .. } => {
            match KeyboardHandler::handle_input(state, key, key_file) {
                Ok(fx) => fx,
                Err(_) => Vec::new(),
            }
        },
        _ => replay(state, command),
    }
}

/// Replays the hardware input that `command` stands for.
fn replay(state: &mut MusicState, command: Command) -> (fx: Vec<Effect>)
    requires
        command.replayed_input() is Some,
    ensures
        old(state).wf() ==> final(state).wf(),
        ({
            let (input, value) = command.replayed_input().unwrap();
            &&& final(state).sv() == pressed_next(old(state).sv(), input, value)
            &&& final(state).same_outside_view(&*old(state))
            &&& fx@ == pressed_effects(old(state).sv(), input, value) + command.replay_tail()
        }),
{
    let (input, value) = command.replayed_input_of().unwrap();
    let mut fx = PadHandler::handle_input_pressed(state, input, value, None);
    let mut tail = command.replay_tail_of();
    let ghost before = fx@;
    fx.append(&mut tail);
    assert(fx@ =~= before + command.replay_tail());
    fx
}

impl Command {
    /// The side the command is meant for.
    pub fn device_of(&self) -> (r: Device)
        ensures
            r == self.device(),
    {
        match *self {
            Command::Refresh { device } => device,
            Command::PadPressed { device, .. } => device,
            Command::WhiteKeyPressed { device, .. } => device,
            Command::BlackKeyPressed { device, .. } => device,
            Command::KnobPercentageChanged { device, .. } => device,
            Command::LoopPressed { device } => device,
            Command::ShufflePressed { device } => device,
            Command::SkipTrackPressed { device } => device,
            Command::MutePressed { device } => device,
            Command::PausePressed { device } => device,
            Command::StopAllPressed { device } => device,
            Command::SoloPressed { device } => device,
        }
    }

    fn replayed_input_of(&self) -> (r: Option<(InputGroup, u8)>)
        ensures
            r == self.replayed_input(),
    {
        match *self {
            Command::KnobPercentageChanged { knob, value, .. } => Some(
                (InputGroup::Knob(knob), u8::from(value)),
            ),
            Command::ShufflePressed { .. } => Some((InputGroup::KnobCtrl(KnobCtrlKey::Send), 1u8)),
            Command::LoopPressed { .. } => Some((InputGroup::SoftKeys(SoftKey::Select), 1u8)),
            Command::SkipTrackPressed { .. } => Some((InputGroup::Right, 1u8)),
            Command::MutePressed { .. } => Some((InputGroup::SoftKeys(SoftKey::Mute), 1u8)),
            Command::PausePressed { .. } => Some((InputGroup::SoftKeys(SoftKey::ClipStop), 1u8)),
            Command::StopAllPressed { .. } => Some((InputGroup::StopAllClips, 1u8)),
            Command::SoloPressed { .. } => Some((InputGroup::SoftKeys(SoftKey::Solo), 1u8)),
            _ => None,
        }
    }

    fn replay_tail_of(&self) -> (r: Vec<Effect>)
        ensures
            r@ == self.replay_tail(),
    {
        match *self {
            Command::KnobPercentageChanged { .. } => {
                let r = vec![Effect::RequestRefresh];
                assert(r@ =~= self.replay_tail());
                r
            },
            Command::SkipTrackPressed { .. } => {
                let r = vec![momentary_button_led(67, false)];
                assert(r@ =~= self.replay_tail());
                r
            },
            _ => {
                let r: Vec<Effect> = Vec::new();
                assert(r@ =~= self.replay_tail());
                r
            },
        }
    }
}

} // verus!
