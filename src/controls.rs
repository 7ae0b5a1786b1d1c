use vstd::prelude::*;

use crate::toggle_states::Flag;

verus! {

/// Transport-style buttons with a persistent state.
#[derive(Clone, Copy, Debug, PartialEq, Eq, Structural)]
pub enum SoftKey {
    ClipStop,
    Solo,
    Mute,
    RecArm,
    Select,
}

/// Buttons that pick what the eight knobs control.
#[derive(Clone, Copy, Debug, PartialEq, Eq, Structural)]
pub enum KnobCtrlKey {
    Volume,
    Pan,
    Send,
    Device,
}

/// An input of the pad-and-knob half of the control surface.
#[derive(Clone, Copy, Debug, PartialEq, Eq, Structural)]
pub enum InputGroup {
    /// A pad, by index (0 to 39).
    Pads(u8),
    SoftKeys(SoftKey),
    KnobCtrl(KnobCtrlKey),
    /// A relative encoder, by index (1 to 8).
    Knob(u8),
    Up,
    Down,
    Right,
    Left,
    StopAllClips,
    Shift,
    ResumePause,
    Start,
}

impl SoftKey {
    pub open spec fn spec_flag(self) -> Flag {
        match self {
            SoftKey::ClipStop => Flag::ClipStop,
            SoftKey::Solo => Flag::Solo,
            SoftKey::Mute => Flag::Mute,
            SoftKey::RecArm => Flag::RecArm,
            SoftKey::Select => Flag::Select,
        }
    }

    pub open spec fn spec_code(self) -> u8 {
        match self {
            SoftKey::ClipStop => 82,
            SoftKey::Solo => 83,
            SoftKey::Mute => 84,
            SoftKey::RecArm => 85,
            SoftKey::Select => 86,
        }
    }

    /// The toggle flag the key drives.
    pub fn flag(self) -> (r: Flag)
        ensures
            r == self.spec_flag(),
    {
        match self {
            SoftKey::ClipStop => Flag::ClipStop,
            SoftKey::Solo => Flag::Solo,
            SoftKey::Mute => Flag::Mute,
            SoftKey::RecArm => Flag::RecArm,
            SoftKey::Select => Flag::Select,
        }
    }

    /// The key's note number on the control surface.
    pub fn code(self) -> (r: u8)
        ensures
            r == self.spec_code(),
    {
        match self {
            SoftKey::ClipStop => 82,
            SoftKey::Solo => 83,
            SoftKey::Mute => 84,
            SoftKey::RecArm => 85,
            SoftKey::Select => 86,
        }
    }
}

impl KnobCtrlKey {
    pub open spec fn spec_flag(self) -> Flag {
        match self {
            KnobCtrlKey::Volume => Flag::Volume,
            KnobCtrlKey::Pan => Flag::Pan,
            KnobCtrlKey::Send => Flag::Send,
            KnobCtrlKey::Device => Flag::Device,
        }
    }

    pub open spec fn spec_code(self) -> u8 {
        match self {
            KnobCtrlKey::Volume => 68,
            KnobCtrlKey::Pan => 69,
            KnobCtrlKey::Send => 70,
            KnobCtrlKey::Device => 71,
        }
    }

    /// The toggle flag the key drives.
    pub fn flag(self) -> (r: Flag)
        ensures
            r == self.spec_flag(),
    {
        match self {
            KnobCtrlKey::Volume => Flag::Volume,
            KnobCtrlKey::Pan => Flag::Pan,
            KnobCtrlKey::Send => Flag::Send,
            KnobCtrlKey::Device => Flag::Device,
        }
    }

    /// The key's note number on the control surface.
    pub fn code(self) -> (r: u8)
        ensures
            r == self.spec_code(),
    {
        match self {
            KnobCtrlKey::Volume => 68,
            KnobCtrlKey::Pan => 69,
            KnobCtrlKey::Send => 70,
            KnobCtrlKey::Device => 71,
        }
    }
}

impl InputGroup {
    /// Note number of the input, the address of its LED.
    pub open spec fn spec_code(self) -> u8 {
        match self {
            InputGroup::Pads(i) => i,
            InputGroup::SoftKeys(k) => k.spec_code(),
            InputGroup::KnobCtrl(k) => k.spec_code(),
            InputGroup::Up => 64,
            InputGroup::Down => 65,
            InputGroup::Right => 67,
            InputGroup::Left => 66,
            InputGroup::StopAllClips => 81,
            InputGroup::Shift => 98,
            InputGroup::ResumePause => 91,
            InputGroup::Start => 92,
            InputGroup::Knob(i) => ((i + 47) % 256) as u8,
        }
    }

    pub fn code(self) -> (r: u8)
        ensures
            r == self.spec_code(),
    {
        match self {
            InputGroup::Pads(i) => i,
            InputGroup::SoftKeys(k) => k.code(),
            InputGroup::KnobCtrl(k) => k.code(),
            InputGroup::Up => 64,
            InputGroup::Down => 65,
            InputGroup::Right => 67,
            InputGroup::Left => 66,
            InputGroup::StopAllClips => 81,
            InputGroup::Shift => 98,
            InputGroup::ResumePause => 91,
            InputGroup::Start => 92,
            InputGroup::Knob(i) => i.wrapping_add(47),
        }
    }
}

/// White keys of the two-octave keyboard, numbered 1 to 15 from the left;
/// 0 for a key that is not white.
pub open spec fn spec_white_index(key: u8) -> u8 {
    match key {
        1 => 1,
        3 => 2,
        5 => 3,
        6 => 4,
        8 => 5,
        10 => 6,
        12 => 7,
        13 => 8,
        15 => 9,
        17 => 10,
        18 => 11,
        20 => 12,
        22 => 13,
        24 => 14,
        25 => 15,
        _ => 0,
    }
}

/// Black keys of the keyboard, numbered 1 to 10 from the left; 0 for a key
/// that is not black.
pub open spec fn spec_black_index(key: u8) -> u8 {
    match key {
        2 => 1,
        4 => 2,
        7 => 3,
        9 => 4,
        11 => 5,
        14 => 6,
        16 => 7,
        19 => 8,
        21 => 9,
        23 => 10,
        _ => 0,
    }
}

/// The black keys, which play ambience samples.
pub open spec fn spec_is_ambience_key(key: u8) -> bool {
    key == 2 || key == 4 || key == 7 || key == 9 || key == 11 || key == 14 || key == 16 || key
        == 19 || key == 21 || key == 23
}

pub fn is_ambience_key(k: u8) -> (r: bool)
    ensures
        r == spec_is_ambience_key(k),
{
    k == 2 || k == 4 || k == 7 || k == 9 || k == 11 || k == 14 || k == 16 || k == 19 || k == 21
        || k == 23
}

pub fn map_key_to_black_key_index(key: u8) -> (r: u8)
    ensures
        r == spec_black_index(key),
{
    match key {
        2 => 1,
        4 => 2,
        7 => 3,
        9 => 4,
        11 => 5,
        14 => 6,
        16 => 7,
        19 => 8,
        21 => 9,
        23 => 10,
        _ => 0,
    }
}

pub fn map_key_to_white_key_index(key: u8) -> (r: u8)
    ensures
        r == spec_white_index(key),
{
    match key {
        1 => 1,
        3 => 2,
        5 => 3,
        6 => 4,
        8 => 5,
        10 => 6,
        12 => 7,
        13 => 8,
        15 => 9,
        17 => 10,
        18 => 11,
        20 => 12,
        22 => 13,
        24 => 14,
        25 => 15,
        _ => 0,
    }
}

} // verus!
