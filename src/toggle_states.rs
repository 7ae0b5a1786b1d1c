use vstd::prelude::*;

use crate::effect::{Effect, LedMode, LED_OFF};

verus! {

/// A persistent on/off switch of the control surface.
#[derive(Clone, Copy, Debug, PartialEq, Eq, Structural)]
pub enum Flag {
    ClipStop,
    Solo,
    Mute,
    RecArm,
    /// Loops the playlist.
    Select,
    StopAll,
    Volume,
    Pan,
    /// Shuffles the files of a pad's folder before they play.
    Send,
    Device,
    Shift,
    Filter,
    Start,
}

impl Flag {
    /// Bit position of the flag in the packed set.
    pub open spec fn index(self) -> u16 {
        match self {
            Flag::ClipStop => 0,
            Flag::Solo => 1,
            Flag::Mute => 2,
            Flag::RecArm => 3,
            Flag::Select => 4,
            Flag::StopAll => 5,
            Flag::Volume => 6,
            Flag::Pan => 7,
            Flag::Send => 8,
            Flag::Device => 9,
            Flag::Shift => 10,
            Flag::Filter => 11,
            Flag::Start => 12,
        }
    }

    pub open spec fn spec_mask(self) -> u16 {
        1u16 << self.index()
    }

    pub fn bit_index(self) -> (r: u16)
        ensures
            r == self.index(),
            r < 13,
    {
        match self {
            Flag::ClipStop => 0,
            Flag::Solo => 1,
            Flag::Mute => 2,
            Flag::RecArm => 3,
            Flag::Select => 4,
            Flag::StopAll => 5,
            Flag::Volume => 6,
            Flag::Pan => 7,
            Flag::Send => 8,
            Flag::Device => 9,
            Flag::Shift => 10,
            Flag::Filter => 11,
            Flag::Start => 12,
        }
    }

    pub fn mask(self) -> (r: u16)
        ensures
            r == self.spec_mask(),
    {
        let i = self.bit_index();
        1u16 << i
    }
}

/// The set of toggle flags, one bit per flag.
#[derive(Clone, Copy, Debug, PartialEq, Eq, Structural)]
pub struct ToggleStates {
    pub bits: u16,
}

proof fn lemma_xor_same_bit(b: u16, i: u16)
    requires
        i < 16,
    ensures
        ((b ^ (1u16 << i)) & (1u16 << i) != 0) == (b & (1u16 << i) == 0),
{
    assert(((b ^ (1u16 << i)) & (1u16 << i) != 0) == (b & (1u16 << i) == 0)) by (bit_vector)
        requires
            i < 16,
    ;
}

proof fn lemma_xor_other_bit(b: u16, i: u16, j: u16)
    requires
        i < 16,
        j < 16,
        i != j,
    ensures
        ((b ^ (1u16 << i)) & (1u16 << j) != 0) == (b & (1u16 << j) != 0),
{
    assert(((b ^ (1u16 << i)) & (1u16 << j) != 0) == (b & (1u16 << j) != 0)) by (bit_vector)
        requires
            i < 16,
            j < 16,
            i != j,
    ;
}

proof fn lemma_xor_twice(b: u16, m: u16)
    ensures
        (b ^ m) ^ m == b,
{
    assert((b ^ m) ^ m == b) by (bit_vector);
}

proof fn lemma_zero_has_no_bit(i: u16)
    requires
        i < 16,
    ensures
        0u16 & (1u16 << i) == 0,
{
    assert(0u16 & (1u16 << i) == 0) by (bit_vector)
        requires
            i < 16,
    ;
}

impl ToggleStates {
    pub open spec fn raw(self) -> u16 {
        self.bits
    }

    /// Whether `f` is set.
    pub open spec fn has(self, f: Flag) -> bool {
        self.bits & f.spec_mask() != 0
    }

    /// The set with `f` flipped.
    pub open spec fn toggled(self, f: Flag) -> ToggleStates {
        ToggleStates { bits: self.bits ^ f.spec_mask() }
    }

    /// The set with no flag on.
    pub fn empty() -> (r: ToggleStates)
        ensures
            r.raw() == 0,
            forall|f: Flag| !#[trigger] r.has(f),
    {
        proof {
            assert forall|f: Flag| !#[trigger] (ToggleStates { bits: 0 }).has(f) by {
                lemma_zero_has_no_bit(f.index());
            }
        }
        ToggleStates { bits: 0 }
    }

    /// The packed bits, one per flag.
    pub fn bits(&self) -> (r: u16)
        ensures
            r == self.raw(),
    {
        self.bits
    }

    /// A set from packed bits; bits that name no flag are dropped.
    pub fn from_bits_truncate(bits: u16) -> (r: ToggleStates)
        ensures
            r.raw() == bits & 0x1fff,
    {
        ToggleStates { bits: bits & 0x1fff }
    }

    pub fn contains(&self, f: Flag) -> (r: bool)
        ensures
            r == self.has(f),
    {
        self.bits & f.mask() != 0
    }

    /// Flips `f` and returns the new set.
    pub fn toggle(&mut self, f: Flag) -> (r: ToggleStates)
        ensures
            *final(self) == old(self).toggled(f),
            r == *final(self),
            final(self).has(f) == !old(self).has(f),
            forall|g: Flag| g != f ==> (#[trigger] final(self).has(g) == old(self).has(g)),
    {
        proof {
            lemma_flip_only(*self, f);
        }
        self.bits = self.bits ^ f.mask();
        *self
    }

    /// Flips `f` and says how the button's LED must now look: lit in
    /// `color` when the flag is on, off otherwise.
    pub fn toggle_button(&mut self, f: Flag, key: u8, color: u8) -> (r: Effect)
        ensures
            *final(self) == old(self).toggled(f),
            r == led_for(key, final(self).has(f), color),
    {
        self.toggle(f);
        let on = self.contains(f);
        Effect::Led { key, mode: LedMode::On100Percent, color: if on { color } else { LED_OFF } }
    }
}

/// The LED command for a button that is lit in `color` or switched off.
pub open spec fn led_for(key: u8, on: bool, color: u8) -> Effect {
    Effect::Led { key, mode: LedMode::On100Percent, color: if on { color } else { LED_OFF } }
}

/// Flipping a flag changes that flag and leaves every other one as it was.
pub proof fn lemma_flip_only(s: ToggleStates, f: Flag)
    ensures
        s.toggled(f).has(f) == !s.has(f),
        forall|g: Flag| g != f ==> (#[trigger] s.toggled(f).has(g) == s.has(g)),
{
    lemma_xor_same_bit(s.bits, f.index());
    assert forall|g: Flag| g != f implies (#[trigger] s.toggled(f).has(g) == s.has(g)) by {
        lemma_xor_other_bit(s.bits, f.index(), g.index());
    }
}

/// Toggling any flag twice gives back the set it started from.
pub proof fn lemma_toggle_involution(s: ToggleStates, f: Flag)
    ensures
        s.toggled(f).toggled(f) == s,
{
    lemma_xor_twice(s.bits, f.spec_mask());
}

} // verus!
