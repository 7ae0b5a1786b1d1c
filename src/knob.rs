use vstd::prelude::*;

verus! {

/// Full scale of a knob, volume or filter percentage: values are kept in
/// thousandths, so `FULL_SCALE` stands for 1.0.
pub const FULL_SCALE: u16 = 1000;

/// How far one encoder tick moves a knob value (0.005 of full scale).
pub const KNOB_STEP: u16 = 5;

/// Number of knobs on the control surface.
pub const KNOB_COUNT: usize = 8;

/// Direction of one tick of a relative encoder.
#[derive(Clone, Copy, Debug, PartialEq, Eq, Structural)]
pub enum KnobValueUpdate {
    Increment,
    Decrement,
}

impl KnobValueUpdate {
    /// The signed unit delta of the tick.
    pub open spec fn delta(self) -> int {
        match self {
            KnobValueUpdate::Increment => 1,
            KnobValueUpdate::Decrement => -1,
        }
    }

    /// Relative-encoder convention: above 63 turns down, the rest turns up.
    pub open spec fn spec_from_encoder(value: u8) -> KnobValueUpdate {
        if value > 63 {
            KnobValueUpdate::Decrement
        } else {
            KnobValueUpdate::Increment
        }
    }

    pub open spec fn spec_from_signed(value: int) -> KnobValueUpdate {
        if value > 0 {
            KnobValueUpdate::Increment
        } else {
            KnobValueUpdate::Decrement
        }
    }

    /// The signed unit delta of the tick.
    pub fn signed_delta(self) -> (r: i8)
        ensures
            r == self.delta(),
    {
        match self {
            KnobValueUpdate::Increment => 1,
            KnobValueUpdate::Decrement => -1,
        }
    }
}

impl From<u8> for KnobValueUpdate {
    fn from(value: u8) -> Self {
        if value > 63 {
            KnobValueUpdate::Decrement
        } else {
            KnobValueUpdate::Increment
        }
    }
}

impl vstd::std_specs::convert::FromSpecImpl<u8> for KnobValueUpdate {
    open spec fn obeys_from_spec() -> bool {
        true
    }

    open spec fn from_spec(v: u8) -> Self {
        KnobValueUpdate::spec_from_encoder(v)
    }
}

impl From<KnobValueUpdate> for u8 {
    fn from(value: KnobValueUpdate) -> Self {
        match value {
            KnobValueUpdate::Increment => 1,
            KnobValueUpdate::Decrement => 127,
        }
    }
}

impl vstd::std_specs::convert::FromSpecImpl<KnobValueUpdate> for u8 {
    open spec fn obeys_from_spec() -> bool {
        true
    }

    open spec fn from_spec(v: KnobValueUpdate) -> Self {
        match v {
            KnobValueUpdate::Increment => 1,
            KnobValueUpdate::Decrement => 127,
        }
    }
}

impl From<KnobValueUpdate> for i8 {
    fn from(value: KnobValueUpdate) -> Self {
        match value {
            KnobValueUpdate::Increment => 1,
            KnobValueUpdate::Decrement => -1,
        }
    }
}

impl vstd::std_specs::convert::FromSpecImpl<KnobValueUpdate> for i8 {
    open spec fn obeys_from_spec() -> bool {
        true
    }

    open spec fn from_spec(v: KnobValueUpdate) -> Self {
        match v {
            KnobValueUpdate::Increment => 1i8,
            KnobValueUpdate::Decrement => -1i8,
        }
    }
}

impl From<i8> for KnobValueUpdate {
    fn from(value: i8) -> Self {
        if value > 0 {
            KnobValueUpdate::Increment
        } else {
            KnobValueUpdate::Decrement
        }
    }
}

impl vstd::std_specs::convert::FromSpecImpl<i8> for KnobValueUpdate {
    open spec fn obeys_from_spec() -> bool {
        true
    }

    open spec fn from_spec(v: i8) -> Self {
        KnobValueUpdate::spec_from_signed(v as int)
    }
}

impl From<i16> for KnobValueUpdate {
    fn from(value: i16) -> Self {
        if value > 0 {
            KnobValueUpdate::Increment
        } else {
            KnobValueUpdate::Decrement
        }
    }
}

impl vstd::std_specs::convert::FromSpecImpl<i16> for KnobValueUpdate {
    open spec fn obeys_from_spec() -> bool {
        true
    }

    open spec fn from_spec(v: i16) -> Self {
        KnobValueUpdate::spec_from_signed(v as int)
    }
}

impl From<i32> for KnobValueUpdate {
    fn from(value: i32) -> Self {
        if value > 0 {
            KnobValueUpdate::Increment
        } else {
            KnobValueUpdate::Decrement
        }
    }
}

impl vstd::std_specs::convert::FromSpecImpl<i32> for KnobValueUpdate {
    open spec fn obeys_from_spec() -> bool {
        true
    }

    open spec fn from_spec(v: i32) -> Self {
        KnobValueUpdate::spec_from_signed(v as int)
    }
}

impl From<i64> for KnobValueUpdate {
    fn from(value: i64) -> Self {
        if value > 0 {
            KnobValueUpdate::Increment
        } else {
            KnobValueUpdate::Decrement
        }
    }
}

impl vstd::std_specs::convert::FromSpecImpl<i64> for KnobValueUpdate {
    open spec fn obeys_from_spec() -> bool {
        true
    }

    open spec fn from_spec(v: i64) -> Self {
        KnobValueUpdate::spec_from_signed(v as int)
    }
}

impl From<usize> for KnobValueUpdate {
    fn from(value: usize) -> Self {
        if value > 63 {
            KnobValueUpdate::Decrement
        } else {
            KnobValueUpdate::Increment
        }
    }
}

impl vstd::std_specs::convert::FromSpecImpl<usize> for KnobValueUpdate {
    open spec fn obeys_from_spec() -> bool {
        true
    }

    open spec fn from_spec(v: usize) -> Self {
        if v > 63 {
            KnobValueUpdate::Decrement
        } else {
            KnobValueUpdate::Increment
        }
    }
}

/// `v` held to the range `[0, FULL_SCALE]`.
pub open spec fn clamp_scale(v: int) -> int {
    if v < 0 {
        0
    } else if v > FULL_SCALE as int {
        FULL_SCALE as int
    } else {
        v
    }
}

/// A value after one encoder tick: moved by one step and held to the range.
pub open spec fn stepped(v: int, u: KnobValueUpdate) -> int {
    clamp_scale(v + u.delta() * KNOB_STEP as int)
}

/// Holds `v` to `[0, FULL_SCALE]`.
pub fn clamp_to_scale(v: i64) -> (r: u16)
    ensures
        r == clamp_scale(v as int),
{
    if v < 0 {
        0
    } else if v > FULL_SCALE as i64 {
        FULL_SCALE
    } else {
        v as u16
    }
}

/// Knob values, one per knob, in thousandths; knob `k` (from 1) sits at
/// position `k - 1`.
#[derive(Clone, Debug)]
pub struct KnobValues {
    pub values: Vec<u16>,
}

/// The value of knob `index` in `s`, when `s` has that knob.
pub open spec fn knob_at(s: Seq<u16>, index: u8) -> Option<u16> {
    if 1 <= index && index as int <= s.len() {
        Some(s[index - 1])
    } else {
        None
    }
}

impl KnobValues {
    /// Eight knobs, every value within full scale.
    pub open spec fn wf(&self) -> bool {
        &&& self.values@.len() == KNOB_COUNT
        &&& forall|i: int| 0 <= i < self.values@.len() ==> self.values@[i] <= FULL_SCALE
    }

    pub open spec fn value(&self, index: u8) -> Option<u16> {
        knob_at(self.values@, index)
    }

    /// The start-up table: knobs 1, 5 and 7 (the three volumes) at 0.1,
    /// the others at 0.
    pub fn new() -> (r: KnobValues)
        ensures
            r.values@ == seq![100u16, 0, 0, 0, 100, 0, 100, 0],
            r.wf(),
    {
        let r = KnobValues { values: vec![100u16, 0, 0, 0, 100, 0, 100, 0] };
        assert(r.values@ == seq![100u16, 0, 0, 0, 100, 0, 100, 0]);
        r
    }

    pub fn get(&self, index: u8) -> (r: Option<u16>)
        ensures
            r == self.value(index),
    {
        if 1 <= index && (index as usize) <= self.values.len() {
            Some(self.values[index as usize - 1])
        } else {
            None
        }
    }

    /// Stores `v` for knob `index`; a knob the table does not have is left out.
    pub fn set(&mut self, index: u8, v: u16)
        ensures
            1 <= index <= old(self).values@.len() ==> final(self).values@ == old(
                self,
            ).values@.update(index - 1, v),
            !(1 <= index <= old(self).values@.len()) ==> *final(self) == *old(self),
    {
        if 1 <= index && (index as usize) <= self.values.len() {
            self.values.set(index as usize - 1, v);
        }
    }

    /// Moves knob `index` one step in the direction of `u`, held to full scale.
    pub fn apply_tick(&mut self, index: u8, u: KnobValueUpdate)
        ensures
            1 <= index <= old(self).values@.len() ==> final(self).values@ == old(
                self,
            ).values@.update(index - 1, stepped(old(self).values@[index - 1] as int, u) as u16),
            !(1 <= index <= old(self).values@.len()) ==> *final(self) == *old(self),
    {
        if 1 <= index && (index as usize) <= self.values.len() {
            let old_v = self.values[index as usize - 1];
            let d = u.signed_delta();
            let v = clamp_to_scale(old_v as i64 + d as i64 * KNOB_STEP as i64);
            self.values.set(index as usize - 1, v);
        }
    }
}

/// `n` ticks in the direction of `u`, starting from `v`.
pub open spec fn ticks(v: int, u: KnobValueUpdate, n: nat) -> int
    decreases n,
{
    if n == 0 {
        v
    } else {
        stepped(ticks(v, u, (n - 1) as nat), u)
    }
}

/// Repeated ticks saturate: increments stop at full scale and decrements at
/// zero, however many ticks come.
pub proof fn lemma_ticks_saturate(v: int, n: nat)
    requires
        0 <= v <= FULL_SCALE,
    ensures
        ticks(v, KnobValueUpdate::Increment, n) == if v + KNOB_STEP * n > FULL_SCALE {
            FULL_SCALE as int
        } else {
            v + KNOB_STEP * n
        },
        ticks(v, KnobValueUpdate::Decrement, n) == if v - KNOB_STEP * n < 0 {
            0
        } else {
            v - KNOB_STEP * n
        },
        n >= FULL_SCALE / KNOB_STEP ==> ticks(v, KnobValueUpdate::Increment, n) == FULL_SCALE,
        n >= FULL_SCALE / KNOB_STEP ==> ticks(v, KnobValueUpdate::Decrement, n) == 0,
    decreases n,
{
    if n > 0 {
        lemma_ticks_saturate(v, (n - 1) as nat);
    }
}

} // verus!
