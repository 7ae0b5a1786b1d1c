use vstd::prelude::*;

use crate::effect::{FilterKind, FilterSetting};
use crate::knob::{clamp_scale, clamp_to_scale, FULL_SCALE, KNOB_STEP};

verus! {

/// Sample rate of the audio path, in hertz.
pub const SAMPLE_RATE_HZ: u32 = 44100;

/// Cutoff state of one channel's filter. The percentage is kept in
/// thousandths of full scale.
#[derive(Clone, Copy, Debug, PartialEq, Eq, Structural)]
pub struct FilterData {
    pub previous_filter_percentage: u16,
    pub filter_type: FilterKind,
    pub sample_rate_hz: u32,
}

/// Half the sample rate, in millihertz.
pub open spec fn nyquist_millihertz(sample_rate_hz: int) -> int {
    sample_rate_hz * 500
}

/// Cutoff for a percentage `p` (in thousandths): `(fs / 100) * p` hertz,
/// in millihertz and rounded down, held to the Nyquist frequency.
pub open spec fn cutoff_millihertz(sample_rate_hz: int, p: int) -> int {
    let target = sample_rate_hz * p / 100;
    if target < nyquist_millihertz(sample_rate_hz) {
        target
    } else {
        nyquist_millihertz(sample_rate_hz)
    }
}

/// The percentage after `delta` steps from `previous`, held to `[0, 1]`.
pub open spec fn next_percentage(previous: int, delta: int) -> int {
    clamp_scale(previous + delta * KNOB_STEP as int)
}

impl FilterData {
    pub open spec fn new_spec(sample_rate_hz: u32) -> FilterData {
        FilterData {
            previous_filter_percentage: FULL_SCALE,
            filter_type: FilterKind::AllPass,
            sample_rate_hz,
        }
    }

    /// The state a channel starts in: fully open and passing everything.
    pub fn new(sample_rate_hz: u32) -> (r: FilterData)
        ensures
            r == FilterData::new_spec(sample_rate_hz),
    {
        FilterData {
            previous_filter_percentage: FULL_SCALE,
            filter_type: FilterKind::AllPass,
            sample_rate_hz,
        }
    }

    pub open spec fn cutoff(self) -> int {
        cutoff_millihertz(self.sample_rate_hz as int, self.previous_filter_percentage as int)
    }

    pub open spec fn spec_setting(self) -> FilterSetting {
        FilterSetting { kind: self.filter_type, cutoff_millihertz: self.cutoff() as u64 }
    }

    /// The channel after `delta` steps with the response `kind`.
    pub open spec fn changed(self, delta: int, kind: FilterKind) -> FilterData {
        FilterData {
            previous_filter_percentage: next_percentage(self.previous_filter_percentage as int, delta) as u16,
            filter_type: kind,
            ..self
        }
    }

    /// What the signal chain must run for this channel.
    pub fn setting(&self) -> (r: FilterSetting)
        ensures
            r == self.spec_setting(),
            r.cutoff_millihertz <= nyquist_millihertz(self.sample_rate_hz as int),
    {
        let fs = self.sample_rate_hz as u64;
        let p = self.previous_filter_percentage as u64;
        proof {
            assert(fs * p <= 4294967295u64 * 65535u64) by (nonlinear_arith)
                requires
                    fs <= 4294967295u64,
                    p <= 65535u64,
            ;
        }
        let nyquist = fs * 500;
        let target = fs * p / 100;
        let cutoff = if target < nyquist {
            target
        } else {
            nyquist
        };
        FilterSetting { kind: self.filter_type, cutoff_millihertz: cutoff }
    }
}

/// Moves the channel's cutoff percentage by `delta` steps, switches it to
/// `kind`, and returns the setting the signal chain must now run.
pub fn change_filter_frequency_value(
    channel: &mut FilterData,
    delta: i32,
    kind: FilterKind,
) -> (r: FilterSetting)
    ensures
        *final(channel) == old(channel).changed(delta as int, kind),
        r == final(channel).spec_setting(),
        r.cutoff_millihertz <= nyquist_millihertz(old(channel).sample_rate_hz as int),
{
    let next = clamp_to_scale(channel.previous_filter_percentage as i64 + delta as i64 * KNOB_STEP as i64);
    channel.previous_filter_percentage = next;
    channel.filter_type = kind;
    channel.setting()
}

/// The channel after a sequence of `(delta, kind)` changes.
pub open spec fn apply_changes(c: FilterData, changes: Seq<(int, FilterKind)>) -> FilterData
    decreases changes.len(),
{
    if changes.len() == 0 {
        c
    } else {
        apply_changes(c, changes.drop_last()).changed(changes.last().0, changes.last().1)
    }
}

/// However many filter changes are applied, the cutoff never goes above
/// half the sample rate.
pub proof fn lemma_cutoff_below_nyquist(c: FilterData, changes: Seq<(int, FilterKind)>)
    ensures
        apply_changes(c, changes).cutoff() <= nyquist_millihertz(c.sample_rate_hz as int),
        apply_changes(c, changes).sample_rate_hz == c.sample_rate_hz,
    decreases changes.len(),
{
    if changes.len() > 0 {
        lemma_cutoff_below_nyquist(c, changes.drop_last());
    }
}

} // verus!
