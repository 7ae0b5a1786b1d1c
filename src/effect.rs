use vstd::prelude::*;

verus! {

/// One of the three logical playback paths.
#[derive(Clone, Copy, Debug, PartialEq, Eq, Structural)]
pub enum QueueKind {
    Music,
    Ambience,
    SoundEffect,
}

/// Brightness modes used when lighting a control-surface LED.
#[derive(Clone, Copy, Debug, PartialEq, Eq, Structural)]
pub enum LedMode {
    On10Percent,
    On100Percent,
}

/// Colour code of an unlit LED.
pub const LED_OFF: u8 = 0;

/// Colour code used for toggled buttons.
pub const LED_GREEN: u8 = 21;

/// Response curve of a channel filter.
#[derive(Clone, Copy, Debug, PartialEq, Eq, Structural)]
pub enum FilterKind {
    LowPass,
    HighPass,
    AllPass,
    SinglePoleLowPassApprox,
}

/// What a filter channel asks the signal chain to run.
#[derive(Clone, Copy, Debug, PartialEq, Eq, Structural)]
pub struct FilterSetting {
    pub kind: FilterKind,
    /// Cutoff frequency in millihertz.
    pub cutoff_millihertz: u64,
}

/// Work that the library's decisions hand to the audio and LED side.
#[derive(Clone, Copy, Debug, PartialEq, Eq, Structural)]
pub enum Effect {
    /// Set the LED of a control-surface button or pad.
    Led { key: u8, mode: LedMode, color: u8 },
    /// Stop and clear the queue, then start playing the files that the
    /// queue model now holds, at the model's volume.
    Play(QueueKind),
    Pause(QueueKind),
    Resume(QueueKind),
    /// Stop the queue and drop everything in it.
    Stop(QueueKind),
    /// Drop the track that is playing and go on with the next one.
    SkipOne(QueueKind),
    /// Set the output volume, in thousandths of full scale.
    SetVolume(QueueKind, u16),
    /// Rebuild the channel's live filter coefficients.
    Filter(QueueKind, FilterSetting),
    /// Recompute the state snapshot and push it to the front end.
    Snapshot,
    /// Ask the command relay to refresh the front end.
    RequestRefresh,
}

} // verus!

verus! {

/// Why an input could not be acted on.
#[derive(Clone, Copy, Debug, PartialEq, Eq, Structural)]
pub enum CoreError {
    /// No folder or file exists for the input's prefix.
    ResourceNotFound,
    /// The input maps to nothing (an unmapped key or an index out of range).
    InvalidInput,
}

} // verus!
