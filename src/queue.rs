use vstd::prelude::*;

use crate::effect::QueueKind;
use crate::knob::{clamp_scale, clamp_to_scale, FULL_SCALE};

verus! {

/// What a queue holds, as plain values.
pub struct QueueView {
    pub files: Seq<String>,
    pub paused: bool,
    pub volume: u16,
    pub elapsed_seconds: u64,
}

/// The queue once `remaining` files are left to play (the ones that
/// finished dropped from the front) and the first has played `elapsed` seconds.
pub open spec fn synced(q: QueueView, remaining: nat, elapsed: u64) -> QueueView {
    QueueView {
        files: if remaining < q.files.len() {
            q.files.subrange(q.files.len() - remaining, q.files.len() as int)
        } else {
            q.files
        },
        elapsed_seconds: elapsed,
        ..q
    }
}

/// Model of one audio output queue: the files still queued (the first one
/// is playing), whether output is paused, its volume in thousandths, and
/// how far into the first file playback has got.
#[derive(Clone, Debug)]
pub struct PlaybackQueue {
    pub files: Vec<String>,
    pub paused: bool,
    pub volume: u16,
    pub elapsed_seconds: u64,
}

impl View for PlaybackQueue {
    type V = QueueView;

    open spec fn view(&self) -> QueueView {
        QueueView {
            files: self.files@,
            paused: self.paused,
            volume: self.volume,
            elapsed_seconds: self.elapsed_seconds,
        }
    }
}

impl PlaybackQueue {
    /// An empty queue at full volume.
    pub fn new() -> (r: PlaybackQueue)
        ensures
            r.files@.len() == 0,
            !r.paused,
            r.volume == FULL_SCALE,
            r.elapsed_seconds == 0,
    {
        PlaybackQueue { files: Vec::new(), paused: false, volume: FULL_SCALE, elapsed_seconds: 0 }
    }

    pub open spec fn remaining(&self) -> nat {
        self.files@.len()
    }

    /// The volume, in thousandths of full scale.
    pub fn get_volume(&self) -> (r: u16)
        ensures
            r == self.volume,
    {
        self.volume
    }

    /// Clears the queue and starts `files`, first one first.
    pub fn play_files(&mut self, files: Vec<String>)
        ensures
            final(self).files@ == files@,
            !final(self).paused,
            final(self).volume == old(self).volume,
            final(self).elapsed_seconds == 0,
    {
        self.files = files;
        self.paused = false;
        self.elapsed_seconds = 0;
    }

    pub fn pause(&mut self)
        ensures
            *final(self) == (PlaybackQueue { paused: true, ..*old(self) }),
    {
        self.paused = true;
    }

    pub fn resume(&mut self)
        ensures
            *final(self) == (PlaybackQueue { paused: false, ..*old(self) }),
    {
        self.paused = false;
    }

    /// Stops output and drops everything queued.
    pub fn stop(&mut self)
        ensures
            final(self).files@.len() == 0,
            final(self).paused == old(self).paused,
            final(self).volume == old(self).volume,
            final(self).elapsed_seconds == 0,
    {
        self.files = Vec::new();
        self.elapsed_seconds = 0;
    }

    /// Drops the file that is playing, if any.
    pub fn skip_one(&mut self)
        ensures
            old(self).files@.len() > 0 ==> final(self).files@ == old(self).files@.subrange(
                1,
                old(self).files@.len() as int,
            ),
            old(self).files@.len() == 0 ==> final(self).files@ == old(self).files@,
            final(self).paused == old(self).paused,
            final(self).volume == old(self).volume,
            final(self).elapsed_seconds == 0,
    {
        if self.files.len() > 0 {
            self.files.remove(0);
            assert(self.files@ =~= old(self).files@.subrange(1, old(self).files@.len() as int));
        }
        self.elapsed_seconds = 0;
    }

    /// Brings the model in line with the output device: `remaining` files
    /// are left to play and the first has played for `elapsed` seconds.
    /// Files that finished are dropped from the front.
    pub fn sync_with_output(&mut self, remaining: usize, elapsed: u64)
        ensures
            final(self)@ == synced(old(self)@, remaining as nat, elapsed),
    {
        if remaining < self.files.len() {
            let at = self.files.len() - remaining;
            let rest = self.files.split_off(at);
            self.files = rest;
        }
        self.elapsed_seconds = elapsed;
    }
}

/// Sets the queue's volume to `value` held to `[0, 1]` (thousandths) and
/// returns the volume the queue now has.
pub fn change_volume(queue: &mut PlaybackQueue, value: i64) -> (r: u16)
    ensures
        r == clamp_scale(value as int),
        *final(queue) == (PlaybackQueue { volume: r, ..*old(queue) }),
{
    queue.volume = clamp_to_scale(value);
    queue.volume
}

/// Moves the queue's volume by `value` thousandths, held to `[0, 1]`.
pub fn increase_volume(queue: &mut PlaybackQueue, value: i32) -> (r: u16)
    ensures
        r == clamp_scale(old(queue).volume + value),
        *final(queue) == (PlaybackQueue { volume: r, ..*old(queue) }),
{
    let v = queue.volume as i64 + value as i64;
    change_volume(queue, v)
}

/// Appends a file behind what is queued; with `play`, output resumes.
pub fn add_track_to_queue(queue: &mut PlaybackQueue, file_path: String, play: bool)
    ensures
        final(queue).files@ == old(queue).files@.push(file_path),
        final(queue).paused == (old(queue).paused && !play),
        final(queue).volume == old(queue).volume,
        final(queue).elapsed_seconds == old(queue).elapsed_seconds,
{
    queue.files.push(file_path);
    if play {
        queue.paused = false;
    }
}

/// Stops and clears the queue, then plays `file_path` alone.
pub fn play_track(queue: &mut PlaybackQueue, file_path: String)
    ensures
        final(queue).files@ == seq![file_path],
        !final(queue).paused,
        final(queue).volume == old(queue).volume,
        final(queue).elapsed_seconds == 0,
{
    queue.stop();
    add_track_to_queue(queue, file_path, true);
}

/// Number of files still queued, the playing one included.
pub fn get_n_of_remaining_tracks(queue: &PlaybackQueue) -> (r: u64)
    ensures
        r == queue.files@.len(),
{
    queue.files.len() as u64
}

/// Seconds played of the file that is playing.
pub fn get_current_track_elapsed_time(queue: &PlaybackQueue) -> (r: u64)
    ensures
        r == queue.elapsed_seconds,
{
    queue.elapsed_seconds
}

/// The three output queues.
#[derive(Clone, Debug)]
pub struct AudioSinks {
    pub music_queue: PlaybackQueue,
    pub ambience_queue: PlaybackQueue,
    pub sound_effect_queue: PlaybackQueue,
}

impl AudioSinks {
    pub fn new() -> (r: AudioSinks)
        ensures
            r.music_queue.files@.len() == 0 && !r.music_queue.paused,
            r.ambience_queue.files@.len() == 0 && !r.ambience_queue.paused,
            r.sound_effect_queue.files@.len() == 0 && !r.sound_effect_queue.paused,
            r.music_queue.volume == FULL_SCALE,
            r.ambience_queue.volume == FULL_SCALE,
            r.sound_effect_queue.volume == FULL_SCALE,
    {
        AudioSinks {
            music_queue: PlaybackQueue::new(),
            ambience_queue: PlaybackQueue::new(),
            sound_effect_queue: PlaybackQueue::new(),
        }
    }

    pub open spec fn get(&self, k: QueueKind) -> PlaybackQueue {
        match k {
            QueueKind::Music => self.music_queue,
            QueueKind::Ambience => self.ambience_queue,
            QueueKind::SoundEffect => self.sound_effect_queue,
        }
    }

    /// The queue for `k`.
    pub fn queue(&self, k: QueueKind) -> (r: &PlaybackQueue)
        ensures
            *r == self.get(k),
    {
        match k {
            QueueKind::Music => &self.music_queue,
            QueueKind::Ambience => &self.ambience_queue,
            QueueKind::SoundEffect => &self.sound_effect_queue,
        }
    }
}

} // verus!
