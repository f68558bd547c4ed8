use vstd::prelude::*;

verus! {

/// Volume, in percent of full volume, applied to the sounds of a frame
/// after `sounds_played` sounds were played in the previous frame: a simple
/// compressor that keeps many simultaneous sounds from clipping.
pub open spec fn volume_percent_of(sounds_played: usize) -> u32 {
    if sounds_played <= 2 {
        100
    } else if sounds_played == 3 {
        80
    } else if sounds_played == 4 {
        60
    } else if sounds_played == 5 {
        40
    } else {
        30
    }
}

/// Per-frame sound budget: how many sounds were played this frame and how
/// many may be.
#[derive(Clone, Copy, Debug, PartialEq, Eq, Structural)]
pub struct SoundCounter {
    pub sounds_this_frame: usize,
    pub max_sounds_per_frame: usize,
}

impl SoundCounter {
    /// A fresh budget of three sounds per frame.
    pub fn new() -> (c: SoundCounter)
        ensures
            c.sounds_this_frame == 0,
            c.max_sounds_per_frame == 3,
    {
        SoundCounter { sounds_this_frame: 0, max_sounds_per_frame: 3 }
    }

    /// Whether one more sound may be played this frame; if so, it is counted.
    /// A counter within its budget stays within it, so no more sounds than
    /// the budget are played between two calls of `start_frame`.
    pub fn try_play(&mut self) -> (played: bool)
        ensures
            old(self).sounds_this_frame <= old(self).max_sounds_per_frame
                ==> final(self).sounds_this_frame <= final(self).max_sounds_per_frame,
            played ==> final(self).sounds_this_frame <= final(self).max_sounds_per_frame,
            played == (old(self).sounds_this_frame < old(self).max_sounds_per_frame),
            final(self).max_sounds_per_frame == old(self).max_sounds_per_frame,
            final(self).sounds_this_frame == (if played {
                old(self).sounds_this_frame + 1
            } else {
                old(self).sounds_this_frame as int
            }),
    {
        if self.sounds_this_frame < self.max_sounds_per_frame {
            self.sounds_this_frame = self.sounds_this_frame + 1;
            true
        } else {
            false
        }
    }

    /// Start a new frame: returns the volume (in percent) for the sounds of
    /// the new frame, from the number of sounds played in the last one, and
    /// resets the count.
    pub fn start_frame(&mut self) -> (volume_percent: u32)
        ensures
            volume_percent == volume_percent_of(old(self).sounds_this_frame),
            final(self).sounds_this_frame == 0,
            final(self).max_sounds_per_frame == old(self).max_sounds_per_frame,
    {
        let v = volume_percent(self.sounds_this_frame);
        self.sounds_this_frame = 0;
        v
    }
}

impl Default for SoundCounter {
    fn default() -> (c: SoundCounter)
        ensures
            c == (SoundCounter { sounds_this_frame: 0, max_sounds_per_frame: 3 }),
    {
        SoundCounter::new()
    }
}

/// Volume, in percent, for the sounds of a frame after `sounds_played`
/// sounds in the previous one (see `volume_percent_of`).
pub fn volume_percent(sounds_played: usize) -> (v: u32)
    ensures
        v == volume_percent_of(sounds_played),
{
    if sounds_played <= 2 {
        100
    } else if sounds_played == 3 {
        80
    } else if sounds_played == 4 {
        60
    } else if sounds_played == 5 {
        40
    } else {
        30
    }
}

/// More sounds in a frame never make the next frame louder, and the volume
/// stays between 30 and 100 percent.
pub proof fn law_compression_monotone(a: usize, b: usize)
    requires
        a <= b,
    ensures
        volume_percent_of(b) <= volume_percent_of(a),
        30 <= volume_percent_of(b) <= 100,
{
}

} // verus!
