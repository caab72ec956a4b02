//! The audio subsystem's bookkeeping.
//!
//! Actual playback is fire-and-forget platform work in the host layer
//! (one detached stream per sound, no cancellation once started); the
//! engine decides here which sounds are kept, whether adding a sound
//! starts playback, and how the mute flag gates a playback request.
//! Volume crosses the boundary as the `f32::to_bits` pattern of the
//! 0.0 to 1.0 value, keeping the verified core free of floating point.

use vstd::prelude::*;

verus! {

/// One registered sound: its id, source path, volume (as `f32` bits),
/// mute flag and whether it plays as soon as it is added.
#[derive(Debug, Clone, PartialEq, Eq)]
pub struct Sound {
    pub id: u32,
    pub source: String,
    pub volume_bits: u32,
    pub muted: bool,
    pub play_on_start: bool,
}

impl Sound {
    /// A new sound, not muted.
    pub fn new(id: u32, source: String, volume_bits: u32, play_on_start: bool) -> (r: Self)
        ensures
            r.id == id,
            r.source == source,
            r.volume_bits == volume_bits,
            r.play_on_start == play_on_start,
            !r.muted,
    {
        Sound { id, source, volume_bits, muted: false, play_on_start }
    }

    /// Whether a playback request proceeds: a muted sound is not played
    /// (muting afterwards does not stop a stream already running).
    pub fn play(&self) -> (start: bool)
        ensures
            start == !self.muted,
    {
        !self.muted
    }

    /// Mutes the sound; only future playback requests are affected.
    pub fn mute(&mut self)
        ensures
            final(self).muted,
            final(self).id == old(self).id,
            final(self).source == old(self).source,
            final(self).volume_bits == old(self).volume_bits,
            final(self).play_on_start == old(self).play_on_start,
    {
        self.muted = true;
    }

    /// Unmutes the sound.
    pub fn unmute(&mut self)
        ensures
            !final(self).muted,
            final(self).id == old(self).id,
            final(self).source == old(self).source,
            final(self).volume_bits == old(self).volume_bits,
            final(self).play_on_start == old(self).play_on_start,
    {
        self.muted = false;
    }
}

/// The ordered collection of registered sounds.
#[derive(Debug)]
pub struct SoundManager {
    pub id: u32,
    pub sounds: Vec<Sound>,
}

impl Default for SoundManager {
    /// An empty manager.
    fn default() -> (r: Self)
        ensures
            r.id == 0,
            r.sounds@ =~= Seq::<Sound>::empty(),
    {
        SoundManager { id: 0, sounds: Vec::new() }
    }
}

impl SoundManager {
    /// Registers a sound at the end of the list and says whether the
    /// host must start playback now: only a sound that asks to play on
    /// start and is not muted does.
    pub fn add(&mut self, sound: Sound) -> (start: bool)
        ensures
            final(self).sounds@ == old(self).sounds@.push(sound),
            final(self).id == old(self).id,
            start == (sound.play_on_start && !sound.muted),
    {
        let start = if sound.play_on_start { sound.play() } else { false };
        self.sounds.push(sound);
        start
    }

    /// Removes every sound with the given id, keeping the order of the
    /// rest.
    pub fn remove(&mut self, sound_id: u32)
        ensures
            final(self).sounds@ == old(self).sounds@.filter(|s: Sound| s.id != sound_id),
            final(self).id == old(self).id,
    {
        let ghost pred = |s: Sound| s.id != sound_id;
        let ghost orig = old(self).sounds@;
        let ghost mut m: int = 0;
        let mut k: usize = 0;
        #[verifier::loop_isolation(false)]
        while k < self.sounds.len()
            invariant
                0 <= m <= orig.len(),
                k == orig.take(m).filter(pred).len(),
                self.sounds@ == orig.take(m).filter(pred) + orig.skip(m),
                self.id == old(self).id,
            decreases orig.len() - m,
        {
            proof {
                assert(self.sounds@[k as int] == orig[m]);
                assert(orig.take(m + 1) =~= orig.take(m).push(orig[m]));
                orig.take(m).lemma_filter_push(orig[m], pred);
            }
            if self.sounds[k].id != sound_id {
                proof {
                    assert(self.sounds@ =~= orig.take(m + 1).filter(pred) + orig.skip(m + 1));
                }
                k = k + 1;
            } else {
                self.sounds.remove(k);
                proof {
                    assert(self.sounds@ =~= orig.take(m + 1).filter(pred) + orig.skip(m + 1));
                }
            }
            proof {
                m = m + 1;
            }
        }
        proof {
            assert(m == orig.len());
            assert(orig.take(m) =~= orig);
            assert(self.sounds@ =~= orig.filter(pred));
        }
    }
}

} // verus!
