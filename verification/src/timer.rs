//! Frame-counting timers. One call to `tick` is exactly one simulation frame;
//! nothing here reads a clock, so two peers that tick in lockstep agree.

use vstd::prelude::*;

verus! {

/// A timer that counts whole simulation frames and pulses `finished` for
/// exactly the one tick on which it wraps back to zero.
#[derive(Clone, Copy, PartialEq, Eq, Structural, Debug)]
pub struct SpriteTimer {
    pub total_frames: u32,
    pub current_frame: u32,
    pub finished: bool,
}

impl SpriteTimer {
    /// Well-formed: the timer has a positive period and its cursor is inside it.
    pub open spec fn wf(self) -> bool {
        self.total_frames > 0 && self.current_frame < self.total_frames
    }

    /// The timer state after one tick: the cursor advances, and wraps to zero
    /// with a one-frame `finished` pulse when it reaches the period.
    pub open spec fn spec_tick(self) -> SpriteTimer {
        if self.current_frame + 1 == self.total_frames {
            SpriteTimer { total_frames: self.total_frames, current_frame: 0, finished: true }
        } else {
            SpriteTimer {
                total_frames: self.total_frames,
                current_frame: (self.current_frame + 1) as u32,
                finished: false,
            }
        }
    }

    pub fn new(total_frames: u32) -> (r: SpriteTimer)
        requires
            total_frames > 0,
        ensures
            r == (SpriteTimer { total_frames, current_frame: 0, finished: false }),
            r.wf(),
    {
        SpriteTimer { total_frames, current_frame: 0, finished: false }
    }

    /// Advance the timer by one frame.
    pub fn tick(&mut self)
        requires
            old(self).wf(),
        ensures
            *final(self) == old(self).spec_tick(),
            final(self).wf(),
    {
        self.finished = false;
        self.current_frame = self.current_frame + 1;
        if self.current_frame == self.total_frames {
            self.finished = true;
            self.current_frame = 0;
        }
    }

    /// Whether the most recent `tick` wrapped the timer.
    pub fn finished(&mut self) -> (r: bool)
        ensures
            *final(self) == *old(self),
            r == old(self).finished,
    {
        self.finished
    }

    /// Rewind the cursor and clear the pulse; the period is kept.
    pub fn reset(&mut self)
        ensures
            *final(self) == (SpriteTimer {
                total_frames: old(self).total_frames,
                current_frame: 0,
                finished: false,
            }),
    {
        self.current_frame = 0;
        self.finished = false;
    }
}

/// The mathematical model of an `AnimationConfig`.
#[verifier::ext_equal]
pub struct AnimationConfigV {
    pub sprite_timer: SpriteTimer,
    pub current_frame: u32,
    pub frame_times: Seq<u8>,
}

impl AnimationConfigV {
    /// Well-formed: at least one frame, every frame lasts at least one tick,
    /// and the cursor indexes a real frame.
    pub open spec fn wf(self) -> bool {
        &&& self.sprite_timer.wf()
        &&& self.frame_times.len() > 0
        &&& forall|i: int| 0 <= i < self.frame_times.len() ==> self.frame_times[i] > 0
        &&& self.current_frame < self.frame_times.len()
    }

    /// The pristine playback state for a duration table, as `new` builds it.
    pub open spec fn pristine(frame_times: Seq<u8>) -> AnimationConfigV {
        AnimationConfigV {
            sprite_timer: SpriteTimer {
                total_frames: frame_times[0] as u32,
                current_frame: 0,
                finished: false,
            },
            current_frame: 0,
            frame_times,
        }
    }

    /// The playback state after a full rewind: first frame, timer cleared.
    pub open spec fn spec_reset(self) -> AnimationConfigV {
        AnimationConfigV {
            sprite_timer: SpriteTimer {
                total_frames: self.sprite_timer.total_frames,
                current_frame: 0,
                finished: false,
            },
            current_frame: 0,
            frame_times: self.frame_times,
        }
    }

    /// Whether playback has walked past the last frame.
    pub open spec fn spec_is_done(self) -> bool {
        self.current_frame == self.frame_times.len()
    }

    /// One tick of animation playback: the frame timer steps; when it wraps,
    /// the cursor advances. The second component reports that playback walked
    /// past the last frame, on which the cursor rewinds to the first.
    pub open spec fn spec_anim_step(self) -> (AnimationConfigV, bool) {
        let t = self.sprite_timer.spec_tick();
        let cleared = SpriteTimer { total_frames: t.total_frames, current_frame: 0, finished: false };
        if t.finished {
            if self.current_frame + 1 == self.frame_times.len() {
                (
                    AnimationConfigV {
                        sprite_timer: cleared,
                        current_frame: 0,
                        frame_times: self.frame_times,
                    },
                    true,
                )
            } else {
                (
                    AnimationConfigV {
                        sprite_timer: cleared,
                        current_frame: (self.current_frame + 1) as u32,
                        frame_times: self.frame_times,
                    },
                    false,
                )
            }
        } else {
            (
                AnimationConfigV {
                    sprite_timer: t,
                    current_frame: self.current_frame,
                    frame_times: self.frame_times,
                },
                false,
            )
        }
    }
}

/// The playback position of one animation: a per-frame timer plus the index of
/// the animation frame it is timing, against a list of per-frame durations.
#[derive(Clone, PartialEq, Debug)]
pub struct AnimationConfig {
    pub sprite_timer: SpriteTimer,
    pub current_frame: u32,
    pub frame_times: Vec<u8>,
}

impl View for AnimationConfig {
    type V = AnimationConfigV;

    open spec fn view(&self) -> AnimationConfigV {
        AnimationConfigV {
            sprite_timer: self.sprite_timer,
            current_frame: self.current_frame,
            frame_times: self.frame_times@,
        }
    }
}

impl AnimationConfig {
    /// Well-formed: the view's well-formedness, on the executable type.
    pub open spec fn wf(self) -> bool {
        self@.wf()
    }

    pub fn new(frame_times: Vec<u8>) -> (r: AnimationConfig)
        requires
            frame_times@.len() > 0,
            frame_times@[0] > 0,
        ensures
            r.sprite_timer == (SpriteTimer {
                total_frames: frame_times@[0] as u32,
                current_frame: 0,
                finished: false,
            }),
            r.current_frame == 0,
            r.frame_times@ == frame_times@,
    {
        let first = frame_times[0];
        AnimationConfig {
            sprite_timer: SpriteTimer::new(first as u32),
            current_frame: 0,
            frame_times,
        }
    }

    /// Reload the per-frame timer with the duration of the current frame.
    pub fn advance_to_next_frame(&mut self)
        requires
            old(self).current_frame < old(self).frame_times@.len(),
            old(self).frame_times@[old(self).current_frame as int] > 0,
        ensures
            final(self).sprite_timer == (SpriteTimer {
                total_frames: old(self).frame_times@[old(self).current_frame as int] as u32,
                current_frame: 0,
                finished: false,
            }),
            final(self).current_frame == old(self).current_frame,
            final(self).frame_times@ == old(self).frame_times@,
    {
        let duration = self.frame_times[self.current_frame as usize];
        self.sprite_timer = SpriteTimer::new(duration as u32);
    }

    /// The state after a full rewind: first frame, timer cleared.
    pub open spec fn spec_reset(self) -> AnimationConfig {
        AnimationConfig {
            sprite_timer: SpriteTimer {
                total_frames: self.sprite_timer.total_frames,
                current_frame: 0,
                finished: false,
            },
            current_frame: 0,
            frame_times: self.frame_times,
        }
    }

    pub fn reset(&mut self)
        ensures
            *final(self) == old(self).spec_reset(),
    {
        self.current_frame = 0;
        self.sprite_timer.reset();
    }

    /// Whether playback has walked past the last frame.
    pub open spec fn spec_is_done(self) -> bool {
        self.current_frame == self.frame_times@.len()
    }

    pub fn is_done(&self) -> (r: bool)
        ensures
            r == self.spec_is_done(),
    {
        self.current_frame as usize == self.frame_times.len()
    }

    /// An exact copy of the playback state.
    pub fn duplicate(&self) -> (r: AnimationConfig)
        ensures
            r@ == self@,
    {
        let mut frame_times: Vec<u8> = Vec::new();
        let mut i: usize = 0;
        while i < self.frame_times.len()
            invariant
                i <= self.frame_times@.len(),
                frame_times@ == self.frame_times@.take(i as int),
            decreases self.frame_times@.len() - i,
        {
            frame_times.push(self.frame_times[i]);
            proof {
                assert(frame_times@ =~= self.frame_times@.take(i + 1));
            }
            i = i + 1;
        }
        proof {
            assert(frame_times@ =~= self.frame_times@);
        }
        let r = AnimationConfig {
            sprite_timer: self.sprite_timer,
            current_frame: self.current_frame,
            frame_times,
        };
        proof {
            assert(r@ =~= self@);
        }
        r
    }
}

} // verus!
