//! Purely visual effect trackers: where an effect plays, which frame it is
//! on, and when it has spent itself. Effects never influence the simulation.

use vstd::prelude::*;
use crate::character::ScreenSide;
use crate::timer::SpriteTimer;

verus! {

/// The intensity tier of an effect.
#[derive(Clone, Copy, PartialEq, Eq, Structural, Debug)]
pub enum EffectKind {
    Low,
    Medium,
    High,
}

/// One effect in the world: its frame timer, how many frames it plays, which
/// frame it is on, whether it is still live, and where it is drawn.
#[derive(Clone, Copy, PartialEq, Eq, Structural, Debug)]
pub struct Effect {
    pub sprite_timer: SpriteTimer,
    pub number_of_frames: usize,
    pub current_frame: usize,
    pub is_use: bool,
    pub effect_kind: EffectKind,
    pub position_x: i64,
    pub position_y: i64,
    pub screen_side: ScreenSide,
}

/// The effect's state after one frame: the timer steps, and each time it
/// wraps the frame cursor advances; past the last frame the effect is spent.
pub open spec fn spec_effect_advance(e: Effect) -> Effect {
    let t = e.sprite_timer.spec_tick();
    if t.finished {
        Effect {
            sprite_timer: t,
            current_frame: (e.current_frame + 1) as usize,
            is_use: !(e.current_frame + 1 == e.number_of_frames) && e.is_use,
            ..e
        }
    } else {
        Effect { sprite_timer: t, ..e }
    }
}

impl Effect {
    pub fn new(
        frame_duration: u32,
        number_of_frames: usize,
        effect_kind: EffectKind,
        position_x: i64,
        position_y: i64,
        screen_side: ScreenSide,
    ) -> (r: Effect)
        requires
            frame_duration > 0,
        ensures
            r == (Effect {
                sprite_timer: SpriteTimer {
                    total_frames: frame_duration,
                    current_frame: 0,
                    finished: false,
                },
                number_of_frames,
                current_frame: 0,
                is_use: true,
                effect_kind,
                position_x,
                position_y,
                screen_side,
            }),
    {
        Effect {
            sprite_timer: SpriteTimer::new(frame_duration),
            number_of_frames,
            current_frame: 0,
            is_use: true,
            effect_kind,
            position_x,
            position_y,
            screen_side,
        }
    }

    /// Advance the effect one frame. Driving a spent effect further is
    /// harmless: the frame cursor keeps counting and the effect stays spent.
    pub fn advance(&mut self)
        requires
            old(self).sprite_timer.wf(),
            old(self).current_frame < usize::MAX,
        ensures
            *final(self) == spec_effect_advance(*old(self)),
    {
        self.sprite_timer.tick();
        if self.sprite_timer.finished() {
            self.current_frame = self.current_frame + 1;
            if self.current_frame == self.number_of_frames {
                self.is_use = false;
            }
        }
    }
}

} // verus!
