//! Projectiles in flight: spawned by a special move, advanced by pure
//! integer position updates, removed when they strike or leave the arena.

use vstd::prelude::*;
use crate::character::ScreenSide;
use crate::timer::{AnimationConfig, AnimationConfigV};
use crate::geometry::Vec2;

verus! {

/// Horizontal speed of a projectile, in coordinate units per frame.
pub const PROJECTILE_SPEED: i64 = 160;

/// A projectile whose x position leaves this band is removed from flight.
pub const PROJECTILE_MIN_X: i64 = -32000;
pub const PROJECTILE_MAX_X: i64 = 46336;

/// How many ticks each of a projectile's animation frames lasts.
pub const PROJECTILE_FRAME_TICKS: u8 = 20;

/// How many animation frames a projectile cycles through.
pub const PROJECTILE_FRAME_COUNT: usize = 4;

/// The mathematical model of a `Projectile`.
#[verifier::ext_equal]
pub struct ProjectileV {
    pub position: Vec2,
    pub velocity: Vec2,
    pub screen_side: ScreenSide,
    pub timer: AnimationConfigV,
    pub team: usize,
}

/// One projectile in flight: where it is, how it moves each frame, which way
/// it faces, its animation playback, and which player launched it.
#[derive(Clone, PartialEq, Debug)]
pub struct Projectile {
    pub position: Vec2,
    pub velocity: Vec2,
    pub screen_side: ScreenSide,
    pub timer: AnimationConfig,
    pub team: usize,
}

impl View for Projectile {
    type V = ProjectileV;

    open spec fn view(&self) -> ProjectileV {
        ProjectileV {
            position: self.position,
            velocity: self.velocity,
            screen_side: self.screen_side,
            timer: self.timer@,
            team: self.team,
        }
    }
}

/// The duration table every projectile animates over.
pub open spec fn spec_projectile_frame_times() -> Seq<u8> {
    seq![
        PROJECTILE_FRAME_TICKS,
        PROJECTILE_FRAME_TICKS,
        PROJECTILE_FRAME_TICKS,
        PROJECTILE_FRAME_TICKS,
    ]
}

/// A projectile as it stands when spawned.
pub open spec fn spec_new_projectile(
    position: Vec2,
    velocity: Vec2,
    screen_side: ScreenSide,
    team: usize,
) -> ProjectileV {
    ProjectileV {
        position,
        velocity,
        screen_side,
        timer: AnimationConfigV::pristine(spec_projectile_frame_times()),
        team,
    }
}

/// A projectile's state after one frame: it moves by its velocity and its
/// animation advances, looping when it finishes.
pub open spec fn spec_projectile_tick(p: ProjectileV) -> ProjectileV {
    ProjectileV {
        position: Vec2 {
            x: (p.position.x + p.velocity.x) as i64,
            y: (p.position.y + p.velocity.y) as i64,
        },
        velocity: p.velocity,
        screen_side: p.screen_side,
        timer: p.timer.spec_anim_step().0,
        team: p.team,
    }
}

/// Structural soundness of a projectile in flight.
pub open spec fn projectile_wf(p: ProjectileV) -> bool {
    &&& p.timer.wf()
    &&& p.timer.frame_times == spec_projectile_frame_times()
    &&& p.velocity.y == 0
    &&& -PROJECTILE_SPEED <= p.velocity.x <= PROJECTILE_SPEED
    &&& PROJECTILE_MIN_X <= p.position.x <= PROJECTILE_MAX_X
    &&& 0 <= p.position.y <= crate::geometry::ARENA_HEIGHT_UNITS
    &&& p.team < 2
}

impl Projectile {
    pub fn new(position: Vec2, velocity: Vec2, screen_side: ScreenSide, team: usize) -> (r:
        Projectile)
        ensures
            r@ == spec_new_projectile(position, velocity, screen_side, team),
    {
        let mut frame_times: Vec<u8> = Vec::new();
        frame_times.push(PROJECTILE_FRAME_TICKS);
        frame_times.push(PROJECTILE_FRAME_TICKS);
        frame_times.push(PROJECTILE_FRAME_TICKS);
        frame_times.push(PROJECTILE_FRAME_TICKS);
        let r = Projectile {
            position,
            velocity,
            screen_side,
            timer: AnimationConfig::new(frame_times),
            team,
        };
        proof {
            assert(r.timer@.frame_times =~= spec_projectile_frame_times());
            assert(r@ =~= spec_new_projectile(position, velocity, screen_side, team));
        }
        r
    }

    /// Advance the projectile one frame: move it, and step its looping
    /// animation.
    pub fn tick(&mut self)
        requires
            old(self)@.timer.wf(),
            old(self)@.timer.frame_times.len() < 0x1_0000_0000,
            old(self).position.in_bounds(),
            old(self).velocity.in_bounds(),
        ensures
            final(self)@ == spec_projectile_tick(old(self)@),
            final(self)@.timer.wf(),
    {
        self.position = Vec2 {
            x: self.position.x + self.velocity.x,
            y: self.position.y + self.velocity.y,
        };
        self.timer.sprite_timer.tick();
        if self.timer.sprite_timer.finished() {
            self.timer.current_frame = self.timer.current_frame + 1;
            self.timer.sprite_timer.reset();
            if self.timer.is_done() {
                self.timer.reset();
            }
        }
        proof {
            assert(self@.timer =~= old(self)@.timer.spec_anim_step().0);
            assert(self@ =~= spec_projectile_tick(old(self)@));
        }
    }
}

} // verus!
