//! One fighter: its logical state machine, the animation attached to each
//! state, and the per-tick bookkeeping that the round simulator drives.

use vstd::prelude::*;
use crate::timer::{AnimationConfig, AnimationConfigV, SpriteTimer};
use crate::input::{Input, ScreenSideAdjustedInput};
use crate::geometry::{Vec2, Rect};
use crate::combo::{library_wf, ComboLibrary, ComboPatternV};
use crate::config::{config_wf, GameConfig, GameConfigV};

verus! {

/// Horizontal speed of a running character, in coordinate units per frame.
pub const CHARACTER_X_SPEED: i64 = 80;

/// How many frames of side-relative input the combo matcher looks back over.
pub const FRAME_HISTORY_LENGTH: usize = 30;

/// Which half of the arena the character currently stands on; recomputed every
/// frame from relative positions, it decides facing and input adjustment.
#[derive(Clone, Copy, PartialEq, Eq, Structural, Debug)]
pub enum ScreenSide {
    Left,
    Right,
}

impl ScreenSide {
    /// The sign of "away from the opponent" along the x axis for this side.
    pub open spec fn spec_direction(self) -> i64 {
        match self {
            ScreenSide::Left => -1i64,
            ScreenSide::Right => 1i64,
        }
    }

    pub fn direction(&self) -> (r: i64)
        ensures
            r == self.spec_direction(),
    {
        match self {
            ScreenSide::Left => -1,
            ScreenSide::Right => 1,
        }
    }

    pub open spec fn spec_opposite(self) -> ScreenSide {
        match self {
            ScreenSide::Left => ScreenSide::Right,
            ScreenSide::Right => ScreenSide::Left,
        }
    }
}

/// The closed set of logical states a fighter can be in.
#[derive(Clone, Copy, PartialEq, Eq, Structural, Debug)]
pub enum CharacterState {
    Idle,
    ForwardRun,
    BackwardRun,
    Crouching,
    LightAttack,
    MediumAttack,
    HeavyAttack,
    LightKick,
    MediumKick,
    HeavyKick,
    LightHitRecovery,
    Blocking,
    ForwardDash,
    BackwardDash,
    Special1,
    Jump,
    Parry,
    Parried,
    Won,
    Lost,
}

/// The single resolved intent for one frame, produced by the combo matcher or
/// the raw-button fallback; never persisted beyond the tick.
#[derive(Clone, Copy, PartialEq, Eq, Structural, Debug)]
pub enum CharacterAction {
    Neutral,
    MoveForward,
    MoveBackward,
    DashForward,
    DashBackward,
    LightAttack,
    MediumAttack,
    HeavyAttack,
    LightKick,
    MediumKick,
    HeavyKick,
    Crouch,
    Special1,
    Jump,
    Parry,
}

/// The closed set of animations a character sheet provides.
#[derive(Clone, Copy, PartialEq, Eq, Structural, Debug)]
pub enum AnimationState {
    Idle,
    ForwardRun,
    BackwardRun,
    LightAttack,
    MediumAttack,
    HeavyAttack,
    LightHitRecovery,
    Crouched,
    Crouching,
    Blocking,
    LightCrouchAttack,
    HeavyCrouchingAttack,
    LightCrouchKick,
    MediumCrouchKick,
    HeavyCrouchKick,
    LightKick,
    MediumKick,
    HeavyKick,
    ForwardDash,
    BackwardDash,
    Special1,
    Won,
    Lost,
    Jump,
    Parry,
}

/// How many variants `AnimationState` has; animation-indexed tables hold
/// exactly this many entries.
pub const ANIMATION_STATE_COUNT: usize = 25;

/// A dense index for `AnimationState`, used to address the per-animation
/// tables without string or hash lookups inside the tick.
pub open spec fn spec_anim_index(a: AnimationState) -> int {
    match a {
        AnimationState::Idle => 0,
        AnimationState::ForwardRun => 1,
        AnimationState::BackwardRun => 2,
        AnimationState::LightAttack => 3,
        AnimationState::MediumAttack => 4,
        AnimationState::HeavyAttack => 5,
        AnimationState::LightHitRecovery => 6,
        AnimationState::Crouched => 7,
        AnimationState::Crouching => 8,
        AnimationState::Blocking => 9,
        AnimationState::LightCrouchAttack => 10,
        AnimationState::HeavyCrouchingAttack => 11,
        AnimationState::LightCrouchKick => 12,
        AnimationState::MediumCrouchKick => 13,
        AnimationState::HeavyCrouchKick => 14,
        AnimationState::LightKick => 15,
        AnimationState::MediumKick => 16,
        AnimationState::HeavyKick => 17,
        AnimationState::ForwardDash => 18,
        AnimationState::BackwardDash => 19,
        AnimationState::Special1 => 20,
        AnimationState::Won => 21,
        AnimationState::Lost => 22,
        AnimationState::Jump => 23,
        AnimationState::Parry => 24,
    }
}

pub fn anim_index(a: AnimationState) -> (i: usize)
    ensures
        i == spec_anim_index(a),
        i < ANIMATION_STATE_COUNT,
{
    match a {
        AnimationState::Idle => 0,
        AnimationState::ForwardRun => 1,
        AnimationState::BackwardRun => 2,
        AnimationState::LightAttack => 3,
        AnimationState::MediumAttack => 4,
        AnimationState::HeavyAttack => 5,
        AnimationState::LightHitRecovery => 6,
        AnimationState::Crouched => 7,
        AnimationState::Crouching => 8,
        AnimationState::Blocking => 9,
        AnimationState::LightCrouchAttack => 10,
        AnimationState::HeavyCrouchingAttack => 11,
        AnimationState::LightCrouchKick => 12,
        AnimationState::MediumCrouchKick => 13,
        AnimationState::HeavyCrouchKick => 14,
        AnimationState::LightKick => 15,
        AnimationState::MediumKick => 16,
        AnimationState::HeavyKick => 17,
        AnimationState::ForwardDash => 18,
        AnimationState::BackwardDash => 19,
        AnimationState::Special1 => 20,
        AnimationState::Won => 21,
        AnimationState::Lost => 22,
        AnimationState::Jump => 23,
        AnimationState::Parry => 24,
    }
}

/// The pair of animations a logical state plays, depending on whether the
/// character is currently crouched.
#[derive(Clone, Copy, PartialEq, Eq, Structural, Debug)]
pub struct AnimationStateForCharacterState {
    pub crouched: AnimationState,
    pub standing: AnimationState,
}

impl AnimationStateForCharacterState {
    pub fn new(crouched: AnimationState, standing: AnimationState) -> (r:
        AnimationStateForCharacterState)
        ensures
            r == (AnimationStateForCharacterState { crouched, standing }),
    {
        AnimationStateForCharacterState { crouched, standing }
    }
}

/// The complete state-to-animation table. Being an exhaustive match over the
/// closed state enum, a state without an animation cannot be written.
pub open spec fn spec_animation_for_state(state: CharacterState) -> AnimationStateForCharacterState {
    match state {
        CharacterState::Idle => AnimationStateForCharacterState {
            crouched: AnimationState::Crouched,
            standing: AnimationState::Idle,
        },
        CharacterState::ForwardRun => AnimationStateForCharacterState {
            crouched: AnimationState::ForwardRun,
            standing: AnimationState::ForwardRun,
        },
        CharacterState::BackwardRun => AnimationStateForCharacterState {
            crouched: AnimationState::BackwardRun,
            standing: AnimationState::BackwardRun,
        },
        CharacterState::Crouching => AnimationStateForCharacterState {
            crouched: AnimationState::Crouching,
            standing: AnimationState::Crouching,
        },
        CharacterState::LightAttack => AnimationStateForCharacterState {
            crouched: AnimationState::LightCrouchAttack,
            standing: AnimationState::LightAttack,
        },
        CharacterState::MediumAttack => AnimationStateForCharacterState {
            crouched: AnimationState::LightCrouchAttack,
            standing: AnimationState::MediumAttack,
        },
        CharacterState::HeavyAttack => AnimationStateForCharacterState {
            crouched: AnimationState::HeavyCrouchingAttack,
            standing: AnimationState::HeavyAttack,
        },
        CharacterState::LightKick => AnimationStateForCharacterState {
            crouched: AnimationState::LightCrouchKick,
            standing: AnimationState::LightKick,
        },
        CharacterState::MediumKick => AnimationStateForCharacterState {
            crouched: AnimationState::MediumCrouchKick,
            standing: AnimationState::MediumKick,
        },
        CharacterState::HeavyKick => AnimationStateForCharacterState {
            crouched: AnimationState::HeavyCrouchKick,
            standing: AnimationState::HeavyKick,
        },
        CharacterState::LightHitRecovery => AnimationStateForCharacterState {
            crouched: AnimationState::LightHitRecovery,
            standing: AnimationState::LightHitRecovery,
        },
        CharacterState::Blocking => AnimationStateForCharacterState {
            crouched: AnimationState::Blocking,
            standing: AnimationState::Blocking,
        },
        CharacterState::ForwardDash => AnimationStateForCharacterState {
            crouched: AnimationState::ForwardDash,
            standing: AnimationState::ForwardDash,
        },
        CharacterState::BackwardDash => AnimationStateForCharacterState {
            crouched: AnimationState::BackwardDash,
            standing: AnimationState::BackwardDash,
        },
        CharacterState::Special1 => AnimationStateForCharacterState {
            crouched: AnimationState::Special1,
            standing: AnimationState::Special1,
        },
        CharacterState::Jump => AnimationStateForCharacterState {
            crouched: AnimationState::Jump,
            standing: AnimationState::Jump,
        },
        CharacterState::Parry => AnimationStateForCharacterState {
            crouched: AnimationState::Parry,
            standing: AnimationState::Parry,
        },
        CharacterState::Parried => AnimationStateForCharacterState {
            crouched: AnimationState::LightHitRecovery,
            standing: AnimationState::LightHitRecovery,
        },
        CharacterState::Won => AnimationStateForCharacterState {
            crouched: AnimationState::Won,
            standing: AnimationState::Won,
        },
        CharacterState::Lost => AnimationStateForCharacterState {
            crouched: AnimationState::Lost,
            standing: AnimationState::Lost,
        },
    }
}

pub fn animation_for_state(state: CharacterState) -> (r: AnimationStateForCharacterState)
    ensures
        r == spec_animation_for_state(state),
{
    match state {
        CharacterState::Idle => AnimationStateForCharacterState::new(
            AnimationState::Crouched,
            AnimationState::Idle,
        ),
        CharacterState::ForwardRun => AnimationStateForCharacterState::new(
            AnimationState::ForwardRun,
            AnimationState::ForwardRun,
        ),
        CharacterState::BackwardRun => AnimationStateForCharacterState::new(
            AnimationState::BackwardRun,
            AnimationState::BackwardRun,
        ),
        CharacterState::Crouching => AnimationStateForCharacterState::new(
            AnimationState::Crouching,
            AnimationState::Crouching,
        ),
        CharacterState::LightAttack => AnimationStateForCharacterState::new(
            AnimationState::LightCrouchAttack,
            AnimationState::LightAttack,
        ),
        CharacterState::MediumAttack => AnimationStateForCharacterState::new(
            AnimationState::LightCrouchAttack,
            AnimationState::MediumAttack,
        ),
        CharacterState::HeavyAttack => AnimationStateForCharacterState::new(
            AnimationState::HeavyCrouchingAttack,
            AnimationState::HeavyAttack,
        ),
        CharacterState::LightKick => AnimationStateForCharacterState::new(
            AnimationState::LightCrouchKick,
            AnimationState::LightKick,
        ),
        CharacterState::MediumKick => AnimationStateForCharacterState::new(
            AnimationState::MediumCrouchKick,
            AnimationState::MediumKick,
        ),
        CharacterState::HeavyKick => AnimationStateForCharacterState::new(
            AnimationState::HeavyCrouchKick,
            AnimationState::HeavyKick,
        ),
        CharacterState::LightHitRecovery => AnimationStateForCharacterState::new(
            AnimationState::LightHitRecovery,
            AnimationState::LightHitRecovery,
        ),
        CharacterState::Blocking => AnimationStateForCharacterState::new(
            AnimationState::Blocking,
            AnimationState::Blocking,
        ),
        CharacterState::ForwardDash => AnimationStateForCharacterState::new(
            AnimationState::ForwardDash,
            AnimationState::ForwardDash,
        ),
        CharacterState::BackwardDash => AnimationStateForCharacterState::new(
            AnimationState::BackwardDash,
            AnimationState::BackwardDash,
        ),
        CharacterState::Special1 => AnimationStateForCharacterState::new(
            AnimationState::Special1,
            AnimationState::Special1,
        ),
        CharacterState::Jump => AnimationStateForCharacterState::new(
            AnimationState::Jump,
            AnimationState::Jump,
        ),
        CharacterState::Parry => AnimationStateForCharacterState::new(
            AnimationState::Parry,
            AnimationState::Parry,
        ),
        CharacterState::Parried => AnimationStateForCharacterState::new(
            AnimationState::LightHitRecovery,
            AnimationState::LightHitRecovery,
        ),
        CharacterState::Won => AnimationStateForCharacterState::new(
            AnimationState::Won,
            AnimationState::Won,
        ),
        CharacterState::Lost => AnimationStateForCharacterState::new(
            AnimationState::Lost,
            AnimationState::Lost,
        ),
    }
}

/// One fighter's complete mutable state, owned by the round.
#[derive(Clone, PartialEq, Debug)]
pub struct Character {
    pub animation_state: AnimationState,
    pub character_state: CharacterState,
    pub current_animation: AnimationConfig,
    pub character_position: Vec2,
    pub character_velocity: Vec2,
    pub screen_side: ScreenSide,
    pub health: u32,
    pub is_crouched: bool,
    pub past_inputs: Vec<ScreenSideAdjustedInput>,
    pub done: bool,
}

/// Starting health of every character.
pub const STARTING_HEALTH: u32 = 250;

impl Character {
    pub fn new(screen_side: ScreenSide) -> (r: Character)
        ensures
            r.animation_state == AnimationState::Idle,
            r.character_state == CharacterState::Idle,
            r.current_animation.frame_times@ == seq![1u8],
            r.current_animation.current_frame == 0,
            r.current_animation.sprite_timer == (SpriteTimer {
                total_frames: 1,
                current_frame: 0,
                finished: false,
            }),
            r.character_position == (Vec2 { x: 0, y: 0 }),
            r.character_velocity == (Vec2 { x: 0, y: 0 }),
            r.screen_side == screen_side,
            r.health == STARTING_HEALTH,
            !r.is_crouched,
            r.past_inputs@ =~= Seq::<ScreenSideAdjustedInput>::empty(),
            !r.done,
    {
        let mut frame_times: Vec<u8> = Vec::new();
        frame_times.push(1);
        Character {
            animation_state: AnimationState::Idle,
            character_state: CharacterState::Idle,
            current_animation: AnimationConfig::new(frame_times),
            character_position: Vec2 { x: 0, y: 0 },
            character_velocity: Vec2 { x: 0, y: 0 },
            screen_side,
            health: STARTING_HEALTH,
            is_crouched: false,
            past_inputs: Vec::new(),
            done: false,
        }
    }

    /// The value `new` returns, as a single spec expression.
    pub open spec fn new_view(screen_side: ScreenSide) -> CharacterV {
        CharacterV {
            animation_state: AnimationState::Idle,
            character_state: CharacterState::Idle,
            current_animation: AnimationConfigV {
                sprite_timer: SpriteTimer { total_frames: 1, current_frame: 0, finished: false },
                current_frame: 0,
                frame_times: seq![1u8],
            },
            character_position: Vec2 { x: 0, y: 0 },
            character_velocity: Vec2 { x: 0, y: 0 },
            screen_side,
            health: STARTING_HEALTH,
            is_crouched: false,
            past_inputs: Seq::empty(),
            done: false,
        }
    }

    /// The state a finished animation hands the character to: the run states
    /// loop on themselves, everything else decays to idle.
    pub open spec fn spec_finished_animation_whats_next(self) -> CharacterState {
        match self.character_state {
            CharacterState::ForwardRun => CharacterState::ForwardRun,
            CharacterState::BackwardRun => CharacterState::BackwardRun,
            _ => CharacterState::Idle,
        }
    }

    pub fn finished_animation_whats_next(&mut self) -> (r: CharacterState)
        ensures
            *final(self) == *old(self),
            r == old(self).spec_finished_animation_whats_next(),
    {
        match self.character_state {
            CharacterState::ForwardRun => CharacterState::ForwardRun,
            CharacterState::BackwardRun => CharacterState::BackwardRun,
            _ => CharacterState::Idle,
        }
    }

    pub fn set_animation_state(&mut self, new_state: AnimationState)
        ensures
            *final(self) == (Character { animation_state: new_state, ..*old(self) }),
    {
        self.animation_state = new_state;
    }

    pub fn get_current_animation_config(&self) -> (r: AnimationConfig)
        ensures
            r@ == self.current_animation@,
    {
        self.current_animation.duplicate()
    }

    /// Whether the character may currently be struck; the forced recovery
    /// states are exempt so one hit cannot land twice within one recovery.
    pub open spec fn spec_is_in_damageable_state(self) -> bool {
        self.character_state != CharacterState::LightHitRecovery
            && self.character_state != CharacterState::Parried
    }

    pub fn is_in_damageable_state(&self) -> (r: bool)
        ensures
            r == self.spec_is_in_damageable_state(),
    {
        !matches!(self.character_state, CharacterState::LightHitRecovery)
            && !matches!(self.character_state, CharacterState::Parried)
    }

    /// The key under which this character's collision boxes are looked up:
    /// the animation being played and the frame it is on.
    pub fn get_collision_box_lookup_info(&self) -> (r: (AnimationState, u32))
        ensures
            r.0 == self.animation_state,
            r.1 == self.current_animation.current_frame,
    {
        (self.animation_state, self.current_animation.current_frame)
    }

    /// The movement-collision rectangle, a fixed offset from the character's
    /// position; distinct from the combat hit/hurt/parry boxes.
    pub open spec fn spec_walk_box(self) -> Rect {
        Rect {
            min: Vec2 {
                x: (self.character_position.x + crate::geometry::WALK_BOX_OFFSET_X) as i64,
                y: (self.character_position.y + crate::geometry::WALK_BOX_OFFSET_Y) as i64,
            },
            max: Vec2 {
                x: (self.character_position.x + crate::geometry::WALK_BOX_OFFSET_X
                    + crate::geometry::WALK_BOX_WIDTH) as i64,
                y: (self.character_position.y + crate::geometry::WALK_BOX_OFFSET_Y
                    + crate::geometry::WALK_BOX_HEIGHT) as i64,
            },
        }
    }

    pub fn get_walk_box(&self) -> (r: Rect)
        requires
            self.pos_in_arena(),
        ensures
            r == self.spec_walk_box(),
    {
        Rect {
            min: Vec2 {
                x: self.character_position.x + crate::geometry::WALK_BOX_OFFSET_X,
                y: self.character_position.y + crate::geometry::WALK_BOX_OFFSET_Y,
            },
            max: Vec2 {
                x: self.character_position.x + crate::geometry::WALK_BOX_OFFSET_X
                    + crate::geometry::WALK_BOX_WIDTH,
                y: self.character_position.y + crate::geometry::WALK_BOX_OFFSET_Y
                    + crate::geometry::WALK_BOX_HEIGHT,
            },
        }
    }

    /// The damage dealt by a strike landed from this state: 10, 20 or 30 for
    /// light, medium and heavy strikes, and nothing from any other state.
    pub open spec fn spec_current_damage(self) -> u32 {
        match self.character_state {
            CharacterState::LightAttack | CharacterState::LightKick => 10,
            CharacterState::MediumAttack | CharacterState::MediumKick => 20,
            CharacterState::HeavyAttack | CharacterState::HeavyKick => 30,
            _ => 0,
        }
    }

    pub fn get_current_damage(&self) -> (r: u32)
        ensures
            r == self.spec_current_damage(),
    {
        match self.character_state {
            CharacterState::LightAttack | CharacterState::LightKick => 10,
            CharacterState::MediumAttack | CharacterState::MediumKick => 20,
            CharacterState::HeavyAttack | CharacterState::HeavyKick => 30,
            _ => 0,
        }
    }

    /// Whether the state accepts a new attack intent: only the neutral
    /// states do, so attacks cannot be re-entered mid-animation.
    pub open spec fn spec_can_attack(self) -> bool {
        ||| self.character_state == CharacterState::Idle
        ||| self.character_state == CharacterState::ForwardRun
        ||| self.character_state == CharacterState::BackwardRun
        ||| self.character_state == CharacterState::ForwardDash
        ||| self.character_state == CharacterState::Crouching
    }

    pub fn can_attack(&self) -> (r: bool)
        ensures
            r == self.spec_can_attack(),
    {
        matches!(self.character_state, CharacterState::Idle)
            || matches!(self.character_state, CharacterState::ForwardRun)
            || matches!(self.character_state, CharacterState::BackwardRun)
            || matches!(self.character_state, CharacterState::ForwardDash)
            || matches!(self.character_state, CharacterState::Crouching)
    }

    /// Whether the character's position lies inside the arena.
    pub open spec fn pos_in_arena(self) -> bool {
        self@.pos_in_arena()
    }
}

impl Default for Character {
    /// A character on the left side, at the origin, as `new` builds one.
    fn default() -> (r: Character)
        ensures
            r@ == Character::new_view(ScreenSide::Left),
    {
        let r = Character::new(ScreenSide::Left);
        proof {
            assert(r@ =~= Character::new_view(ScreenSide::Left));
        }
        r
    }
}

/// The mathematical model of a `Character`.
#[verifier::ext_equal]
pub struct CharacterV {
    pub animation_state: AnimationState,
    pub character_state: CharacterState,
    pub current_animation: AnimationConfigV,
    pub character_position: Vec2,
    pub character_velocity: Vec2,
    pub screen_side: ScreenSide,
    pub health: u32,
    pub is_crouched: bool,
    pub past_inputs: Seq<ScreenSideAdjustedInput>,
    pub done: bool,
}

impl View for Character {
    type V = CharacterV;

    open spec fn view(&self) -> CharacterV {
        CharacterV {
            animation_state: self.animation_state,
            character_state: self.character_state,
            current_animation: self.current_animation@,
            character_position: self.character_position,
            character_velocity: self.character_velocity,
            screen_side: self.screen_side,
            health: self.health,
            is_crouched: self.is_crouched,
            past_inputs: self.past_inputs@,
            done: self.done,
        }
    }
}

impl CharacterV {
    /// The state a finished animation hands the character to: the run states
    /// loop on themselves, everything else decays to idle.
    pub open spec fn spec_whats_next(self) -> CharacterState {
        match self.character_state {
            CharacterState::ForwardRun => CharacterState::ForwardRun,
            CharacterState::BackwardRun => CharacterState::BackwardRun,
            _ => CharacterState::Idle,
        }
    }

    pub open spec fn spec_can_attack(self) -> bool {
        ||| self.character_state == CharacterState::Idle
        ||| self.character_state == CharacterState::ForwardRun
        ||| self.character_state == CharacterState::BackwardRun
        ||| self.character_state == CharacterState::ForwardDash
        ||| self.character_state == CharacterState::Crouching
    }

    pub open spec fn spec_is_in_damageable_state(self) -> bool {
        self.character_state != CharacterState::LightHitRecovery && self.character_state
            != CharacterState::Parried
    }

    pub open spec fn spec_current_damage(self) -> u32 {
        match self.character_state {
            CharacterState::LightAttack | CharacterState::LightKick => 10,
            CharacterState::MediumAttack | CharacterState::MediumKick => 20,
            CharacterState::HeavyAttack | CharacterState::HeavyKick => 30,
            _ => 0,
        }
    }

    pub open spec fn spec_walk_box(self) -> Rect {
        Rect {
            min: Vec2 {
                x: (self.character_position.x + crate::geometry::WALK_BOX_OFFSET_X) as i64,
                y: (self.character_position.y + crate::geometry::WALK_BOX_OFFSET_Y) as i64,
            },
            max: Vec2 {
                x: (self.character_position.x + crate::geometry::WALK_BOX_OFFSET_X
                    + crate::geometry::WALK_BOX_WIDTH) as i64,
                y: (self.character_position.y + crate::geometry::WALK_BOX_OFFSET_Y
                    + crate::geometry::WALK_BOX_HEIGHT) as i64,
            },
        }
    }

    pub open spec fn pos_in_arena(self) -> bool {
        &&& 0 <= self.character_position.x
        &&& self.character_position.x + crate::geometry::FRAME_WIDTH_UNITS
            <= crate::geometry::ARENA_WIDTH_UNITS
        &&& 0 <= self.character_position.y <= crate::geometry::ARENA_HEIGHT_UNITS
    }

    /// The animation a state plays for a given stance.
    pub open spec fn anim_for(state: CharacterState, crouched: bool) -> AnimationState {
        if crouched {
            spec_animation_for_state(state).crouched
        } else {
            spec_animation_for_state(state).standing
        }
    }

    /// Structural soundness of a character against the configuration it plays
    /// under: its animation matches its logical state and stance, its
    /// playback indexes real frames of the sheet's tables, it stands inside
    /// the arena, and its velocity and input history are bounded.
    pub open spec fn wf(self, cfg: GameConfigV) -> bool {
        &&& self.current_animation.wf()
        &&& self.animation_state == CharacterV::anim_for(self.character_state, self.is_crouched)
        &&& self.current_animation.frame_times == cfg.character_sheet[spec_anim_index(
            self.animation_state,
        )].frame_lengths
        &&& self.pos_in_arena()
        &&& -crate::config::MAX_DISPLACEMENT <= self.character_velocity.x
            <= crate::config::MAX_DISPLACEMENT
        &&& -crate::config::MAX_DISPLACEMENT <= self.character_velocity.y
            <= crate::config::MAX_DISPLACEMENT
        &&& self.past_inputs.len() <= FRAME_HISTORY_LENGTH
    }
}

/// The character after its logical state changes: the matching animation for
/// its stance is selected from the configuration and rewound.
pub open spec fn spec_set_character_state(
    c: CharacterV,
    new_state: CharacterState,
    cfg: GameConfigV,
) -> CharacterV {
    let anim = CharacterV::anim_for(new_state, c.is_crouched);
    CharacterV {
        character_state: new_state,
        animation_state: anim,
        current_animation: cfg.animation_configs[spec_anim_index(anim)].spec_reset(),
        ..c
    }
}

/// Re-entering any state under a valid configuration leaves a character
/// well-formed, as long as its body state (position, velocity, history) was.
pub proof fn lemma_set_state_wf(c: CharacterV, new_state: CharacterState, cfg: GameConfigV)
    requires
        config_wf(cfg),
        c.pos_in_arena(),
        -crate::config::MAX_DISPLACEMENT <= c.character_velocity.x
            <= crate::config::MAX_DISPLACEMENT,
        -crate::config::MAX_DISPLACEMENT <= c.character_velocity.y
            <= crate::config::MAX_DISPLACEMENT,
        c.past_inputs.len() <= FRAME_HISTORY_LENGTH,
    ensures
        spec_set_character_state(c, new_state, cfg).wf(cfg),
{
    let anim = CharacterV::anim_for(new_state, c.is_crouched);
    assert(crate::config::anim_error(cfg, spec_anim_index(anim)) is None);
}

/// The character after the animation-advance phase of a tick: playback steps,
/// and if the animation finished, the character re-enters the state the
/// finished animation hands it to, which reloads that state's animation.
pub open spec fn spec_anim_phase(c: CharacterV, cfg: GameConfigV) -> CharacterV {
    let step = c.current_animation.spec_anim_step();
    let c1 = CharacterV { current_animation: step.0, ..c };
    if step.1 {
        spec_set_character_state(c1, c1.spec_whats_next(), cfg)
    } else {
        c1
    }
}

/// The bounded input history after this frame's input is appended: the oldest
/// entry falls out once the window is full.
pub open spec fn spec_history_after(
    h: Seq<ScreenSideAdjustedInput>,
    input: ScreenSideAdjustedInput,
) -> Seq<ScreenSideAdjustedInput> {
    let trimmed = if h.len() >= FRAME_HISTORY_LENGTH {
        h.drop_first()
    } else {
        h
    };
    trimmed.push(input)
}

/// The intent resolved from raw buttons when no combo completes, by priority:
/// strikes first, then crouch, then movement, and the parry button last.
pub open spec fn spec_fallback_action(input: ScreenSideAdjustedInput) -> CharacterAction {
    if input.light_attack {
        CharacterAction::LightAttack
    } else if input.medium_attack {
        CharacterAction::MediumAttack
    } else if input.heavy_attack {
        CharacterAction::HeavyAttack
    } else if input.light_kick {
        CharacterAction::LightKick
    } else if input.medium_kick {
        CharacterAction::MediumKick
    } else if input.heavy_kick {
        CharacterAction::HeavyKick
    } else if input.down_key_down {
        CharacterAction::Crouch
    } else if input.forward_down {
        CharacterAction::MoveForward
    } else if input.backward_down {
        CharacterAction::MoveBackward
    } else if input.jump {
        CharacterAction::Parry
    } else {
        CharacterAction::Neutral
    }
}

/// What one frame of input does to the matcher and the character's history:
/// the history window shifts, every combo pattern is rewound and the whole
/// window is replayed through them; if any pattern completes the history
/// clears and its action is the intent, otherwise the raw-button fallback is.
pub open spec fn spec_process_new_input(
    c: CharacterV,
    input: ScreenSideAdjustedInput,
    lib: Seq<ComboPatternV>,
) -> (CharacterV, Seq<ComboPatternV>, CharacterAction) {
    let h = spec_history_after(c.past_inputs, input);
    let scan = crate::combo::spec_scan_history(crate::combo::spec_library_reset(lib), h, 0);
    match scan.1 {
        Some(action) => (
            CharacterV { past_inputs: Seq::empty(), ..c },
            scan.0,
            action,
        ),
        None => (CharacterV { past_inputs: h, ..c }, scan.0, spec_fallback_action(input)),
    }
}

/// The state transition an attack intent causes, when the character may
/// attack at all.
pub open spec fn spec_attack_transition(
    c: CharacterV,
    action: CharacterAction,
    cfg: GameConfigV,
) -> CharacterV {
    if c.spec_can_attack() {
        match action {
            CharacterAction::LightAttack => spec_set_character_state(
                c,
                CharacterState::LightAttack,
                cfg,
            ),
            CharacterAction::MediumAttack => spec_set_character_state(
                c,
                CharacterState::MediumAttack,
                cfg,
            ),
            CharacterAction::HeavyAttack => spec_set_character_state(
                c,
                CharacterState::HeavyAttack,
                cfg,
            ),
            CharacterAction::LightKick => spec_set_character_state(
                c,
                CharacterState::LightKick,
                cfg,
            ),
            CharacterAction::MediumKick => spec_set_character_state(
                c,
                CharacterState::MediumKick,
                cfg,
            ),
            CharacterAction::HeavyKick => spec_set_character_state(
                c,
                CharacterState::HeavyKick,
                cfg,
            ),
            CharacterAction::Special1 => spec_set_character_state(
                c,
                CharacterState::Special1,
                cfg,
            ),
            CharacterAction::Parry => spec_set_character_state(c, CharacterState::Parry, cfg),
            _ => c,
        }
    } else {
        c
    }
}

/// The stance and movement transitions after the intent is known: standing up
/// from an idle crouch, entering dashes, runs, a crouch or a jump from the
/// neutral states, and falling back to idle when a run loses its input.
pub open spec fn spec_post_action(c: CharacterV, action: CharacterAction, cfg: GameConfigV) -> CharacterV {
    let c1 = if c.character_state == CharacterState::Idle && c.is_crouched && action
        != CharacterAction::Crouch {
        spec_set_character_state(
            CharacterV { is_crouched: false, ..c },
            CharacterState::Idle,
            cfg,
        )
    } else {
        c
    };
    let c2 = if c1.character_state == CharacterState::Idle || c1.character_state
        == CharacterState::BackwardRun || c1.character_state == CharacterState::ForwardRun {
        if action == CharacterAction::DashForward {
            spec_set_character_state(c1, CharacterState::ForwardDash, cfg)
        } else if action == CharacterAction::DashBackward {
            spec_set_character_state(c1, CharacterState::BackwardDash, cfg)
        } else if action == CharacterAction::MoveForward && c1.character_state
            != CharacterState::ForwardRun {
            spec_set_character_state(c1, CharacterState::ForwardRun, cfg)
        } else if action == CharacterAction::MoveBackward && c1.character_state
            != CharacterState::BackwardRun {
            spec_set_character_state(c1, CharacterState::BackwardRun, cfg)
        } else if action == CharacterAction::Crouch {
            if !c1.is_crouched {
                spec_set_character_state(
                    CharacterV { is_crouched: true, ..c1 },
                    CharacterState::Crouching,
                    cfg,
                )
            } else {
                c1
            }
        } else if action == CharacterAction::Jump {
            spec_set_character_state(c1, CharacterState::Jump, cfg)
        } else {
            c1
        }
    } else {
        c1
    };
    if (c2.character_state == CharacterState::ForwardRun || c2.character_state
        == CharacterState::BackwardRun) && action == CharacterAction::Neutral {
        spec_set_character_state(c2, CharacterState::Idle, cfg)
    } else {
        c2
    }
}

/// The velocity a state imposes for this frame: runs and dashes move at fixed
/// speeds toward or away from the opponent, recoveries are pushed back, a
/// jump reads its vertical displacement from the sheet, and every other
/// state stands still.
pub open spec fn spec_velocity_phase(c: CharacterV, cfg: GameConfigV) -> CharacterV {
    let dir = c.screen_side.spec_direction();
    if c.character_state == CharacterState::ForwardRun {
        CharacterV {
            character_velocity: Vec2 { x: (-(CHARACTER_X_SPEED * dir)) as i64, y: 0 },
            ..c
        }
    } else if c.character_state == CharacterState::BackwardRun {
        CharacterV { character_velocity: Vec2 { x: (CHARACTER_X_SPEED * dir) as i64, y: 0 }, ..c }
    } else if c.character_state == CharacterState::ForwardDash {
        CharacterV {
            character_velocity: Vec2 { x: (-(CHARACTER_X_SPEED * dir * 2)) as i64, y: 0 },
            ..c
        }
    } else if c.character_state == CharacterState::BackwardDash {
        CharacterV {
            character_velocity: Vec2 { x: (CHARACTER_X_SPEED * dir * 2) as i64, y: 0 },
            ..c
        }
    } else if c.character_state == CharacterState::LightHitRecovery {
        CharacterV { character_velocity: Vec2 { x: (CHARACTER_X_SPEED * dir) as i64, y: 0 }, ..c }
    } else if c.character_state == CharacterState::Parried {
        CharacterV {
            character_velocity: Vec2 { x: (CHARACTER_X_SPEED / 2 * dir) as i64, y: 0 },
            ..c
        }
    } else if c.character_state == CharacterState::Jump {
        CharacterV {
            character_velocity: Vec2 {
                x: c.character_velocity.x,
                y: cfg.character_sheet[spec_anim_index(AnimationState::Jump)].displacements[
                    c.current_animation.current_frame as int
                ].y,
            },
            ..c
        }
    } else {
        CharacterV { character_velocity: Vec2 { x: 0, y: 0 }, ..c }
    }
}

impl Character {
    /// Move the character into a new logical state, selecting and rewinding
    /// the matching animation for its stance from the configuration.
    pub fn set_character_state(&mut self, new_state: CharacterState, game_config: &GameConfig)
        requires
            config_wf(game_config@),
        ensures
            final(self)@ == spec_set_character_state(old(self)@, new_state, game_config@),
            final(self)@.current_animation.wf(),
            final(self)@.current_animation.frame_times == game_config@.character_sheet[
                spec_anim_index(final(self)@.animation_state)
            ].frame_lengths,
            final(self)@.animation_state == CharacterV::anim_for(
                new_state,
                old(self).is_crouched,
            ),
    {
        self.character_state = new_state;
        let pair = animation_for_state(new_state);
        let animation_state: AnimationState = if self.is_crouched {
            pair.crouched
        } else {
            pair.standing
        };
        let ghost idx = spec_anim_index(animation_state);
        proof {
            assert(game_config@.animation_configs[idx]
                == game_config.animation_configs@[idx]@);
            assert(crate::config::anim_error(game_config@, idx) is None);
            assert(crate::config::anim_ok_template(game_config@, idx));
            assert(crate::config::anim_ok_durations(game_config@, idx));
            assert(crate::config::anim_ok_nonempty(game_config@, idx));
        }
        let mut animation = game_config.animation_configs[anim_index(animation_state)].duplicate();
        animation.reset();
        self.current_animation = animation;
        self.set_animation_state(animation_state);
        proof {
            assert(self@ =~= spec_set_character_state(old(self)@, new_state, game_config@));
        }
    }

    /// The animation-advance phase of a tick: step playback; when the
    /// animation finishes, re-enter the state it hands the character to.
    pub(crate) fn anim_phase(&mut self, game_config: &GameConfig)
        requires
            config_wf(game_config@),
            old(self)@.wf(game_config@),
        ensures
            final(self)@ == spec_anim_phase(old(self)@, game_config@),
            final(self)@.wf(game_config@),
    {
        proof {
            assert(crate::config::anim_error(
                game_config@,
                spec_anim_index(old(self)@.animation_state),
            ) is None);
        }
        self.current_animation.sprite_timer.tick();
        if self.current_animation.sprite_timer.finished() {
            self.current_animation.current_frame = self.current_animation.current_frame + 1;
            self.current_animation.sprite_timer.reset();
            if self.current_animation.is_done() {
                self.current_animation.reset();
                let new_state = self.finished_animation_whats_next();
                self.set_character_state(new_state, game_config);
            }
        }
        proof {
            assert(self@ =~= spec_anim_phase(old(self)@, game_config@));
            assert(crate::config::anim_error(
                game_config@,
                spec_anim_index(self@.animation_state),
            ) is None);
        }
    }

    /// Feed this frame's side-relative input into the rolling history and the
    /// combo matcher, resolving the frame's intent: a completed combo's
    /// action (which clears the history), or the raw-button fallback.
    pub fn process_new_input(
        &mut self,
        frame_input: ScreenSideAdjustedInput,
        combo_library: &mut ComboLibrary,
    ) -> (r: CharacterAction)
        requires
            library_wf(old(combo_library)@),
            old(self)@.past_inputs.len() <= FRAME_HISTORY_LENGTH,
        ensures
            ({
                let res = spec_process_new_input(old(self)@, frame_input, old(combo_library)@);
                &&& final(self)@ == res.0
                &&& final(combo_library)@ == res.1
                &&& r == res.2
            }),
            final(self)@.past_inputs.len() <= FRAME_HISTORY_LENGTH,
            library_wf(final(combo_library)@),
    {
        if self.past_inputs.len() >= FRAME_HISTORY_LENGTH {
            self.past_inputs.remove(0);
        }
        combo_library.reset();
        self.past_inputs.push(frame_input);
        let ghost h = spec_history_after(old(self)@.past_inputs, frame_input);
        proof {
            assert(self.past_inputs@ =~= h);
            assert forall|k: int|
                0 <= k < combo_library@.len() implies crate::combo::combo_wf(
                #[trigger] combo_library@[k],
            ) by {
                assert(combo_library@[k] == crate::combo::spec_combo_reset(
                    old(combo_library)@[k],
                ));
                assert(crate::combo::combo_wf(old(combo_library)@[k]));
                assert(crate::combo::spec_combo_reset(old(combo_library)@[k]).pattern.len()
                    == old(combo_library)@[k].pattern.len());
            }
        }
        let ghost lib0 = combo_library@;
        proof {
            assert(lib0 =~= crate::combo::spec_library_reset(old(combo_library)@));
        }
        let mut j: usize = 0;
        while j < self.past_inputs.len()
            invariant
                self.past_inputs@ == h,
                self.animation_state == old(self).animation_state,
                self.character_state == old(self).character_state,
                self.current_animation@ == old(self)@.current_animation,
                self.character_position == old(self).character_position,
                self.character_velocity == old(self).character_velocity,
                self.screen_side == old(self).screen_side,
                self.health == old(self).health,
                self.is_crouched == old(self).is_crouched,
                self.done == old(self).done,
                j <= h.len(),
                library_wf(combo_library@),
                crate::combo::spec_scan_history(lib0, h, 0) == crate::combo::spec_scan_history(
                    combo_library@,
                    h,
                    j as int,
                ),
            decreases h.len() - j,
        {
            let element = self.past_inputs[j];
            let ghost prevlib = combo_library@;
            let resolved = combo_library.scan_input(&element);
            proof {
                assert(element == h[j as int]);
                assert((combo_library@, resolved) == crate::combo::spec_scan_combos(
                    prevlib,
                    h[j as int],
                    0,
                ));
            }
            match resolved {
                Some(character_action) => {
                    self.past_inputs = Vec::new();
                    proof {
                        assert(self@ =~= spec_process_new_input(
                            old(self)@,
                            frame_input,
                            old(combo_library)@,
                        ).0);
                    }
                    return character_action;
                },
                None => {},
            }
            j = j + 1;
        }
        proof {
            assert(self@ =~= spec_process_new_input(
                old(self)@,
                frame_input,
                old(combo_library)@,
            ).0);
        }
        if frame_input.light_attack {
            return CharacterAction::LightAttack;
        } else if frame_input.medium_attack {
            return CharacterAction::MediumAttack;
        } else if frame_input.heavy_attack {
            return CharacterAction::HeavyAttack;
        } else if frame_input.light_kick {
            return CharacterAction::LightKick;
        } else if frame_input.medium_kick {
            return CharacterAction::MediumKick;
        } else if frame_input.heavy_kick {
            return CharacterAction::HeavyKick;
        } else if frame_input.down_key_down {
            return CharacterAction::Crouch;
        } else if frame_input.forward_down {
            return CharacterAction::MoveForward;
        } else if frame_input.backward_down {
            return CharacterAction::MoveBackward;
        } else if frame_input.jump {
            return CharacterAction::Parry;
        }
        CharacterAction::Neutral
    }

    pub(crate) fn set_screen_side(&mut self, side: ScreenSide)
        ensures
            final(self)@ == (CharacterV { screen_side: side, ..old(self)@ }),
    {
        self.screen_side = side;
    }

    pub(crate) fn set_position(&mut self, position: Vec2)
        ensures
            final(self)@ == (CharacterV { character_position: position, ..old(self)@ }),
    {
        self.character_position = position;
    }

    pub(crate) fn set_done(&mut self, done: bool)
        ensures
            final(self)@ == (CharacterV { done, ..old(self)@ }),
    {
        self.done = done;
    }

    pub(crate) fn set_health(&mut self, health: u32)
        ensures
            final(self)@ == (CharacterV { health, ..old(self)@ }),
    {
        self.health = health;
    }

    /// Apply an attack intent, when the current state accepts one.
    pub(crate) fn attack_transition(&mut self, action: CharacterAction, game_config: &GameConfig)
        requires
            config_wf(game_config@),
        ensures
            final(self)@ == spec_attack_transition(old(self)@, action, game_config@),
            old(self)@.wf(game_config@) ==> final(self)@.wf(game_config@),
    {
        if self.can_attack() {
            if action == CharacterAction::LightAttack {
                self.set_character_state(CharacterState::LightAttack, game_config);
            } else if action == CharacterAction::MediumAttack {
                self.set_character_state(CharacterState::MediumAttack, game_config);
            } else if action == CharacterAction::HeavyAttack {
                self.set_character_state(CharacterState::HeavyAttack, game_config);
            } else if action == CharacterAction::LightKick {
                self.set_character_state(CharacterState::LightKick, game_config);
            } else if action == CharacterAction::MediumKick {
                self.set_character_state(CharacterState::MediumKick, game_config);
            } else if action == CharacterAction::HeavyKick {
                self.set_character_state(CharacterState::HeavyKick, game_config);
            } else if action == CharacterAction::Special1 {
                self.set_character_state(CharacterState::Special1, game_config);
            } else if action == CharacterAction::Parry {
                self.set_character_state(CharacterState::Parry, game_config);
            }
        }
    }

    /// Apply the stance and movement transitions for the frame's intent, then
    /// impose the velocity the resulting state calls for.
    pub(crate) fn post_action_phase(&mut self, action: CharacterAction, game_config: &GameConfig)
        requires
            config_wf(game_config@),
            old(self)@.wf(game_config@),
        ensures
            final(self)@ == spec_velocity_phase(
                spec_post_action(old(self)@, action, game_config@),
                game_config@,
            ),
            final(self)@.wf(game_config@),
    {
        if matches!(self.character_state, CharacterState::Idle) && self.is_crouched && action
            != CharacterAction::Crouch {
            self.is_crouched = false;
            self.set_character_state(CharacterState::Idle, game_config);
        }
        if matches!(self.character_state, CharacterState::Idle)
            || matches!(self.character_state, CharacterState::BackwardRun)
            || matches!(self.character_state, CharacterState::ForwardRun) {
            if action == CharacterAction::DashForward {
                self.set_character_state(CharacterState::ForwardDash, game_config);
            } else if action == CharacterAction::DashBackward {
                self.set_character_state(CharacterState::BackwardDash, game_config);
            } else if action == CharacterAction::MoveForward && !matches!(
                self.character_state,
                CharacterState::ForwardRun,
            ) {
                self.set_character_state(CharacterState::ForwardRun, game_config);
            } else if action == CharacterAction::MoveBackward && !matches!(
                self.character_state,
                CharacterState::BackwardRun,
            ) {
                self.set_character_state(CharacterState::BackwardRun, game_config);
            } else if action == CharacterAction::Crouch {
                if !self.is_crouched {
                    self.is_crouched = true;
                    self.set_character_state(CharacterState::Crouching, game_config);
                }
            } else if action == CharacterAction::Jump {
                self.set_character_state(CharacterState::Jump, game_config);
            }
        }
        if (matches!(self.character_state, CharacterState::ForwardRun) || matches!(
            self.character_state,
            CharacterState::BackwardRun,
        )) && action == CharacterAction::Neutral {
            self.set_character_state(CharacterState::Idle, game_config);
        }
        let ghost mid = self@;
        proof {
            assert(mid == spec_post_action(old(self)@, action, game_config@));
            assert(mid.wf(game_config@));
        }
        if matches!(self.character_state, CharacterState::ForwardRun) {
            let dir = self.screen_side.direction();
            self.character_velocity = Vec2 { x: -(CHARACTER_X_SPEED * dir), y: 0 };
        } else if matches!(self.character_state, CharacterState::BackwardRun) {
            let dir = self.screen_side.direction();
            self.character_velocity = Vec2 { x: CHARACTER_X_SPEED * dir, y: 0 };
        } else if matches!(self.character_state, CharacterState::ForwardDash) {
            let dir = self.screen_side.direction();
            self.character_velocity = Vec2 { x: -(CHARACTER_X_SPEED * dir * 2), y: 0 };
        } else if matches!(self.character_state, CharacterState::BackwardDash) {
            let dir = self.screen_side.direction();
            self.character_velocity = Vec2 { x: CHARACTER_X_SPEED * dir * 2, y: 0 };
        } else if matches!(self.character_state, CharacterState::LightHitRecovery) {
            let dir = self.screen_side.direction();
            self.character_velocity = Vec2 { x: CHARACTER_X_SPEED * dir, y: 0 };
        } else if matches!(self.character_state, CharacterState::Parried) {
            let dir = self.screen_side.direction();
            self.character_velocity = Vec2 { x: CHARACTER_X_SPEED / 2 * dir, y: 0 };
        } else if matches!(self.character_state, CharacterState::Jump) {
            proof {
                assert(crate::config::anim_error(
                    game_config@,
                    spec_anim_index(AnimationState::Jump),
                ) is None);
                assert(mid.animation_state == AnimationState::Jump);
                assert(game_config@.character_sheet[spec_anim_index(AnimationState::Jump)]
                    == game_config.character_sheet.animations@[
                    spec_anim_index(AnimationState::Jump)
                ]@);
            }
            let jump_data = &game_config.character_sheet.animations[anim_index(
                AnimationState::Jump,
            )];
            let displacement = jump_data.displacements[self.current_animation.current_frame
                as usize];
            self.character_velocity = Vec2 { x: self.character_velocity.x, y: displacement.y };
        } else {
            self.character_velocity = Vec2 { x: 0, y: 0 };
        }
        proof {
            assert(self@ =~= spec_velocity_phase(mid, game_config@));
        }
    }
}

} // verus!
