//! The round simulator: two fighters and their projectiles advanced one
//! frame at a time from per-player inputs, with movement blocking, strike
//! and parry resolution, damage, and round-over bookkeeping. The whole step
//! is a function of the previous state, the two inputs and the
//! configuration — nothing else — which is what rollback needs.

use vstd::prelude::*;
use crate::character::{
    spec_anim_index, spec_animation_for_state, spec_attack_transition, spec_anim_phase,
    spec_fallback_action, spec_process_new_input, spec_post_action, spec_set_character_state,
    spec_velocity_phase, AnimationState, Character, CharacterAction, CharacterState, CharacterV,
    ScreenSide, anim_index,
};
use crate::collision::{CharacterNumber, CollisionBox, CollisionBoxType, CollisionReport};
use crate::combo::ComboPatternV;
use crate::config::{config_wf, GameConfig, GameConfigV};
use crate::geometry::{
    spec_slide, Rect, Vec2, ARENA_HEIGHT_UNITS, ARENA_WIDTH_UNITS, FRAME_WIDTH_UNITS,
    MAX_PLAYER_DISTANCE_UNITS, REFLECT_AXIS_UNITS, WALK_BOX_OFFSET_X, WALK_BOX_OFFSET_Y,
};
use crate::input::{spec_adjust_input, Input, ScreenSideAdjustedInput};
use crate::projectile::{
    projectile_wf, spec_new_projectile, spec_projectile_tick, Projectile, ProjectileV,
    PROJECTILE_MAX_X, PROJECTILE_MIN_X, PROJECTILE_SPEED,
};
use crate::timer::{AnimationConfig, SpriteTimer};

verus! {

/// Hit-stun frames added when a parry lands.
pub const HIT_STUN_PARRY: u64 = 6;

/// Hit-stun frames added when a strike lands.
pub const HIT_STUN_STRIKE: u64 = 3;

/// Hit-stun frames added when a projectile lands.
pub const HIT_STUN_PROJECTILE: u64 = 6;

/// Damage a parry deals to the parried side.
pub const PARRY_DAMAGE: u32 = 5;

/// Damage a projectile deals.
pub const PROJECTILE_DAMAGE: u32 = 5;

/// Length of a round, in frames.
pub const ROUND_TIMER_FRAMES: u32 = 3600;

/// How long a finished round lingers before the session may reset it.
pub const RESET_TIMER_FRAMES: u32 = 300;

/// Starting x positions: the first character right of center, the second
/// left of it.
pub const CHARACTER_1_START_X: i64 = 6008;
pub const CHARACTER_2_START_X: i64 = 3688;

/// The animation frame of the special move on which its projectile spawns.
pub const SPECIAL_ACTIVATION_FRAME: u32 = 6;


/// The mathematical model of a `Round`.
#[verifier::ext_equal]
pub struct RoundV {
    pub characters: Seq<CharacterV>,
    pub frame: i64,
    pub round_timer: SpriteTimer,
    pub round_done: bool,
    pub hit_stun_counter: u64,
    pub projectiles: Seq<ProjectileV>,
    pub reset_round_timer: SpriteTimer,
}

/// One round of the match: the unit of save, load and advance that the
/// rollback session works with.
#[derive(Clone, PartialEq, Debug)]
pub struct Round {
    pub characters: Vec<Character>,
    pub frame: i64,
    pub round_timer: SpriteTimer,
    pub round_done: bool,
    pub hit_stun_counter: u64,
    pub projectiles: Vec<Projectile>,
    pub reset_round_timer: SpriteTimer,
}

impl View for Round {
    type V = RoundV;

    open spec fn view(&self) -> RoundV {
        RoundV {
            characters: self.characters@.map_values(|c: Character| c@),
            frame: self.frame,
            round_timer: self.round_timer,
            round_done: self.round_done,
            hit_stun_counter: self.hit_stun_counter,
            projectiles: self.projectiles@.map_values(|p: Projectile| p@),
            reset_round_timer: self.reset_round_timer,
        }
    }
}

/// Structural soundness of a round against its configuration: exactly two
/// well-formed characters, sound timers, a non-negative frame count, bounded
/// hit-stun, and a bounded list of well-formed projectiles.
pub open spec fn round_wf(r: RoundV, cfg: GameConfigV) -> bool {
    &&& r.characters.len() == 2
    &&& r.characters[0].wf(cfg)
    &&& r.characters[1].wf(cfg)
    &&& r.round_timer.wf()
    &&& r.reset_round_timer.wf()
    &&& 0 <= r.frame
    &&& r.projectiles.len() <= 0xffff_ffff_ffff_ffff
    &&& forall|i: int| 0 <= i < r.projectiles.len() ==> projectile_wf(#[trigger] r.projectiles[i])
}

/// Which side each character faces this frame, from relative x positions:
/// whoever stands further right faces left.
pub open spec fn spec_side_phase(r: RoundV) -> RoundV {
    if r.characters[0].character_position.x > r.characters[1].character_position.x {
        RoundV {
            characters: r.characters.update(
                0,
                CharacterV { screen_side: ScreenSide::Right, ..r.characters[0] },
            ).update(1, CharacterV { screen_side: ScreenSide::Left, ..r.characters[1] }),
            ..r
        }
    } else {
        RoundV {
            characters: r.characters.update(
                0,
                CharacterV { screen_side: ScreenSide::Left, ..r.characters[0] },
            ).update(1, CharacterV { screen_side: ScreenSide::Right, ..r.characters[1] }),
            ..r
        }
    }
}

/// Everything one frame does to a single character, and the projectile its
/// special move may launch: animation playback, input resolution, state
/// transitions and the state's velocity, as the character-level spec
/// functions define them.
pub open spec fn spec_character_tick(
    r: RoundV,
    idx: int,
    frame_input: Input,
    cfg: GameConfigV,
    lib: Seq<ComboPatternV>,
) -> (RoundV, Seq<ComboPatternV>) {
    let c = r.characters[idx];
    let c1 = spec_anim_phase(c, cfg);
    let adjusted = spec_adjust_input(frame_input, c1.screen_side);
    let pni = spec_process_new_input(c1, adjusted, lib);
    let c3 = spec_attack_transition(pni.0, pni.2, cfg);
    let spawn = c3.character_state == CharacterState::Special1
        && c3.current_animation.current_frame == SPECIAL_ACTIVATION_FRAME
        && c3.current_animation.sprite_timer.current_frame == 0;
    let velocity_x: i64 = if c3.screen_side is Left {
        PROJECTILE_SPEED
    } else {
        (-PROJECTILE_SPEED) as i64
    };
    let launched = spec_new_projectile(
        c3.character_position,
        Vec2 { x: velocity_x, y: 0 },
        c3.screen_side,
        idx as usize,
    );
    let projectiles = if spawn {
        r.projectiles.push(launched)
    } else {
        r.projectiles
    };
    let c4 = spec_velocity_phase(spec_post_action(c3, pni.2, cfg), cfg);
    (
        RoundV { characters: r.characters.update(idx, c4), projectiles, ..r },
        pni.1,
    )
}

/// Damage applied to one character: blocking divides the amount by ten and
/// stays blocking; otherwise the full amount lands and the target is forced
/// into the parried or hit-recovery state. Health floors at zero; it never
/// wraps.
pub open spec fn spec_do_damage(
    r: RoundV,
    idx: int,
    amount: u32,
    was_a_parry: bool,
    cfg: GameConfigV,
) -> RoundV {
    let c = r.characters[idx];
    let struck = if c.character_state == CharacterState::Blocking {
        let reduced = amount / 10;
        let health = if c.health <= reduced {
            0u32
        } else {
            (c.health - reduced) as u32
        };
        spec_set_character_state(
            CharacterV { health, ..c },
            CharacterState::Blocking,
            cfg,
        )
    } else {
        let health = if c.health <= amount {
            0u32
        } else {
            (c.health - amount) as u32
        };
        spec_set_character_state(
            CharacterV { health, ..c },
            if was_a_parry {
                CharacterState::Parried
            } else {
                CharacterState::LightHitRecovery
            },
            cfg,
        )
    };
    RoundV { characters: r.characters.update(idx, struck), ..r }
}

/// Who won and who lost, by remaining health; the second character wins ties.
pub open spec fn spec_winner(r: RoundV) -> int {
    if r.characters[0].health > r.characters[1].health {
        0
    } else {
        1
    }
}

/// A fresh round under a configuration: both characters idle at their
/// starting marks with full health, the clocks wound, nothing in flight.
pub open spec fn spec_new_round(cfg: GameConfigV) -> RoundV {
    let base_right = CharacterV {
        animation_state: AnimationState::Idle,
        character_state: CharacterState::Idle,
        current_animation: cfg.animation_configs[spec_anim_index(AnimationState::Idle)],
        character_position: Vec2 { x: CHARACTER_1_START_X, y: 0 },
        character_velocity: Vec2 { x: 0, y: 0 },
        screen_side: ScreenSide::Right,
        health: crate::character::STARTING_HEALTH,
        is_crouched: false,
        past_inputs: Seq::empty(),
        done: false,
    };
    let base_left = CharacterV {
        character_position: Vec2 { x: CHARACTER_2_START_X, y: 0 },
        screen_side: ScreenSide::Left,
        ..base_right
    };
    RoundV {
        characters: seq![base_right, base_left],
        frame: 0,
        round_timer: SpriteTimer { total_frames: ROUND_TIMER_FRAMES, current_frame: 0, finished: false },
        round_done: false,
        hit_stun_counter: 0,
        projectiles: Seq::empty(),
        reset_round_timer: SpriteTimer {
            total_frames: RESET_TIMER_FRAMES,
            current_frame: 0,
            finished: false,
        },
    }
}

/// `spec_new_round` reads only the animation table, so configurations that
/// differ elsewhere start identical rounds.
pub proof fn lemma_new_round_tables(cfg1: GameConfigV, cfg2: GameConfigV)
    requires
        cfg1.animation_configs == cfg2.animation_configs,
    ensures
        spec_new_round(cfg1) == spec_new_round(cfg2),
{
    assert(spec_new_round(cfg1).characters =~= spec_new_round(cfg2).characters);
    assert(spec_new_round(cfg1) =~= spec_new_round(cfg2));
}

impl Round {
    /// Start a round from a validated configuration, with both characters
    /// idling at their marks.
    pub fn new_with_animation_lib(game_config: &GameConfig) -> (r: Round)
        requires
            config_wf(game_config@),
        ensures
            r@ == spec_new_round(game_config@),
            round_wf(r@, game_config@),
    {
        proof {
            assert(crate::config::anim_error(
                game_config@,
                spec_anim_index(AnimationState::Idle),
            ) is None);
            assert(game_config@.animation_configs[spec_anim_index(AnimationState::Idle)]
                == game_config.animation_configs@[spec_anim_index(AnimationState::Idle)]@);
        }
        let mut character_1 = Character::new(ScreenSide::Right);
        character_1.character_position = Vec2 { x: CHARACTER_1_START_X, y: 0 };
        character_1.current_animation = game_config.animation_configs[anim_index(
            AnimationState::Idle,
        )].duplicate();
        let mut character_2 = Character::new(ScreenSide::Left);
        character_2.character_position = Vec2 { x: CHARACTER_2_START_X, y: 0 };
        character_2.current_animation = game_config.animation_configs[anim_index(
            AnimationState::Idle,
        )].duplicate();
        let mut characters: Vec<Character> = Vec::new();
        characters.push(character_1);
        characters.push(character_2);
        let r = Round {
            characters,
            frame: 0,
            round_timer: SpriteTimer::new(ROUND_TIMER_FRAMES),
            round_done: false,
            hit_stun_counter: 0,
            projectiles: Vec::new(),
            reset_round_timer: SpriteTimer::new(RESET_TIMER_FRAMES),
        };
        proof {
            assert(r@.characters[0] =~= spec_new_round(game_config@).characters[0]);
            assert(r@.characters[1] =~= spec_new_round(game_config@).characters[1]);
            assert(r@.characters =~= spec_new_round(game_config@).characters);
            assert(r@.projectiles =~= spec_new_round(game_config@).projectiles);
            assert(r@ =~= spec_new_round(game_config@));
        }
        r
    }

    /// Which character index won and which lost, by remaining health.
    pub fn who_won_who_lost(&self) -> (r: (usize, usize))
        requires
            self@.characters.len() == 2,
        ensures
            r.0 == spec_winner(self@),
            r.1 == 1 - spec_winner(self@),
    {
        proof {
            assert(self@.characters[0] == self.characters@[0]@);
            assert(self@.characters[1] == self.characters@[1]@);
        }
        if self.characters[0].health > self.characters[1].health {
            (0, 1)
        } else {
            (1, 0)
        }
    }

    /// Apply damage to one character, as `spec_do_damage` describes.
    pub fn do_damage_to_character(
        &mut self,
        character_index: usize,
        amount: u32,
        was_a_parry: bool,
        game_config: &GameConfig,
    )
        requires
            config_wf(game_config@),
            old(self)@.characters.len() == 2,
            character_index < 2,
        ensures
            final(self)@ == spec_do_damage(
                old(self)@,
                character_index as int,
                amount,
                was_a_parry,
                game_config@,
            ),
            final(self)@.characters.len() == 2,
            forall|k: int|
                0 <= k < 2 && old(self)@.characters[k].wf(game_config@) ==> (
                #[trigger] final(self)@.characters[k]).wf(game_config@),
    {
        proof {
            if old(self)@.characters[character_index as int].wf(game_config@) {
                let c = old(self)@.characters[character_index as int];
                if c.character_state == CharacterState::Blocking {
                    let reduced = amount / 10;
                    let health = if c.health <= reduced {
                        0u32
                    } else {
                        (c.health - reduced) as u32
                    };
                    crate::character::lemma_set_state_wf(
                        CharacterV { health, ..c },
                        CharacterState::Blocking,
                        game_config@,
                    );
                } else {
                    let health = if c.health <= amount {
                        0u32
                    } else {
                        (c.health - amount) as u32
                    };
                    crate::character::lemma_set_state_wf(
                        CharacterV { health, ..c },
                        if was_a_parry {
                            CharacterState::Parried
                        } else {
                            CharacterState::LightHitRecovery
                        },
                        game_config@,
                    );
                }
            }
        }
        let ghost prev = self@;
        proof {
            assert(prev.characters[character_index as int]
                == self.characters@[character_index as int]@);
        }
        let struck = &mut self.characters[character_index];
        if matches!(struck.character_state, CharacterState::Blocking) {
            let reduced = amount / 10;
            if struck.health <= reduced {
                struck.health = 0;
            } else {
                struck.health = struck.health - reduced;
            }
            struck.set_character_state(CharacterState::Blocking, game_config);
        } else {
            if struck.health <= amount {
                struck.health = 0;
            } else {
                struck.health = struck.health - amount;
            }
            if was_a_parry {
                struck.set_character_state(CharacterState::Parried, game_config);
            } else {
                struck.set_character_state(CharacterState::LightHitRecovery, game_config);
            }
        }
        proof {
            assert(self@.characters =~= spec_do_damage(
                prev,
                character_index as int,
                amount,
                was_a_parry,
                game_config@,
            ).characters);
            assert(self@ =~= spec_do_damage(
                prev,
                character_index as int,
                amount,
                was_a_parry,
                game_config@,
            ));
        }
    }

    /// Run one character's share of the frame: animation playback, input
    /// resolution through the combo matcher, state transitions, the state's
    /// velocity, and the projectile a special move may launch. Only the
    /// combo library inside the configuration mutates.
    #[verifier::rlimit(100)]
    pub fn character_tick(
        &mut self,
        character_index: usize,
        frame_input: Input,
        game_config: &mut GameConfig,
    )
        requires
            config_wf(old(game_config)@),
            old(self)@.characters.len() == 2,
            character_index < 2,
            old(self)@.characters[character_index as int].wf(old(game_config)@),
        ensures
            ({
                let stepped = spec_character_tick(
                    old(self)@,
                    character_index as int,
                    frame_input,
                    old(game_config)@,
                    old(game_config)@.combo_library,
                );
                &&& final(self)@ == stepped.0
                &&& final(game_config)@ == (GameConfigV {
                    combo_library: stepped.1,
                    ..old(game_config)@
                })
            }),
            config_wf(final(game_config)@),
            final(self)@.characters.len() == 2,
            final(self)@.characters[character_index as int].wf(old(game_config)@),
            final(self)@.characters[1 - character_index as int] == old(self)@.characters[1
                - character_index as int],
            final(self)@.projectiles.len() <= old(self)@.projectiles.len() + 1,
            final(self)@.projectiles.len() <= usize::MAX,
    {
        let ghost prev = self@;
        let ghost cfg0 = game_config@;
        proof {
            assert(prev.characters[character_index as int]
                == self.characters@[character_index as int]@);
        }
        let fighter = &mut self.characters[character_index];
        fighter.anim_phase(game_config);
        let adjusted = ScreenSideAdjustedInput::new(&frame_input, fighter.screen_side);
        let character_action = fighter.process_new_input(
            adjusted,
            &mut game_config.combo_library,
        );
        proof {
            crate::config::lemma_config_wf_combo_swap(cfg0, game_config@.combo_library);
            assert(game_config@ =~= (GameConfigV {
                combo_library: game_config@.combo_library,
                ..cfg0
            }));
        }
        fighter.attack_transition(character_action, game_config);
        let spawn = matches!(fighter.character_state, CharacterState::Special1)
            && fighter.current_animation.current_frame == SPECIAL_ACTIVATION_FRAME
            && fighter.current_animation.sprite_timer.current_frame == 0;
        let spawn_position = fighter.character_position;
        let spawn_side = fighter.screen_side;
        fighter.post_action_phase(character_action, game_config);
        if spawn {
            let velocity_x: i64 = if matches!(spawn_side, ScreenSide::Left) {
                PROJECTILE_SPEED
            } else {
                -PROJECTILE_SPEED
            };
            let fireball = Projectile::new(
                spawn_position,
                Vec2 { x: velocity_x, y: 0 },
                spawn_side,
                character_index,
            );
            self.projectiles.push(fireball);
        }
        // Reading the length here puts the list's usize bound in scope for
        // the postcondition.
        let projectile_count = self.projectiles.len();
        proof {
            assert(self@.projectiles.len() == projectile_count as nat);
        }
        proof {
            let stepped = spec_character_tick(
                prev,
                character_index as int,
                frame_input,
                cfg0,
                cfg0.combo_library,
            );
            assert(self@.characters =~= stepped.0.characters);
            assert(self@.projectiles =~= stepped.0.projectiles);
            assert(self@ =~= stepped.0);
            assert(game_config@ =~= (GameConfigV { combo_library: stepped.1, ..cfg0 }));
            assert(config_wf(game_config@)) by {
                assert(forall|i: int|
                    0 <= i < crate::character::ANIMATION_STATE_COUNT
                        ==> crate::config::anim_error(game_config@, i)
                        == crate::config::anim_error(cfg0, i));
                assert(crate::combo::library_wf(game_config@.combo_library));
            }
        }
    }
}

/// Whether a projectile is still inside the band it may fly in.
pub open spec fn spec_projectile_keep(p: ProjectileV) -> bool {
    PROJECTILE_MIN_X <= p.position.x <= PROJECTILE_MAX_X
}

/// The first `i` projectiles each moved and animated one frame, keeping only
/// those that stayed inside the arena band.
pub open spec fn spec_ticked_kept(ps: Seq<ProjectileV>, i: int) -> Seq<ProjectileV>
    decreases i,
{
    if i <= 0 {
        Seq::empty()
    } else {
        let ticked = spec_projectile_tick(ps[i - 1]);
        spec_ticked_kept(ps, i - 1) + if spec_projectile_keep(ticked) {
            seq![ticked]
        } else {
            Seq::empty()
        }
    }
}

/// All projectiles advanced one frame; those that left the arena band are
/// removed from flight.
pub open spec fn spec_projectiles_phase(r: RoundV) -> RoundV {
    RoundV { projectiles: spec_ticked_kept(r.projectiles, r.projectiles.len() as int), ..r }
}

/// The finished-round frame: the healthier character is driven to the won
/// state and the other to the lost state, both marked done, and only the
/// reset clock advances.
pub open spec fn spec_round_done_phase(r: RoundV, cfg: GameConfigV) -> RoundV {
    let won = spec_winner(r);
    let lost = 1 - won;
    let winner = CharacterV {
        done: true,
        ..spec_set_character_state(r.characters[won], CharacterState::Won, cfg)
    };
    let loser = CharacterV {
        done: true,
        ..spec_set_character_state(r.characters[lost], CharacterState::Lost, cfg)
    };
    RoundV {
        characters: r.characters.update(won, winner).update(lost, loser),
        reset_round_timer: r.reset_round_timer.spec_tick(),
        ..r
    }
}

/// Where a character ends up after its walk box slid to `wb_slid`: the box
/// offset is removed, x is clamped to the arena and then snapped toward the
/// opponent when beyond the maximum separation, and finally both coordinates
/// are clamped to the arena bounds.
pub open spec fn spec_moved_position(wb_slid: Rect, other_x: i64, snap_right: bool) -> Vec2 {
    let px = wb_slid.min.x - WALK_BOX_OFFSET_X;
    let py = wb_slid.min.y - WALK_BOX_OFFSET_Y;
    let snapped: int = if px < 0 {
        0
    } else if px + FRAME_WIDTH_UNITS >= ARENA_WIDTH_UNITS {
        ARENA_WIDTH_UNITS - FRAME_WIDTH_UNITS
    } else if px - other_x > MAX_PLAYER_DISTANCE_UNITS || other_x - px
        > MAX_PLAYER_DISTANCE_UNITS {
        if snap_right {
            other_x + MAX_PLAYER_DISTANCE_UNITS
        } else {
            other_x - MAX_PLAYER_DISTANCE_UNITS
        }
    } else {
        px
    };
    let clamped_x: int = if snapped < 0 {
        0
    } else if snapped > ARENA_WIDTH_UNITS - FRAME_WIDTH_UNITS {
        ARENA_WIDTH_UNITS - FRAME_WIDTH_UNITS
    } else {
        snapped
    };
    let clamped_y: int = if py < 0 {
        0
    } else if py > ARENA_HEIGHT_UNITS {
        ARENA_HEIGHT_UNITS as int
    } else {
        py
    };
    Vec2 { x: clamped_x as i64, y: clamped_y as i64 }
}

/// The movement-resolution frame: each character with a nonzero velocity
/// slides its walk box against the other's (airborne opponents block
/// nothing), the first character first; the second slides against wherever
/// the first's box slid to. Positions are then clamped as
/// `spec_moved_position` describes.
pub open spec fn spec_movement_phase(r: RoundV) -> RoundV {
    let c0 = r.characters[0];
    let c1 = r.characters[1];
    let wb0 = c0.spec_walk_box();
    let wb1 = c1.spec_walk_box();
    let moves0 = c0.character_velocity.x != 0 || c0.character_velocity.y != 0;
    let obstacle0 = if c1.character_state == CharacterState::Jump {
        None
    } else {
        Some(wb1)
    };
    let wb0_slid = if moves0 {
        spec_slide(wb0, c0.character_velocity, obstacle0)
    } else {
        wb0
    };
    let c0_moved = if moves0 {
        CharacterV {
            character_position: spec_moved_position(wb0_slid, c1.character_position.x, true),
            ..c0
        }
    } else {
        c0
    };
    let moves1 = c1.character_velocity.x != 0 || c1.character_velocity.y != 0;
    let obstacle1 = if c0.character_state == CharacterState::Jump {
        None
    } else {
        Some(wb0_slid)
    };
    let c1_moved = if moves1 {
        CharacterV {
            character_position: spec_moved_position(
                spec_slide(wb1, c1.character_velocity, obstacle1),
                c0_moved.character_position.x,
                false,
            ),
            ..c1
        }
    } else {
        c1
    };
    RoundV { characters: seq![c0_moved, c1_moved], ..r }
}

/// The every-tick round-over checks: the round ends the instant either
/// health reaches zero, or the round clock just finished.
pub open spec fn spec_end_check(r: RoundV) -> RoundV {
    if r.characters[0].health == 0 || r.characters[1].health == 0 {
        RoundV { round_done: true, ..r }
    } else if r.round_timer.finished {
        RoundV { round_done: true, ..r }
    } else {
        r
    }
}

impl Round {
    /// Advance every projectile and drop those that left the arena band.
    pub(crate) fn projectiles_phase(&mut self)
        requires
            forall|i: int|
                0 <= i < old(self)@.projectiles.len() ==> projectile_wf(
                    #[trigger] old(self)@.projectiles[i],
                ),
        ensures
            final(self)@ == spec_projectiles_phase(old(self)@),
            final(self)@.projectiles.len() <= old(self)@.projectiles.len(),
            forall|i: int|
                0 <= i < final(self)@.projectiles.len() ==> projectile_wf(
                    #[trigger] final(self)@.projectiles[i],
                ),
    {
        let ghost prev = self@;
        let mut kept: Vec<Projectile> = Vec::new();
        let mut i: usize = 0;
        while i < self.projectiles.len()
            invariant
                self@ == prev,
                i <= prev.projectiles.len(),
                kept@.map_values(|p: Projectile| p@) == spec_ticked_kept(
                    prev.projectiles,
                    i as int,
                ),
                kept@.len() <= i,
                forall|k: int|
                    0 <= k < kept@.len() ==> projectile_wf(#[trigger] kept@[k]@),
            decreases prev.projectiles.len() - i,
        {
            let current = &self.projectiles[i];
            proof {
                assert(prev.projectiles[i as int] == current@);
            }
            let mut ticked = Projectile {
                position: current.position,
                velocity: current.velocity,
                screen_side: current.screen_side,
                timer: current.timer.duplicate(),
                team: current.team,
            };
            proof {
                assert(ticked@ =~= current@);
            }
            ticked.tick();
            let ghost before_push = kept@.map_values(|p: Projectile| p@);
            if ticked.position.x >= PROJECTILE_MIN_X && ticked.position.x <= PROJECTILE_MAX_X {
                kept.push(ticked);
                proof {
                    assert(kept@.map_values(|p: Projectile| p@) =~= before_push.push(
                        spec_projectile_tick(prev.projectiles[i as int]),
                    ));
                    assert(kept@.map_values(|p: Projectile| p@) =~= spec_ticked_kept(
                        prev.projectiles,
                        i + 1,
                    ));
                }
            } else {
                proof {
                    assert(kept@.map_values(|p: Projectile| p@) =~= spec_ticked_kept(
                        prev.projectiles,
                        i + 1,
                    ));
                }
            }
            i = i + 1;
        }
        self.projectiles = kept;
        proof {
            assert(self@ =~= spec_projectiles_phase(prev));
        }
    }

    /// Drive the finished round: winner to won, loser to lost, and tick only
    /// the reset clock.
    pub(crate) fn round_done_phase(&mut self, game_config: &GameConfig)
        requires
            config_wf(game_config@),
            old(self)@.characters.len() == 2,
            old(self)@.reset_round_timer.wf(),
        ensures
            final(self)@ == spec_round_done_phase(old(self)@, game_config@),
            final(self)@.characters.len() == 2,
            forall|k: int|
                0 <= k < 2 && old(self)@.characters[k].wf(game_config@) ==> (
                #[trigger] final(self)@.characters[k]).wf(game_config@),
            final(self)@.reset_round_timer.wf(),
    {
        proof {
            let won = spec_winner(old(self)@);
            if old(self)@.characters[won].wf(game_config@) {
                crate::character::lemma_set_state_wf(
                    old(self)@.characters[won],
                    CharacterState::Won,
                    game_config@,
                );
            }
            if old(self)@.characters[1 - won].wf(game_config@) {
                crate::character::lemma_set_state_wf(
                    old(self)@.characters[1 - won],
                    CharacterState::Lost,
                    game_config@,
                );
            }
        }
        let ghost prev = self@;
        let winners = self.who_won_who_lost();
        let won = winners.0;
        let lost = winners.1;
        proof {
            assert(prev.characters[won as int] == self.characters@[won as int]@);
        }
        self.characters[won].set_character_state(CharacterState::Won, game_config);
        self.characters[won].set_done(true);
        proof {
            assert(self@.characters[lost as int] == prev.characters[lost as int]);
            assert(self.characters@[lost as int]@ == prev.characters[lost as int]);
        }
        self.characters[lost].set_character_state(CharacterState::Lost, game_config);
        self.characters[lost].set_done(true);
        self.reset_round_timer.tick();
        proof {
            assert(self@.characters =~= spec_round_done_phase(prev, game_config@).characters);
            assert(self@ =~= spec_round_done_phase(prev, game_config@));
        }
    }

    /// Resolve movement for both characters, the first one first.
    #[verifier::rlimit(100)]
    pub(crate) fn movement_phase(&mut self)
        requires
            old(self)@.characters.len() == 2,
            old(self)@.characters[0].pos_in_arena(),
            old(self)@.characters[1].pos_in_arena(),
            -crate::config::MAX_DISPLACEMENT <= old(self)@.characters[0].character_velocity.x
                <= crate::config::MAX_DISPLACEMENT,
            -crate::config::MAX_DISPLACEMENT <= old(self)@.characters[0].character_velocity.y
                <= crate::config::MAX_DISPLACEMENT,
            -crate::config::MAX_DISPLACEMENT <= old(self)@.characters[1].character_velocity.x
                <= crate::config::MAX_DISPLACEMENT,
            -crate::config::MAX_DISPLACEMENT <= old(self)@.characters[1].character_velocity.y
                <= crate::config::MAX_DISPLACEMENT,
        ensures
            final(self)@ == spec_movement_phase(old(self)@),
            final(self)@.characters.len() == 2,
            final(self)@.characters[0].pos_in_arena(),
            final(self)@.characters[1].pos_in_arena(),
    {
        let ghost prev = self@;
        proof {
            assert(prev.characters[0] == self.characters@[0]@);
            assert(prev.characters[1] == self.characters@[1]@);
        }
        let walk_box_0 = self.characters[0].get_walk_box();
        let walk_box_1 = self.characters[1].get_walk_box();
        let velocity_0 = self.characters[0].character_velocity;
        let velocity_1 = self.characters[1].character_velocity;
        let c1_airborne = matches!(self.characters[1].character_state, CharacterState::Jump);
        let c0_airborne = matches!(self.characters[0].character_state, CharacterState::Jump);
        let mut walk_box_0_current = walk_box_0;
        if velocity_0.x != 0 || velocity_0.y != 0 {
            let slid = if c1_airborne {
                crate::geometry::slide(&walk_box_0, velocity_0, None)
            } else {
                crate::geometry::slide(&walk_box_0, velocity_0, Some(&walk_box_1))
            };
            walk_box_0_current = slid;
            let other_x = self.characters[1].character_position.x;
            let new_position = moved_position(&slid, other_x, true);
            self.characters[0].set_position(new_position);
        }
        if velocity_1.x != 0 || velocity_1.y != 0 {
            let slid = if c0_airborne {
                crate::geometry::slide(&walk_box_1, velocity_1, None)
            } else {
                crate::geometry::slide(&walk_box_1, velocity_1, Some(&walk_box_0_current))
            };
            let other_x = self.characters[0].character_position.x;
            let new_position = moved_position(&slid, other_x, false);
            self.characters[1].set_position(new_position);
        }
        proof {
            assert(self@.characters[0] == spec_movement_phase(prev).characters[0]);
            assert(self@.characters[1] == spec_movement_phase(prev).characters[1]);
            assert(self@.characters =~= spec_movement_phase(prev).characters);
            assert(self@ =~= spec_movement_phase(prev));
        }
    }
}

/// One collision rectangle carried into world space: mirrored about the
/// frame midline when its owner faces left, then translated to the owner's
/// position.
pub open spec fn spec_world_box(cb: CollisionBox, side: ScreenSide, position: Vec2) -> (
    Rect,
    CollisionBoxType,
) {
    let local = if side is Left {
        cb.aabb.spec_reflect(REFLECT_AXIS_UNITS)
    } else {
        cb.aabb
    };
    (local.spec_translate(position), cb.box_type)
}

/// A character's collision rectangles for its current animation frame, in
/// world space.
pub open spec fn spec_char_boxes(c: CharacterV, cfg: GameConfigV) -> Seq<(Rect, CollisionBoxType)> {
    cfg.collision_library.collision_info[spec_anim_index(c.animation_state)][
        c.current_animation.current_frame as int
    ].map_values(|cb: CollisionBox| spec_world_box(cb, c.screen_side, c.character_position))
}

/// Whether a rectangle kind probes the opponent: hurt and parry rectangles do.
pub open spec fn spec_is_probe_kind(t: CollisionBoxType) -> bool {
    t is Hurt || t is Parry
}

/// The reports one probing rectangle files against the first `j` target
/// rectangles, in target order.
pub open spec fn spec_probe_hits(
    probe: (Rect, CollisionBoxType),
    targets: Seq<(Rect, CollisionBoxType)>,
    j: int,
    who: CharacterNumber,
) -> Seq<CollisionReport>
    decreases j,
{
    if j <= 0 {
        Seq::empty()
    } else {
        spec_probe_hits(probe, targets, j - 1, who) + if probe.0.spec_intersects(
            targets[j - 1].0,
        ) {
            seq![
                CollisionReport {
                    collider_type: probe.1,
                    collide_type: targets[j - 1].1,
                    collider_character: who,
                },
            ]
        } else {
            Seq::empty()
        }
    }
}

/// The reports the first `i` probing rectangles file, probe-major, where
/// only hurt and parry rectangles probe.
pub open spec fn spec_reports(
    probes: Seq<(Rect, CollisionBoxType)>,
    targets: Seq<(Rect, CollisionBoxType)>,
    i: int,
    who: CharacterNumber,
) -> Seq<CollisionReport>
    decreases i,
{
    if i <= 0 {
        Seq::empty()
    } else {
        spec_reports(probes, targets, i - 1, who) + if spec_is_probe_kind(probes[i - 1].1) {
            spec_probe_hits(probes[i - 1], targets, targets.len() as int, who)
        } else {
            Seq::empty()
        }
    }
}

/// Every report of this frame's character-versus-character pass: the first
/// character's hurt and parry rectangles probed against all of the second's
/// rectangles, then the mirror pass.
pub open spec fn spec_char_reports(r: RoundV, cfg: GameConfigV) -> Seq<CollisionReport> {
    let boxes0 = spec_char_boxes(r.characters[0], cfg);
    let boxes1 = spec_char_boxes(r.characters[1], cfg);
    spec_reports(boxes0, boxes1, boxes0.len() as int, CharacterNumber::Number1) + spec_reports(
        boxes1,
        boxes0,
        boxes1.len() as int,
        CharacterNumber::Number2,
    )
}

/// A report is a parry when a parry rectangle met a hurt rectangle.
pub open spec fn spec_is_parry_report(rep: CollisionReport) -> bool {
    rep.collider_type is Parry && rep.collide_type is Hurt
}

/// A report is a strike when a hurt rectangle met a rectangle of any other
/// kind.
pub open spec fn spec_is_strike_report(rep: CollisionReport) -> bool {
    rep.collider_type is Hurt && rep.collide_type != rep.collider_type
}

/// The character index a report's damage lands on: the opponent of the
/// probing side.
pub open spec fn spec_struck_index(who: CharacterNumber) -> int {
    match who {
        CharacterNumber::Number1 => 1,
        CharacterNumber::Number2 => 0,
    }
}

/// Hit-stun added to the frozen-round counter; the addition saturates at
/// the counter's top, which no playable match approaches.
pub open spec fn spec_add_stun(r: RoundV, amount: u64) -> RoundV {
    RoundV {
        hit_stun_counter: if r.hit_stun_counter + amount > u64::MAX {
            u64::MAX
        } else {
            (r.hit_stun_counter + amount) as u64
        },
        ..r
    }
}

/// Parries applied in report order: each lands fixed damage on the parried
/// side and freezes the round briefly.
pub open spec fn spec_apply_parries(
    r: RoundV,
    reports: Seq<CollisionReport>,
    i: int,
    cfg: GameConfigV,
) -> RoundV
    decreases reports.len() - i,
{
    if i < 0 || i >= reports.len() {
        r
    } else {
        let stepped = if spec_is_parry_report(reports[i]) {
            spec_add_stun(
                spec_do_damage(
                    r,
                    spec_struck_index(reports[i].collider_character),
                    PARRY_DAMAGE,
                    true,
                    cfg,
                ),
                HIT_STUN_PARRY,
            )
        } else {
            r
        };
        spec_apply_parries(stepped, reports, i + 1, cfg)
    }
}

/// Strikes applied in report order: each lands the probing side's current
/// damage, read at the moment the report is processed, on the opponent.
pub open spec fn spec_apply_strikes(
    r: RoundV,
    reports: Seq<CollisionReport>,
    i: int,
    cfg: GameConfigV,
) -> RoundV
    decreases reports.len() - i,
{
    if i < 0 || i >= reports.len() {
        r
    } else {
        let stepped = if spec_is_strike_report(reports[i]) {
            let struck = spec_struck_index(reports[i].collider_character);
            let amount = r.characters[1 - struck].spec_current_damage();
            spec_add_stun(spec_do_damage(r, struck, amount, false, cfg), HIT_STUN_STRIKE)
        } else {
            r
        };
        spec_apply_strikes(stepped, reports, i + 1, cfg)
    }
}

/// A projectile's single hurt rectangle in world space: the first box of the
/// shared projectile table, mirrored when the projectile faces left.
pub open spec fn spec_projectile_box(p: ProjectileV, cfg: GameConfigV) -> Rect {
    let base = cfg.collision_library.fireball_collision[0][0].aabb;
    let local = if p.screen_side is Left {
        base.spec_reflect(REFLECT_AXIS_UNITS)
    } else {
        base
    };
    local.spec_translate(p.position)
}

/// The reports the first `i` projectiles file, projectile-major: each
/// projectile's rectangle probes the rectangles of the character on the
/// opposing team.
pub open spec fn spec_proj_reports(
    ps: Seq<ProjectileV>,
    boxes0: Seq<(Rect, CollisionBoxType)>,
    boxes1: Seq<(Rect, CollisionBoxType)>,
    cfg: GameConfigV,
    i: int,
) -> Seq<CollisionReport>
    decreases i,
{
    if i <= 0 {
        Seq::empty()
    } else {
        let p = ps[i - 1];
        let who = if p.team == 0 {
            CharacterNumber::Number1
        } else {
            CharacterNumber::Number2
        };
        let targets = if p.team == 0 {
            boxes1
        } else {
            boxes0
        };
        spec_proj_reports(ps, boxes0, boxes1, cfg, i - 1) + spec_probe_hits(
            (spec_projectile_box(p, cfg), CollisionBoxType::Hurt),
            targets,
            targets.len() as int,
            who,
        )
    }
}

/// Projectile hits applied in report order: fixed damage and hit-stun on the
/// struck side.
pub open spec fn spec_apply_projectile_hits(
    r: RoundV,
    reports: Seq<CollisionReport>,
    i: int,
    cfg: GameConfigV,
) -> RoundV
    decreases reports.len() - i,
{
    if i < 0 || i >= reports.len() {
        r
    } else {
        let struck = spec_struck_index(reports[i].collider_character);
        let stepped = spec_add_stun(
            spec_do_damage(r, struck, PROJECTILE_DAMAGE, false, cfg),
            HIT_STUN_PROJECTILE,
        );
        spec_apply_projectile_hits(stepped, reports, i + 1, cfg)
    }
}

/// The whole strike-resolution pass: character-versus-character reports are
/// collected from the pre-damage state, parries are applied first and then
/// strikes; projectile reports are collected from the same pre-damage state,
/// and if any projectile hit, every projectile is cleared and each hit's
/// damage applied.
pub open spec fn spec_strike_phase(r: RoundV, cfg: GameConfigV) -> RoundV {
    let boxes0 = spec_char_boxes(r.characters[0], cfg);
    let boxes1 = spec_char_boxes(r.characters[1], cfg);
    let reports = spec_char_reports(r, cfg);
    let after_parries = spec_apply_parries(r, reports, 0, cfg);
    let after_strikes = spec_apply_strikes(after_parries, reports, 0, cfg);
    let proj_reports = spec_proj_reports(
        r.projectiles,
        boxes0,
        boxes1,
        cfg,
        r.projectiles.len() as int,
    );
    if proj_reports.len() > 0 {
        spec_apply_projectile_hits(
            RoundV { projectiles: Seq::empty(), ..after_strikes },
            proj_reports,
            0,
            cfg,
        )
    } else {
        after_strikes
    }
}

/// A character's world-space collision rectangles for its current animation
/// frame, as `spec_char_boxes` describes them.
fn collect_char_boxes(fighter: &Character, game_config: &GameConfig) -> (r: Vec<(
    Rect,
    CollisionBoxType,
)>)
    requires
        config_wf(game_config@),
        fighter@.wf(game_config@),
    ensures
        r@ == spec_char_boxes(fighter@, game_config@),
        r@.len() <= crate::config::MAX_BOXES_PER_FRAME,
{
    let ghost cfg = game_config@;
    let ghost anim = spec_anim_index(fighter@.animation_state);
    proof {
        assert(crate::config::anim_error(cfg, anim) is None);
        assert(cfg.collision_library.collision_info[anim]
            == game_config.collision_library.collision_info@[anim]@);
    }
    let table_index = anim_index(fighter.animation_state);
    let frame = fighter.current_animation.current_frame as usize;
    let table = &game_config.collision_library.collision_info[table_index];
    proof {
        assert(cfg.character_sheet[anim].frame_lengths.len()
            == fighter@.current_animation.frame_times.len());
        assert(frame < table@.len());
    }
    let frame_boxes = &table.frame_collision[frame];
    let ghost spec_frame = cfg.collision_library.collision_info[anim][frame as int];
    proof {
        assert(spec_frame == frame_boxes@);
        assert(spec_frame.len() <= crate::config::MAX_BOXES_PER_FRAME);
    }
    let facing_left = matches!(fighter.screen_side, ScreenSide::Left);
    let position = fighter.character_position;
    let mut out: Vec<(Rect, CollisionBoxType)> = Vec::new();
    let mut b: usize = 0;
    while b < frame_boxes.len()
        invariant
            spec_frame == frame_boxes@,
            facing_left == (fighter@.screen_side is Left),
            position == fighter@.character_position,
            b <= frame_boxes@.len(),
            out@.len() == b,
            forall|k: int|
                0 <= k < b ==> #[trigger] out@[k] == spec_world_box(
                    spec_frame[k],
                    fighter@.screen_side,
                    fighter@.character_position,
                ),
        decreases frame_boxes@.len() - b,
    {
        let cb = frame_boxes[b];
        proof {
            assert(crate::config::box_in_range(spec_frame[b as int]));
        }
        let local = if facing_left {
            cb.aabb.reflect(REFLECT_AXIS_UNITS)
        } else {
            cb.aabb
        };
        let world = local.translate(position);
        out.push((world, cb.box_type));
        b = b + 1;
    }
    proof {
        assert(out@ =~= spec_char_boxes(fighter@, cfg));
    }
    out
}

/// File the reports of one probing pass into `reports`, probe-major, as
/// `spec_reports` describes.
fn collect_reports_into(
    reports: &mut Vec<CollisionReport>,
    probes: &Vec<(Rect, CollisionBoxType)>,
    targets: &Vec<(Rect, CollisionBoxType)>,
    who: CharacterNumber,
)
    ensures
        final(reports)@ == old(reports)@ + spec_reports(
            probes@,
            targets@,
            probes@.len() as int,
            who,
        ),
        final(reports)@.len() <= old(reports)@.len() + probes@.len() * targets@.len(),
{
    let ghost base = reports@;
    let mut i: usize = 0;
    while i < probes.len()
        invariant
            i <= probes@.len(),
            reports@ == base + spec_reports(probes@, targets@, i as int, who),
            reports@.len() <= base.len() + i * targets@.len(),
        decreases probes@.len() - i,
    {
        let probe = probes[i];
        if matches!(probe.1, CollisionBoxType::Hurt) || matches!(probe.1, CollisionBoxType::Parry) {
            let mut j: usize = 0;
            while j < targets.len()
                invariant
                    i < probes@.len(),
                    probe == probes@[i as int],
                    spec_is_probe_kind(probe.1),
                    j <= targets@.len(),
                    reports@ == base + spec_reports(probes@, targets@, i as int, who)
                        + spec_probe_hits(probe, targets@, j as int, who),
                    reports@.len() <= base.len() + i * targets@.len() + j,
                decreases targets@.len() - j,
            {
                let target = targets[j];
                if probe.0.intersects(&target.0) {
                    reports.push(
                        CollisionReport {
                            collider_type: probe.1,
                            collide_type: target.1,
                            collider_character: who,
                        },
                    );
                    proof {
                        assert(reports@ =~= base + spec_reports(
                            probes@,
                            targets@,
                            i as int,
                            who,
                        ) + spec_probe_hits(probe, targets@, j + 1, who));
                    }
                } else {
                    proof {
                        assert(reports@ =~= base + spec_reports(
                            probes@,
                            targets@,
                            i as int,
                            who,
                        ) + spec_probe_hits(probe, targets@, j + 1, who));
                    }
                }
                j = j + 1;
            }
            proof {
                assert(reports@ =~= base + spec_reports(probes@, targets@, i + 1, who));
            }
        } else {
            proof {
                assert(reports@ =~= base + spec_reports(probes@, targets@, i + 1, who));
            }
        }
        proof {
            let t = targets@.len() as int;
            assert((i + 1) * t == i * t + t) by (nonlinear_arith);
        }
        i = i + 1;
    }
}

impl Round {
    /// Add hit-stun to the frozen-round counter, saturating at the
    /// counter's top, as `spec_add_stun` describes.
    fn add_stun(&mut self, amount: u64)
        ensures
            final(self)@ == spec_add_stun(old(self)@, amount),
    {
        if self.hit_stun_counter > u64::MAX - amount {
            self.hit_stun_counter = u64::MAX;
        } else {
            self.hit_stun_counter = self.hit_stun_counter + amount;
        }
        proof {
            assert(self@ =~= spec_add_stun(old(self)@, amount));
        }
    }

    /// Apply the parry reports in order: each parry lands fixed damage on
    /// the parried side and adds a short freeze.
    fn apply_parry_reports(&mut self, reports: &Vec<CollisionReport>, game_config: &GameConfig)
        requires
            config_wf(game_config@),
            old(self)@.characters.len() == 2,
            old(self)@.characters[0].wf(game_config@),
            old(self)@.characters[1].wf(game_config@),
        ensures
            final(self)@ == spec_apply_parries(old(self)@, reports@, 0, game_config@),
            final(self)@.characters.len() == 2,
            final(self)@.characters[0].wf(game_config@),
            final(self)@.characters[1].wf(game_config@),
            final(self)@.projectiles == old(self)@.projectiles,
            final(self)@.frame == old(self)@.frame,
            final(self)@.round_timer == old(self)@.round_timer,
            final(self)@.round_done == old(self)@.round_done,
            final(self)@.reset_round_timer == old(self)@.reset_round_timer,
    {
        let ghost cfg = game_config@;
        let report_count = reports.len();
        let mut k: usize = 0;
        while k < report_count
            invariant
                k <= report_count,
                self@.characters.len() == 2,
                self@.characters[0].wf(cfg),
                self@.characters[1].wf(cfg),
                self@.projectiles == old(self)@.projectiles,
                self@.frame == old(self)@.frame,
                self@.round_timer == old(self)@.round_timer,
                self@.round_done == old(self)@.round_done,
                self@.reset_round_timer == old(self)@.reset_round_timer,
                spec_apply_parries(old(self)@, reports@, 0, cfg) == spec_apply_parries(
                    self@,
                    reports@,
                    k as int,
                    cfg,
                ),
            decreases report_count - k,
        {
            let ghost before = self@;
            let rep = reports[k];
            if matches!(rep.collider_type, CollisionBoxType::Parry) && matches!(
                rep.collide_type,
                CollisionBoxType::Hurt,
            ) {
                let target: usize = match rep.collider_character {
                    CharacterNumber::Number1 => 1,
                    CharacterNumber::Number2 => 0,
                };
                self.do_damage_to_character(target, PARRY_DAMAGE, true, game_config);
                self.add_stun(HIT_STUN_PARRY);
                proof {
                    assert(self@ =~= spec_add_stun(
                        spec_do_damage(
                            before,
                            spec_struck_index(rep.collider_character),
                            PARRY_DAMAGE,
                            true,
                            cfg,
                        ),
                        HIT_STUN_PARRY,
                    ));
                }
            }
            k = k + 1;
        }
    }

    /// Apply the strike reports in order: each lands the probing side's
    /// current damage, read as the report is processed, on the opponent.
    fn apply_strike_reports(&mut self, reports: &Vec<CollisionReport>, game_config: &GameConfig)
        requires
            config_wf(game_config@),
            old(self)@.characters.len() == 2,
            old(self)@.characters[0].wf(game_config@),
            old(self)@.characters[1].wf(game_config@),
        ensures
            final(self)@ == spec_apply_strikes(old(self)@, reports@, 0, game_config@),
            final(self)@.characters.len() == 2,
            final(self)@.characters[0].wf(game_config@),
            final(self)@.characters[1].wf(game_config@),
            final(self)@.projectiles == old(self)@.projectiles,
            final(self)@.frame == old(self)@.frame,
            final(self)@.round_timer == old(self)@.round_timer,
            final(self)@.round_done == old(self)@.round_done,
            final(self)@.reset_round_timer == old(self)@.reset_round_timer,
    {
        let ghost cfg = game_config@;
        let report_count = reports.len();
        let mut k: usize = 0;
        while k < report_count
            invariant
                k <= report_count,
                self@.characters.len() == 2,
                self@.characters[0].wf(cfg),
                self@.characters[1].wf(cfg),
                self@.projectiles == old(self)@.projectiles,
                self@.frame == old(self)@.frame,
                self@.round_timer == old(self)@.round_timer,
                self@.round_done == old(self)@.round_done,
                self@.reset_round_timer == old(self)@.reset_round_timer,
                spec_apply_strikes(old(self)@, reports@, 0, cfg) == spec_apply_strikes(
                    self@,
                    reports@,
                    k as int,
                    cfg,
                ),
            decreases report_count - k,
        {
            let ghost before = self@;
            let rep = reports[k];
            if matches!(rep.collider_type, CollisionBoxType::Hurt) && !matches!(
                rep.collide_type,
                CollisionBoxType::Hurt,
            ) {
                let target: usize = match rep.collider_character {
                    CharacterNumber::Number1 => 1,
                    CharacterNumber::Number2 => 0,
                };
                let attacker: usize = 1 - target;
                proof {
                    assert(before.characters[attacker as int]
                        == self.characters@[attacker as int]@);
                }
                let amount = self.characters[attacker].get_current_damage();
                self.do_damage_to_character(target, amount, false, game_config);
                self.add_stun(HIT_STUN_STRIKE);
                proof {
                    assert(spec_is_strike_report(rep));
                    assert(self@ =~= spec_add_stun(
                        spec_do_damage(
                            before,
                            spec_struck_index(rep.collider_character),
                            before.characters[1 - spec_struck_index(
                                rep.collider_character,
                            )].spec_current_damage(),
                            false,
                            cfg,
                        ),
                        HIT_STUN_STRIKE,
                    ));
                }
            } else {
                proof {
                    assert(!spec_is_strike_report(rep));
                }
            }
            k = k + 1;
        }
    }

    /// Apply the projectile-hit reports in order: fixed damage and freeze on
    /// the struck side of each.
    fn apply_projectile_hit_reports(
        &mut self,
        reports: &Vec<CollisionReport>,
        game_config: &GameConfig,
    )
        requires
            config_wf(game_config@),
            old(self)@.characters.len() == 2,
            old(self)@.characters[0].wf(game_config@),
            old(self)@.characters[1].wf(game_config@),
        ensures
            final(self)@ == spec_apply_projectile_hits(old(self)@, reports@, 0, game_config@),
            final(self)@.characters.len() == 2,
            final(self)@.characters[0].wf(game_config@),
            final(self)@.characters[1].wf(game_config@),
            final(self)@.projectiles == old(self)@.projectiles,
            final(self)@.frame == old(self)@.frame,
            final(self)@.round_timer == old(self)@.round_timer,
            final(self)@.round_done == old(self)@.round_done,
            final(self)@.reset_round_timer == old(self)@.reset_round_timer,
    {
        let ghost cfg = game_config@;
        let report_count = reports.len();
        let mut k: usize = 0;
        while k < report_count
            invariant
                k <= report_count,
                self@.characters.len() == 2,
                self@.characters[0].wf(cfg),
                self@.characters[1].wf(cfg),
                self@.projectiles == old(self)@.projectiles,
                self@.frame == old(self)@.frame,
                self@.round_timer == old(self)@.round_timer,
                self@.round_done == old(self)@.round_done,
                self@.reset_round_timer == old(self)@.reset_round_timer,
                spec_apply_projectile_hits(old(self)@, reports@, 0, cfg)
                    == spec_apply_projectile_hits(self@, reports@, k as int, cfg),
            decreases report_count - k,
        {
            let ghost before = self@;
            let rep = reports[k];
            let target: usize = match rep.collider_character {
                CharacterNumber::Number1 => 1,
                CharacterNumber::Number2 => 0,
            };
            self.do_damage_to_character(target, PROJECTILE_DAMAGE, false, game_config);
            self.add_stun(HIT_STUN_PROJECTILE);
            proof {
                assert(self@ =~= spec_add_stun(
                    spec_do_damage(
                        before,
                        spec_struck_index(rep.collider_character),
                        PROJECTILE_DAMAGE,
                        false,
                        cfg,
                    ),
                    HIT_STUN_PROJECTILE,
                ));
            }
            k = k + 1;
        }
    }

    /// Resolve this frame's strikes, parries and projectile hits, as
    /// `spec_strike_phase` describes.
    #[verifier::rlimit(100)]
    pub(crate) fn strike_phase(&mut self, game_config: &GameConfig)
        requires
            config_wf(game_config@),
            old(self)@.characters.len() == 2,
            old(self)@.characters[0].wf(game_config@),
            old(self)@.characters[1].wf(game_config@),
            forall|i: int|
                0 <= i < old(self)@.projectiles.len() ==> projectile_wf(
                    #[trigger] old(self)@.projectiles[i],
                ),
        ensures
            final(self)@ == spec_strike_phase(old(self)@, game_config@),
            final(self)@.characters.len() == 2,
            final(self)@.characters[0].wf(game_config@),
            final(self)@.characters[1].wf(game_config@),
            final(self)@.projectiles.len() <= old(self)@.projectiles.len(),
            forall|i: int|
                0 <= i < final(self)@.projectiles.len() ==> projectile_wf(
                    #[trigger] final(self)@.projectiles[i],
                ),
            final(self)@.frame == old(self)@.frame,
            final(self)@.round_timer == old(self)@.round_timer,
            final(self)@.round_done == old(self)@.round_done,
            final(self)@.reset_round_timer == old(self)@.reset_round_timer,
    {
        let ghost r0 = self@;
        let ghost cfg = game_config@;
        proof {
            assert(r0.characters[0] == self.characters@[0]@);
            assert(r0.characters[1] == self.characters@[1]@);
        }
        let boxes0 = collect_char_boxes(&self.characters[0], game_config);
        let boxes1 = collect_char_boxes(&self.characters[1], game_config);
        let mut reports: Vec<CollisionReport> = Vec::new();
        collect_reports_into(&mut reports, &boxes0, &boxes1, CharacterNumber::Number1);
        collect_reports_into(&mut reports, &boxes1, &boxes0, CharacterNumber::Number2);
        proof {
            assert(reports@ =~= spec_char_reports(r0, cfg));
        }
        self.apply_parry_reports(&reports, game_config);
        self.apply_strike_reports(&reports, game_config);
        proof {
            assert(self@ == spec_apply_strikes(
                spec_apply_parries(r0, spec_char_reports(r0, cfg), 0, cfg),
                spec_char_reports(r0, cfg),
                0,
                cfg,
            ));
        }
        proof {
            assert(crate::config::box_in_range(
                cfg.collision_library.fireball_collision[0][0],
            ));
            assert(cfg.collision_library.fireball_collision
                == game_config.collision_library.fireball_collision@);
        }
        let fireball_base = game_config.collision_library.fireball_collision.frame_collision[0][0];
        proof {
            assert(fireball_base == cfg.collision_library.fireball_collision[0][0]);
            assert(self@.projectiles == r0.projectiles);
            assert forall|i: int| 0 <= i < self.projectiles@.len() implies projectile_wf(
                #[trigger] self.projectiles@[i]@,
            ) by {
                assert(self.projectiles@[i]@ == self@.projectiles[i]);
            }
            assert(self.projectiles@.map_values(|p: Projectile| p@) == r0.projectiles);
        }
        let proj_reports = collect_proj_reports(
            &self.projectiles,
            &boxes0,
            &boxes1,
            fireball_base,
            game_config,
        );
        if proj_reports.len() > 0 {
            self.projectiles = Vec::new();
            proof {
                assert(self@.projectiles =~= Seq::<ProjectileV>::empty());
            }
            self.apply_projectile_hit_reports(&proj_reports, game_config);
        }
        proof {
            assert(self@ =~= spec_strike_phase(r0, cfg));
        }
    }
}

/// The reports every projectile in flight files against the opposing
/// character's world-space rectangles, as `spec_proj_reports` describes.
fn collect_proj_reports(
    projectiles: &Vec<Projectile>,
    boxes0: &Vec<(Rect, CollisionBoxType)>,
    boxes1: &Vec<(Rect, CollisionBoxType)>,
    fireball_base: CollisionBox,
    game_config: &GameConfig,
) -> (r: Vec<CollisionReport>)
    requires
        config_wf(game_config@),
        fireball_base == game_config@.collision_library.fireball_collision[0][0],
        forall|i: int|
            0 <= i < projectiles@.len() ==> projectile_wf(#[trigger] projectiles@[i]@),
        boxes0@.len() <= crate::config::MAX_BOXES_PER_FRAME,
        boxes1@.len() <= crate::config::MAX_BOXES_PER_FRAME,
    ensures
        r@ == spec_proj_reports(
            projectiles@.map_values(|p: Projectile| p@),
            boxes0@,
            boxes1@,
            game_config@,
            projectiles@.len() as int,
        ),
{
    let ghost cfg = game_config@;
    let ghost ps = projectiles@.map_values(|p: Projectile| p@);
    proof {
        assert(crate::config::box_in_range(cfg.collision_library.fireball_collision[0][0]));
    }
    let mut out: Vec<CollisionReport> = Vec::new();
    let mut pi: usize = 0;
    while pi < projectiles.len()
        invariant
            pi <= projectiles@.len(),
            out@ == spec_proj_reports(ps, boxes0@, boxes1@, cfg, pi as int),
        decreases projectiles@.len() - pi,
    {
        let current = &projectiles[pi];
        proof {
            assert(ps[pi as int] == current@);
            assert(projectile_wf(current@));
        }
        let local = if matches!(current.screen_side, ScreenSide::Left) {
            fireball_base.aabb.reflect(REFLECT_AXIS_UNITS)
        } else {
            fireball_base.aabb
        };
        let world = local.translate(current.position);
        proof {
            assert(world == spec_projectile_box(current@, cfg));
        }
        let who = if current.team == 0 {
            CharacterNumber::Number1
        } else {
            CharacterNumber::Number2
        };
        let targets = if current.team == 0 {
            boxes1
        } else {
            boxes0
        };
        let ghost target_boxes = if current@.team == 0 {
            boxes1@
        } else {
            boxes0@
        };
        let ghost base_reports = out@;
        let probe = (world, CollisionBoxType::Hurt);
        let mut j: usize = 0;
        while j < targets.len()
            invariant
                j <= targets@.len(),
                targets@ == target_boxes,
                out@ == base_reports + spec_probe_hits(probe, target_boxes, j as int, who),
            decreases targets@.len() - j,
        {
            let target = targets[j];
            if probe.0.intersects(&target.0) {
                out.push(
                    CollisionReport {
                        collider_type: probe.1,
                        collide_type: target.1,
                        collider_character: who,
                    },
                );
            }
            proof {
                assert(out@ =~= base_reports + spec_probe_hits(
                    probe,
                    target_boxes,
                    j + 1,
                    who,
                ));
            }
            j = j + 1;
        }
        proof {
            assert(out@ =~= spec_proj_reports(ps, boxes0@, boxes1@, cfg, pi + 1));
        }
        pi = pi + 1;
    }
    out
}

/// The live part of a frame, once hit-stun is known to be over: sides are
/// recomputed, both characters tick (the first one first), projectiles fly,
/// a finished round only drives winner and loser; a live round ticks its
/// clock, resolves movement, resolves strikes unless either fighter is
/// invulnerable, and checks for round over.
pub open spec fn spec_advance_live(
    r: RoundV,
    input0: Input,
    input1: Input,
    cfg: GameConfigV,
) -> (RoundV, Seq<ComboPatternV>) {
    let sided = spec_side_phase(r);
    let tick0 = spec_character_tick(sided, 0, input0, cfg, cfg.combo_library);
    let tick1 = spec_character_tick(tick0.0, 1, input1, cfg, tick0.1);
    let flown = spec_projectiles_phase(tick1.0);
    if flown.round_done {
        (spec_round_done_phase(flown, cfg), tick1.1)
    } else {
        (spec_frame_tail(flown, cfg), tick1.1)
    }
}

/// The tail of a live frame on a round that is not yet over: the round
/// clock ticks, movement resolves, strikes resolve unless either fighter is
/// invulnerable, and the round-over checks run.
pub open spec fn spec_frame_tail(r: RoundV, cfg: GameConfigV) -> RoundV {
    let timed = RoundV { round_timer: r.round_timer.spec_tick(), ..r };
    let moved = spec_movement_phase(timed);
    let resolved = if moved.characters[0].spec_is_in_damageable_state()
        && moved.characters[1].spec_is_in_damageable_state() {
        spec_strike_phase(moved, cfg)
    } else {
        moved
    };
    spec_end_check(resolved)
}

/// One whole frame of simulation. The frame count always advances; while
/// the round is frozen by hit-stun only the counter decrements; otherwise
/// the frame proceeds as `spec_advance_live` describes.
pub open spec fn spec_advance(
    r: RoundV,
    input0: Input,
    input1: Input,
    cfg: GameConfigV,
) -> (RoundV, Seq<ComboPatternV>) {
    let counted = RoundV { frame: (r.frame + 1) as i64, ..r };
    if r.hit_stun_counter > 0 {
        (
            RoundV { hit_stun_counter: (r.hit_stun_counter - 1) as u64, ..counted },
            cfg.combo_library,
        )
    } else {
        spec_advance_live(counted, input0, input1, cfg)
    }
}

/// `spec_character_tick` reads only the animation, sheet and collision
/// tables of its configuration, so two configurations that differ only in
/// combo-library progress step a character identically.
#[verifier::rlimit(100)]
proof fn lemma_character_tick_tables(
    r: RoundV,
    idx: int,
    frame_input: Input,
    cfg1: GameConfigV,
    cfg2: GameConfigV,
    lib: Seq<ComboPatternV>,
)
    requires
        cfg1.animation_configs == cfg2.animation_configs,
        cfg1.character_sheet == cfg2.character_sheet,
        cfg1.collision_library == cfg2.collision_library,
    ensures
        spec_character_tick(r, idx, frame_input, cfg1, lib) == spec_character_tick(
            r,
            idx,
            frame_input,
            cfg2,
            lib,
        ),
{
    let c = r.characters[idx];
    let c1 = spec_anim_phase(c, cfg1);
    assert(c1 == spec_anim_phase(c, cfg2));
    let adjusted = spec_adjust_input(frame_input, c1.screen_side);
    let pni = spec_process_new_input(c1, adjusted, lib);
    let c3 = spec_attack_transition(pni.0, pni.2, cfg1);
    assert(c3 == spec_attack_transition(pni.0, pni.2, cfg2));
    let c5 = spec_post_action(c3, pni.2, cfg1);
    assert(c5 == spec_post_action(c3, pni.2, cfg2));
    assert(spec_velocity_phase(c5, cfg1) == spec_velocity_phase(c5, cfg2));
}

/// Tables-only congruence for the parry fold: configurations with equal
/// tables fold identically.
proof fn lemma_apply_parries_tables(
    r: RoundV,
    reports: Seq<CollisionReport>,
    i: int,
    cfg1: GameConfigV,
    cfg2: GameConfigV,
)
    requires
        cfg1.animation_configs == cfg2.animation_configs,
        cfg1.character_sheet == cfg2.character_sheet,
        cfg1.collision_library == cfg2.collision_library,
    ensures
        spec_apply_parries(r, reports, i, cfg1) == spec_apply_parries(r, reports, i, cfg2),
    decreases reports.len() - i,
{
    if 0 <= i < reports.len() {
        let stepped = if spec_is_parry_report(reports[i]) {
            spec_add_stun(
                spec_do_damage(
                    r,
                    spec_struck_index(reports[i].collider_character),
                    PARRY_DAMAGE,
                    true,
                    cfg1,
                ),
                HIT_STUN_PARRY,
            )
        } else {
            r
        };
        lemma_apply_parries_tables(stepped, reports, i + 1, cfg1, cfg2);
    }
}

/// Tables-only congruence for the strike fold.
proof fn lemma_apply_strikes_tables(
    r: RoundV,
    reports: Seq<CollisionReport>,
    i: int,
    cfg1: GameConfigV,
    cfg2: GameConfigV,
)
    requires
        cfg1.animation_configs == cfg2.animation_configs,
        cfg1.character_sheet == cfg2.character_sheet,
        cfg1.collision_library == cfg2.collision_library,
    ensures
        spec_apply_strikes(r, reports, i, cfg1) == spec_apply_strikes(r, reports, i, cfg2),
    decreases reports.len() - i,
{
    if 0 <= i < reports.len() {
        let stepped = if spec_is_strike_report(reports[i]) {
            let struck = spec_struck_index(reports[i].collider_character);
            let amount = r.characters[1 - struck].spec_current_damage();
            spec_add_stun(spec_do_damage(r, struck, amount, false, cfg1), HIT_STUN_STRIKE)
        } else {
            r
        };
        lemma_apply_strikes_tables(stepped, reports, i + 1, cfg1, cfg2);
    }
}

/// Tables-only congruence for the projectile-hit fold.
proof fn lemma_apply_projectile_hits_tables(
    r: RoundV,
    reports: Seq<CollisionReport>,
    i: int,
    cfg1: GameConfigV,
    cfg2: GameConfigV,
)
    requires
        cfg1.animation_configs == cfg2.animation_configs,
        cfg1.character_sheet == cfg2.character_sheet,
        cfg1.collision_library == cfg2.collision_library,
    ensures
        spec_apply_projectile_hits(r, reports, i, cfg1) == spec_apply_projectile_hits(
            r,
            reports,
            i,
            cfg2,
        ),
    decreases reports.len() - i,
{
    if 0 <= i < reports.len() {
        let struck = spec_struck_index(reports[i].collider_character);
        let stepped = spec_add_stun(
            spec_do_damage(r, struck, PROJECTILE_DAMAGE, false, cfg1),
            HIT_STUN_PROJECTILE,
        );
        lemma_apply_projectile_hits_tables(stepped, reports, i + 1, cfg1, cfg2);
    }
}

/// Tables-only congruence for projectile report collection.
proof fn lemma_proj_reports_tables(
    ps: Seq<ProjectileV>,
    boxes0: Seq<(Rect, CollisionBoxType)>,
    boxes1: Seq<(Rect, CollisionBoxType)>,
    i: int,
    cfg1: GameConfigV,
    cfg2: GameConfigV,
)
    requires
        cfg1.collision_library == cfg2.collision_library,
    ensures
        spec_proj_reports(ps, boxes0, boxes1, cfg1, i) == spec_proj_reports(
            ps,
            boxes0,
            boxes1,
            cfg2,
            i,
        ),
    decreases i,
{
    if i > 0 {
        lemma_proj_reports_tables(ps, boxes0, boxes1, i - 1, cfg1, cfg2);
    }
}

/// Tables-only congruence for the whole strike phase.
proof fn lemma_strike_phase_tables(r: RoundV, cfg1: GameConfigV, cfg2: GameConfigV)
    requires
        cfg1.animation_configs == cfg2.animation_configs,
        cfg1.character_sheet == cfg2.character_sheet,
        cfg1.collision_library == cfg2.collision_library,
    ensures
        spec_strike_phase(r, cfg1) == spec_strike_phase(r, cfg2),
{
    let boxes0 = spec_char_boxes(r.characters[0], cfg1);
    let boxes1 = spec_char_boxes(r.characters[1], cfg1);
    assert(boxes0 == spec_char_boxes(r.characters[0], cfg2));
    assert(boxes1 == spec_char_boxes(r.characters[1], cfg2));
    let reports = spec_char_reports(r, cfg1);
    assert(reports == spec_char_reports(r, cfg2));
    lemma_apply_parries_tables(r, reports, 0, cfg1, cfg2);
    let after_parries = spec_apply_parries(r, reports, 0, cfg1);
    lemma_apply_strikes_tables(after_parries, reports, 0, cfg1, cfg2);
    let after_strikes = spec_apply_strikes(after_parries, reports, 0, cfg1);
    lemma_proj_reports_tables(
        r.projectiles,
        boxes0,
        boxes1,
        r.projectiles.len() as int,
        cfg1,
        cfg2,
    );
    let proj_reports = spec_proj_reports(
        r.projectiles,
        boxes0,
        boxes1,
        cfg1,
        r.projectiles.len() as int,
    );
    if proj_reports.len() > 0 {
        lemma_apply_projectile_hits_tables(
            RoundV { projectiles: Seq::empty(), ..after_strikes },
            proj_reports,
            0,
            cfg1,
            cfg2,
        );
    }
}

/// Tables-only congruence for the live frame's tail.
proof fn lemma_frame_tail_tables(r: RoundV, cfg1: GameConfigV, cfg2: GameConfigV)
    requires
        cfg1.animation_configs == cfg2.animation_configs,
        cfg1.character_sheet == cfg2.character_sheet,
        cfg1.collision_library == cfg2.collision_library,
    ensures
        spec_frame_tail(r, cfg1) == spec_frame_tail(r, cfg2),
{
    let timed = RoundV { round_timer: r.round_timer.spec_tick(), ..r };
    let moved = spec_movement_phase(timed);
    lemma_strike_phase_tables(moved, cfg1, cfg2);
}

impl Round {
    /// Recompute both characters' screen sides from their x positions.
    pub(crate) fn side_phase(&mut self)
        requires
            old(self)@.characters.len() == 2,
        ensures
            final(self)@ == spec_side_phase(old(self)@),
            final(self)@.characters.len() == 2,
    {
        let ghost prev = self@;
        proof {
            assert(prev.characters[0] == self.characters@[0]@);
            assert(prev.characters[1] == self.characters@[1]@);
        }
        if self.characters[0].character_position.x > self.characters[1].character_position.x {
            self.characters[0].set_screen_side(ScreenSide::Right);
            self.characters[1].set_screen_side(ScreenSide::Left);
        } else {
            self.characters[0].set_screen_side(ScreenSide::Left);
            self.characters[1].set_screen_side(ScreenSide::Right);
        }
        proof {
            assert(self@.characters =~= spec_side_phase(prev).characters);
            assert(self@ =~= spec_side_phase(prev));
        }
    }

    /// The frame's live path, entered when hit-stun is over.
    #[verifier::rlimit(100)]
    fn advance_live(&mut self, input0: Input, input1: Input, game_config: &mut GameConfig)
        requires
            config_wf(old(game_config)@),
            round_wf(old(self)@, old(game_config)@),
        ensures
            ({
                let stepped = spec_advance_live(
                    old(self)@,
                    input0,
                    input1,
                    old(game_config)@,
                );
                &&& final(self)@ == stepped.0
                &&& final(game_config)@ == (GameConfigV {
                    combo_library: stepped.1,
                    ..old(game_config)@
                })
            }),
            round_wf(final(self)@, old(game_config)@),
            config_wf(final(game_config)@),
    {
        let ghost r_in = self@;
        let ghost cfg0 = game_config@;
        self.side_phase();
        proof {
            assert(self@.characters[0].wf(cfg0) && self@.characters[1].wf(cfg0));
        }
        self.character_tick(0, input0, game_config);
        let ghost cfg1 = game_config@;
        let ghost tick0 = spec_character_tick(
            spec_side_phase(r_in),
            0,
            input0,
            cfg0,
            cfg0.combo_library,
        );
        proof {
            assert(self@ == tick0.0);
            assert(cfg1 == (GameConfigV { combo_library: tick0.1, ..cfg0 }));
        }
        self.character_tick(1, input1, game_config);
        let ghost tick1 = spec_character_tick(tick0.0, 1, input1, cfg0, tick0.1);
        proof {
            lemma_character_tick_tables(tick0.0, 1, input1, cfg1, cfg0, tick0.1);
            assert(self@ == tick1.0);
            assert(game_config@ == (GameConfigV { combo_library: tick1.1, ..cfg0 }));
            assert(self@.characters[0].wf(cfg0) && self@.characters[1].wf(cfg0));
            assert forall|i: int| 0 <= i < self@.projectiles.len() implies projectile_wf(
                #[trigger] self@.projectiles[i],
            ) by {
                if i < r_in.projectiles.len() {
                    assert(projectile_wf(r_in.projectiles[i]));
                }
            }
        }
        self.projectiles_phase();
        let ghost flown = spec_projectiles_phase(tick1.0);
        proof {
            assert(self@ == flown);
        }
        if self.round_done {
            self.round_done_phase(game_config);
            proof {
                assert(self@ == spec_round_done_phase(flown, cfg0));
                assert(self@ == spec_advance_live(r_in, input0, input1, cfg0).0);
                assert(round_wf(self@, cfg0));
            }
            return;
        }
        self.frame_tail(game_config);
        proof {
            lemma_frame_tail_tables(flown, game_config@, cfg0);
            assert(self@ == spec_frame_tail(flown, cfg0));
            assert(self@ == spec_advance_live(r_in, input0, input1, cfg0).0);
        }
    }

    /// The clock, movement, strike and round-over tail of a live frame.
    #[verifier::rlimit(100)]
    fn frame_tail(&mut self, game_config: &GameConfig)
        requires
            config_wf(game_config@),
            round_wf(old(self)@, game_config@),
        ensures
            final(self)@ == spec_frame_tail(old(self)@, game_config@),
            round_wf(final(self)@, game_config@),
    {
        let ghost cfg0 = game_config@;
        let ghost flown = self@;
        self.round_timer.tick();
        let ghost timed = RoundV { round_timer: flown.round_timer.spec_tick(), ..flown };
        proof {
            assert(self@ =~= timed);
        }
        self.movement_phase();
        let ghost moved = spec_movement_phase(timed);
        proof {
            assert(self@ == moved);
            assert(self@.characters[0].wf(cfg0)) by {
                assert(moved.characters[0] == (CharacterV {
                    character_position: moved.characters[0].character_position,
                    ..timed.characters[0]
                }));
            }
            assert(self@.characters[1].wf(cfg0)) by {
                assert(moved.characters[1] == (CharacterV {
                    character_position: moved.characters[1].character_position,
                    ..timed.characters[1]
                }));
            }
            assert(self.characters@[0]@ == moved.characters[0]);
            assert(self.characters@[1]@ == moved.characters[1]);
        }
        if self.characters[0].is_in_damageable_state()
            && self.characters[1].is_in_damageable_state() {
            self.strike_phase(game_config);
        }
        let ghost resolved = self@;
        proof {
            assert(resolved.characters[0] == self.characters@[0]@);
            assert(resolved.characters[1] == self.characters@[1]@);
        }
        if self.characters[0].health == 0 || self.characters[1].health == 0 {
            self.round_done = true;
        } else if self.round_timer.finished() {
            self.round_done = true;
        }
        proof {
            assert(self@ =~= spec_end_check(resolved));
            assert(round_wf(self@, cfg0));
        }
    }

    /// Advance the round one frame from both players' inputs, as
    /// `spec_advance` describes. The result depends on nothing but the
    /// previous state, the inputs and the configuration, so two peers that
    /// agree on those agree on every bit of the result.
    pub fn advance(&mut self, inputs: [Input; 2], game_config: &mut GameConfig)
        requires
            config_wf(old(game_config)@),
            round_wf(old(self)@, old(game_config)@),
            old(self)@.frame < i64::MAX,
        ensures
            ({
                let stepped = spec_advance(
                    old(self)@,
                    inputs[0],
                    inputs[1],
                    old(game_config)@,
                );
                &&& final(self)@ == stepped.0
                &&& final(game_config)@ == (GameConfigV {
                    combo_library: stepped.1,
                    ..old(game_config)@
                })
            }),
            round_wf(final(self)@, old(game_config)@),
            config_wf(final(game_config)@),
    {
        let ghost r_in = self@;
        let ghost cfg0 = game_config@;
        self.frame = self.frame + 1;
        let ghost counted = self@;
        proof {
            assert(counted =~= (RoundV { frame: (r_in.frame + 1) as i64, ..r_in }));
        }
        if self.hit_stun_counter > 0 {
            self.hit_stun_counter = self.hit_stun_counter - 1;
            proof {
                assert(self@ =~= spec_advance(r_in, inputs[0], inputs[1], cfg0).0);
                assert(game_config@ =~= (GameConfigV {
                    combo_library: spec_advance(r_in, inputs[0], inputs[1], cfg0).1,
                    ..cfg0
                }));
            }
            return;
        }
        let input0 = inputs[0];
        let input1 = inputs[1];
        self.advance_live(input0, input1, game_config);
    }
}

/// The clamping tail of movement resolution, as `spec_moved_position`
/// describes it.
fn moved_position(wb_slid: &Rect, other_x: i64, snap_right: bool) -> (r: Vec2)
    requires
        -0x40_0000_0000 <= wb_slid.min.x <= 0x40_0000_0000,
        -0x40_0000_0000 <= wb_slid.min.y <= 0x40_0000_0000,
        -crate::geometry::COORD_BOUND <= other_x <= crate::geometry::COORD_BOUND,
    ensures
        r == spec_moved_position(*wb_slid, other_x, snap_right),
{
    let px = wb_slid.min.x - WALK_BOX_OFFSET_X;
    let py = wb_slid.min.y - WALK_BOX_OFFSET_Y;
    let snapped: i64 = if px < 0 {
        0
    } else if px + FRAME_WIDTH_UNITS >= ARENA_WIDTH_UNITS {
        ARENA_WIDTH_UNITS - FRAME_WIDTH_UNITS
    } else if px - other_x > MAX_PLAYER_DISTANCE_UNITS || other_x - px
        > MAX_PLAYER_DISTANCE_UNITS {
        if snap_right {
            other_x + MAX_PLAYER_DISTANCE_UNITS
        } else {
            other_x - MAX_PLAYER_DISTANCE_UNITS
        }
    } else {
        px
    };
    let clamped_x: i64 = if snapped < 0 {
        0
    } else if snapped > ARENA_WIDTH_UNITS - FRAME_WIDTH_UNITS {
        ARENA_WIDTH_UNITS - FRAME_WIDTH_UNITS
    } else {
        snapped
    };
    let clamped_y: i64 = if py < 0 {
        0
    } else if py > ARENA_HEIGHT_UNITS {
        ARENA_HEIGHT_UNITS
    } else {
        py
    };
    Vec2 { x: clamped_x, y: clamped_y }
}

} // verus!
