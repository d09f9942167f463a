//! The properties the simulation core stands on, each proved from the
//! contracts the modules state: determinism over whole input sequences, the
//! snapshot round trip, the health floor, and the hit-stun freeze.

use vstd::prelude::*;
use crate::character::{
    CHARACTER_X_SPEED, spec_anim_phase, spec_attack_transition, spec_post_action, spec_process_new_input,
    spec_set_character_state, spec_velocity_phase, CharacterAction, CharacterState, CharacterV,
};
use crate::codec::{round_encodable, spec_dec_round, spec_enc_round};
use crate::combo::ComboPatternV;
use crate::config::GameConfigV;
use crate::geometry::Vec2;
use crate::input::Input;
use crate::projectile::ProjectileV;
use crate::round::{spec_advance, spec_do_damage, RoundV};

verus! {

/// A whole match segment at the spec level: the rounds and configurations
/// that `advance` steps through for an input sequence, starting from `r`.
pub open spec fn spec_run(
    r: RoundV,
    cfg: GameConfigV,
    inputs: Seq<(Input, Input)>,
) -> (RoundV, GameConfigV)
    decreases inputs.len(),
{
    if inputs.len() == 0 {
        (r, cfg)
    } else {
        let stepped = spec_advance(r, inputs[0].0, inputs[0].1, cfg);
        spec_run(
            stepped.0,
            GameConfigV { combo_library: stepped.1, ..cfg },
            inputs.drop_first(),
        )
    }
}

/// Determinism: two instances that start from the same round and
/// configuration and see the same input sequence reach the same state after
/// every frame, and so serialize to identical bytes with identical
/// checksums. `advance`'s contract pins its result to `spec_advance` of its
/// arguments alone, so no hidden clock, allocator or iteration order can
/// enter the trajectory.
pub proof fn lemma_determinism(
    first: RoundV,
    first_cfg: GameConfigV,
    second: RoundV,
    second_cfg: GameConfigV,
    inputs: Seq<(Input, Input)>,
)
    requires
        first == second,
        first_cfg == second_cfg,
    ensures
        spec_run(first, first_cfg, inputs) == spec_run(second, second_cfg, inputs),
        spec_enc_round(spec_run(first, first_cfg, inputs).0) == spec_enc_round(
            spec_run(second, second_cfg, inputs).0,
        ),
        crate::checksum::spec_fletcher16(spec_enc_round(spec_run(first, first_cfg, inputs).0))
            == crate::checksum::spec_fletcher16(
            spec_enc_round(spec_run(second, second_cfg, inputs).0),
        ),
{
}

/// Snapshot round trip: a saved round loads back exactly, so its future
/// under any input sequence is the same as if it had never been saved.
pub proof fn lemma_save_load_trajectory(r: RoundV, cfg: GameConfigV, inputs: Seq<(Input, Input)>)
    requires
        round_encodable(r),
    ensures
        spec_dec_round(spec_enc_round(r)) == Some((r, Seq::<u8>::empty())),
        spec_run(spec_dec_round(spec_enc_round(r)).unwrap().0, cfg, inputs) == spec_run(
            r,
            cfg,
            inputs,
        ),
{
    crate::codec::lemma_rt_round(r);
}

/// One abstract damage application from a sequence: which character it
/// strikes, how much, and whether it was a parry.
pub open spec fn spec_damage_fold(
    r: RoundV,
    hits: Seq<(int, u32, bool)>,
    cfg: GameConfigV,
) -> RoundV
    decreases hits.len(),
{
    if hits.len() == 0 {
        r
    } else {
        spec_damage_fold(
            spec_do_damage(r, hits[0].0, hits[0].1, hits[0].2, cfg),
            hits.drop_first(),
            cfg,
        )
    }
}

/// Health floor: under any sequence of damage applications, in any order and
/// of any magnitude, health only ever decreases and never wraps below zero —
/// every subtraction in `spec_do_damage` saturates at zero.
pub proof fn lemma_health_floor(
    r: RoundV,
    hits: Seq<(int, u32, bool)>,
    cfg: GameConfigV,
    k: int,
)
    requires
        r.characters.len() == 2,
        0 <= k < 2,
        forall|i: int| 0 <= i < hits.len() ==> 0 <= (#[trigger] hits[i]).0 < 2,
    ensures
        0 <= spec_damage_fold(r, hits, cfg).characters[k].health <= r.characters[k].health,
    decreases hits.len(),
{
    if hits.len() > 0 {
        let stepped = spec_do_damage(r, hits[0].0, hits[0].1, hits[0].2, cfg);
        assert(stepped.characters.len() == 2);
        assert(stepped.characters[k].health <= r.characters[k].health);
        assert(forall|i: int|
            0 <= i < hits.drop_first().len() ==> 0 <= (#[trigger] hits.drop_first()[i]).0 < 2);
        lemma_health_floor(stepped, hits.drop_first(), cfg, k);
    }
}

/// Hit-stun freeze: while the round is frozen, `advance` decrements the
/// counter and counts the frame, and changes nothing else — in particular
/// the result does not depend on the inputs at all.
pub proof fn lemma_hit_stun_freeze(
    r: RoundV,
    input0: Input,
    input1: Input,
    other0: Input,
    other1: Input,
    cfg: GameConfigV,
)
    requires
        r.hit_stun_counter > 0,
    ensures
        spec_advance(r, input0, input1, cfg).0 == (RoundV {
            frame: (r.frame + 1) as i64,
            hit_stun_counter: (r.hit_stun_counter - 1) as u64,
            ..r
        }),
        spec_advance(r, input0, input1, cfg) == spec_advance(r, other0, other1, cfg),
        spec_advance(r, input0, input1, cfg).1 == cfg.combo_library,
{
    assert(spec_advance(r, input0, input1, cfg).0 =~= (RoundV {
        frame: (r.frame + 1) as i64,
        hit_stun_counter: (r.hit_stun_counter - 1) as u64,
        ..r
    }));
}

} // verus!

verus! {

/// A sprite's x position reflected about the arena midline.
pub open spec fn spec_mirror_x(x: i64) -> i64 {
    (crate::geometry::ARENA_WIDTH_UNITS - crate::geometry::FRAME_WIDTH_UNITS - x) as i64
}

/// A character as the mirrored match holds it: reflected position, negated
/// horizontal velocity, the opposite side; its logical state, health,
/// stance, animation and side-relative input history are the same.
pub open spec fn spec_mirror_character(c: CharacterV) -> CharacterV {
    CharacterV {
        character_position: Vec2 {
            x: spec_mirror_x(c.character_position.x),
            y: c.character_position.y,
        },
        character_velocity: Vec2 {
            x: (-c.character_velocity.x) as i64,
            y: c.character_velocity.y,
        },
        screen_side: c.screen_side.spec_opposite(),
        ..c
    }
}

/// A projectile as the mirrored match holds it.
pub open spec fn spec_mirror_projectile(p: ProjectileV) -> ProjectileV {
    ProjectileV {
        position: Vec2 { x: spec_mirror_x(p.position.x), y: p.position.y },
        velocity: Vec2 { x: (-p.velocity.x) as i64, y: p.velocity.y },
        screen_side: p.screen_side.spec_opposite(),
        ..p
    }
}

/// A round as the mirrored match holds it.
pub open spec fn spec_mirror_round(r: RoundV) -> RoundV {
    RoundV {
        characters: r.characters.map_values(|c: CharacterV| spec_mirror_character(c)),
        projectiles: r.projectiles.map_values(|p: ProjectileV| spec_mirror_projectile(p)),
        ..r
    }
}

/// Re-entering a state commutes with mirroring: the selected animation
/// depends only on the state and stance, which mirroring preserves.
proof fn lemma_set_state_mirror(c: CharacterV, s: CharacterState, cfg: GameConfigV)
    ensures
        spec_set_character_state(spec_mirror_character(c), s, cfg) == spec_mirror_character(
            spec_set_character_state(c, s, cfg),
        ),
{
    assert(spec_set_character_state(spec_mirror_character(c), s, cfg) =~= spec_mirror_character(
        spec_set_character_state(c, s, cfg),
    ));
}

/// The animation-advance phase commutes with mirroring: playback reads only
/// fields mirroring preserves.
proof fn lemma_anim_phase_mirror(c: CharacterV, cfg: GameConfigV)
    ensures
        spec_anim_phase(spec_mirror_character(c), cfg) == spec_mirror_character(
            spec_anim_phase(c, cfg),
        ),
{
    let step = c.current_animation.spec_anim_step();
    if step.1 {
        lemma_set_state_mirror(
            CharacterV { current_animation: step.0, ..c },
            c.spec_whats_next(),
            cfg,
        );
        assert(spec_anim_phase(spec_mirror_character(c), cfg) =~= spec_mirror_character(
            spec_anim_phase(c, cfg),
        ));
    } else {
        assert(spec_anim_phase(spec_mirror_character(c), cfg) =~= spec_mirror_character(
            spec_anim_phase(c, cfg),
        ));
    }
}

/// Which side each character faces is mirrored exactly, as long as the two
/// do not stand on the same x: on that tie both matches assign the first
/// character the left side, so the assignment is not mirrored there.
pub proof fn lemma_side_phase_mirror(r: RoundV)
    requires
        r.characters.len() == 2,
        r.characters[0].pos_in_arena(),
        r.characters[1].pos_in_arena(),
        r.characters[0].character_position.x != r.characters[1].character_position.x,
    ensures
        crate::round::spec_side_phase(spec_mirror_round(r)) == spec_mirror_round(
            crate::round::spec_side_phase(r),
        ),
{
    assert(crate::round::spec_side_phase(spec_mirror_round(r)).characters =~= spec_mirror_round(
        crate::round::spec_side_phase(r),
    ).characters);
    assert(crate::round::spec_side_phase(spec_mirror_round(r)) =~= spec_mirror_round(
        crate::round::spec_side_phase(r),
    ));
}

/// The per-character half of the mirror law: one character's whole share of
/// a frame — animation playback, input resolution through the matcher, the
/// state transitions, the state's velocity, and any projectile its special
/// launches — commutes with mirroring the round and the raw input. Mirror
/// symmetry stops at movement resolution: the walk box sits asymmetrically
/// inside the sprite frame and the maximum-separation snap always moves the
/// first character toward positive x, so positions after contact are not
/// mirrored, here or in the behaviour this core reproduces.
#[verifier::rlimit(100)]
pub proof fn lemma_character_tick_mirror(
    r: RoundV,
    idx: int,
    frame_input: Input,
    cfg: GameConfigV,
    lib: Seq<ComboPatternV>,
)
    requires
        r.characters.len() == 2,
        0 <= idx < 2,
        r.characters[idx].pos_in_arena(),
        -crate::config::MAX_DISPLACEMENT <= r.characters[idx].character_velocity.x
            <= crate::config::MAX_DISPLACEMENT,
    ensures
        crate::round::spec_character_tick(
            spec_mirror_round(r),
            idx,
            crate::input::spec_mirror_input(frame_input),
            cfg,
            lib,
        ) == (
            spec_mirror_round(
                crate::round::spec_character_tick(r, idx, frame_input, cfg, lib).0,
            ),
            crate::round::spec_character_tick(r, idx, frame_input, cfg, lib).1,
        ),
{
    let c = r.characters[idx];
    let mc = spec_mirror_round(r).characters[idx];
    assert(mc == spec_mirror_character(c));
    lemma_anim_phase_mirror(c, cfg);
    let c1 = spec_anim_phase(c, cfg);
    let mc1 = spec_anim_phase(mc, cfg);
    assert(mc1 == spec_mirror_character(c1));
    crate::input::lemma_adjust_input_mirror(frame_input, c1.screen_side);
    let adjusted = crate::input::spec_adjust_input(frame_input, c1.screen_side);
    assert(crate::input::spec_adjust_input(
        crate::input::spec_mirror_input(frame_input),
        mc1.screen_side,
    ) == adjusted);
    let pni = spec_process_new_input(c1, adjusted, lib);
    let mpni = spec_process_new_input(mc1, adjusted, lib);
    assert(mpni.0 =~= spec_mirror_character(pni.0));
    assert(mpni.1 == pni.1 && mpni.2 == pni.2);
    let c3 = spec_attack_transition(pni.0, pni.2, cfg);
    let mc3 = spec_attack_transition(mpni.0, pni.2, cfg);
    assert(mc3 == spec_mirror_character(c3)) by {
        if pni.0.spec_can_attack() {
            match pni.2 {
                CharacterAction::LightAttack => {
                    lemma_set_state_mirror(pni.0, CharacterState::LightAttack, cfg);
                },
                CharacterAction::MediumAttack => {
                    lemma_set_state_mirror(pni.0, CharacterState::MediumAttack, cfg);
                },
                CharacterAction::HeavyAttack => {
                    lemma_set_state_mirror(pni.0, CharacterState::HeavyAttack, cfg);
                },
                CharacterAction::LightKick => {
                    lemma_set_state_mirror(pni.0, CharacterState::LightKick, cfg);
                },
                CharacterAction::MediumKick => {
                    lemma_set_state_mirror(pni.0, CharacterState::MediumKick, cfg);
                },
                CharacterAction::HeavyKick => {
                    lemma_set_state_mirror(pni.0, CharacterState::HeavyKick, cfg);
                },
                CharacterAction::Special1 => {
                    lemma_set_state_mirror(pni.0, CharacterState::Special1, cfg);
                },
                CharacterAction::Parry => {
                    lemma_set_state_mirror(pni.0, CharacterState::Parry, cfg);
                },
                _ => {},
            }
        }
    }
    lemma_post_action_mirror(c3, pni.2, cfg);
    let c5 = spec_post_action(c3, pni.2, cfg);
    lemma_velocity_phase_mirror(c5, cfg);
    assert(crate::round::spec_character_tick(
        spec_mirror_round(r),
        idx,
        crate::input::spec_mirror_input(frame_input),
        cfg,
        lib,
    ).0.characters =~= spec_mirror_round(
        crate::round::spec_character_tick(r, idx, frame_input, cfg, lib).0,
    ).characters);
    assert(crate::round::spec_character_tick(
        spec_mirror_round(r),
        idx,
        crate::input::spec_mirror_input(frame_input),
        cfg,
        lib,
    ).0.projectiles =~= spec_mirror_round(
        crate::round::spec_character_tick(r, idx, frame_input, cfg, lib).0,
    ).projectiles);
    assert(crate::round::spec_character_tick(
        spec_mirror_round(r),
        idx,
        crate::input::spec_mirror_input(frame_input),
        cfg,
        lib,
    ).0 =~= spec_mirror_round(
        crate::round::spec_character_tick(r, idx, frame_input, cfg, lib).0,
    ));
}

/// The stance and movement state transitions commute with mirroring.
proof fn lemma_post_action_mirror(c: CharacterV, action: CharacterAction, cfg: GameConfigV)
    ensures
        spec_post_action(spec_mirror_character(c), action, cfg) == spec_mirror_character(
            spec_post_action(c, action, cfg),
        ),
{
    assert(spec_post_action(spec_mirror_character(c), action, cfg) =~= spec_mirror_character(
        spec_post_action(c, action, cfg),
    ));
}

/// The velocity a state imposes is mirrored exactly: the direction sign
/// flips with the side, and a jump's vertical displacement is shared.
#[verifier::rlimit(100)]
#[verifier::spinoff_prover]
proof fn lemma_velocity_phase_mirror(c: CharacterV, cfg: GameConfigV)
    requires
        -crate::config::MAX_DISPLACEMENT <= c.character_velocity.x
            <= crate::config::MAX_DISPLACEMENT,
    ensures
        spec_velocity_phase(spec_mirror_character(c), cfg) == spec_mirror_character(
            spec_velocity_phase(c, cfg),
        ),
{
    let mirrored = spec_mirror_character(c);
    let of_mirrored = spec_velocity_phase(mirrored, cfg);
    let mirror_of = spec_mirror_character(spec_velocity_phase(c, cfg));
    let dir = c.screen_side.spec_direction();
    assert(mirrored.screen_side.spec_direction() == -dir);
    assert(dir == 1 || dir == -1);
    assert(of_mirrored.character_velocity == mirror_of.character_velocity) by {
        match c.character_state {
            CharacterState::ForwardRun => {
                assert(of_mirrored.character_velocity.x == (-(CHARACTER_X_SPEED * (-dir))) as i64);
                assert(mirror_of.character_velocity.x == (-((-(CHARACTER_X_SPEED
                    * dir)) as i64)) as i64);
                assert(of_mirrored.character_velocity.x == mirror_of.character_velocity.x);
                assert(of_mirrored.character_velocity.y == mirror_of.character_velocity.y);
            },
            CharacterState::BackwardRun => {
                assert(of_mirrored.character_velocity.x == (CHARACTER_X_SPEED * (-dir)) as i64);
                assert(mirror_of.character_velocity.x == (-((CHARACTER_X_SPEED
                    * dir) as i64)) as i64);
                assert(of_mirrored.character_velocity.x == mirror_of.character_velocity.x);
                assert(of_mirrored.character_velocity.y == mirror_of.character_velocity.y);
            },
            CharacterState::ForwardDash => {
                assert(of_mirrored.character_velocity.x == (-(CHARACTER_X_SPEED * (-dir)
                    * 2)) as i64);
                assert(mirror_of.character_velocity.x == (-((-(CHARACTER_X_SPEED * dir
                    * 2)) as i64)) as i64);
                assert(of_mirrored.character_velocity.x == mirror_of.character_velocity.x);
                assert(of_mirrored.character_velocity.y == mirror_of.character_velocity.y);
            },
            CharacterState::BackwardDash => {
                assert(of_mirrored.character_velocity.x == (CHARACTER_X_SPEED * (-dir)
                    * 2) as i64);
                assert(mirror_of.character_velocity.x == (-((CHARACTER_X_SPEED * dir
                    * 2) as i64)) as i64);
                assert(of_mirrored.character_velocity.x == mirror_of.character_velocity.x);
                assert(of_mirrored.character_velocity.y == mirror_of.character_velocity.y);
            },
            CharacterState::LightHitRecovery => {
                assert(of_mirrored.character_velocity.x == (CHARACTER_X_SPEED * (-dir)) as i64);
                assert(mirror_of.character_velocity.x == (-((CHARACTER_X_SPEED
                    * dir) as i64)) as i64);
                assert(of_mirrored.character_velocity.x == mirror_of.character_velocity.x);
                assert(of_mirrored.character_velocity.y == mirror_of.character_velocity.y);
            },
            CharacterState::Parried => {
                if dir == 1 {
                    assert(of_mirrored.character_velocity.x == (CHARACTER_X_SPEED / 2
                        * -1) as i64);
                    assert(mirror_of.character_velocity.x == (-((CHARACTER_X_SPEED / 2
                        * 1) as i64)) as i64);
                } else {
                    assert(of_mirrored.character_velocity.x == (CHARACTER_X_SPEED / 2
                        * 1) as i64);
                    assert(mirror_of.character_velocity.x == (-((CHARACTER_X_SPEED / 2
                        * -1) as i64)) as i64);
                }
                assert(of_mirrored.character_velocity.x == mirror_of.character_velocity.x);
                assert(of_mirrored.character_velocity.y == mirror_of.character_velocity.y);
            },
            CharacterState::Jump => {
                assert(of_mirrored.character_velocity.x == mirrored.character_velocity.x);
                assert(mirror_of.character_velocity.x == (-(c.character_velocity.x)) as i64);
                assert(of_mirrored.character_velocity.x == mirror_of.character_velocity.x);
                assert(of_mirrored.character_velocity.y == mirror_of.character_velocity.y);
            },
            _ => {
                assert(of_mirrored.character_velocity.x == 0);
                assert(mirror_of.character_velocity.x == 0);
                assert(of_mirrored.character_velocity.x == mirror_of.character_velocity.x);
                assert(of_mirrored.character_velocity.y == mirror_of.character_velocity.y);
            },
        }
    }
    assert(of_mirrored =~= mirror_of);
}

} // verus!

verus! {

/// The parry fold touches only characters and the stun counter.
proof fn lemma_parries_keep_clock(
    r: RoundV,
    reports: Seq<crate::collision::CollisionReport>,
    i: int,
    cfg: GameConfigV,
)
    ensures
        crate::round::spec_apply_parries(r, reports, i, cfg).round_timer == r.round_timer,
        crate::round::spec_apply_parries(r, reports, i, cfg).round_done == r.round_done,
    decreases reports.len() - i,
{
    if 0 <= i < reports.len() {
        let stepped = if crate::round::spec_is_parry_report(reports[i]) {
            crate::round::spec_add_stun(
                crate::round::spec_do_damage(
                    r,
                    crate::round::spec_struck_index(reports[i].collider_character),
                    crate::round::PARRY_DAMAGE,
                    true,
                    cfg,
                ),
                crate::round::HIT_STUN_PARRY,
            )
        } else {
            r
        };
        lemma_parries_keep_clock(stepped, reports, i + 1, cfg);
    }
}

/// The strike fold touches only characters and the stun counter.
proof fn lemma_strikes_keep_clock(
    r: RoundV,
    reports: Seq<crate::collision::CollisionReport>,
    i: int,
    cfg: GameConfigV,
)
    ensures
        crate::round::spec_apply_strikes(r, reports, i, cfg).round_timer == r.round_timer,
        crate::round::spec_apply_strikes(r, reports, i, cfg).round_done == r.round_done,
    decreases reports.len() - i,
{
    if 0 <= i < reports.len() {
        let stepped = if crate::round::spec_is_strike_report(reports[i]) {
            let struck = crate::round::spec_struck_index(reports[i].collider_character);
            let amount = r.characters[1 - struck].spec_current_damage();
            crate::round::spec_add_stun(
                crate::round::spec_do_damage(r, struck, amount, false, cfg),
                crate::round::HIT_STUN_STRIKE,
            )
        } else {
            r
        };
        lemma_strikes_keep_clock(stepped, reports, i + 1, cfg);
    }
}

/// The projectile-hit fold touches only characters and the stun counter.
proof fn lemma_projectile_hits_keep_clock(
    r: RoundV,
    reports: Seq<crate::collision::CollisionReport>,
    i: int,
    cfg: GameConfigV,
)
    ensures
        crate::round::spec_apply_projectile_hits(r, reports, i, cfg).round_timer
            == r.round_timer,
        crate::round::spec_apply_projectile_hits(r, reports, i, cfg).round_done == r.round_done,
    decreases reports.len() - i,
{
    if 0 <= i < reports.len() {
        let struck = crate::round::spec_struck_index(reports[i].collider_character);
        let stepped = crate::round::spec_add_stun(
            crate::round::spec_do_damage(
                r,
                struck,
                crate::round::PROJECTILE_DAMAGE,
                false,
                cfg,
            ),
            crate::round::HIT_STUN_PROJECTILE,
        );
        lemma_projectile_hits_keep_clock(stepped, reports, i + 1, cfg);
    }
}

/// The round ends the very tick its clock finishes: from any live, unfrozen
/// round whose timer is one tick from completion, one `advance` under any
/// inputs and any configuration leaves `round_done` set — either the clock
/// wrapped, or a strike this same tick already emptied someone's health,
/// which ends the round too.
pub proof fn lemma_round_ends_on_timeout(
    r: RoundV,
    input0: Input,
    input1: Input,
    cfg: GameConfigV,
)
    requires
        r.characters.len() == 2,
        r.hit_stun_counter == 0,
        !r.round_done,
        r.round_timer.wf(),
        r.round_timer.current_frame + 1 == r.round_timer.total_frames,
    ensures
        spec_advance(r, input0, input1, cfg).0.round_done,
{
    let counted = RoundV { frame: (r.frame + 1) as i64, ..r };
    let sided = crate::round::spec_side_phase(counted);
    assert(sided.round_timer == r.round_timer && !sided.round_done);
    let tick0 = crate::round::spec_character_tick(sided, 0, input0, cfg, cfg.combo_library);
    assert(tick0.0.round_timer == r.round_timer && !tick0.0.round_done);
    let tick1 = crate::round::spec_character_tick(tick0.0, 1, input1, cfg, tick0.1);
    assert(tick1.0.round_timer == r.round_timer && !tick1.0.round_done);
    let flown = crate::round::spec_projectiles_phase(tick1.0);
    assert(flown.round_timer == r.round_timer && !flown.round_done);
    let timed = RoundV { round_timer: flown.round_timer.spec_tick(), ..flown };
    assert(timed.round_timer.finished);
    let moved = crate::round::spec_movement_phase(timed);
    assert(moved.round_timer == timed.round_timer && !moved.round_done);
    let resolved = if moved.characters[0].spec_is_in_damageable_state()
        && moved.characters[1].spec_is_in_damageable_state() {
        crate::round::spec_strike_phase(moved, cfg)
    } else {
        moved
    };
    if moved.characters[0].spec_is_in_damageable_state()
        && moved.characters[1].spec_is_in_damageable_state() {
        let reports = crate::round::spec_char_reports(moved, cfg);
        lemma_parries_keep_clock(moved, reports, 0, cfg);
        let after_parries = crate::round::spec_apply_parries(moved, reports, 0, cfg);
        lemma_strikes_keep_clock(after_parries, reports, 0, cfg);
        let after_strikes = crate::round::spec_apply_strikes(after_parries, reports, 0, cfg);
        let proj_reports = crate::round::spec_proj_reports(
            moved.projectiles,
            crate::round::spec_char_boxes(moved.characters[0], cfg),
            crate::round::spec_char_boxes(moved.characters[1], cfg),
            cfg,
            moved.projectiles.len() as int,
        );
        if proj_reports.len() > 0 {
            lemma_projectile_hits_keep_clock(
                RoundV { projectiles: Seq::empty(), ..after_strikes },
                proj_reports,
                0,
                cfg,
            );
        }
    }
    assert(resolved.round_timer.finished && !resolved.round_done);
    assert(crate::round::spec_end_check(resolved).round_done);
}

} // verus!
