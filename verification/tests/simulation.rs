//! Whole-round scenarios: strikes, combos, timeouts, projectiles, the
//! snapshot round trip and cross-instance determinism.

use fighting_core::character::{
    AnimationState, Character, CharacterAction, CharacterState, ScreenSide,
    ANIMATION_STATE_COUNT, STARTING_HEALTH,
};
use fighting_core::collision::{CollisionBox, CollisionBoxType, CollisionInfo, CollisionLibrary};
use fighting_core::combo::default_combo_library;
use fighting_core::config::GameConfig;
use fighting_core::geometry::{Rect, Vec2};
use fighting_core::input::{Input, NetInput, ScreenSideAdjustedInput};
use fighting_core::projectile::Projectile;
use fighting_core::round::Round;
use fighting_core::session::{advance_frame, load_game_state, save_game_state};
use fighting_core::sheet::{AnimationData, BoxType, CharacterSheet, Displacement, AABB};
use fighting_core::timer::{AnimationConfig, SpriteTimer};

/// A full-frame rectangle in local units; symmetric about the reflection
/// axis, so facing does not move it.
fn full_frame_box(kind: BoxType) -> AABB {
    AABB::new(kind, (0, 0), (4640, 2848))
}

/// Builds a configuration whose idle animation carries a struck-side box on
/// every frame and whose light attack probes on frame 2 only.
fn sim_config() -> GameConfig {
    let mut animations = Vec::new();
    for index in 0..ANIMATION_STATE_COUNT {
        let frame_lengths = vec![3u8; 10];
        let mut collision_data: Vec<Vec<AABB>> = vec![Vec::new(); 10];
        if index == 0 {
            // Idle: a body box on every frame.
            for frame in collision_data.iter_mut() {
                frame.push(full_frame_box(BoxType::Hit));
            }
        }
        if index == 3 {
            // LightAttack: a probing box on frame 2 only.
            collision_data[2].push(full_frame_box(BoxType::Hurt));
        }
        let displacements = vec![Displacement { x: 0, y: 0 }; 10];
        animations.push(AnimationData {
            image_file_location: String::new(),
            collision_data,
            frame_lengths,
            displacements,
        });
    }
    let sheet = CharacterSheet { name: String::from("trainer"), movespeed: 80, animations };
    let fireball = CollisionInfo {
        frame_collision: vec![vec![CollisionBox::new(
            CollisionBoxType::Hurt,
            Rect { min: Vec2 { x: 0, y: 0 }, max: Vec2 { x: 4640, y: 2848 } },
        )]],
    };
    let collision_library = CollisionLibrary::new_from_sheet(&sheet, fireball);
    let mut animation_configs = Vec::new();
    for animation in sheet.animations.iter() {
        animation_configs.push(AnimationConfig::new(animation.frame_lengths.clone()));
    }
    GameConfig::new(collision_library, default_combo_library(), animation_configs, sheet)
        .expect("the scenario configuration must validate")
}

fn no_input() -> NetInput {
    NetInput { input: 0 }
}

#[test]
fn basic_strike_lands_on_frame_two() {
    let mut config = sim_config();
    let mut round = Round::new_with_animation_lib(&config);
    // Character 0 holds light attack; character 1 does nothing.
    let attack = NetInput { input: 1 };
    let mut struck_at = None;
    for frame in 1..=20 {
        advance_frame(&mut round, [attack, no_input()], &mut config);
        if round.characters[1].health < STARTING_HEALTH {
            struck_at = Some(frame);
            break;
        }
    }
    assert!(struck_at.is_some(), "the strike must land");
    assert_eq!(round.characters[1].health, STARTING_HEALTH - 10);
    assert!(matches!(round.characters[1].character_state, CharacterState::LightHitRecovery));
    assert!(round.hit_stun_counter > 0);
    // The attacker is untouched.
    assert_eq!(round.characters[0].health, STARTING_HEALTH);
}

#[test]
fn combo_resolves_special_and_clears_history() {
    let mut library = default_combo_library();
    let mut fighter = Character::new(ScreenSide::Left);
    let none = ScreenSideAdjustedInput {
        forward_down: false,
        backward_down: false,
        down_key_down: false,
        light_attack: false,
        medium_attack: false,
        heavy_attack: false,
        light_kick: false,
        medium_kick: false,
        heavy_kick: false,
        has_input: false,
        jump: false,
    };
    let crouch = ScreenSideAdjustedInput { down_key_down: true, has_input: true, ..none };
    let forward = ScreenSideAdjustedInput { forward_down: true, has_input: true, ..none };
    let strike = ScreenSideAdjustedInput { light_attack: true, has_input: true, ..none };
    // Each pattern element wants its action absent once, then present, then
    // absent again (the final element completes on the press itself).
    let script = [none, crouch, none, none, forward, none, none, strike];
    let mut results = Vec::new();
    for input in script.iter() {
        results.push(fighter.process_new_input(*input, &mut library));
    }
    assert_eq!(results[7], CharacterAction::Special1);
    assert!(fighter.past_inputs.is_empty(), "a completed combo clears the history");
    // No earlier tick resolved the special.
    for early in &results[..7] {
        assert_ne!(*early, CharacterAction::Special1);
    }
}

#[test]
fn round_ends_on_timeout_then_declares_winner() {
    let mut config = sim_config();
    let mut round = Round::new_with_animation_lib(&config);
    round.round_timer = SpriteTimer { total_frames: 3600, current_frame: 3599, finished: false };
    round.characters[0].health = 200;
    round.characters[1].health = 100;
    advance_frame(&mut round, [no_input(), no_input()], &mut config);
    assert!(round.round_done, "the round ends the tick its clock finishes");
    advance_frame(&mut round, [no_input(), no_input()], &mut config);
    assert!(matches!(round.characters[0].character_state, CharacterState::Won));
    assert!(matches!(round.characters[1].character_state, CharacterState::Lost));
    assert!(round.characters[0].done && round.characters[1].done);
}

#[test]
fn projectile_hit_clears_every_projectile() {
    let mut config = sim_config();
    let mut round = Round::new_with_animation_lib(&config);
    // One projectile over the second character, one far away; both team 0.
    round.projectiles.push(Projectile::new(
        Vec2 { x: 3688, y: 0 },
        Vec2 { x: -160, y: 0 },
        ScreenSide::Right,
        0,
    ));
    round.projectiles.push(Projectile::new(
        Vec2 { x: -20000, y: 0 },
        Vec2 { x: -160, y: 0 },
        ScreenSide::Right,
        0,
    ));
    advance_frame(&mut round, [no_input(), no_input()], &mut config);
    assert!(round.projectiles.is_empty(), "any projectile hit clears the whole list");
    assert_eq!(round.characters[1].health, STARTING_HEALTH - 5);
    assert_eq!(round.characters[0].health, STARTING_HEALTH);
    assert!(round.hit_stun_counter > 0);
}

#[test]
fn hit_stun_freezes_everything_but_the_counter() {
    let mut config = sim_config();
    let mut round = Round::new_with_animation_lib(&config);
    round.hit_stun_counter = 5;
    let chars_before = round.characters.clone();
    let projectiles_before = round.projectiles.clone();
    let frame_before = round.frame;
    // Wildly different inputs must make no difference while frozen.
    advance_frame(&mut round, [NetInput { input: 0x3ff }, NetInput { input: 0x155 }], &mut config);
    assert_eq!(round.hit_stun_counter, 4);
    assert_eq!(round.frame, frame_before + 1);
    assert_eq!(round.characters, chars_before);
    assert_eq!(round.projectiles, projectiles_before);
}

/// A tiny deterministic input scrambler for the determinism runs.
fn scripted_input(seed: u64, frame: u64, player: u64) -> NetInput {
    let mixed = seed
        .wrapping_mul(6364136223846793005)
        .wrapping_add(frame.wrapping_mul(1442695040888963407))
        .wrapping_add(player);
    NetInput { input: ((mixed >> 33) & 0x3ff) as u16 }
}

#[test]
fn determinism_two_instances_agree_byte_for_byte() {
    let mut config_a = sim_config();
    let mut round_a = Round::new_with_animation_lib(&config_a);
    let mut config_b = sim_config();
    let mut round_b = Round::new_with_animation_lib(&config_b);
    for frame in 0..120u64 {
        let inputs = [scripted_input(7, frame, 0), scripted_input(7, frame, 1)];
        advance_frame(&mut round_a, inputs, &mut config_a);
        advance_frame(&mut round_b, inputs, &mut config_b);
        if frame % 10 == 0 {
            let snap_a = save_game_state(&round_a, &config_a);
            let snap_b = save_game_state(&round_b, &config_b);
            assert_eq!(snap_a.blob, snap_b.blob);
            assert_eq!(snap_a.checksum, snap_b.checksum);
        }
    }
}

#[test]
fn snapshot_round_trip_preserves_the_trajectory() {
    let mut config = sim_config();
    let mut round = Round::new_with_animation_lib(&config);
    for frame in 0..40u64 {
        let inputs = [scripted_input(3, frame, 0), scripted_input(3, frame, 1)];
        advance_frame(&mut round, inputs, &mut config);
    }
    let snapshot = save_game_state(&round, &config);
    let mut restored = load_game_state(&snapshot.blob, &config)
        .expect("a saved snapshot must load back");
    let mut config_restored = sim_config();
    // Catch the restored configuration's combo progress up by replaying the
    // same inputs from the start on a scratch round.
    let mut scratch = Round::new_with_animation_lib(&config_restored);
    for frame in 0..40u64 {
        let inputs = [scripted_input(3, frame, 0), scripted_input(3, frame, 1)];
        advance_frame(&mut scratch, inputs, &mut config_restored);
    }
    for frame in 40..80u64 {
        let inputs = [scripted_input(3, frame, 0), scripted_input(3, frame, 1)];
        advance_frame(&mut round, inputs, &mut config);
        advance_frame(&mut restored, inputs, &mut config_restored);
        assert_eq!(
            save_game_state(&round, &config).blob,
            save_game_state(&restored, &config_restored).blob,
        );
    }
}

#[test]
fn truncated_snapshot_is_rejected() {
    let mut config = sim_config();
    let round = Round::new_with_animation_lib(&config);
    let snapshot = save_game_state(&round, &config);
    let mut truncated = snapshot.blob.clone();
    truncated.pop();
    assert!(load_game_state(&truncated, &config).is_none());
    let mut padded = snapshot.blob.clone();
    padded.push(0);
    assert!(load_game_state(&padded, &config).is_none());
    let _ = &mut config;
}

#[test]
fn health_floor_never_wraps() {
    let mut config = sim_config();
    let mut round = Round::new_with_animation_lib(&config);
    round.do_damage_to_character(1, 300, false, &config);
    assert_eq!(round.characters[1].health, 0);
    round.do_damage_to_character(1, 40, false, &config);
    assert_eq!(round.characters[1].health, 0);
    round.do_damage_to_character(0, 249, false, &config);
    assert_eq!(round.characters[0].health, 1);
    round.do_damage_to_character(0, 1, false, &config);
    assert_eq!(round.characters[0].health, 0);
    let _ = &mut config;
}

#[test]
fn blocking_divides_damage_by_ten() {
    let config = sim_config();
    let mut round = Round::new_with_animation_lib(&config);
    round.characters[1].set_character_state(CharacterState::Blocking, &config);
    round.do_damage_to_character(1, 30, false, &config);
    assert_eq!(round.characters[1].health, STARTING_HEALTH - 3);
    assert!(matches!(round.characters[1].character_state, CharacterState::Blocking));
}

#[test]
fn mirrored_movement_mirrors_positions() {
    let mut config_a = sim_config();
    let mut round_a = Round::new_with_animation_lib(&config_a);
    let mut config_b = sim_config();
    let mut round_b = Round::new_with_animation_lib(&config_b);
    // Mirror the starting positions about the arena midline.
    let span = 14336 - 4640;
    round_b.characters[0].character_position.x = span - round_a.characters[0].character_position.x;
    round_b.characters[1].character_position.x = span - round_a.characters[1].character_position.x;
    round_b.characters[0].screen_side = ScreenSide::Left;
    round_b.characters[1].screen_side = ScreenSide::Right;
    // Player 0 walks left in one world and right in the other; no contact.
    let left = NetInput { input: 2 };
    let right = NetInput { input: 4 };
    for _ in 0..10 {
        advance_frame(&mut round_a, [left, no_input()], &mut config_a);
        advance_frame(&mut round_b, [right, no_input()], &mut config_b);
        assert_eq!(
            round_b.characters[0].character_position.x,
            span - round_a.characters[0].character_position.x,
        );
        assert_eq!(
            round_b.characters[1].character_position.x,
            span - round_a.characters[1].character_position.x,
        );
        assert_eq!(
            round_a.characters[0].character_position.y,
            round_b.characters[0].character_position.y,
        );
        assert_eq!(round_a.characters[0].health, round_b.characters[0].health);
    }
}

#[test]
fn advance_moves_a_running_character_forward() {
    let mut config = sim_config();
    let mut round = Round::new_with_animation_lib(&config);
    let start = round.characters[0].character_position.x;
    // Character 0 stands on the right, so pressing left walks it forward.
    let left = NetInput { input: 2 };
    for _ in 0..5 {
        advance_frame(&mut round, [left, no_input()], &mut config);
    }
    assert!(round.characters[0].character_position.x < start);
    assert!(matches!(round.characters[0].character_state, CharacterState::ForwardRun));
}

#[test]
fn new_round_starts_at_the_marks() {
    let config = sim_config();
    let round = Round::new_with_animation_lib(&config);
    assert_eq!(round.frame, 0);
    assert_eq!(round.characters.len(), 2);
    assert_eq!(round.characters[0].character_position.x, 6008);
    assert_eq!(round.characters[1].character_position.x, 3688);
    assert!(matches!(round.characters[0].screen_side, ScreenSide::Right));
    assert!(matches!(round.characters[1].screen_side, ScreenSide::Left));
    assert_eq!(round.characters[0].health, STARTING_HEALTH);
    assert!(!round.round_done);
    assert!(round.projectiles.is_empty());
    assert!(matches!(round.characters[0].animation_state, AnimationState::Idle));
}

#[test]
fn special_activation_always_spawns_a_projectile() {
    let mut config = sim_config();
    let mut round = Round::new_with_animation_lib(&config);
    // A crowded sky must not swallow the spawn: 64 projectiles already fly.
    for _ in 0..64 {
        round.projectiles.push(Projectile::new(
            Vec2 { x: -20000, y: 0 },
            Vec2 { x: -160, y: 0 },
            ScreenSide::Right,
            0,
        ));
    }
    // Fire from the far wall so the fresh projectile overlaps nobody yet.
    round.characters[0].character_position.x = 9696;
    // Put the first character one tick before the special's activation frame.
    round.characters[0].set_character_state(CharacterState::Special1, &config);
    round.characters[0].current_animation.current_frame = 5;
    round.characters[0].current_animation.sprite_timer.current_frame = 2;
    let position_before = round.characters[0].character_position;
    advance_frame(&mut round, [no_input(), no_input()], &mut config);
    assert_eq!(round.projectiles.len(), 65, "the activation frame spawns unconditionally");
    let spawned = round.projectiles.last().unwrap();
    assert_eq!(spawned.team, 0);
    assert!(matches!(spawned.screen_side, ScreenSide::Right));
    // The new projectile flew its first frame already: one step toward the
    // opponent from where it was launched.
    assert_eq!(spawned.velocity.x, -160);
    assert_eq!(spawned.position.x, position_before.x - 160);
    assert_eq!(spawned.position.y, position_before.y);
}
