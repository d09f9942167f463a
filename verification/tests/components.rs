//! Component-level checks: timers, the input wire format, the combo
//! watchers, configuration validation and the checksum.

use fighting_core::character::{
    animation_for_state, AnimationState, Character, CharacterAction, CharacterState, ScreenSide,
    ANIMATION_STATE_COUNT,
};
use fighting_core::checksum::fletcher16;
use fighting_core::effects::{Effect, EffectKind};
use fighting_core::collision::{CollisionBox, CollisionBoxType, CollisionInfo, CollisionLibrary};
use fighting_core::combo::{default_combo_library, ComboPattern, PatternElement};
use fighting_core::config::{ConfigError, GameConfig};
use fighting_core::geometry::{slide, Rect, Vec2};
use fighting_core::input::{local_input, Input, NetInput, ScreenSideAdjustedInput};
use fighting_core::sheet::{AnimationData, BoxType, CharacterSheet, Displacement, AABB};
use fighting_core::state_machine::{State, StateMachine, StateName};
use fighting_core::timer::{AnimationConfig, SpriteTimer};

#[test]
fn sprite_timer_pulses_once_per_wrap() {
    let mut timer = SpriteTimer::new(3);
    timer.tick();
    assert!(!timer.finished());
    timer.tick();
    assert!(!timer.finished());
    timer.tick();
    assert!(timer.finished());
    assert_eq!(timer.current_frame, 0);
    timer.tick();
    assert!(!timer.finished(), "the pulse lasts exactly one tick");
}

#[test]
fn animation_config_walks_and_rewinds() {
    let mut animation = AnimationConfig::new(vec![2, 2]);
    assert!(!animation.is_done());
    animation.current_frame = 2;
    assert!(animation.is_done());
    animation.reset();
    assert_eq!(animation.current_frame, 0);
    assert!(!animation.sprite_timer.finished);
}

#[test]
fn wire_format_round_trips_every_button() {
    let mut held = Input::new();
    held.left_key_down = true;
    held.down_key_down = true;
    held.heavy_kick = true;
    held.jump_down = true;
    let wire = local_input(&held);
    assert_eq!(wire.input, 2 | 8 | 512 | 256);
    let decoded = Input::from_game_input(wire);
    assert_eq!(decoded.left_key_down, true);
    assert_eq!(decoded.right_key_down, false);
    assert_eq!(decoded.down_key_down, true);
    assert_eq!(decoded.heavy_kick, true);
    assert_eq!(decoded.jump_down, true);
    assert!(decoded.has_input);
    let empty = Input::from_game_input(NetInput { input: 0 });
    assert!(!empty.has_input);
}

#[test]
fn side_relative_view_swaps_with_the_side() {
    let mut input = Input::new();
    input.right_key_down = true;
    let on_left = ScreenSideAdjustedInput::new(&input, ScreenSide::Left);
    assert!(on_left.forward_down && !on_left.backward_down);
    let on_right = ScreenSideAdjustedInput::new(&input, ScreenSide::Right);
    assert!(!on_right.forward_down && on_right.backward_down);
}

#[test]
fn pattern_element_arms_confirms_completes() {
    let none = ScreenSideAdjustedInput {
        forward_down: false,
        backward_down: false,
        down_key_down: false,
        light_attack: false,
        medium_attack: false,
        heavy_attack: false,
        light_kick: false,
        medium_kick: false,
        heavy_kick: false,
        has_input: false,
        jump: false,
    };
    let crouch = ScreenSideAdjustedInput { down_key_down: true, has_input: true, ..none };
    let mut watcher = PatternElement::new(CharacterAction::Crouch);
    assert!(!watcher.process_input(&crouch), "held at first sight must not arm");
    assert!(!watcher.process_input(&none), "now it arms");
    assert!(!watcher.process_input(&crouch), "press confirms a non-final element");
    assert!(watcher.process_input(&none), "release completes it");
}

#[test]
fn final_pattern_element_completes_on_the_press() {
    let none = ScreenSideAdjustedInput {
        forward_down: false,
        backward_down: false,
        down_key_down: false,
        light_attack: false,
        medium_attack: false,
        heavy_attack: false,
        light_kick: false,
        medium_kick: false,
        heavy_kick: false,
        has_input: false,
        jump: false,
    };
    let strike = ScreenSideAdjustedInput { light_attack: true, has_input: true, ..none };
    let mut pattern = ComboPattern::new(vec![CharacterAction::LightAttack], CharacterAction::LightAttack);
    assert_eq!(pattern.process_input(&none), None);
    assert_eq!(pattern.process_input(&strike), Some(CharacterAction::LightAttack));
}

#[test]
fn default_library_resolves_forward_dash_first() {
    let library = default_combo_library();
    assert_eq!(library.combos.len(), 3);
    assert_eq!(library.combos[0].result_action, CharacterAction::DashForward);
    assert_eq!(library.combos[1].result_action, CharacterAction::DashBackward);
    assert_eq!(library.combos[2].result_action, CharacterAction::Special1);
}

#[test]
fn fallback_priority_prefers_strikes_over_movement() {
    let mut library = default_combo_library();
    let mut fighter = Character::new(ScreenSide::Left);
    let mashed = ScreenSideAdjustedInput {
        forward_down: true,
        backward_down: false,
        down_key_down: true,
        light_attack: false,
        medium_attack: true,
        heavy_attack: false,
        light_kick: false,
        medium_kick: false,
        heavy_kick: false,
        has_input: true,
        jump: true,
    };
    let action = fighter.process_new_input(mashed, &mut library);
    assert_eq!(action, CharacterAction::MediumAttack);
}

#[test]
fn damage_table_matches_strike_strength() {
    let mut fighter = Character::new(ScreenSide::Left);
    fighter.character_state = CharacterState::LightAttack;
    assert_eq!(fighter.get_current_damage(), 10);
    fighter.character_state = CharacterState::MediumKick;
    assert_eq!(fighter.get_current_damage(), 20);
    fighter.character_state = CharacterState::HeavyAttack;
    assert_eq!(fighter.get_current_damage(), 30);
    fighter.character_state = CharacterState::Idle;
    assert_eq!(fighter.get_current_damage(), 0);
}

#[test]
fn can_attack_only_from_neutral_states() {
    let mut fighter = Character::new(ScreenSide::Left);
    assert!(fighter.can_attack());
    fighter.character_state = CharacterState::LightAttack;
    assert!(!fighter.can_attack());
    fighter.character_state = CharacterState::ForwardDash;
    assert!(fighter.can_attack());
    fighter.character_state = CharacterState::Crouching;
    assert!(fighter.can_attack(), "a crouching character may attack");
    fighter.character_state = CharacterState::LightHitRecovery;
    assert!(!fighter.can_attack());
    assert!(!fighter.is_in_damageable_state());
    fighter.character_state = CharacterState::Parried;
    assert!(!fighter.is_in_damageable_state(), "no double-hits within one recovery");
    fighter.character_state = CharacterState::Jump;
    assert!(fighter.is_in_damageable_state(), "airborne characters can be struck");
}

#[test]
fn crouched_idle_plays_the_crouched_animation() {
    let pair = animation_for_state(CharacterState::Idle);
    assert!(matches!(pair.crouched, AnimationState::Crouched));
    assert!(matches!(pair.standing, AnimationState::Idle));
    let parried = animation_for_state(CharacterState::Parried);
    assert!(matches!(parried.standing, AnimationState::LightHitRecovery));
}

#[test]
fn screen_side_direction_signs() {
    assert_eq!(ScreenSide::Left.direction(), -1);
    assert_eq!(ScreenSide::Right.direction(), 1);
}

#[test]
fn slide_stops_flush_against_an_obstacle() {
    let mover = Rect { min: Vec2 { x: 0, y: 0 }, max: Vec2 { x: 10, y: 10 } };
    let wall = Rect { min: Vec2 { x: 25, y: 0 }, max: Vec2 { x: 35, y: 10 } };
    let blocked = slide(&mover, Vec2 { x: 100, y: 0 }, Some(&wall));
    assert_eq!(blocked.min.x, 15, "the mover stops flush against the wall");
    let free = slide(&mover, Vec2 { x: 100, y: 0 }, None);
    assert_eq!(free.min.x, 100);
    let vertical = slide(&mover, Vec2 { x: 0, y: 7 }, Some(&wall));
    assert_eq!(vertical.min.y, 7, "no horizontal overlap, so vertical movement is free");
}

#[test]
fn rect_reflection_mirrors_about_the_axis() {
    let rect = Rect { min: Vec2 { x: 10, y: 5 }, max: Vec2 { x: 30, y: 15 } };
    let mirrored = rect.reflect(50);
    assert_eq!(mirrored.min.x, 70);
    assert_eq!(mirrored.max.x, 90);
    assert_eq!(mirrored.min.y, 5);
    assert_eq!(mirrored.max.y, 15);
}

#[test]
fn fletcher16_known_values() {
    assert_eq!(fletcher16(&vec![]), 0);
    assert_eq!(fletcher16(&vec![1, 2]), 4 * 256 + 3);
    // The accumulators reduce mod 255, so a run of 255s folds to zero.
    assert_eq!(fletcher16(&vec![255, 255]), 0);
}

fn blank_animation(frames: usize) -> AnimationData {
    AnimationData {
        image_file_location: String::new(),
        collision_data: vec![Vec::new(); frames],
        frame_lengths: vec![3; frames],
        displacements: vec![Displacement { x: 0, y: 0 }; frames],
    }
}

fn blank_sheet() -> CharacterSheet {
    CharacterSheet {
        name: String::from("trainer"),
        movespeed: 80,
        animations: (0..ANIMATION_STATE_COUNT).map(|_| blank_animation(4)).collect(),
    }
}

fn fireball_table() -> CollisionInfo {
    CollisionInfo {
        frame_collision: vec![vec![CollisionBox::new(
            CollisionBoxType::Hurt,
            Rect { min: Vec2 { x: 0, y: 0 }, max: Vec2 { x: 100, y: 100 } },
        )]],
    }
}

fn configs_from(sheet: &CharacterSheet) -> Vec<AnimationConfig> {
    sheet.animations.iter().map(|a| AnimationConfig::new(a.frame_lengths.clone())).collect()
}

#[test]
fn config_accepts_a_sound_sheet() {
    let sheet = blank_sheet();
    let library = CollisionLibrary::new_from_sheet(&sheet, fireball_table());
    let configs = configs_from(&sheet);
    assert!(GameConfig::new(library, default_combo_library(), configs, sheet).is_ok());
}

#[test]
fn config_rejects_a_short_sheet() {
    let mut sheet = blank_sheet();
    sheet.animations.pop();
    let fireball = fireball_table();
    let library = CollisionLibrary {
        collision_info: Vec::new(),
        fireball_collision: fireball,
    };
    let configs = configs_from(&sheet);
    let result = GameConfig::new(library, default_combo_library(), configs, sheet);
    assert_eq!(result.err(), Some(ConfigError::SheetSize));
}

#[test]
fn config_rejects_a_zero_frame_duration() {
    let mut sheet = blank_sheet();
    sheet.animations[5].frame_lengths[1] = 0;
    let library = CollisionLibrary::new_from_sheet(&sheet, fireball_table());
    let configs = configs_from(&sheet);
    let result = GameConfig::new(library, default_combo_library(), configs, sheet);
    assert_eq!(result.err(), Some(ConfigError::ZeroFrameDuration));
}

#[test]
fn config_rejects_mismatched_tables() {
    let mut sheet = blank_sheet();
    sheet.animations[2].displacements.pop();
    let library = CollisionLibrary::new_from_sheet(&sheet, fireball_table());
    let configs = configs_from(&sheet);
    let result = GameConfig::new(library, default_combo_library(), configs, sheet);
    assert_eq!(result.err(), Some(ConfigError::FrameTableMismatch));
}

#[test]
fn config_rejects_a_stale_animation_template() {
    let sheet = blank_sheet();
    let library = CollisionLibrary::new_from_sheet(&sheet, fireball_table());
    let mut configs = configs_from(&sheet);
    configs[7].current_frame = 2;
    let result = GameConfig::new(library, default_combo_library(), configs, sheet);
    assert_eq!(result.err(), Some(ConfigError::StaleAnimationTemplate));
}

#[test]
fn config_rejects_a_missing_projectile_table() {
    let sheet = blank_sheet();
    let empty_fireball = CollisionInfo { frame_collision: Vec::new() };
    let library = CollisionLibrary::new_from_sheet(&sheet, empty_fireball);
    let configs = configs_from(&sheet);
    let result = GameConfig::new(library, default_combo_library(), configs, sheet);
    assert_eq!(result.err(), Some(ConfigError::MissingProjectileCollision));
}

#[test]
fn config_rejects_an_empty_combo_pattern() {
    let sheet = blank_sheet();
    let library = CollisionLibrary::new_from_sheet(&sheet, fireball_table());
    let configs = configs_from(&sheet);
    let mut combos = default_combo_library();
    combos.combos[1].pattern.clear();
    let result = GameConfig::new(library, combos, configs, sheet);
    assert_eq!(result.err(), Some(ConfigError::MalformedComboPattern));
}

#[test]
fn aabb_resolves_into_a_collision_box() {
    let authored = AABB::new(BoxType::Parry, (5, 6), (10, 20));
    let resolved = authored.into_collision_box();
    assert!(matches!(resolved.box_type, CollisionBoxType::Parry));
    assert_eq!(resolved.aabb.min.x, 5);
    assert_eq!(resolved.aabb.max.x, 15);
    assert_eq!(resolved.aabb.max.y, 26);
}

struct Blinker {
    name: StateName,
    ticks: u32,
    go_to: Option<StateName>,
}

impl State for Blinker {
    fn get_state_name(&self) -> StateName {
        self.name
    }

    fn should_transition(&self) -> Option<StateName> {
        self.go_to
    }

    fn tick(&mut self) {
        self.ticks += 1;
    }

    fn enter_state(&mut self) {}

    fn exit_state(&mut self) {}
}

#[test]
fn state_machine_follows_requested_transitions() {
    let mut machine: StateMachine<Blinker> = StateMachine::new();
    assert!(matches!(machine.current_state, StateName::Empty));
    machine.tick();
    assert!(matches!(machine.current_state, StateName::Empty));
    machine.add_state(Blinker { name: StateName::Idle, ticks: 0, go_to: Some(StateName::Running) });
    machine.add_state(Blinker { name: StateName::Running, ticks: 0, go_to: None });
    machine.current_state = StateName::Idle;
    machine.tick();
    assert!(matches!(machine.current_state, StateName::Running));
    machine.tick();
    assert!(matches!(machine.current_state, StateName::Running));
    assert_eq!(machine.running_state.as_ref().map(|s| s.ticks), Some(1));
    assert_eq!(machine.idle_state.as_ref().map(|s| s.ticks), Some(1));
}

#[test]
fn advance_to_next_frame_reloads_the_timer() {
    let mut animation = AnimationConfig::new(vec![2, 5, 7]);
    animation.current_frame = 1;
    animation.advance_to_next_frame();
    assert_eq!(animation.sprite_timer.total_frames, 5);
    assert_eq!(animation.sprite_timer.current_frame, 0);
}

#[test]
fn effect_spends_itself_after_its_frames() {
    let mut effect = Effect::new(2, 2, EffectKind::Low, 0, 0, ScreenSide::Left);
    assert!(effect.is_use);
    effect.advance();
    assert!(effect.is_use);
    effect.advance();
    assert_eq!(effect.current_frame, 1);
    effect.advance();
    effect.advance();
    assert!(!effect.is_use, "past the last frame the effect is spent");
}

#[test]
fn default_character_and_library_match_their_builders() {
    let fighter = Character::default();
    assert!(matches!(fighter.screen_side, ScreenSide::Left));
    assert_eq!(fighter.health, 250);
    let library = fighting_core::combo::ComboLibrary::default();
    assert_eq!(library.combos.len(), 3);
}
