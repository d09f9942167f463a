//! The three operations a rollback session drives the core with: save the
//! round as bytes with a checksum, load a round back from bytes, and advance
//! one frame from both players' wire inputs.

use vstd::prelude::*;
use crate::checksum::{fletcher16, spec_fletcher16};
use crate::codec::{
    decode_round, encode_round, round_encodable, spec_dec_round, spec_enc_round,
};
use crate::character::{CharacterV, FRAME_HISTORY_LENGTH};
use crate::config::{config_wf, GameConfig, GameConfigV};
use crate::input::{spec_decode_input, Input, NetInput};
use crate::projectile::{
    projectile_wf, Projectile, PROJECTILE_FRAME_TICKS, PROJECTILE_MAX_X, PROJECTILE_MIN_X,
    PROJECTILE_SPEED,
};
use crate::round::{round_wf, spec_advance, spec_new_round, Round, RoundV};
use crate::combo::ComboPatternV;

verus! {

/// One saved state: the frame it captures, the serialized round, and the
/// checksum of those bytes widened for the session's API.
pub struct Snapshot {
    pub frame: i64,
    pub blob: Vec<u8>,
    pub checksum: u64,
}

/// A well-formed round stays within every field width the snapshot encoder
/// uses.
pub proof fn lemma_wf_encodable(r: RoundV, cfg: GameConfigV)
    requires
        round_wf(r, cfg),
        config_wf(cfg),
    ensures
        round_encodable(r),
{
    assert(crate::config::anim_error(cfg, crate::character::spec_anim_index(
        r.characters[0].animation_state,
    )) is None);
    assert(crate::config::anim_error(cfg, crate::character::spec_anim_index(
        r.characters[1].animation_state,
    )) is None);
    assert(forall|i: int|
        0 <= i < r.projectiles.len() ==> projectile_wf(#[trigger] r.projectiles[i]));
}

/// Serialize the round and checksum the bytes. Saving reads the round and
/// builds a fresh snapshot; it changes nothing.
pub fn save_game_state(round: &Round, game_config: &GameConfig) -> (r: Snapshot)
    requires
        config_wf(game_config@),
        round_wf(round@, game_config@),
    ensures
        r.frame == round@.frame,
        r.blob@ == spec_enc_round(round@),
        r.checksum == spec_fletcher16(spec_enc_round(round@)),
{
    proof {
        lemma_wf_encodable(round@, game_config@);
    }
    let blob = encode_round(round);
    let checksum = fletcher16(&blob) as u64;
    Snapshot { frame: round.frame, blob, checksum }
}

/// Deserialize a snapshot and validate it against the configuration.
/// Succeeds exactly when the bytes are one whole encoded round and the
/// decoded round is well-formed; a loaded round then resimulates exactly as
/// the saved one would have.
pub fn load_game_state(blob: &Vec<u8>, game_config: &GameConfig) -> (r: Option<Round>)
    requires
        config_wf(game_config@),
    ensures
        match r {
            Some(round) => spec_dec_round(blob@) == Some((round@, Seq::<u8>::empty()))
                && round_wf(round@, game_config@),
            None => spec_dec_round(blob@) is None || spec_dec_round(blob@).unwrap().1
                != Seq::<u8>::empty() || !round_wf(
                spec_dec_round(blob@).unwrap().0,
                game_config@,
            ),
        },
{
    match decode_round(blob) {
        Some(round) => {
            if check_round_wf(&round, game_config) {
                Some(round)
            } else {
                None
            }
        },
        None => None,
    }
}

/// Decide `round_wf` executably, so a loaded snapshot can be validated
/// before it is simulated.
pub fn check_round_wf(round: &Round, game_config: &GameConfig) -> (r: bool)
    requires
        config_wf(game_config@),
    ensures
        r == round_wf(round@, game_config@),
{
    if round.characters.len() != 2 {
        return false;
    }
    proof {
        assert(round@.characters[0] == round.characters@[0]@);
        assert(round@.characters[1] == round.characters@[1]@);
    }
    if !check_character_wf(&round.characters[0], game_config) {
        return false;
    }
    if !check_character_wf(&round.characters[1], game_config) {
        return false;
    }
    if !(round.round_timer.total_frames > 0 && round.round_timer.current_frame
        < round.round_timer.total_frames) {
        return false;
    }
    if !(round.reset_round_timer.total_frames > 0 && round.reset_round_timer.current_frame
        < round.reset_round_timer.total_frames) {
        return false;
    }
    if round.frame < 0 {
        return false;
    }
    let mut i: usize = 0;
    while i < round.projectiles.len()
        invariant
            i <= round@.projectiles.len(),
            forall|k: int|
                0 <= k < i ==> projectile_wf(#[trigger] round@.projectiles[k]),
        decreases round@.projectiles.len() - i,
    {
        let p = &round.projectiles[i];
        proof {
            assert(round@.projectiles[i as int] == p@);
        }
        if !check_projectile_wf(p) {
            return false;
        }
        i = i + 1;
    }
    true
}

/// Decide a single character's well-formedness against the configuration.
fn check_character_wf(c: &crate::character::Character, game_config: &GameConfig) -> (r: bool)
    requires
        config_wf(game_config@),
    ensures
        r == c@.wf(game_config@),
{
    let anim = &c.current_animation;
    if !(anim.sprite_timer.total_frames > 0 && anim.sprite_timer.current_frame
        < anim.sprite_timer.total_frames) {
        return false;
    }
    if anim.frame_times.len() == 0 {
        return false;
    }
    let mut i: usize = 0;
    while i < anim.frame_times.len()
        invariant
            i <= anim.frame_times@.len(),
            forall|k: int| 0 <= k < i ==> anim.frame_times@[k] > 0,
        decreases anim.frame_times@.len() - i,
    {
        if anim.frame_times[i] == 0 {
            return false;
        }
        i = i + 1;
    }
    if !((anim.current_frame as usize) < anim.frame_times.len()) {
        return false;
    }
    let pair = crate::character::animation_for_state(c.character_state);
    let expected = if c.is_crouched {
        pair.crouched
    } else {
        pair.standing
    };
    if c.animation_state != expected {
        proof {
            assert(c@.animation_state != CharacterV::anim_for(
                c@.character_state,
                c@.is_crouched,
            ));
        }
        return false;
    }
    let idx = crate::character::anim_index(c.animation_state);
    proof {
        assert(game_config@.character_sheet.len()
            == game_config.character_sheet.animations@.len());
        assert(game_config@.character_sheet[idx as int]
            == game_config.character_sheet.animations@[idx as int]@);
    }
    if !crate::config::vecs_u8_equal(
        &anim.frame_times,
        &game_config.character_sheet.animations[idx].frame_lengths,
    ) {
        return false;
    }
    if !(c.character_position.x >= 0 && c.character_position.x
        <= crate::geometry::ARENA_WIDTH_UNITS - crate::geometry::FRAME_WIDTH_UNITS
        && c.character_position.y >= 0 && c.character_position.y
        <= crate::geometry::ARENA_HEIGHT_UNITS) {
        return false;
    }
    if !(c.character_velocity.x >= -crate::config::MAX_DISPLACEMENT && c.character_velocity.x
        <= crate::config::MAX_DISPLACEMENT && c.character_velocity.y
        >= -crate::config::MAX_DISPLACEMENT && c.character_velocity.y
        <= crate::config::MAX_DISPLACEMENT) {
        return false;
    }
    if c.past_inputs.len() > FRAME_HISTORY_LENGTH {
        return false;
    }
    true
}

/// Decide a single projectile's well-formedness.
fn check_projectile_wf(p: &Projectile) -> (r: bool)
    ensures
        r == projectile_wf(p@),
{
    if !(p.timer.sprite_timer.total_frames > 0 && p.timer.sprite_timer.current_frame
        < p.timer.sprite_timer.total_frames) {
        return false;
    }
    if p.timer.frame_times.len() != 4 {
        proof {
            assert(p@.timer.frame_times.len() != crate::projectile::spec_projectile_frame_times(
            ).len());
        }
        return false;
    }
    if p.timer.frame_times[0] != PROJECTILE_FRAME_TICKS || p.timer.frame_times[1]
        != PROJECTILE_FRAME_TICKS || p.timer.frame_times[2] != PROJECTILE_FRAME_TICKS
        || p.timer.frame_times[3] != PROJECTILE_FRAME_TICKS {
        return false;
    }
    proof {
        assert(p@.timer.frame_times =~= crate::projectile::spec_projectile_frame_times());
        assert(forall|k: int| 0 <= k < p@.timer.frame_times.len() ==> p@.timer.frame_times[k] > 0);
    }
    if !((p.timer.current_frame as usize) < p.timer.frame_times.len()) {
        return false;
    }
    if p.velocity.y != 0 {
        return false;
    }
    if !(p.velocity.x >= -PROJECTILE_SPEED && p.velocity.x <= PROJECTILE_SPEED) {
        return false;
    }
    if !(p.position.x >= PROJECTILE_MIN_X && p.position.x <= PROJECTILE_MAX_X) {
        return false;
    }
    if !(p.position.y >= 0 && p.position.y <= crate::geometry::ARENA_HEIGHT_UNITS) {
        return false;
    }
    if !(p.team < 2) {
        return false;
    }
    true
}

/// One session step: both wire inputs decoded and fed to the round; once a
/// finished round's reset clock runs out, a fresh round replaces it.
pub open spec fn spec_advance_frame(
    r: RoundV,
    net0: NetInput,
    net1: NetInput,
    cfg: GameConfigV,
) -> (RoundV, Seq<ComboPatternV>) {
    let stepped = spec_advance(
        r,
        spec_decode_input(net0.input),
        spec_decode_input(net1.input),
        cfg,
    );
    if stepped.0.round_done && stepped.0.reset_round_timer.finished {
        (spec_new_round(cfg), stepped.1)
    } else {
        stepped
    }
}

/// Advance the session one frame from both players' wire inputs, as
/// `spec_advance_frame` describes.
#[verifier::rlimit(100)]
pub fn advance_frame(round: &mut Round, inputs: [NetInput; 2], game_config: &mut GameConfig)
    requires
        config_wf(old(game_config)@),
        round_wf(old(round)@, old(game_config)@),
        old(round)@.frame < i64::MAX,
    ensures
        ({
            let stepped = spec_advance_frame(
                old(round)@,
                inputs[0],
                inputs[1],
                old(game_config)@,
            );
            &&& final(round)@ == stepped.0
            &&& final(game_config)@ == (GameConfigV {
                combo_library: stepped.1,
                ..old(game_config)@
            })
        }),
        round_wf(final(round)@, old(game_config)@),
        config_wf(final(game_config)@),
{
    let input0 = Input::from_game_input(inputs[0]);
    let input1 = Input::from_game_input(inputs[1]);
    round.advance([input0, input1], game_config);
    let done = round.round_done;
    let finished = round.reset_round_timer.finished();
    if done && finished {
        *round = Round::new_with_animation_lib(game_config);
        proof {
            crate::round::lemma_new_round_tables(game_config@, old(game_config)@);
        }
    }
}

} // verus!
