//! The snapshot byte format: a fixed little-endian serialization of `Round`
//! and its exact inverse. Both peers must encode identically, so the layout
//! is frozen here: integers little-endian, booleans one byte, enums one tag
//! byte, lists a 32-bit count followed by their items, and the two
//! characters back to back. Decoding rejects anything the encoder cannot
//! produce, and a decoded snapshot re-encodes to the same bytes it came
//! from.

use vstd::prelude::*;
use crate::character::{
    spec_anim_index, AnimationState, Character, CharacterState, CharacterV, ScreenSide,
};
use crate::input::ScreenSideAdjustedInput;
use crate::projectile::{Projectile, ProjectileV};
use crate::round::{Round, RoundV};
use crate::timer::{AnimationConfig, AnimationConfigV, SpriteTimer};
use crate::geometry::Vec2;

verus! {

// ---------- primitive encodings ----------

pub open spec fn spec_enc_u16(x: u16) -> Seq<u8> {
    seq![(x & 0xff) as u8, ((x >> 8) & 0xff) as u8]
}

pub open spec fn spec_enc_u32(x: u32) -> Seq<u8> {
    seq![
        (x & 0xff) as u8,
        ((x >> 8) & 0xff) as u8,
        ((x >> 16) & 0xff) as u8,
        ((x >> 24) & 0xff) as u8,
    ]
}

pub open spec fn spec_enc_u64(x: u64) -> Seq<u8> {
    seq![
        (x & 0xff) as u8,
        ((x >> 8) & 0xff) as u8,
        ((x >> 16) & 0xff) as u8,
        ((x >> 24) & 0xff) as u8,
        ((x >> 32) & 0xff) as u8,
        ((x >> 40) & 0xff) as u8,
        ((x >> 48) & 0xff) as u8,
        ((x >> 56) & 0xff) as u8,
    ]
}

pub open spec fn spec_enc_i64(x: i64) -> Seq<u8> {
    spec_enc_u64(x as u64)
}

pub open spec fn spec_enc_bool(b: bool) -> Seq<u8> {
    seq![if b { 1u8 } else { 0u8 }]
}

pub open spec fn spec_dec_u8(s: Seq<u8>) -> Option<(u8, Seq<u8>)> {
    if s.len() >= 1 {
        Some((s[0], s.skip(1)))
    } else {
        None
    }
}

pub open spec fn spec_dec_u16(s: Seq<u8>) -> Option<(u16, Seq<u8>)> {
    if s.len() >= 2 {
        Some(((s[0] as u16) | ((s[1] as u16) << 8), s.skip(2)))
    } else {
        None
    }
}

pub open spec fn spec_dec_u32(s: Seq<u8>) -> Option<(u32, Seq<u8>)> {
    if s.len() >= 4 {
        Some(
            (
                (s[0] as u32) | ((s[1] as u32) << 8) | ((s[2] as u32) << 16) | ((s[3] as u32)
                    << 24),
                s.skip(4),
            ),
        )
    } else {
        None
    }
}

pub open spec fn spec_dec_u64(s: Seq<u8>) -> Option<(u64, Seq<u8>)> {
    if s.len() >= 8 {
        Some(
            (
                (s[0] as u64) | ((s[1] as u64) << 8) | ((s[2] as u64) << 16) | ((s[3] as u64)
                    << 24) | ((s[4] as u64) << 32) | ((s[5] as u64) << 40) | ((s[6] as u64)
                    << 48) | ((s[7] as u64) << 56),
                s.skip(8),
            ),
        )
    } else {
        None
    }
}

pub open spec fn spec_dec_i64(s: Seq<u8>) -> Option<(i64, Seq<u8>)> {
    match spec_dec_u64(s) {
        Some((v, rest)) => Some((v as i64, rest)),
        None => None,
    }
}

pub open spec fn spec_dec_bool(s: Seq<u8>) -> Option<(bool, Seq<u8>)> {
    match spec_dec_u8(s) {
        Some((v, rest)) => if v == 0 {
            Some((false, rest))
        } else if v == 1 {
            Some((true, rest))
        } else {
            None
        },
        None => None,
    }
}

// ---------- primitive round trips ----------

pub proof fn lemma_rt_u16(x: u16, rest: Seq<u8>)
    ensures
        spec_dec_u16(spec_enc_u16(x) + rest) == Some((x, rest)),
{
    let s = spec_enc_u16(x) + rest;
    let b0 = (x & 0xff) as u8;
    let b1 = ((x >> 8) & 0xff) as u8;
    assert(s[0] == b0 && s[1] == b1);
    assert((b0 as u16) | ((b1 as u16) << 8) == x) by (bit_vector)
        requires
            b0 == (x & 0xff) as u8,
            b1 == ((x >> 8) & 0xff) as u8,
    ;
    assert(s.skip(2) =~= rest);
}

pub proof fn lemma_rt_u32(x: u32, rest: Seq<u8>)
    ensures
        spec_dec_u32(spec_enc_u32(x) + rest) == Some((x, rest)),
{
    let s = spec_enc_u32(x) + rest;
    let b0 = (x & 0xff) as u8;
    let b1 = ((x >> 8) & 0xff) as u8;
    let b2 = ((x >> 16) & 0xff) as u8;
    let b3 = ((x >> 24) & 0xff) as u8;
    assert(s[0] == b0 && s[1] == b1 && s[2] == b2 && s[3] == b3);
    assert((b0 as u32) | ((b1 as u32) << 8) | ((b2 as u32) << 16) | ((b3 as u32) << 24) == x)
        by (bit_vector)
        requires
            b0 == (x & 0xff) as u8,
            b1 == ((x >> 8) & 0xff) as u8,
            b2 == ((x >> 16) & 0xff) as u8,
            b3 == ((x >> 24) & 0xff) as u8,
    ;
    assert(s.skip(4) =~= rest);
}

pub proof fn lemma_rt_u64(x: u64, rest: Seq<u8>)
    ensures
        spec_dec_u64(spec_enc_u64(x) + rest) == Some((x, rest)),
{
    let s = spec_enc_u64(x) + rest;
    let b0 = (x & 0xff) as u8;
    let b1 = ((x >> 8) & 0xff) as u8;
    let b2 = ((x >> 16) & 0xff) as u8;
    let b3 = ((x >> 24) & 0xff) as u8;
    let b4 = ((x >> 32) & 0xff) as u8;
    let b5 = ((x >> 40) & 0xff) as u8;
    let b6 = ((x >> 48) & 0xff) as u8;
    let b7 = ((x >> 56) & 0xff) as u8;
    assert(s[0] == b0 && s[1] == b1 && s[2] == b2 && s[3] == b3 && s[4] == b4 && s[5] == b5
        && s[6] == b6 && s[7] == b7);
    assert((b0 as u64) | ((b1 as u64) << 8) | ((b2 as u64) << 16) | ((b3 as u64) << 24) | ((
    b4 as u64) << 32) | ((b5 as u64) << 40) | ((b6 as u64) << 48) | ((b7 as u64) << 56) == x)
        by (bit_vector)
        requires
            b0 == (x & 0xff) as u8,
            b1 == ((x >> 8) & 0xff) as u8,
            b2 == ((x >> 16) & 0xff) as u8,
            b3 == ((x >> 24) & 0xff) as u8,
            b4 == ((x >> 32) & 0xff) as u8,
            b5 == ((x >> 40) & 0xff) as u8,
            b6 == ((x >> 48) & 0xff) as u8,
            b7 == ((x >> 56) & 0xff) as u8,
    ;
    assert(s.skip(8) =~= rest);
}

pub proof fn lemma_rt_i64(x: i64, rest: Seq<u8>)
    ensures
        spec_dec_i64(spec_enc_i64(x) + rest) == Some((x, rest)),
{
    lemma_rt_u64(x as u64, rest);
    assert(x as u64 as i64 == x) by (bit_vector);
}

pub proof fn lemma_rt_bool(b: bool, rest: Seq<u8>)
    ensures
        spec_dec_bool(spec_enc_bool(b) + rest) == Some((b, rest)),
{
    let s = spec_enc_bool(b) + rest;
    assert(s.skip(1) =~= rest);
}

// ---------- enums ----------

pub open spec fn spec_enc_side(v: ScreenSide) -> Seq<u8> {
    match v {
        ScreenSide::Left => seq![0u8],
        ScreenSide::Right => seq![1u8],
    }
}

pub open spec fn spec_dec_side(s: Seq<u8>) -> Option<(ScreenSide, Seq<u8>)> {
    match spec_dec_u8(s) {
        Some((v, rest)) => if v == 0 {
            Some((ScreenSide::Left, rest))
        } else if v == 1 {
            Some((ScreenSide::Right, rest))
        } else {
            None
        },
        None => None,
    }
}

pub proof fn lemma_rt_side(v: ScreenSide, rest: Seq<u8>)
    ensures
        spec_dec_side(spec_enc_side(v) + rest) == Some((v, rest)),
{
    let s = spec_enc_side(v) + rest;
    assert(s.skip(1) =~= rest);
}

pub open spec fn spec_enc_anim_state(v: AnimationState) -> Seq<u8> {
    seq![spec_anim_index(v) as u8]
}

pub open spec fn spec_anim_state_of(tag: u8) -> Option<AnimationState> {
    if tag == 0 {
        Some(AnimationState::Idle)
    } else if tag == 1 {
        Some(AnimationState::ForwardRun)
    } else if tag == 2 {
        Some(AnimationState::BackwardRun)
    } else if tag == 3 {
        Some(AnimationState::LightAttack)
    } else if tag == 4 {
        Some(AnimationState::MediumAttack)
    } else if tag == 5 {
        Some(AnimationState::HeavyAttack)
    } else if tag == 6 {
        Some(AnimationState::LightHitRecovery)
    } else if tag == 7 {
        Some(AnimationState::Crouched)
    } else if tag == 8 {
        Some(AnimationState::Crouching)
    } else if tag == 9 {
        Some(AnimationState::Blocking)
    } else if tag == 10 {
        Some(AnimationState::LightCrouchAttack)
    } else if tag == 11 {
        Some(AnimationState::HeavyCrouchingAttack)
    } else if tag == 12 {
        Some(AnimationState::LightCrouchKick)
    } else if tag == 13 {
        Some(AnimationState::MediumCrouchKick)
    } else if tag == 14 {
        Some(AnimationState::HeavyCrouchKick)
    } else if tag == 15 {
        Some(AnimationState::LightKick)
    } else if tag == 16 {
        Some(AnimationState::MediumKick)
    } else if tag == 17 {
        Some(AnimationState::HeavyKick)
    } else if tag == 18 {
        Some(AnimationState::ForwardDash)
    } else if tag == 19 {
        Some(AnimationState::BackwardDash)
    } else if tag == 20 {
        Some(AnimationState::Special1)
    } else if tag == 21 {
        Some(AnimationState::Won)
    } else if tag == 22 {
        Some(AnimationState::Lost)
    } else if tag == 23 {
        Some(AnimationState::Jump)
    } else if tag == 24 {
        Some(AnimationState::Parry)
    } else {
        None
    }
}

pub open spec fn spec_dec_anim_state(s: Seq<u8>) -> Option<(AnimationState, Seq<u8>)> {
    match spec_dec_u8(s) {
        Some((v, rest)) => match spec_anim_state_of(v) {
            Some(a) => Some((a, rest)),
            None => None,
        },
        None => None,
    }
}

pub proof fn lemma_rt_anim_state(v: AnimationState, rest: Seq<u8>)
    ensures
        spec_dec_anim_state(spec_enc_anim_state(v) + rest) == Some((v, rest)),
{
    let s = spec_enc_anim_state(v) + rest;
    assert(s.skip(1) =~= rest);
}

pub open spec fn spec_char_state_index(v: CharacterState) -> int {
    match v {
        CharacterState::Idle => 0,
        CharacterState::ForwardRun => 1,
        CharacterState::BackwardRun => 2,
        CharacterState::Crouching => 3,
        CharacterState::LightAttack => 4,
        CharacterState::MediumAttack => 5,
        CharacterState::HeavyAttack => 6,
        CharacterState::LightKick => 7,
        CharacterState::MediumKick => 8,
        CharacterState::HeavyKick => 9,
        CharacterState::LightHitRecovery => 10,
        CharacterState::Blocking => 11,
        CharacterState::ForwardDash => 12,
        CharacterState::BackwardDash => 13,
        CharacterState::Special1 => 14,
        CharacterState::Jump => 15,
        CharacterState::Parry => 16,
        CharacterState::Parried => 17,
        CharacterState::Won => 18,
        CharacterState::Lost => 19,
    }
}

pub open spec fn spec_enc_char_state(v: CharacterState) -> Seq<u8> {
    seq![spec_char_state_index(v) as u8]
}

pub open spec fn spec_char_state_of(tag: u8) -> Option<CharacterState> {
    if tag == 0 {
        Some(CharacterState::Idle)
    } else if tag == 1 {
        Some(CharacterState::ForwardRun)
    } else if tag == 2 {
        Some(CharacterState::BackwardRun)
    } else if tag == 3 {
        Some(CharacterState::Crouching)
    } else if tag == 4 {
        Some(CharacterState::LightAttack)
    } else if tag == 5 {
        Some(CharacterState::MediumAttack)
    } else if tag == 6 {
        Some(CharacterState::HeavyAttack)
    } else if tag == 7 {
        Some(CharacterState::LightKick)
    } else if tag == 8 {
        Some(CharacterState::MediumKick)
    } else if tag == 9 {
        Some(CharacterState::HeavyKick)
    } else if tag == 10 {
        Some(CharacterState::LightHitRecovery)
    } else if tag == 11 {
        Some(CharacterState::Blocking)
    } else if tag == 12 {
        Some(CharacterState::ForwardDash)
    } else if tag == 13 {
        Some(CharacterState::BackwardDash)
    } else if tag == 14 {
        Some(CharacterState::Special1)
    } else if tag == 15 {
        Some(CharacterState::Jump)
    } else if tag == 16 {
        Some(CharacterState::Parry)
    } else if tag == 17 {
        Some(CharacterState::Parried)
    } else if tag == 18 {
        Some(CharacterState::Won)
    } else if tag == 19 {
        Some(CharacterState::Lost)
    } else {
        None
    }
}

pub open spec fn spec_dec_char_state(s: Seq<u8>) -> Option<(CharacterState, Seq<u8>)> {
    match spec_dec_u8(s) {
        Some((v, rest)) => match spec_char_state_of(v) {
            Some(a) => Some((a, rest)),
            None => None,
        },
        None => None,
    }
}

pub proof fn lemma_rt_char_state(v: CharacterState, rest: Seq<u8>)
    ensures
        spec_dec_char_state(spec_enc_char_state(v) + rest) == Some((v, rest)),
{
    let s = spec_enc_char_state(v) + rest;
    assert(s.skip(1) =~= rest);
}

// ---------- side-relative inputs, packed onto sixteen bits ----------

pub open spec fn spec_pack_input(i: ScreenSideAdjustedInput) -> u16 {
    (if i.forward_down { 1u16 } else { 0u16 }) | (if i.backward_down { 2u16 } else { 0u16 })
        | (if i.down_key_down { 4u16 } else { 0u16 }) | (if i.light_attack { 8u16 } else { 0u16 })
        | (if i.medium_attack { 16u16 } else { 0u16 }) | (if i.heavy_attack {
        32u16
    } else {
        0u16
    }) | (if i.light_kick { 64u16 } else { 0u16 }) | (if i.medium_kick { 128u16 } else { 0u16 })
        | (if i.heavy_kick { 256u16 } else { 0u16 }) | (if i.has_input { 512u16 } else { 0u16 })
        | (if i.jump { 1024u16 } else { 0u16 })
}

pub open spec fn spec_unpack_input(w: u16) -> ScreenSideAdjustedInput {
    ScreenSideAdjustedInput {
        forward_down: w & 1 != 0,
        backward_down: w & 2 != 0,
        down_key_down: w & 4 != 0,
        light_attack: w & 8 != 0,
        medium_attack: w & 16 != 0,
        heavy_attack: w & 32 != 0,
        light_kick: w & 64 != 0,
        medium_kick: w & 128 != 0,
        heavy_kick: w & 256 != 0,
        has_input: w & 512 != 0,
        jump: w & 1024 != 0,
    }
}

pub proof fn lemma_rt_pack_input(i: ScreenSideAdjustedInput)
    ensures
        spec_unpack_input(spec_pack_input(i)) == i,
{
    let fd = i.forward_down;
    let bd = i.backward_down;
    let dk = i.down_key_down;
    let la = i.light_attack;
    let ma = i.medium_attack;
    let ha = i.heavy_attack;
    let lk = i.light_kick;
    let mk = i.medium_kick;
    let hk = i.heavy_kick;
    let hi = i.has_input;
    let ju = i.jump;
    assert({
        let w = (if fd { 1u16 } else { 0u16 }) | (if bd { 2u16 } else { 0u16 }) | (if dk {
            4u16
        } else {
            0u16
        }) | (if la { 8u16 } else { 0u16 }) | (if ma { 16u16 } else { 0u16 }) | (if ha {
            32u16
        } else {
            0u16
        }) | (if lk { 64u16 } else { 0u16 }) | (if mk { 128u16 } else { 0u16 }) | (if hk {
            256u16
        } else {
            0u16
        }) | (if hi { 512u16 } else { 0u16 }) | (if ju { 1024u16 } else { 0u16 });
        (w & 1 != 0) == fd && (w & 2 != 0) == bd && (w & 4 != 0) == dk && (w & 8 != 0) == la && (
        w & 16 != 0) == ma && (w & 32 != 0) == ha && (w & 64 != 0) == lk && (w & 128 != 0) == mk
            && (w & 256 != 0) == hk && (w & 512 != 0) == hi && (w & 1024 != 0) == ju
    }) by (bit_vector);
}

pub open spec fn spec_enc_input(i: ScreenSideAdjustedInput) -> Seq<u8> {
    spec_enc_u16(spec_pack_input(i))
}

pub open spec fn spec_dec_input(s: Seq<u8>) -> Option<(ScreenSideAdjustedInput, Seq<u8>)> {
    match spec_dec_u16(s) {
        Some((w, rest)) => Some((spec_unpack_input(w), rest)),
        None => None,
    }
}

pub proof fn lemma_rt_input(i: ScreenSideAdjustedInput, rest: Seq<u8>)
    ensures
        spec_dec_input(spec_enc_input(i) + rest) == Some((i, rest)),
{
    lemma_rt_u16(spec_pack_input(i), rest);
    lemma_rt_pack_input(i);
}

// ---------- composite encodings ----------

pub open spec fn spec_enc_timer(t: SpriteTimer) -> Seq<u8> {
    spec_enc_u32(t.total_frames) + spec_enc_u32(t.current_frame) + spec_enc_bool(t.finished)
}

#[verifier::opaque]
pub open spec fn spec_dec_timer(s: Seq<u8>) -> Option<(SpriteTimer, Seq<u8>)> {
    match spec_dec_u32(s) {
        Some((total_frames, s1)) => match spec_dec_u32(s1) {
            Some((current_frame, s2)) => match spec_dec_bool(s2) {
                Some((finished, s3)) => Some(
                    (SpriteTimer { total_frames, current_frame, finished }, s3),
                ),
                None => None,
            },
            None => None,
        },
        None => None,
    }
}

#[verifier::rlimit(100)]
pub proof fn lemma_rt_timer(t: SpriteTimer, rest: Seq<u8>)
    ensures
        spec_dec_timer(spec_enc_timer(t) + rest) == Some((t, rest)),
{
    reveal(spec_dec_timer);
    let tail1 = spec_enc_u32(t.current_frame) + spec_enc_bool(t.finished) + rest;
    assert(spec_enc_timer(t) + rest =~= spec_enc_u32(t.total_frames) + tail1);
    lemma_rt_u32(t.total_frames, tail1);
    let tail2 = spec_enc_bool(t.finished) + rest;
    assert(tail1 =~= spec_enc_u32(t.current_frame) + tail2);
    lemma_rt_u32(t.current_frame, tail2);
    lemma_rt_bool(t.finished, rest);
}

/// A byte list: a 32-bit count and then the raw bytes.
pub open spec fn spec_enc_bytes(s: Seq<u8>) -> Seq<u8> {
    spec_enc_u32(s.len() as u32) + s
}

#[verifier::opaque]
pub open spec fn spec_dec_bytes(s: Seq<u8>) -> Option<(Seq<u8>, Seq<u8>)> {
    match spec_dec_u32(s) {
        Some((n, s1)) => if s1.len() >= n {
            Some((s1.take(n as int), s1.skip(n as int)))
        } else {
            None
        },
        None => None,
    }
}

#[verifier::rlimit(100)]
pub proof fn lemma_rt_bytes(s: Seq<u8>, rest: Seq<u8>)
    requires
        s.len() < 0x1_0000_0000,
    ensures
        spec_dec_bytes(spec_enc_bytes(s) + rest) == Some((s, rest)),
{
    reveal(spec_dec_bytes);
    let tail = s + rest;
    assert(spec_enc_bytes(s) + rest =~= spec_enc_u32(s.len() as u32) + tail);
    lemma_rt_u32(s.len() as u32, tail);
    assert(tail.take(s.len() as int) =~= s);
    assert(tail.skip(s.len() as int) =~= rest);
}

pub open spec fn spec_enc_anim(a: AnimationConfigV) -> Seq<u8> {
    spec_enc_timer(a.sprite_timer) + spec_enc_u32(a.current_frame) + spec_enc_bytes(a.frame_times)
}

#[verifier::opaque]
pub open spec fn spec_dec_anim(s: Seq<u8>) -> Option<(AnimationConfigV, Seq<u8>)> {
    match spec_dec_timer(s) {
        Some((sprite_timer, s1)) => match spec_dec_u32(s1) {
            Some((current_frame, s2)) => match spec_dec_bytes(s2) {
                Some((frame_times, s3)) => Some(
                    (AnimationConfigV { sprite_timer, current_frame, frame_times }, s3),
                ),
                None => None,
            },
            None => None,
        },
        None => None,
    }
}

#[verifier::rlimit(100)]
pub proof fn lemma_rt_anim(a: AnimationConfigV, rest: Seq<u8>)
    requires
        a.frame_times.len() < 0x1_0000_0000,
    ensures
        spec_dec_anim(spec_enc_anim(a) + rest) == Some((a, rest)),
{
    reveal(spec_dec_anim);
    let tail1 = spec_enc_u32(a.current_frame) + spec_enc_bytes(a.frame_times) + rest;
    assert(spec_enc_anim(a) + rest =~= spec_enc_timer(a.sprite_timer) + tail1);
    lemma_rt_timer(a.sprite_timer, tail1);
    let tail2 = spec_enc_bytes(a.frame_times) + rest;
    assert(tail1 =~= spec_enc_u32(a.current_frame) + tail2);
    lemma_rt_u32(a.current_frame, tail2);
    lemma_rt_bytes(a.frame_times, rest);
    assert(spec_dec_anim(spec_enc_anim(a) + rest).unwrap().0 =~= a);
}

/// The input history: a 32-bit count and then the packed inputs.
pub open spec fn spec_enc_inputs_items(s: Seq<ScreenSideAdjustedInput>) -> Seq<u8>
    decreases s.len(),
{
    if s.len() == 0 {
        Seq::empty()
    } else {
        spec_enc_input(s[0]) + spec_enc_inputs_items(s.drop_first())
    }
}

pub open spec fn spec_enc_inputs(s: Seq<ScreenSideAdjustedInput>) -> Seq<u8> {
    spec_enc_u32(s.len() as u32) + spec_enc_inputs_items(s)
}

#[verifier::opaque]
pub open spec fn spec_dec_inputs_items(s: Seq<u8>, n: nat) -> Option<(
    Seq<ScreenSideAdjustedInput>,
    Seq<u8>,
)>
    decreases n,
{
    if n == 0 {
        Some((Seq::empty(), s))
    } else {
        match spec_dec_input(s) {
            Some((i, s1)) => match spec_dec_inputs_items(s1, (n - 1) as nat) {
                Some((items, s2)) => Some((seq![i] + items, s2)),
                None => None,
            },
            None => None,
        }
    }
}

#[verifier::opaque]
pub open spec fn spec_dec_inputs(s: Seq<u8>) -> Option<(Seq<ScreenSideAdjustedInput>, Seq<u8>)> {
    match spec_dec_u32(s) {
        Some((n, s1)) => spec_dec_inputs_items(s1, n as nat),
        None => None,
    }
}

#[verifier::rlimit(100)]
pub proof fn lemma_rt_inputs_items(s: Seq<ScreenSideAdjustedInput>, rest: Seq<u8>)
    ensures
        spec_dec_inputs_items(spec_enc_inputs_items(s) + rest, s.len()) == Some((s, rest)),
    decreases s.len(),
{
    reveal(spec_dec_inputs_items);
    if s.len() == 0 {
        assert(spec_enc_inputs_items(s) + rest =~= rest);
    } else {
        let tail = spec_enc_inputs_items(s.drop_first()) + rest;
        assert(spec_enc_inputs_items(s) + rest =~= spec_enc_input(s[0]) + tail);
        lemma_rt_input(s[0], tail);
        lemma_rt_inputs_items(s.drop_first(), rest);
        assert(seq![s[0]] + s.drop_first() =~= s);
    }
}

#[verifier::rlimit(100)]
pub proof fn lemma_rt_inputs(s: Seq<ScreenSideAdjustedInput>, rest: Seq<u8>)
    requires
        s.len() < 0x1_0000_0000,
    ensures
        spec_dec_inputs(spec_enc_inputs(s) + rest) == Some((s, rest)),
{
    reveal(spec_dec_inputs);
    let tail = spec_enc_inputs_items(s) + rest;
    assert(spec_enc_inputs(s) + rest =~= spec_enc_u32(s.len() as u32) + tail);
    lemma_rt_u32(s.len() as u32, tail);
    lemma_rt_inputs_items(s, rest);
}

pub open spec fn spec_enc_vec2(v: Vec2) -> Seq<u8> {
    spec_enc_i64(v.x) + spec_enc_i64(v.y)
}

#[verifier::opaque]
pub open spec fn spec_dec_vec2(s: Seq<u8>) -> Option<(Vec2, Seq<u8>)> {
    match spec_dec_i64(s) {
        Some((x, s1)) => match spec_dec_i64(s1) {
            Some((y, s2)) => Some((Vec2 { x, y }, s2)),
            None => None,
        },
        None => None,
    }
}

#[verifier::rlimit(100)]
pub proof fn lemma_rt_vec2(v: Vec2, rest: Seq<u8>)
    ensures
        spec_dec_vec2(spec_enc_vec2(v) + rest) == Some((v, rest)),
{
    reveal(spec_dec_vec2);
    let tail = spec_enc_i64(v.y) + rest;
    assert(spec_enc_vec2(v) + rest =~= spec_enc_i64(v.x) + tail);
    lemma_rt_i64(v.x, tail);
    lemma_rt_i64(v.y, rest);
}

pub open spec fn spec_enc_character(c: CharacterV) -> Seq<u8> {
    spec_enc_anim_state(c.animation_state) + spec_enc_char_state(c.character_state)
        + spec_enc_anim(c.current_animation) + spec_enc_vec2(c.character_position) + spec_enc_vec2(
        c.character_velocity,
    ) + spec_enc_side(c.screen_side) + spec_enc_u32(c.health) + spec_enc_bool(c.is_crouched)
        + spec_enc_inputs(c.past_inputs) + spec_enc_bool(c.done)
}

#[verifier::opaque]
pub open spec fn spec_dec_character(s: Seq<u8>) -> Option<(CharacterV, Seq<u8>)> {
    match spec_dec_anim_state(s) {
        Some((animation_state, s1)) => match spec_dec_char_state(s1) {
            Some((character_state, s2)) => match spec_dec_anim(s2) {
                Some((current_animation, s3)) => match spec_dec_vec2(s3) {
                    Some((character_position, s4)) => match spec_dec_vec2(s4) {
                        Some((character_velocity, s5)) => match spec_dec_side(s5) {
                            Some((screen_side, s6)) => match spec_dec_u32(s6) {
                                Some((health, s7)) => match spec_dec_bool(s7) {
                                    Some((is_crouched, s8)) => match spec_dec_inputs(s8) {
                                        Some((past_inputs, s9)) => match spec_dec_bool(s9) {
                                            Some((done, s10)) => Some(
                                                (
                                                    CharacterV {
                                                        animation_state,
                                                        character_state,
                                                        current_animation,
                                                        character_position,
                                                        character_velocity,
                                                        screen_side,
                                                        health,
                                                        is_crouched,
                                                        past_inputs,
                                                        done,
                                                    },
                                                    s10,
                                                ),
                                            ),
                                            None => None,
                                        },
                                        None => None,
                                    },
                                    None => None,
                                },
                                None => None,
                            },
                            None => None,
                        },
                        None => None,
                    },
                    None => None,
                },
                None => None,
            },
            None => None,
        },
        None => None,
    }
}

#[verifier::rlimit(100)]
#[verifier::spinoff_prover]
pub proof fn lemma_rt_character(c: CharacterV, rest: Seq<u8>)
    requires
        c.current_animation.frame_times.len() < 0x1_0000_0000,
        c.past_inputs.len() < 0x1_0000_0000,
    ensures
        spec_dec_character(spec_enc_character(c) + rest) == Some((c, rest)),
{
    reveal(spec_dec_character);
    let e10 = spec_enc_bool(c.done) + rest;
    let e9 = spec_enc_inputs(c.past_inputs) + e10;
    let e8 = spec_enc_bool(c.is_crouched) + e9;
    let e7 = spec_enc_u32(c.health) + e8;
    let e6 = spec_enc_side(c.screen_side) + e7;
    let e5 = spec_enc_vec2(c.character_velocity) + e6;
    let e4 = spec_enc_vec2(c.character_position) + e5;
    let e3 = spec_enc_anim(c.current_animation) + e4;
    let e2 = spec_enc_char_state(c.character_state) + e3;
    let e1 = spec_enc_anim_state(c.animation_state) + e2;
    assert(spec_enc_character(c) + rest =~= e1);
    lemma_rt_anim_state(c.animation_state, e2);
    assert(spec_dec_anim_state(e1) == Some((c.animation_state, e2)));
    lemma_rt_char_state(c.character_state, e3);
    assert(spec_dec_char_state(e2) == Some((c.character_state, e3)));
    lemma_rt_anim(c.current_animation, e4);
    assert(spec_dec_anim(e3) == Some((c.current_animation, e4)));
    lemma_rt_vec2(c.character_position, e5);
    assert(spec_dec_vec2(e4) == Some((c.character_position, e5)));
    lemma_rt_vec2(c.character_velocity, e6);
    assert(spec_dec_vec2(e5) == Some((c.character_velocity, e6)));
    lemma_rt_side(c.screen_side, e7);
    assert(spec_dec_side(e6) == Some((c.screen_side, e7)));
    lemma_rt_u32(c.health, e8);
    assert(spec_dec_u32(e7) == Some((c.health, e8)));
    lemma_rt_bool(c.is_crouched, e9);
    assert(spec_dec_bool(e8) == Some((c.is_crouched, e9)));
    lemma_rt_inputs(c.past_inputs, e10);
    assert(spec_dec_inputs(e9) == Some((c.past_inputs, e10)));
    lemma_rt_bool(c.done, rest);
    assert(spec_dec_bool(e10) == Some((c.done, rest)));
    assert(spec_dec_character(e1).unwrap().0 =~= c);
    assert(spec_dec_character(spec_enc_character(c) + rest) == Some((c, rest)));
}

pub open spec fn spec_enc_projectile(p: ProjectileV) -> Seq<u8> {
    spec_enc_vec2(p.position) + spec_enc_vec2(p.velocity) + spec_enc_side(p.screen_side)
        + spec_enc_anim(p.timer) + seq![p.team as u8]
}

#[verifier::opaque]
pub open spec fn spec_dec_projectile(s: Seq<u8>) -> Option<(ProjectileV, Seq<u8>)> {
    match spec_dec_vec2(s) {
        Some((position, s1)) => match spec_dec_vec2(s1) {
            Some((velocity, s2)) => match spec_dec_side(s2) {
                Some((screen_side, s3)) => match spec_dec_anim(s3) {
                    Some((timer, s4)) => match spec_dec_u8(s4) {
                        Some((team, s5)) => Some(
                            (
                                ProjectileV {
                                    position,
                                    velocity,
                                    screen_side,
                                    timer,
                                    team: team as usize,
                                },
                                s5,
                            ),
                        ),
                        None => None,
                    },
                    None => None,
                },
                None => None,
            },
            None => None,
        },
        None => None,
    }
}

#[verifier::rlimit(100)]
pub proof fn lemma_rt_projectile(p: ProjectileV, rest: Seq<u8>)
    requires
        p.timer.frame_times.len() < 0x1_0000_0000,
        p.team < 256,
    ensures
        spec_dec_projectile(spec_enc_projectile(p) + rest) == Some((p, rest)),
{
    reveal(spec_dec_projectile);
    let e5 = seq![p.team as u8] + rest;
    let e4 = spec_enc_anim(p.timer) + e5;
    let e3 = spec_enc_side(p.screen_side) + e4;
    let e2 = spec_enc_vec2(p.velocity) + e3;
    let e1 = spec_enc_vec2(p.position) + e2;
    assert(spec_enc_projectile(p) + rest =~= e1);
    lemma_rt_vec2(p.position, e2);
    lemma_rt_vec2(p.velocity, e3);
    lemma_rt_side(p.screen_side, e4);
    lemma_rt_anim(p.timer, e5);
    assert(e5.skip(1) =~= rest);
    assert(spec_dec_projectile(spec_enc_projectile(p) + rest).unwrap().0 =~= p);
}

pub open spec fn spec_enc_proj_items(s: Seq<ProjectileV>) -> Seq<u8>
    decreases s.len(),
{
    if s.len() == 0 {
        Seq::empty()
    } else {
        spec_enc_projectile(s[0]) + spec_enc_proj_items(s.drop_first())
    }
}

pub open spec fn spec_enc_projectiles(s: Seq<ProjectileV>) -> Seq<u8> {
    spec_enc_u64(s.len() as u64) + spec_enc_proj_items(s)
}

#[verifier::opaque]
pub open spec fn spec_dec_proj_items(s: Seq<u8>, n: nat) -> Option<(Seq<ProjectileV>, Seq<u8>)>
    decreases n,
{
    if n == 0 {
        Some((Seq::empty(), s))
    } else {
        match spec_dec_projectile(s) {
            Some((p, s1)) => match spec_dec_proj_items(s1, (n - 1) as nat) {
                Some((items, s2)) => Some((seq![p] + items, s2)),
                None => None,
            },
            None => None,
        }
    }
}

#[verifier::opaque]
pub open spec fn spec_dec_projectiles(s: Seq<u8>) -> Option<(Seq<ProjectileV>, Seq<u8>)> {
    match spec_dec_u64(s) {
        Some((n, s1)) => spec_dec_proj_items(s1, n as nat),
        None => None,
    }
}

/// Whether a projectile sequence stays within the encoder's field widths.
pub open spec fn projectiles_encodable(s: Seq<ProjectileV>) -> bool {
    &&& s.len() <= 0xffff_ffff_ffff_ffff
    &&& forall|i: int|
        0 <= i < s.len() ==> (#[trigger] s[i]).team < 256 && s[i].timer.frame_times.len()
            < 0x1_0000_0000
}

#[verifier::rlimit(100)]
pub proof fn lemma_rt_proj_items(s: Seq<ProjectileV>, rest: Seq<u8>)
    requires
        projectiles_encodable(s),
    ensures
        spec_dec_proj_items(spec_enc_proj_items(s) + rest, s.len()) == Some((s, rest)),
    decreases s.len(),
{
    reveal(spec_dec_proj_items);
    if s.len() == 0 {
        assert(spec_enc_proj_items(s) + rest =~= rest);
    } else {
        let tail = spec_enc_proj_items(s.drop_first()) + rest;
        assert(spec_enc_proj_items(s) + rest =~= spec_enc_projectile(s[0]) + tail);
        lemma_rt_projectile(s[0], tail);
        assert(projectiles_encodable(s.drop_first())) by {
            assert(forall|i: int|
                0 <= i < s.drop_first().len() ==> s.drop_first()[i] == s[i + 1]);
        }
        lemma_rt_proj_items(s.drop_first(), rest);
        assert(seq![s[0]] + s.drop_first() =~= s);
    }
}

#[verifier::rlimit(100)]
pub proof fn lemma_rt_projectiles(s: Seq<ProjectileV>, rest: Seq<u8>)
    requires
        projectiles_encodable(s),
    ensures
        spec_dec_projectiles(spec_enc_projectiles(s) + rest) == Some((s, rest)),
{
    reveal(spec_dec_projectiles);
    let tail = spec_enc_proj_items(s) + rest;
    assert(spec_enc_projectiles(s) + rest =~= spec_enc_u64(s.len() as u64) + tail);
    lemma_rt_u64(s.len() as u64, tail);
    assert(s.len() as u64 as nat == s.len());
    lemma_rt_proj_items(s, rest);
}

// ---------- the whole round ----------

/// Whether a round stays within the encoder's field widths. Every
/// well-formed round does, by far.
pub open spec fn round_encodable(r: RoundV) -> bool {
    &&& r.characters.len() == 2
    &&& r.characters[0].current_animation.frame_times.len() < 0x1_0000_0000
    &&& r.characters[0].past_inputs.len() < 0x1_0000_0000
    &&& r.characters[1].current_animation.frame_times.len() < 0x1_0000_0000
    &&& r.characters[1].past_inputs.len() < 0x1_0000_0000
    &&& projectiles_encodable(r.projectiles)
}

pub open spec fn spec_enc_round(r: RoundV) -> Seq<u8> {
    spec_enc_i64(r.frame) + spec_enc_bool(r.round_done) + spec_enc_u64(r.hit_stun_counter)
        + spec_enc_timer(r.round_timer) + spec_enc_timer(r.reset_round_timer) + spec_enc_character(
        r.characters[0],
    ) + spec_enc_character(r.characters[1]) + spec_enc_projectiles(r.projectiles)
}

#[verifier::opaque]
pub open spec fn spec_dec_round(s: Seq<u8>) -> Option<(RoundV, Seq<u8>)> {
    match spec_dec_i64(s) {
        Some((frame, s1)) => match spec_dec_bool(s1) {
            Some((round_done, s2)) => match spec_dec_u64(s2) {
                Some((hit_stun_counter, s3)) => match spec_dec_timer(s3) {
                    Some((round_timer, s4)) => match spec_dec_timer(s4) {
                        Some((reset_round_timer, s5)) => match spec_dec_character(s5) {
                            Some((character0, s6)) => match spec_dec_character(s6) {
                                Some((character1, s7)) => match spec_dec_projectiles(s7) {
                                    Some((projectiles, s8)) => Some(
                                        (
                                            RoundV {
                                                characters: seq![character0, character1],
                                                frame,
                                                round_timer,
                                                round_done,
                                                hit_stun_counter,
                                                projectiles,
                                                reset_round_timer,
                                            },
                                            s8,
                                        ),
                                    ),
                                    None => None,
                                },
                                None => None,
                            },
                            None => None,
                        },
                        None => None,
                    },
                    None => None,
                },
                None => None,
            },
            None => None,
        },
        None => None,
    }
}

/// Decoding an encoded round restores it exactly, with nothing left over:
/// the byte format loses no state, so a loaded snapshot's future is the
/// saved round's future.
#[verifier::rlimit(100)]
#[verifier::spinoff_prover]
pub proof fn lemma_rt_round(r: RoundV)
    requires
        round_encodable(r),
    ensures
        spec_dec_round(spec_enc_round(r)) == Some((r, Seq::<u8>::empty())),
{
    reveal(spec_dec_round);
    let rest = Seq::<u8>::empty();
    let e8 = spec_enc_projectiles(r.projectiles) + rest;
    let e7 = spec_enc_character(r.characters[1]) + e8;
    let e6 = spec_enc_character(r.characters[0]) + e7;
    let e5 = spec_enc_timer(r.reset_round_timer) + e6;
    let e4 = spec_enc_timer(r.round_timer) + e5;
    let e3 = spec_enc_u64(r.hit_stun_counter) + e4;
    let e2 = spec_enc_bool(r.round_done) + e3;
    let e1 = spec_enc_i64(r.frame) + e2;
    assert(spec_enc_round(r) =~= e1);
    lemma_rt_i64(r.frame, e2);
    assert(spec_dec_i64(e1) == Some((r.frame, e2)));
    lemma_rt_bool(r.round_done, e3);
    assert(spec_dec_bool(e2) == Some((r.round_done, e3)));
    lemma_rt_u64(r.hit_stun_counter, e4);
    assert(spec_dec_u64(e3) == Some((r.hit_stun_counter, e4)));
    lemma_rt_timer(r.round_timer, e5);
    assert(spec_dec_timer(e4) == Some((r.round_timer, e5)));
    lemma_rt_timer(r.reset_round_timer, e6);
    assert(spec_dec_timer(e5) == Some((r.reset_round_timer, e6)));
    lemma_rt_character(r.characters[0], e7);
    assert(spec_dec_character(e6) == Some((r.characters[0], e7)));
    lemma_rt_character(r.characters[1], e8);
    assert(spec_dec_character(e7) == Some((r.characters[1], e8)));
    lemma_rt_projectiles(r.projectiles, rest);
    assert(spec_dec_projectiles(e8) == Some((r.projectiles, rest)));
    assert(spec_dec_round(e1).unwrap().0.characters =~= r.characters);
    assert(spec_dec_round(e1).unwrap().0 =~= r);
    assert(spec_dec_round(spec_enc_round(r)) == Some((r, rest)));
}

} // verus!

verus! {

// ---------- executable encoding ----------

fn write_u16(data: &mut Vec<u8>, x: u16)
    ensures
        final(data)@ == old(data)@ + spec_enc_u16(x),
{
    data.push((x & 0xff) as u8);
    data.push(((x >> 8) & 0xff) as u8);
    proof {
        assert(data@ =~= old(data)@ + spec_enc_u16(x));
    }
}

fn write_u32(data: &mut Vec<u8>, x: u32)
    ensures
        final(data)@ == old(data)@ + spec_enc_u32(x),
{
    data.push((x & 0xff) as u8);
    data.push(((x >> 8) & 0xff) as u8);
    data.push(((x >> 16) & 0xff) as u8);
    data.push(((x >> 24) & 0xff) as u8);
    proof {
        assert(data@ =~= old(data)@ + spec_enc_u32(x));
    }
}

fn write_u64(data: &mut Vec<u8>, x: u64)
    ensures
        final(data)@ == old(data)@ + spec_enc_u64(x),
{
    data.push((x & 0xff) as u8);
    data.push(((x >> 8) & 0xff) as u8);
    data.push(((x >> 16) & 0xff) as u8);
    data.push(((x >> 24) & 0xff) as u8);
    data.push(((x >> 32) & 0xff) as u8);
    data.push(((x >> 40) & 0xff) as u8);
    data.push(((x >> 48) & 0xff) as u8);
    data.push(((x >> 56) & 0xff) as u8);
    proof {
        assert(data@ =~= old(data)@ + spec_enc_u64(x));
    }
}

fn write_i64(data: &mut Vec<u8>, x: i64)
    ensures
        final(data)@ == old(data)@ + spec_enc_i64(x),
{
    write_u64(data, x as u64);
}

fn write_bool(data: &mut Vec<u8>, b: bool)
    ensures
        final(data)@ == old(data)@ + spec_enc_bool(b),
{
    data.push(if b { 1 } else { 0 });
    proof {
        assert(data@ =~= old(data)@ + spec_enc_bool(b));
    }
}

fn write_side(data: &mut Vec<u8>, v: ScreenSide)
    ensures
        final(data)@ == old(data)@ + spec_enc_side(v),
{
    data.push(match v {
        ScreenSide::Left => 0,
        ScreenSide::Right => 1,
    });
    proof {
        assert(data@ =~= old(data)@ + spec_enc_side(v));
    }
}

fn write_anim_state(data: &mut Vec<u8>, v: AnimationState)
    ensures
        final(data)@ == old(data)@ + spec_enc_anim_state(v),
{
    let tag = crate::character::anim_index(v) as u8;
    data.push(tag);
    proof {
        assert(data@ =~= old(data)@ + spec_enc_anim_state(v));
    }
}

fn write_char_state(data: &mut Vec<u8>, v: CharacterState)
    ensures
        final(data)@ == old(data)@ + spec_enc_char_state(v),
{
    let tag: u8 = match v {
        CharacterState::Idle => 0,
        CharacterState::ForwardRun => 1,
        CharacterState::BackwardRun => 2,
        CharacterState::Crouching => 3,
        CharacterState::LightAttack => 4,
        CharacterState::MediumAttack => 5,
        CharacterState::HeavyAttack => 6,
        CharacterState::LightKick => 7,
        CharacterState::MediumKick => 8,
        CharacterState::HeavyKick => 9,
        CharacterState::LightHitRecovery => 10,
        CharacterState::Blocking => 11,
        CharacterState::ForwardDash => 12,
        CharacterState::BackwardDash => 13,
        CharacterState::Special1 => 14,
        CharacterState::Jump => 15,
        CharacterState::Parry => 16,
        CharacterState::Parried => 17,
        CharacterState::Won => 18,
        CharacterState::Lost => 19,
    };
    data.push(tag);
    proof {
        assert(data@ =~= old(data)@ + spec_enc_char_state(v));
    }
}

fn write_input(data: &mut Vec<u8>, i: &ScreenSideAdjustedInput)
    ensures
        final(data)@ == old(data)@ + spec_enc_input(*i),
{
    let w: u16 = (if i.forward_down { 1u16 } else { 0u16 }) | (if i.backward_down {
        2u16
    } else {
        0u16
    }) | (if i.down_key_down { 4u16 } else { 0u16 }) | (if i.light_attack { 8u16 } else { 0u16 })
        | (if i.medium_attack { 16u16 } else { 0u16 }) | (if i.heavy_attack {
        32u16
    } else {
        0u16
    }) | (if i.light_kick { 64u16 } else { 0u16 }) | (if i.medium_kick { 128u16 } else { 0u16 })
        | (if i.heavy_kick { 256u16 } else { 0u16 }) | (if i.has_input { 512u16 } else { 0u16 })
        | (if i.jump { 1024u16 } else { 0u16 });
    write_u16(data, w);
}

fn write_timer(data: &mut Vec<u8>, t: &SpriteTimer)
    ensures
        final(data)@ == old(data)@ + spec_enc_timer(*t),
{
    write_u32(data, t.total_frames);
    write_u32(data, t.current_frame);
    write_bool(data, t.finished);
    proof {
        assert(data@ =~= old(data)@ + spec_enc_timer(*t));
    }
}

fn write_bytes(data: &mut Vec<u8>, s: &Vec<u8>)
    requires
        s@.len() < 0x1_0000_0000,
    ensures
        final(data)@ == old(data)@ + spec_enc_bytes(s@),
{
    write_u32(data, s.len() as u32);
    let ghost mid = data@;
    let mut i: usize = 0;
    while i < s.len()
        invariant
            i <= s@.len(),
            data@ == mid + s@.take(i as int),
        decreases s@.len() - i,
    {
        data.push(s[i]);
        proof {
            assert(data@ =~= mid + s@.take(i + 1));
        }
        i = i + 1;
    }
    proof {
        assert(s@.take(s@.len() as int) =~= s@);
        assert(data@ =~= old(data)@ + spec_enc_bytes(s@));
    }
}

fn write_anim(data: &mut Vec<u8>, a: &AnimationConfig)
    requires
        a@.frame_times.len() < 0x1_0000_0000,
    ensures
        final(data)@ == old(data)@ + spec_enc_anim(a@),
{
    write_timer(data, &a.sprite_timer);
    write_u32(data, a.current_frame);
    write_bytes(data, &a.frame_times);
    proof {
        assert(data@ =~= old(data)@ + spec_enc_anim(a@));
    }
}

fn write_inputs(data: &mut Vec<u8>, s: &Vec<ScreenSideAdjustedInput>)
    requires
        s@.len() < 0x1_0000_0000,
    ensures
        final(data)@ == old(data)@ + spec_enc_inputs(s@),
{
    write_u32(data, s.len() as u32);
    let ghost mid = data@;
    proof {
        assert(s@.skip(0) =~= s@);
    }
    let mut i: usize = 0;
    while i < s.len()
        invariant
            i <= s@.len(),
            data@ + spec_enc_inputs_items(s@.skip(i as int)) == mid + spec_enc_inputs_items(s@),
        decreases s@.len() - i,
    {
        let ghost before = data@;
        let element = s[i];
        write_input(data, &element);
        proof {
            let tail = s@.skip(i as int);
            assert(tail[0] == s@[i as int]);
            assert(tail.drop_first() =~= s@.skip(i + 1));
            assert(data@ + spec_enc_inputs_items(s@.skip(i + 1)) =~= before
                + spec_enc_inputs_items(s@.skip(i as int)));
        }
        i = i + 1;
    }
    proof {
        assert(s@.skip(s@.len() as int) =~= Seq::<ScreenSideAdjustedInput>::empty());
        assert(data@ =~= data@ + spec_enc_inputs_items(s@.skip(s@.len() as int)));
        assert(data@ =~= old(data)@ + spec_enc_inputs(s@));
    }
}

fn write_vec2(data: &mut Vec<u8>, v: Vec2)
    ensures
        final(data)@ == old(data)@ + spec_enc_vec2(v),
{
    write_i64(data, v.x);
    write_i64(data, v.y);
    proof {
        assert(data@ =~= old(data)@ + spec_enc_vec2(v));
    }
}

#[verifier::rlimit(100)]
fn write_character(data: &mut Vec<u8>, c: &Character)
    requires
        c@.current_animation.frame_times.len() < 0x1_0000_0000,
        c@.past_inputs.len() < 0x1_0000_0000,
    ensures
        final(data)@ == old(data)@ + spec_enc_character(c@),
{
    write_anim_state(data, c.animation_state);
    write_char_state(data, c.character_state);
    write_anim(data, &c.current_animation);
    write_vec2(data, c.character_position);
    write_vec2(data, c.character_velocity);
    write_side(data, c.screen_side);
    write_u32(data, c.health);
    write_bool(data, c.is_crouched);
    write_inputs(data, &c.past_inputs);
    write_bool(data, c.done);
    proof {
        assert(data@ =~= old(data)@ + spec_enc_character(c@));
    }
}

fn write_projectile(data: &mut Vec<u8>, p: &Projectile)
    requires
        p@.timer.frame_times.len() < 0x1_0000_0000,
        p@.team < 256,
    ensures
        final(data)@ == old(data)@ + spec_enc_projectile(p@),
{
    write_vec2(data, p.position);
    write_vec2(data, p.velocity);
    write_side(data, p.screen_side);
    write_anim(data, &p.timer);
    data.push(p.team as u8);
    proof {
        assert(data@ =~= old(data)@ + spec_enc_projectile(p@));
    }
}

fn write_projectiles(data: &mut Vec<u8>, s: &Vec<Projectile>)
    requires
        projectiles_encodable(s@.map_values(|p: Projectile| p@)),
    ensures
        final(data)@ == old(data)@ + spec_enc_projectiles(s@.map_values(|p: Projectile| p@)),
{
    let ghost ps = s@.map_values(|p: Projectile| p@);
    write_u64(data, s.len() as u64);
    let ghost mid = data@;
    proof {
        assert(ps.skip(0) =~= ps);
    }
    let mut i: usize = 0;
    while i < s.len()
        invariant
            i <= ps.len(),
            data@ + spec_enc_proj_items(ps.skip(i as int)) == mid + spec_enc_proj_items(ps),
        decreases ps.len() - i,
    {
        let ghost before = data@;
        proof {
            assert(ps[i as int] == s@[i as int]@);
            assert(projectiles_encodable(ps));
        }
        write_projectile(data, &s[i]);
        proof {
            let tail = ps.skip(i as int);
            assert(tail[0] == ps[i as int]);
            assert(tail.drop_first() =~= ps.skip(i + 1));
            assert(data@ + spec_enc_proj_items(ps.skip(i + 1)) =~= before
                + spec_enc_proj_items(ps.skip(i as int)));
        }
        i = i + 1;
    }
    proof {
        assert(ps.skip(ps.len() as int) =~= Seq::<ProjectileV>::empty());
        assert(data@ =~= data@ + spec_enc_proj_items(ps.skip(ps.len() as int)));
        assert(data@ =~= old(data)@ + spec_enc_projectiles(ps));
    }
}

/// Serialize a round into the frozen snapshot byte format.
pub fn encode_round(r: &Round) -> (out: Vec<u8>)
    requires
        round_encodable(r@),
    ensures
        out@ == spec_enc_round(r@),
{
    let mut data: Vec<u8> = Vec::new();
    proof {
        assert(r@.characters[0] == r.characters@[0]@);
        assert(r@.characters[1] == r.characters@[1]@);
        assert(r@.projectiles == r.projectiles@.map_values(|p: Projectile| p@));
    }
    write_i64(&mut data, r.frame);
    write_bool(&mut data, r.round_done);
    write_u64(&mut data, r.hit_stun_counter);
    write_timer(&mut data, &r.round_timer);
    write_timer(&mut data, &r.reset_round_timer);
    write_character(&mut data, &r.characters[0]);
    write_character(&mut data, &r.characters[1]);
    write_projectiles(&mut data, &r.projectiles);
    proof {
        assert(data@ =~= spec_enc_round(r@));
    }
    data
}

} // verus!

verus! {

// ---------- executable decoding ----------

fn read_u8(data: &Vec<u8>, pos: usize) -> (r: Option<(u8, usize)>)
    requires
        pos <= data@.len(),
    ensures
        match r {
            Some(v) => pos < v.1 <= data@.len() && spec_dec_u8(data@.skip(pos as int)) == Some(
                (v.0, data@.skip(v.1 as int)),
            ),
            None => spec_dec_u8(data@.skip(pos as int)) is None,
        },
{
    if pos < data.len() {
        proof {
            assert(data@.skip(pos as int)[0] == data@[pos as int]);
            assert(data@.skip(pos as int).skip(1) =~= data@.skip(pos + 1));
        }
        Some((data[pos], pos + 1))
    } else {
        None
    }
}

fn read_u16(data: &Vec<u8>, pos: usize) -> (r: Option<(u16, usize)>)
    requires
        pos <= data@.len(),
    ensures
        match r {
            Some(v) => pos < v.1 <= data@.len() && spec_dec_u16(data@.skip(pos as int)) == Some(
                (v.0, data@.skip(v.1 as int)),
            ),
            None => spec_dec_u16(data@.skip(pos as int)) is None,
        },
{
    if data.len() - pos >= 2 {
        let value = (data[pos] as u16) | ((data[pos + 1] as u16) << 8u16);
        proof {
            assert(data@.skip(pos as int)[0] == data@[pos as int]);
            assert(data@.skip(pos as int)[1] == data@[pos + 1]);
            assert(data@.skip(pos as int).skip(2) =~= data@.skip(pos + 2));
        }
        Some((value, pos + 2))
    } else {
        None
    }
}

fn read_u32(data: &Vec<u8>, pos: usize) -> (r: Option<(u32, usize)>)
    requires
        pos <= data@.len(),
    ensures
        match r {
            Some(v) => pos < v.1 <= data@.len() && spec_dec_u32(data@.skip(pos as int)) == Some(
                (v.0, data@.skip(v.1 as int)),
            ),
            None => spec_dec_u32(data@.skip(pos as int)) is None,
        },
{
    if data.len() - pos >= 4 {
        let value = (data[pos] as u32) | ((data[pos + 1] as u32) << 8u32) | ((data[pos + 2]
            as u32) << 16u32) | ((data[pos + 3] as u32) << 24u32);
        proof {
            assert(data@.skip(pos as int)[0] == data@[pos as int]);
            assert(data@.skip(pos as int)[1] == data@[pos + 1]);
            assert(data@.skip(pos as int)[2] == data@[pos + 2]);
            assert(data@.skip(pos as int)[3] == data@[pos + 3]);
            assert(data@.skip(pos as int).skip(4) =~= data@.skip(pos + 4));
        }
        Some((value, pos + 4))
    } else {
        None
    }
}

fn read_u64(data: &Vec<u8>, pos: usize) -> (r: Option<(u64, usize)>)
    requires
        pos <= data@.len(),
    ensures
        match r {
            Some(v) => pos < v.1 <= data@.len() && spec_dec_u64(data@.skip(pos as int)) == Some(
                (v.0, data@.skip(v.1 as int)),
            ),
            None => spec_dec_u64(data@.skip(pos as int)) is None,
        },
{
    if data.len() - pos >= 8 {
        let value = (data[pos] as u64) | ((data[pos + 1] as u64) << 8u64) | ((data[pos + 2]
            as u64) << 16u64) | ((data[pos + 3] as u64) << 24u64) | ((data[pos + 4] as u64)
            << 32u64) | ((data[pos + 5] as u64) << 40u64) | ((data[pos + 6] as u64) << 48u64) | ((
        data[pos + 7] as u64) << 56u64);
        proof {
            assert(data@.skip(pos as int)[0] == data@[pos as int]);
            assert(data@.skip(pos as int)[1] == data@[pos + 1]);
            assert(data@.skip(pos as int)[2] == data@[pos + 2]);
            assert(data@.skip(pos as int)[3] == data@[pos + 3]);
            assert(data@.skip(pos as int)[4] == data@[pos + 4]);
            assert(data@.skip(pos as int)[5] == data@[pos + 5]);
            assert(data@.skip(pos as int)[6] == data@[pos + 6]);
            assert(data@.skip(pos as int)[7] == data@[pos + 7]);
            assert(data@.skip(pos as int).skip(8) =~= data@.skip(pos + 8));
        }
        Some((value, pos + 8))
    } else {
        None
    }
}

fn read_i64(data: &Vec<u8>, pos: usize) -> (r: Option<(i64, usize)>)
    requires
        pos <= data@.len(),
    ensures
        match r {
            Some(v) => pos < v.1 <= data@.len() && spec_dec_i64(data@.skip(pos as int)) == Some(
                (v.0, data@.skip(v.1 as int)),
            ),
            None => spec_dec_i64(data@.skip(pos as int)) is None,
        },
{
    match read_u64(data, pos) {
        Some((value, next)) => Some((value as i64, next)),
        None => None,
    }
}

fn read_bool(data: &Vec<u8>, pos: usize) -> (r: Option<(bool, usize)>)
    requires
        pos <= data@.len(),
    ensures
        match r {
            Some(v) => pos < v.1 <= data@.len() && spec_dec_bool(data@.skip(pos as int)) == Some(
                (v.0, data@.skip(v.1 as int)),
            ),
            None => spec_dec_bool(data@.skip(pos as int)) is None,
        },
{
    match read_u8(data, pos) {
        Some((value, next)) => if value == 0 {
            Some((false, next))
        } else if value == 1 {
            Some((true, next))
        } else {
            None
        },
        None => None,
    }
}

fn read_side(data: &Vec<u8>, pos: usize) -> (r: Option<(ScreenSide, usize)>)
    requires
        pos <= data@.len(),
    ensures
        match r {
            Some(v) => pos < v.1 <= data@.len() && spec_dec_side(data@.skip(pos as int)) == Some(
                (v.0, data@.skip(v.1 as int)),
            ),
            None => spec_dec_side(data@.skip(pos as int)) is None,
        },
{
    match read_u8(data, pos) {
        Some((value, next)) => if value == 0 {
            Some((ScreenSide::Left, next))
        } else if value == 1 {
            Some((ScreenSide::Right, next))
        } else {
            None
        },
        None => None,
    }
}

fn anim_state_of(tag: u8) -> (r: Option<AnimationState>)
    ensures
        r == spec_anim_state_of(tag),
{
    if tag == 0 {
        Some(AnimationState::Idle)
    } else if tag == 1 {
        Some(AnimationState::ForwardRun)
    } else if tag == 2 {
        Some(AnimationState::BackwardRun)
    } else if tag == 3 {
        Some(AnimationState::LightAttack)
    } else if tag == 4 {
        Some(AnimationState::MediumAttack)
    } else if tag == 5 {
        Some(AnimationState::HeavyAttack)
    } else if tag == 6 {
        Some(AnimationState::LightHitRecovery)
    } else if tag == 7 {
        Some(AnimationState::Crouched)
    } else if tag == 8 {
        Some(AnimationState::Crouching)
    } else if tag == 9 {
        Some(AnimationState::Blocking)
    } else if tag == 10 {
        Some(AnimationState::LightCrouchAttack)
    } else if tag == 11 {
        Some(AnimationState::HeavyCrouchingAttack)
    } else if tag == 12 {
        Some(AnimationState::LightCrouchKick)
    } else if tag == 13 {
        Some(AnimationState::MediumCrouchKick)
    } else if tag == 14 {
        Some(AnimationState::HeavyCrouchKick)
    } else if tag == 15 {
        Some(AnimationState::LightKick)
    } else if tag == 16 {
        Some(AnimationState::MediumKick)
    } else if tag == 17 {
        Some(AnimationState::HeavyKick)
    } else if tag == 18 {
        Some(AnimationState::ForwardDash)
    } else if tag == 19 {
        Some(AnimationState::BackwardDash)
    } else if tag == 20 {
        Some(AnimationState::Special1)
    } else if tag == 21 {
        Some(AnimationState::Won)
    } else if tag == 22 {
        Some(AnimationState::Lost)
    } else if tag == 23 {
        Some(AnimationState::Jump)
    } else if tag == 24 {
        Some(AnimationState::Parry)
    } else {
        None
    }
}

fn char_state_of(tag: u8) -> (r: Option<CharacterState>)
    ensures
        r == spec_char_state_of(tag),
{
    if tag == 0 {
        Some(CharacterState::Idle)
    } else if tag == 1 {
        Some(CharacterState::ForwardRun)
    } else if tag == 2 {
        Some(CharacterState::BackwardRun)
    } else if tag == 3 {
        Some(CharacterState::Crouching)
    } else if tag == 4 {
        Some(CharacterState::LightAttack)
    } else if tag == 5 {
        Some(CharacterState::MediumAttack)
    } else if tag == 6 {
        Some(CharacterState::HeavyAttack)
    } else if tag == 7 {
        Some(CharacterState::LightKick)
    } else if tag == 8 {
        Some(CharacterState::MediumKick)
    } else if tag == 9 {
        Some(CharacterState::HeavyKick)
    } else if tag == 10 {
        Some(CharacterState::LightHitRecovery)
    } else if tag == 11 {
        Some(CharacterState::Blocking)
    } else if tag == 12 {
        Some(CharacterState::ForwardDash)
    } else if tag == 13 {
        Some(CharacterState::BackwardDash)
    } else if tag == 14 {
        Some(CharacterState::Special1)
    } else if tag == 15 {
        Some(CharacterState::Jump)
    } else if tag == 16 {
        Some(CharacterState::Parry)
    } else if tag == 17 {
        Some(CharacterState::Parried)
    } else if tag == 18 {
        Some(CharacterState::Won)
    } else if tag == 19 {
        Some(CharacterState::Lost)
    } else {
        None
    }
}

fn read_anim_state(data: &Vec<u8>, pos: usize) -> (r: Option<(AnimationState, usize)>)
    requires
        pos <= data@.len(),
    ensures
        match r {
            Some(v) => pos < v.1 <= data@.len() && spec_dec_anim_state(data@.skip(pos as int))
                == Some((v.0, data@.skip(v.1 as int))),
            None => spec_dec_anim_state(data@.skip(pos as int)) is None,
        },
{
    match read_u8(data, pos) {
        Some((tag, next)) => match anim_state_of(tag) {
            Some(state) => Some((state, next)),
            None => None,
        },
        None => None,
    }
}

fn read_char_state(data: &Vec<u8>, pos: usize) -> (r: Option<(CharacterState, usize)>)
    requires
        pos <= data@.len(),
    ensures
        match r {
            Some(v) => pos < v.1 <= data@.len() && spec_dec_char_state(data@.skip(pos as int))
                == Some((v.0, data@.skip(v.1 as int))),
            None => spec_dec_char_state(data@.skip(pos as int)) is None,
        },
{
    match read_u8(data, pos) {
        Some((tag, next)) => match char_state_of(tag) {
            Some(state) => Some((state, next)),
            None => None,
        },
        None => None,
    }
}

fn read_input(data: &Vec<u8>, pos: usize) -> (r: Option<(ScreenSideAdjustedInput, usize)>)
    requires
        pos <= data@.len(),
    ensures
        match r {
            Some(v) => pos < v.1 <= data@.len() && spec_dec_input(data@.skip(pos as int)) == Some(
                (v.0, data@.skip(v.1 as int)),
            ),
            None => spec_dec_input(data@.skip(pos as int)) is None,
        },
{
    match read_u16(data, pos) {
        Some((w, next)) => Some(
            (
                ScreenSideAdjustedInput {
                    forward_down: w & 1 != 0,
                    backward_down: w & 2 != 0,
                    down_key_down: w & 4 != 0,
                    light_attack: w & 8 != 0,
                    medium_attack: w & 16 != 0,
                    heavy_attack: w & 32 != 0,
                    light_kick: w & 64 != 0,
                    medium_kick: w & 128 != 0,
                    heavy_kick: w & 256 != 0,
                    has_input: w & 512 != 0,
                    jump: w & 1024 != 0,
                },
                next,
            ),
        ),
        None => None,
    }
}

fn read_timer(data: &Vec<u8>, pos: usize) -> (r: Option<(SpriteTimer, usize)>)
    requires
        pos <= data@.len(),
    ensures
        match r {
            Some(v) => pos < v.1 <= data@.len() && spec_dec_timer(data@.skip(pos as int)) == Some(
                (v.0, data@.skip(v.1 as int)),
            ),
            None => spec_dec_timer(data@.skip(pos as int)) is None,
        },
{
    proof {
        reveal(spec_dec_timer);
    }
    match read_u32(data, pos) {
        Some((total_frames, p1)) => match read_u32(data, p1) {
            Some((current_frame, p2)) => match read_bool(data, p2) {
                Some((finished, p3)) => Some(
                    (SpriteTimer { total_frames, current_frame, finished }, p3),
                ),
                None => None,
            },
            None => None,
        },
        None => None,
    }
}

fn read_bytes(data: &Vec<u8>, pos: usize) -> (r: Option<(Vec<u8>, usize)>)
    requires
        pos <= data@.len(),
    ensures
        match r {
            Some((v, np)) => pos < np <= data@.len() && spec_dec_bytes(data@.skip(pos as int))
                == Some((v@, data@.skip(np as int))),
            None => spec_dec_bytes(data@.skip(pos as int)) is None,
        },
{
    proof {
        reveal(spec_dec_bytes);
    }
    match read_u32(data, pos) {
        Some((count, p1)) => {
            let n = count as usize;
            if n <= data.len() - p1 {
                let mut out: Vec<u8> = Vec::new();
                let mut i: usize = 0;
                while i < n
                    invariant
                        p1 + n <= data@.len(),
                        i <= n,
                        out@ == data@.subrange(p1 as int, p1 + i),
                    decreases n - i,
                {
                    out.push(data[p1 + i]);
                    proof {
                        assert(out@ =~= data@.subrange(p1 as int, p1 + i + 1));
                    }
                    i = i + 1;
                }
                proof {
                    assert(data@.skip(p1 as int).take(count as int) =~= data@.subrange(
                        p1 as int,
                        p1 + n,
                    ));
                    assert(data@.skip(p1 as int).skip(count as int) =~= data@.skip(p1 + n));
                }
                Some((out, p1 + n))
            } else {
                None
            }
        },
        None => None,
    }
}

fn read_anim(data: &Vec<u8>, pos: usize) -> (r: Option<(AnimationConfig, usize)>)
    requires
        pos <= data@.len(),
    ensures
        match r {
            Some((v, np)) => pos < np <= data@.len() && spec_dec_anim(data@.skip(pos as int))
                == Some((v@, data@.skip(np as int))),
            None => spec_dec_anim(data@.skip(pos as int)) is None,
        },
{
    proof {
        reveal(spec_dec_anim);
    }
    match read_timer(data, pos) {
        Some((sprite_timer, p1)) => match read_u32(data, p1) {
            Some((current_frame, p2)) => match read_bytes(data, p2) {
                Some((frame_times, p3)) => {
                    let out = AnimationConfig { sprite_timer, current_frame, frame_times };
                    proof {
                        assert(spec_dec_anim(data@.skip(pos as int)).unwrap().0 =~= out@);
                    }
                    Some((out, p3))
                },
                None => None,
            },
            None => None,
        },
        None => None,
    }
}

fn read_inputs_items(data: &Vec<u8>, pos: usize, n: u32) -> (r: Option<(
    Vec<ScreenSideAdjustedInput>,
    usize,
)>)
    requires
        pos <= data@.len(),
    ensures
        match r {
            Some((v, np)) => pos <= np <= data@.len() && spec_dec_inputs_items(
                data@.skip(pos as int),
                n as nat,
            ) == Some((v@, data@.skip(np as int))),
            None => spec_dec_inputs_items(data@.skip(pos as int), n as nat) is None,
        },
    decreases n,
{
    proof {
        reveal(spec_dec_inputs_items);
    }
    if n == 0 {
        let out: Vec<ScreenSideAdjustedInput> = Vec::new();
        proof {
            assert(out@ =~= Seq::<ScreenSideAdjustedInput>::empty());
        }
        Some((out, pos))
    } else {
        match read_input(data, pos) {
            Some((first, p1)) => match read_inputs_items(data, p1, n - 1) {
                Some((mut items, p2)) => {
                    let ghost tail_view = items@;
                    items.insert(0, first);
                    proof {
                        assert(items@ =~= seq![first] + tail_view);
                    }
                    Some((items, p2))
                },
                None => None,
            },
            None => None,
        }
    }
}

fn read_inputs(data: &Vec<u8>, pos: usize) -> (r: Option<(Vec<ScreenSideAdjustedInput>, usize)>)
    requires
        pos <= data@.len(),
    ensures
        match r {
            Some((v, np)) => pos <= np <= data@.len() && spec_dec_inputs(data@.skip(pos as int))
                == Some((v@, data@.skip(np as int))),
            None => spec_dec_inputs(data@.skip(pos as int)) is None,
        },
{
    proof {
        reveal(spec_dec_inputs);
    }
    match read_u32(data, pos) {
        Some((n, p1)) => read_inputs_items(data, p1, n),
        None => None,
    }
}

fn read_vec2(data: &Vec<u8>, pos: usize) -> (r: Option<(Vec2, usize)>)
    requires
        pos <= data@.len(),
    ensures
        match r {
            Some(v) => pos < v.1 <= data@.len() && spec_dec_vec2(data@.skip(pos as int)) == Some(
                (v.0, data@.skip(v.1 as int)),
            ),
            None => spec_dec_vec2(data@.skip(pos as int)) is None,
        },
{
    proof {
        reveal(spec_dec_vec2);
    }
    match read_i64(data, pos) {
        Some((x, p1)) => match read_i64(data, p1) {
            Some((y, p2)) => Some((Vec2 { x, y }, p2)),
            None => None,
        },
        None => None,
    }
}

#[verifier::rlimit(100)]
fn read_character(data: &Vec<u8>, pos: usize) -> (r: Option<(Character, usize)>)
    requires
        pos <= data@.len(),
    ensures
        match r {
            Some((v, np)) => pos < np <= data@.len() && spec_dec_character(data@.skip(pos as int))
                == Some((v@, data@.skip(np as int))),
            None => spec_dec_character(data@.skip(pos as int)) is None,
        },
{
    proof {
        reveal(spec_dec_character);
    }
    match read_anim_state(data, pos) {
        Some((animation_state, p1)) => match read_char_state(data, p1) {
            Some((character_state, p2)) => match read_anim(data, p2) {
                Some((current_animation, p3)) => match read_vec2(data, p3) {
                    Some((character_position, p4)) => match read_vec2(data, p4) {
                        Some((character_velocity, p5)) => match read_side(data, p5) {
                            Some((screen_side, p6)) => match read_u32(data, p6) {
                                Some((health, p7)) => match read_bool(data, p7) {
                                    Some((is_crouched, p8)) => match read_inputs(data, p8) {
                                        Some((past_inputs, p9)) => match read_bool(data, p9) {
                                            Some((done, p10)) => {
                                                let out = Character {
                                                    animation_state,
                                                    character_state,
                                                    current_animation,
                                                    character_position,
                                                    character_velocity,
                                                    screen_side,
                                                    health,
                                                    is_crouched,
                                                    past_inputs,
                                                    done,
                                                };
                                                proof {
                                                    assert(spec_dec_character(
                                                        data@.skip(pos as int),
                                                    ).unwrap().0 =~= out@);
                                                }
                                                Some((out, p10))
                                            },
                                            None => None,
                                        },
                                        None => None,
                                    },
                                    None => None,
                                },
                                None => None,
                            },
                            None => None,
                        },
                        None => None,
                    },
                    None => None,
                },
                None => None,
            },
            None => None,
        },
        None => None,
    }
}

fn read_projectile(data: &Vec<u8>, pos: usize) -> (r: Option<(Projectile, usize)>)
    requires
        pos <= data@.len(),
    ensures
        match r {
            Some((v, np)) => pos < np <= data@.len() && spec_dec_projectile(
                data@.skip(pos as int),
            ) == Some((v@, data@.skip(np as int))),
            None => spec_dec_projectile(data@.skip(pos as int)) is None,
        },
{
    proof {
        reveal(spec_dec_projectile);
    }
    match read_vec2(data, pos) {
        Some((position, p1)) => match read_vec2(data, p1) {
            Some((velocity, p2)) => match read_side(data, p2) {
                Some((screen_side, p3)) => match read_anim(data, p3) {
                    Some((timer, p4)) => match read_u8(data, p4) {
                        Some((team, p5)) => {
                            let out = Projectile {
                                position,
                                velocity,
                                screen_side,
                                timer,
                                team: team as usize,
                            };
                            proof {
                                assert(spec_dec_projectile(data@.skip(pos as int)).unwrap().0
                                    =~= out@);
                            }
                            Some((out, p5))
                        },
                        None => None,
                    },
                    None => None,
                },
                None => None,
            },
            None => None,
        },
        None => None,
    }
}

fn read_proj_items(data: &Vec<u8>, pos: usize, n: u64) -> (r: Option<(Vec<Projectile>, usize)>)
    requires
        pos <= data@.len(),
    ensures
        match r {
            Some((v, np)) => pos <= np <= data@.len() && spec_dec_proj_items(
                data@.skip(pos as int),
                n as nat,
            ) == Some((v@.map_values(|p: Projectile| p@), data@.skip(np as int))),
            None => spec_dec_proj_items(data@.skip(pos as int), n as nat) is None,
        },
    decreases n,
{
    proof {
        reveal(spec_dec_proj_items);
    }
    if n == 0 {
        let out: Vec<Projectile> = Vec::new();
        proof {
            assert(out@.map_values(|p: Projectile| p@) =~= Seq::<ProjectileV>::empty());
        }
        Some((out, pos))
    } else {
        match read_projectile(data, pos) {
            Some((first, p1)) => match read_proj_items(data, p1, n - 1) {
                Some((mut items, p2)) => {
                    let ghost tail_view = items@.map_values(|p: Projectile| p@);
                    let ghost first_view = first@;
                    items.insert(0, first);
                    proof {
                        assert(items@.map_values(|p: Projectile| p@) =~= seq![first_view]
                            + tail_view);
                    }
                    Some((items, p2))
                },
                None => None,
            },
            None => None,
        }
    }
}

fn read_projectiles(data: &Vec<u8>, pos: usize) -> (r: Option<(Vec<Projectile>, usize)>)
    requires
        pos <= data@.len(),
    ensures
        match r {
            Some((v, np)) => pos <= np <= data@.len() && spec_dec_projectiles(
                data@.skip(pos as int),
            ) == Some((v@.map_values(|p: Projectile| p@), data@.skip(np as int))),
            None => spec_dec_projectiles(data@.skip(pos as int)) is None,
        },
{
    proof {
        reveal(spec_dec_projectiles);
    }
    match read_u64(data, pos) {
        Some((n, p1)) => read_proj_items(data, p1, n),
        None => None,
    }
}

/// Deserialize a snapshot. Succeeds exactly when the bytes are one whole
/// encoded round with nothing left over, and then returns that round.
#[verifier::rlimit(100)]
pub fn decode_round(data: &Vec<u8>) -> (r: Option<Round>)
    ensures
        match r {
            Some(round) => spec_dec_round(data@) == Some((round@, Seq::<u8>::empty())),
            None => spec_dec_round(data@) is None || spec_dec_round(data@).unwrap().1
                != Seq::<u8>::empty(),
        },
{
    proof {
        reveal(spec_dec_round);
        assert(data@.skip(0) =~= data@);
    }
    match read_i64(data, 0) {
        Some((frame, p1)) => match read_bool(data, p1) {
            Some((round_done, p2)) => match read_u64(data, p2) {
                Some((hit_stun_counter, p3)) => match read_timer(data, p3) {
                    Some((round_timer, p4)) => match read_timer(data, p4) {
                        Some((reset_round_timer, p5)) => match read_character(data, p5) {
                            Some((character0, p6)) => match read_character(data, p6) {
                                Some((character1, p7)) => match read_projectiles(data, p7) {
                                    Some((projectiles, p8)) => {
                                        if p8 == data.len() {
                                            let mut characters: Vec<Character> = Vec::new();
                                            characters.push(character0);
                                            characters.push(character1);
                                            let out = Round {
                                                characters,
                                                frame,
                                                round_timer,
                                                round_done,
                                                hit_stun_counter,
                                                projectiles,
                                                reset_round_timer,
                                            };
                                            proof {
                                                assert(data@.skip(p8 as int)
                                                    =~= Seq::<u8>::empty());
                                                assert(spec_dec_round(data@).unwrap().0.characters
                                                    =~= out@.characters);
                                                assert(spec_dec_round(data@).unwrap().0
                                                    =~= out@);
                                            }
                                            Some(out)
                                        } else {
                                            proof {
                                                assert(data@.skip(p8 as int).len() > 0);
                                                assert(data@.skip(p8 as int)
                                                    != Seq::<u8>::empty());
                                            }
                                            None
                                        }
                                    },
                                    None => None,
                                },
                                None => None,
                            },
                            None => None,
                        },
                        None => None,
                    },
                    None => None,
                },
                None => None,
            },
            None => None,
        },
        None => None,
    }
}

} // verus!
