//! Per-player button state, the compact wire encoding both peers must agree
//! on, and the screen-side-relative view that makes the simulation logic
//! mirror-symmetric.

use vstd::prelude::*;
use crate::character::ScreenSide;

verus! {

// The frozen wire format: one bit per button on a u16. The bit order below is
// part of the network protocol and must match between peers.
pub const INPUT_LIGHT_ATTACK: u16 = 1;
pub const INPUT_LEFT: u16 = 2;
pub const INPUT_RIGHT: u16 = 4;
pub const INPUT_DOWN: u16 = 8;
pub const INPUT_MEDIUM_ATTACK: u16 = 16;
pub const INPUT_HEAVY_ATTACK: u16 = 32;
pub const INPUT_LIGHT_KICK: u16 = 64;
pub const INPUT_MEDIUM_KICK: u16 = 128;
pub const INPUT_JUMP: u16 = 256;
pub const INPUT_HEAVY_KICK: u16 = 512;

/// One player's input for one frame, as it travels between peers.
#[derive(Clone, Copy, PartialEq, Eq, Structural, Debug)]
pub struct NetInput {
    pub input: u16,
}

/// One player's decoded button state for one frame, in absolute
/// left/right terms.
#[derive(Clone, Copy, PartialEq, Eq, Structural, Debug)]
pub struct Input {
    pub left_key_down: bool,
    pub right_key_down: bool,
    pub down_key_down: bool,
    pub light_attack: bool,
    pub medium_attack: bool,
    pub heavy_attack: bool,
    pub light_kick: bool,
    pub medium_kick: bool,
    pub heavy_kick: bool,
    pub jump_down: bool,
    pub has_input: bool,
}

/// The input with every flag clear.
pub open spec fn spec_input_none() -> Input {
    Input {
        left_key_down: false,
        right_key_down: false,
        down_key_down: false,
        light_attack: false,
        medium_attack: false,
        heavy_attack: false,
        light_kick: false,
        medium_kick: false,
        heavy_kick: false,
        jump_down: false,
        has_input: false,
    }
}

/// The decoding of one wire word into button flags; `has_input` records
/// whether any bit at all was set.
pub open spec fn spec_decode_input(w: u16) -> Input {
    Input {
        left_key_down: w & INPUT_LEFT != 0,
        right_key_down: w & INPUT_RIGHT != 0,
        down_key_down: w & INPUT_DOWN != 0,
        light_attack: w & INPUT_LIGHT_ATTACK != 0,
        medium_attack: w & INPUT_MEDIUM_ATTACK != 0,
        heavy_attack: w & INPUT_HEAVY_ATTACK != 0,
        light_kick: w & INPUT_LIGHT_KICK != 0,
        medium_kick: w & INPUT_MEDIUM_KICK != 0,
        heavy_kick: w & INPUT_HEAVY_KICK != 0,
        jump_down: w & INPUT_JUMP != 0,
        has_input: w > 0,
    }
}

/// The encoding of button flags onto the wire word; `has_input` is derived
/// state and is not transmitted.
pub open spec fn spec_encode_input(i: Input) -> u16 {
    (if i.left_key_down { INPUT_LEFT } else { 0u16 })
    | (if i.right_key_down { INPUT_RIGHT } else { 0u16 })
    | (if i.down_key_down { INPUT_DOWN } else { 0u16 })
    | (if i.light_attack { INPUT_LIGHT_ATTACK } else { 0u16 })
    | (if i.medium_attack { INPUT_MEDIUM_ATTACK } else { 0u16 })
    | (if i.heavy_attack { INPUT_HEAVY_ATTACK } else { 0u16 })
    | (if i.light_kick { INPUT_LIGHT_KICK } else { 0u16 })
    | (if i.medium_kick { INPUT_MEDIUM_KICK } else { 0u16 })
    | (if i.heavy_kick { INPUT_HEAVY_KICK } else { 0u16 })
    | (if i.jump_down { INPUT_JUMP } else { 0u16 })
}

impl Input {
    pub fn new() -> (r: Input)
        ensures
            r == spec_input_none(),
    {
        Input {
            left_key_down: false,
            right_key_down: false,
            down_key_down: false,
            light_attack: false,
            medium_attack: false,
            heavy_attack: false,
            light_kick: false,
            medium_kick: false,
            heavy_kick: false,
            jump_down: false,
            has_input: false,
        }
    }

    /// Unpack the wire word a peer sent into button flags.
    pub fn from_game_input(game_input: NetInput) -> (r: Input)
        ensures
            r == spec_decode_input(game_input.input),
    {
        let recombined_input = game_input.input;
        let has_input = recombined_input > 0;
        Input {
            left_key_down: (recombined_input & INPUT_LEFT) != 0,
            right_key_down: (recombined_input & INPUT_RIGHT) != 0,
            down_key_down: (recombined_input & INPUT_DOWN) != 0,
            light_attack: (recombined_input & INPUT_LIGHT_ATTACK) != 0,
            medium_attack: (recombined_input & INPUT_MEDIUM_ATTACK) != 0,
            heavy_attack: (recombined_input & INPUT_HEAVY_ATTACK) != 0,
            light_kick: (recombined_input & INPUT_LIGHT_KICK) != 0,
            medium_kick: (recombined_input & INPUT_MEDIUM_KICK) != 0,
            heavy_kick: (recombined_input & INPUT_HEAVY_KICK) != 0,
            jump_down: (recombined_input & INPUT_JUMP) != 0,
            has_input,
        }
    }
}

impl Default for Input {
    /// The input with every flag clear.
    fn default() -> (r: Input)
        ensures
            r == spec_input_none(),
    {
        Input::new()
    }
}

/// Pack the locally held button state into the wire word sent to the session.
pub fn local_input(current: &Input) -> (r: NetInput)
    ensures
        r.input == spec_encode_input(*current),
{
    let w: u16 = (if current.left_key_down { INPUT_LEFT } else { 0u16 })
        | (if current.right_key_down { INPUT_RIGHT } else { 0u16 })
        | (if current.down_key_down { INPUT_DOWN } else { 0u16 })
        | (if current.light_attack { INPUT_LIGHT_ATTACK } else { 0u16 })
        | (if current.medium_attack { INPUT_MEDIUM_ATTACK } else { 0u16 })
        | (if current.heavy_attack { INPUT_HEAVY_ATTACK } else { 0u16 })
        | (if current.light_kick { INPUT_LIGHT_KICK } else { 0u16 })
        | (if current.medium_kick { INPUT_MEDIUM_KICK } else { 0u16 })
        | (if current.heavy_kick { INPUT_HEAVY_KICK } else { 0u16 })
        | (if current.jump_down { INPUT_JUMP } else { 0u16 });
    NetInput { input: w }
}

/// The wire format loses nothing: decoding an encoded input restores every
/// button flag, and `has_input` comes back exactly when some flag is held.
pub proof fn lemma_wire_round_trip(i: Input)
    ensures
        spec_decode_input(spec_encode_input(i)) == (Input {
            has_input: i.left_key_down || i.right_key_down || i.down_key_down
                || i.light_attack || i.medium_attack || i.heavy_attack
                || i.light_kick || i.medium_kick || i.heavy_kick || i.jump_down,
            ..i
        }),
{
    let la = i.light_attack;
    let le = i.left_key_down;
    let ri = i.right_key_down;
    let do_ = i.down_key_down;
    let ma = i.medium_attack;
    let ha = i.heavy_attack;
    let lk = i.light_kick;
    let mk = i.medium_kick;
    let hk = i.heavy_kick;
    let ju = i.jump_down;
    let w = spec_encode_input(i);
    assert(w == (if le { 2u16 } else { 0u16 }) | (if ri { 4u16 } else { 0u16 })
        | (if do_ { 8u16 } else { 0u16 }) | (if la { 1u16 } else { 0u16 })
        | (if ma { 16u16 } else { 0u16 }) | (if ha { 32u16 } else { 0u16 })
        | (if lk { 64u16 } else { 0u16 }) | (if mk { 128u16 } else { 0u16 })
        | (if hk { 512u16 } else { 0u16 }) | (if ju { 256u16 } else { 0u16 }));
    assert({
        let v = (if le { 2u16 } else { 0u16 }) | (if ri { 4u16 } else { 0u16 })
            | (if do_ { 8u16 } else { 0u16 }) | (if la { 1u16 } else { 0u16 })
            | (if ma { 16u16 } else { 0u16 }) | (if ha { 32u16 } else { 0u16 })
            | (if lk { 64u16 } else { 0u16 }) | (if mk { 128u16 } else { 0u16 })
            | (if hk { 512u16 } else { 0u16 }) | (if ju { 256u16 } else { 0u16 });
        (v & 2u16 != 0) == le && (v & 4u16 != 0) == ri && (v & 8u16 != 0) == do_
            && (v & 1u16 != 0) == la && (v & 16u16 != 0) == ma && (v & 32u16 != 0) == ha
            && (v & 64u16 != 0) == lk && (v & 128u16 != 0) == mk && (v & 512u16 != 0) == hk
            && (v & 256u16 != 0) == ju
            && (v > 0) == (le || ri || do_ || la || ma || ha || lk || mk || hk || ju)
    }) by (bit_vector);
}

/// The same buttons seen relative to which way the character faces: `forward`
/// is toward the opponent, so logic written on this view is side-agnostic.
#[derive(Clone, Copy, PartialEq, Eq, Structural, Debug)]
pub struct ScreenSideAdjustedInput {
    pub forward_down: bool,
    pub backward_down: bool,
    pub down_key_down: bool,
    pub light_attack: bool,
    pub medium_attack: bool,
    pub heavy_attack: bool,
    pub light_kick: bool,
    pub medium_kick: bool,
    pub heavy_kick: bool,
    pub has_input: bool,
    pub jump: bool,
}

/// The side-relative view of `input` for a character on `screen_side`: a
/// character on the left moves forward by pressing right, and the mirror
/// holds on the right.
pub open spec fn spec_adjust_input(input: Input, screen_side: ScreenSide) -> ScreenSideAdjustedInput {
    ScreenSideAdjustedInput {
        forward_down: if screen_side is Left { input.right_key_down } else { input.left_key_down },
        backward_down: if screen_side is Left { input.left_key_down } else { input.right_key_down },
        down_key_down: input.down_key_down,
        light_attack: input.light_attack,
        medium_attack: input.medium_attack,
        heavy_attack: input.heavy_attack,
        light_kick: input.light_kick,
        medium_kick: input.medium_kick,
        heavy_kick: input.heavy_kick,
        has_input: input.has_input,
        jump: input.jump_down,
    }
}

impl ScreenSideAdjustedInput {
    pub fn new(input: &Input, screen_side: ScreenSide) -> (r: ScreenSideAdjustedInput)
        ensures
            r == spec_adjust_input(*input, screen_side),
    {
        let mut forward = false;
        if matches!(screen_side, ScreenSide::Left) && input.right_key_down {
            forward = true;
        }
        if matches!(screen_side, ScreenSide::Right) && input.left_key_down {
            forward = true;
        }
        let mut backward = false;
        if matches!(screen_side, ScreenSide::Left) && input.left_key_down {
            backward = true;
        }
        if matches!(screen_side, ScreenSide::Right) && input.right_key_down {
            backward = true;
        }
        ScreenSideAdjustedInput {
            forward_down: forward,
            backward_down: backward,
            down_key_down: input.down_key_down,
            light_attack: input.light_attack,
            medium_attack: input.medium_attack,
            heavy_attack: input.heavy_attack,
            light_kick: input.light_kick,
            medium_kick: input.medium_kick,
            heavy_kick: input.heavy_kick,
            has_input: input.has_input,
            jump: input.jump_down,
        }
    }
}

/// `input` with its left and right flags swapped, as a mirrored match feeds it.
pub open spec fn spec_mirror_input(input: Input) -> Input {
    Input {
        left_key_down: input.right_key_down,
        right_key_down: input.left_key_down,
        ..input
    }
}

/// Mirror symmetry at the input boundary: a character on the opposite side
/// reading the left/right-swapped input sees the same side-relative view, so
/// everything downstream of this view is side-agnostic.
pub proof fn lemma_adjust_input_mirror(input: Input, screen_side: ScreenSide)
    ensures
        spec_adjust_input(spec_mirror_input(input), screen_side.spec_opposite())
            == spec_adjust_input(input, screen_side),
{
}

} // verus!
