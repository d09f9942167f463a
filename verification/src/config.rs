//! The read-only match configuration: collision tables, combo library,
//! animation timings and the character sheet they came from. It is validated
//! once, before the first frame; the tick path itself never fails on
//! configuration, because a valid configuration makes every lookup total.

use vstd::prelude::*;
use crate::character::ANIMATION_STATE_COUNT;
use crate::collision::{CollisionBox, CollisionLibrary, CollisionLibraryV};
use crate::combo::{library_wf, ComboLibrary, ComboPatternV};
use crate::sheet::{AnimationDataV, CharacterSheet};
use crate::timer::{AnimationConfig, AnimationConfigV};

verus! {

/// No animation may have more frames than this.
pub const MAX_ANIMATION_FRAMES: usize = 1000;

/// No animation frame may carry more collision boxes than this.
pub const MAX_BOXES_PER_FRAME: usize = 64;

/// No per-frame displacement component may exceed this many units.
pub const MAX_DISPLACEMENT: i64 = 65536;

/// Collision box corners stay within this bound in local coordinates, so
/// reflecting and translating them into world space cannot overflow.
pub const BOX_COORD_BOUND: i64 = 16777216;

/// Why a configuration was rejected at load time. These are authoring errors;
/// a configuration that constructs cleanly can never fail mid-match.
#[derive(Clone, Copy, PartialEq, Eq, Structural, Debug)]
pub enum ConfigError {
    /// The sheet does not have exactly one entry per animation.
    SheetSize,
    /// The animation-timing table does not have exactly one entry per animation.
    AnimationTableSize,
    /// The collision library does not have exactly one table per animation.
    CollisionTableSize,
    /// An animation has no frames.
    EmptyAnimation,
    /// An animation has more frames than `MAX_ANIMATION_FRAMES`.
    OversizedAnimation,
    /// An animation frame lasts zero ticks.
    ZeroFrameDuration,
    /// An animation's collision or displacement table covers a different
    /// number of frames than its timing table.
    FrameTableMismatch,
    /// A displacement component exceeds `MAX_DISPLACEMENT`.
    DisplacementOutOfRange,
    /// An animation-timing entry does not match the sheet, or is not pristine.
    StaleAnimationTemplate,
    /// A collision table covers a different number of frames than the sheet.
    CollisionFrameMismatch,
    /// A frame carries more than `MAX_BOXES_PER_FRAME` collision boxes.
    TooManyCollisionBoxes,
    /// A collision box corner lies outside `BOX_COORD_BOUND`.
    CollisionBoxOutOfRange,
    /// The projectile collision table has no first-frame box.
    MissingProjectileCollision,
    /// A combo pattern is empty, or its final marks are misplaced.
    MalformedComboPattern,
}

/// The mathematical model of a `GameConfig`.
#[verifier::ext_equal]
pub struct GameConfigV {
    pub collision_library: CollisionLibraryV,
    pub combo_library: Seq<ComboPatternV>,
    pub animation_configs: Seq<AnimationConfigV>,
    pub character_sheet: Seq<AnimationDataV>,
}

/// Whether a collision box's corners lie within the authoring bound.
pub open spec fn box_in_range(cb: CollisionBox) -> bool {
    &&& -BOX_COORD_BOUND <= cb.aabb.min.x <= BOX_COORD_BOUND
    &&& -BOX_COORD_BOUND <= cb.aabb.min.y <= BOX_COORD_BOUND
    &&& -BOX_COORD_BOUND <= cb.aabb.max.x <= BOX_COORD_BOUND
    &&& -BOX_COORD_BOUND <= cb.aabb.max.y <= BOX_COORD_BOUND
}

/// The conditions validation checks for animation `i`, each matching one
/// `ConfigError` variant.
pub open spec fn anim_ok_nonempty(cfg: GameConfigV, i: int) -> bool {
    cfg.character_sheet[i].frame_lengths.len() > 0
}

pub open spec fn anim_ok_size(cfg: GameConfigV, i: int) -> bool {
    cfg.character_sheet[i].frame_lengths.len() <= MAX_ANIMATION_FRAMES
}

pub open spec fn anim_ok_durations(cfg: GameConfigV, i: int) -> bool {
    forall|f: int|
        0 <= f < cfg.character_sheet[i].frame_lengths.len()
            ==> cfg.character_sheet[i].frame_lengths[f] > 0
}

pub open spec fn anim_ok_tables(cfg: GameConfigV, i: int) -> bool {
    &&& cfg.character_sheet[i].collision_data.len() == cfg.character_sheet[i].frame_lengths.len()
    &&& cfg.character_sheet[i].displacements.len() == cfg.character_sheet[i].frame_lengths.len()
}

pub open spec fn anim_ok_displacements(cfg: GameConfigV, i: int) -> bool {
    forall|f: int|
        0 <= f < cfg.character_sheet[i].displacements.len() ==> {
            let d = #[trigger] cfg.character_sheet[i].displacements[f];
            -MAX_DISPLACEMENT <= d.x <= MAX_DISPLACEMENT && -MAX_DISPLACEMENT <= d.y
                <= MAX_DISPLACEMENT
        }
}

pub open spec fn anim_ok_template(cfg: GameConfigV, i: int) -> bool {
    cfg.animation_configs[i] == AnimationConfigV::pristine(cfg.character_sheet[i].frame_lengths)
}

pub open spec fn anim_ok_collision_frames(cfg: GameConfigV, i: int) -> bool {
    cfg.collision_library.collision_info[i].len() == cfg.character_sheet[i].frame_lengths.len()
}

pub open spec fn anim_ok_box_counts(cfg: GameConfigV, i: int) -> bool {
    forall|f: int|
        0 <= f < cfg.collision_library.collision_info[i].len() ==> (
        #[trigger] cfg.collision_library.collision_info[i][f]).len() <= MAX_BOXES_PER_FRAME
}

pub open spec fn anim_ok_box_ranges(cfg: GameConfigV, i: int) -> bool {
    forall|f: int, b: int|
        0 <= f < cfg.collision_library.collision_info[i].len() && 0 <= b
            < cfg.collision_library.collision_info[i][f].len() ==> box_in_range(
            #[trigger] cfg.collision_library.collision_info[i][f][b],
        )
}

/// The first failed check for animation `i`, in checking order.
pub open spec fn anim_error(cfg: GameConfigV, i: int) -> Option<ConfigError> {
    if !anim_ok_nonempty(cfg, i) {
        Some(ConfigError::EmptyAnimation)
    } else if !anim_ok_size(cfg, i) {
        Some(ConfigError::OversizedAnimation)
    } else if !anim_ok_durations(cfg, i) {
        Some(ConfigError::ZeroFrameDuration)
    } else if !anim_ok_tables(cfg, i) {
        Some(ConfigError::FrameTableMismatch)
    } else if !anim_ok_displacements(cfg, i) {
        Some(ConfigError::DisplacementOutOfRange)
    } else if !anim_ok_template(cfg, i) {
        Some(ConfigError::StaleAnimationTemplate)
    } else if !anim_ok_collision_frames(cfg, i) {
        Some(ConfigError::CollisionFrameMismatch)
    } else if !anim_ok_box_counts(cfg, i) {
        Some(ConfigError::TooManyCollisionBoxes)
    } else if !anim_ok_box_ranges(cfg, i) {
        Some(ConfigError::CollisionBoxOutOfRange)
    } else {
        None
    }
}

/// The first failed per-animation check from animation `i` on.
pub open spec fn first_anim_error(cfg: GameConfigV, i: int) -> Option<ConfigError>
    decreases ANIMATION_STATE_COUNT - i,
{
    if i < 0 || i >= ANIMATION_STATE_COUNT {
        None
    } else if anim_error(cfg, i) is Some {
        anim_error(cfg, i)
    } else {
        first_anim_error(cfg, i + 1)
    }
}

/// The projectile-table conditions.
pub open spec fn fireball_ok_present(cfg: GameConfigV) -> bool {
    cfg.collision_library.fireball_collision.len() > 0
        && cfg.collision_library.fireball_collision[0].len() > 0
}

pub open spec fn fireball_ok_box_counts(cfg: GameConfigV) -> bool {
    forall|f: int|
        0 <= f < cfg.collision_library.fireball_collision.len() ==> (
        #[trigger] cfg.collision_library.fireball_collision[f]).len() <= MAX_BOXES_PER_FRAME
}

pub open spec fn fireball_ok_box_ranges(cfg: GameConfigV) -> bool {
    forall|f: int, b: int|
        0 <= f < cfg.collision_library.fireball_collision.len() && 0 <= b
            < cfg.collision_library.fireball_collision[f].len() ==> box_in_range(
            #[trigger] cfg.collision_library.fireball_collision[f][b],
        )
}

pub open spec fn fireball_error(cfg: GameConfigV) -> Option<ConfigError> {
    if !fireball_ok_present(cfg) {
        Some(ConfigError::MissingProjectileCollision)
    } else if !fireball_ok_box_counts(cfg) {
        Some(ConfigError::TooManyCollisionBoxes)
    } else if !fireball_ok_box_ranges(cfg) {
        Some(ConfigError::CollisionBoxOutOfRange)
    } else {
        None
    }
}

/// The first failed check over the whole configuration, in checking order;
/// `None` means the configuration is valid.
pub open spec fn spec_validate(cfg: GameConfigV) -> Option<ConfigError> {
    if cfg.character_sheet.len() != ANIMATION_STATE_COUNT {
        Some(ConfigError::SheetSize)
    } else if cfg.animation_configs.len() != ANIMATION_STATE_COUNT {
        Some(ConfigError::AnimationTableSize)
    } else if cfg.collision_library.collision_info.len() != ANIMATION_STATE_COUNT {
        Some(ConfigError::CollisionTableSize)
    } else if first_anim_error(cfg, 0) is Some {
        first_anim_error(cfg, 0)
    } else if fireball_error(cfg) is Some {
        fireball_error(cfg)
    } else if !library_wf(cfg.combo_library) {
        Some(ConfigError::MalformedComboPattern)
    } else {
        None
    }
}

/// A valid configuration: what every simulation function requires of the
/// tables it reads. Equivalent to validation finding nothing, by
/// `lemma_validate_iff_wf`.
pub open spec fn config_wf(cfg: GameConfigV) -> bool {
    &&& cfg.character_sheet.len() == ANIMATION_STATE_COUNT
    &&& cfg.animation_configs.len() == ANIMATION_STATE_COUNT
    &&& cfg.collision_library.collision_info.len() == ANIMATION_STATE_COUNT
    &&& forall|i: int| 0 <= i < ANIMATION_STATE_COUNT ==> anim_error(cfg, i) is None
    &&& fireball_ok_present(cfg)
    &&& fireball_ok_box_counts(cfg)
    &&& fireball_ok_box_ranges(cfg)
    &&& library_wf(cfg.combo_library)
}

proof fn lemma_first_anim_error(cfg: GameConfigV, i: int)
    requires
        0 <= i <= ANIMATION_STATE_COUNT,
    ensures
        first_anim_error(cfg, i) is None <==> forall|j: int|
            i <= j < ANIMATION_STATE_COUNT ==> anim_error(cfg, j) is None,
    decreases ANIMATION_STATE_COUNT - i,
{
    if i < ANIMATION_STATE_COUNT {
        lemma_first_anim_error(cfg, i + 1);
    }
}

/// Validation finds nothing exactly on the well-formed configurations.
pub proof fn lemma_validate_iff_wf(cfg: GameConfigV)
    ensures
        spec_validate(cfg) is None <==> config_wf(cfg),
{
    lemma_first_anim_error(cfg, 0);
}

/// Replacing only the combo library keeps a configuration well-formed, as
/// long as the new library is; every other check reads the untouched tables.
pub proof fn lemma_config_wf_combo_swap(cfg: GameConfigV, lib: Seq<ComboPatternV>)
    requires
        config_wf(cfg),
        library_wf(lib),
    ensures
        config_wf(GameConfigV { combo_library: lib, ..cfg }),
{
    let swapped = GameConfigV { combo_library: lib, ..cfg };
    assert forall|i: int| 0 <= i < ANIMATION_STATE_COUNT implies anim_error(swapped, i) is None by {
        assert(anim_error(swapped, i) == anim_error(cfg, i));
    }
}

/// The read-only configuration shared by both players: collision tables and
/// combo library plus the animation timings, all derived from one sheet.
/// Only combo-pattern progress inside `combo_library` mutates during play.
#[derive(Clone, PartialEq, Debug)]
pub struct GameConfig {
    pub collision_library: CollisionLibrary,
    pub combo_library: ComboLibrary,
    pub animation_configs: Vec<AnimationConfig>,
    pub character_sheet: CharacterSheet,
}

impl View for GameConfig {
    type V = GameConfigV;

    open spec fn view(&self) -> GameConfigV {
        GameConfigV {
            collision_library: self.collision_library@,
            combo_library: self.combo_library@,
            animation_configs: self.animation_configs@.map_values(|a: AnimationConfig| a@),
            character_sheet: self.character_sheet@,
        }
    }
}

/// The view the given parts would assemble to.
pub open spec fn assembled_view(
    collision_library: CollisionLibrary,
    combo_library: ComboLibrary,
    animation_configs: Vec<AnimationConfig>,
    character_sheet: CharacterSheet,
) -> GameConfigV {
    GameConfigV {
        collision_library: collision_library@,
        combo_library: combo_library@,
        animation_configs: animation_configs@.map_values(|a: AnimationConfig| a@),
        character_sheet: character_sheet@,
    }
}

impl GameConfig {
    /// Assemble and validate a configuration. Construction succeeds exactly
    /// when every table is sound; the error reported is the first failed
    /// check in `spec_validate`'s order.
    pub fn new(
        collision_library: CollisionLibrary,
        combo_library: ComboLibrary,
        animation_configs: Vec<AnimationConfig>,
        character_sheet: CharacterSheet,
    ) -> (r: Result<GameConfig, ConfigError>)
        ensures
            ({
                let v = assembled_view(
                    collision_library,
                    combo_library,
                    animation_configs,
                    character_sheet,
                );
                match r {
                    Ok(cfg) => cfg@ == v && config_wf(v) && spec_validate(v) is None,
                    Err(e) => spec_validate(v) == Some(e),
                }
            }),
    {
        let cfg = GameConfig { collision_library, combo_library, animation_configs, character_sheet };
        let ghost v = cfg@;
        proof {
            lemma_validate_iff_wf(v);
        }
        if cfg.character_sheet.animations.len() != ANIMATION_STATE_COUNT {
            return Err(ConfigError::SheetSize);
        }
        if cfg.animation_configs.len() != ANIMATION_STATE_COUNT {
            return Err(ConfigError::AnimationTableSize);
        }
        if cfg.collision_library.collision_info.len() != ANIMATION_STATE_COUNT {
            return Err(ConfigError::CollisionTableSize);
        }
        let mut i: usize = 0;
        while i < ANIMATION_STATE_COUNT
            invariant
                v == cfg@,
                cfg.character_sheet.animations@.len() == ANIMATION_STATE_COUNT,
                cfg.animation_configs@.len() == ANIMATION_STATE_COUNT,
                cfg.collision_library.collision_info@.len() == ANIMATION_STATE_COUNT,
                0 <= i <= ANIMATION_STATE_COUNT,
                forall|j: int| 0 <= j < i ==> anim_error(v, j) is None,
            decreases ANIMATION_STATE_COUNT - i,
        {
            match check_animation(&cfg, i) {
                Some(e) => {
                    proof {
                        lemma_first_anim_error_stops(v, i as int, e);
                    }
                    return Err(e);
                },
                None => {},
            }
            i = i + 1;
        }
        proof {
            lemma_first_anim_error(v, 0);
        }
        match check_fireball(&cfg) {
            Some(e) => {
                return Err(e);
            },
            None => {},
        }
        if !check_combos(&cfg.combo_library) {
            return Err(ConfigError::MalformedComboPattern);
        }
        Ok(cfg)
    }
}

proof fn lemma_first_anim_error_stops(cfg: GameConfigV, i: int, e: ConfigError)
    requires
        0 <= i < ANIMATION_STATE_COUNT,
        forall|j: int| 0 <= j < i ==> anim_error(cfg, j) is None,
        anim_error(cfg, i) == Some(e),
    ensures
        first_anim_error(cfg, 0) == Some(e),
    decreases i,
{
    lemma_first_anim_error_stops_from(cfg, 0, i, e);
}

proof fn lemma_first_anim_error_stops_from(cfg: GameConfigV, k: int, i: int, e: ConfigError)
    requires
        0 <= k <= i < ANIMATION_STATE_COUNT,
        forall|j: int| k <= j < i ==> anim_error(cfg, j) is None,
        anim_error(cfg, i) == Some(e),
    ensures
        first_anim_error(cfg, k) == Some(e),
    decreases i - k,
{
    if k < i {
        lemma_first_anim_error_stops_from(cfg, k + 1, i, e);
    }
}

/// The per-animation checks, in the order `anim_error` lists them.
fn check_animation(cfg: &GameConfig, i: usize) -> (r: Option<ConfigError>)
    requires
        cfg@.character_sheet.len() == ANIMATION_STATE_COUNT,
        cfg@.animation_configs.len() == ANIMATION_STATE_COUNT,
        cfg@.collision_library.collision_info.len() == ANIMATION_STATE_COUNT,
        i < ANIMATION_STATE_COUNT,
    ensures
        r == anim_error(cfg@, i as int),
{
    let ghost v = cfg@;
    let ghost gi = i as int;
    let animation = &cfg.character_sheet.animations[i];
    proof {
        assert(v.character_sheet[gi] == animation@);
    }
    let n = animation.frame_lengths.len();
    if n == 0 {
        return Some(ConfigError::EmptyAnimation);
    }
    if n > MAX_ANIMATION_FRAMES {
        return Some(ConfigError::OversizedAnimation);
    }
    let mut f: usize = 0;
    while f < n
        invariant
            v.character_sheet[gi] == animation@,
            n == animation.frame_lengths@.len(),
            f <= n,
            forall|ff: int| 0 <= ff < f ==> animation.frame_lengths@[ff] > 0,
        decreases n - f,
    {
        if animation.frame_lengths[f] == 0 {
            proof {
                assert(v.character_sheet[gi].frame_lengths[f as int] == 0);
            }
            return Some(ConfigError::ZeroFrameDuration);
        }
        f = f + 1;
    }
    assert(anim_ok_durations(v, gi));
    if animation.collision_data.len() != n || animation.displacements.len() != n {
        proof {
            assert(v.character_sheet[gi].collision_data.len()
                == animation.collision_data@.len());
        }
        return Some(ConfigError::FrameTableMismatch);
    }
    proof {
        assert(v.character_sheet[gi].collision_data.len() == animation.collision_data@.len());
        assert(anim_ok_tables(v, gi));
    }
    let mut f: usize = 0;
    while f < n
        invariant
            v.character_sheet[gi] == animation@,
            n == animation.frame_lengths@.len(),
            animation.displacements@.len() == n,
            f <= n,
            forall|ff: int|
                0 <= ff < f ==> {
                    let d = #[trigger] animation.displacements@[ff];
                    -MAX_DISPLACEMENT <= d.x <= MAX_DISPLACEMENT && -MAX_DISPLACEMENT <= d.y
                        <= MAX_DISPLACEMENT
                },
        decreases n - f,
    {
        let d = animation.displacements[f];
        if d.x < -MAX_DISPLACEMENT || d.x > MAX_DISPLACEMENT || d.y < -MAX_DISPLACEMENT || d.y
            > MAX_DISPLACEMENT {
            proof {
                assert(v.character_sheet[gi].displacements[f as int] == d);
            }
            return Some(ConfigError::DisplacementOutOfRange);
        }
        f = f + 1;
    }
    assert(anim_ok_displacements(v, gi));
    let template = &cfg.animation_configs[i];
    proof {
        assert(v.animation_configs[gi] == template@);
    }
    let first = animation.frame_lengths[0];
    let template_matches = template.current_frame == 0 && template.sprite_timer.total_frames
        == first as u32 && template.sprite_timer.current_frame == 0
        && !template.sprite_timer.finished && vecs_u8_equal(
        &template.frame_times,
        &animation.frame_lengths,
    );
    if !template_matches {
        proof {
            assert(!anim_ok_template(v, gi));
        }
        return Some(ConfigError::StaleAnimationTemplate);
    }
    proof {
        assert(template@ =~= AnimationConfigV::pristine(animation@.frame_lengths));
        assert(anim_ok_template(v, gi));
    }
    let table = &cfg.collision_library.collision_info[i];
    proof {
        assert(v.collision_library.collision_info[gi] == table@);
    }
    if table.frame_collision.len() != n {
        return Some(ConfigError::CollisionFrameMismatch);
    }
    let mut f: usize = 0;
    while f < n
        invariant
            v.collision_library.collision_info[gi] == table@,
            table.frame_collision@.len() == n,
            f <= n,
            forall|ff: int| 0 <= ff < f ==> (#[trigger] table@[ff]).len() <= MAX_BOXES_PER_FRAME,
        decreases n - f,
    {
        if table.frame_collision[f].len() > MAX_BOXES_PER_FRAME {
            proof {
                assert(table@[f as int].len() > MAX_BOXES_PER_FRAME);
            }
            return Some(ConfigError::TooManyCollisionBoxes);
        }
        proof {
            assert(table@[f as int].len() <= MAX_BOXES_PER_FRAME);
        }
        f = f + 1;
    }
    assert(anim_ok_box_counts(v, gi));
    let mut f: usize = 0;
    while f < n
        invariant
            v.collision_library.collision_info[gi] == table@,
            table.frame_collision@.len() == n,
            f <= n,
            forall|ff: int, b: int|
                0 <= ff < f && 0 <= b < table@[ff].len() ==> box_in_range(
                    #[trigger] table@[ff][b],
                ),
        decreases n - f,
    {
        let frame = &table.frame_collision[f];
        proof {
            assert(table@[f as int] == frame@);
        }
        let mut b: usize = 0;
        while b < frame.len()
            invariant
                table@[f as int] == frame@,
                b <= frame@.len(),
                forall|bb: int| 0 <= bb < b ==> box_in_range(#[trigger] frame@[bb]),
            decreases frame@.len() - b,
        {
            let cb = frame[b];
            if cb.aabb.min.x < -BOX_COORD_BOUND || cb.aabb.min.x > BOX_COORD_BOUND || cb.aabb.min.y
                < -BOX_COORD_BOUND || cb.aabb.min.y > BOX_COORD_BOUND || cb.aabb.max.x
                < -BOX_COORD_BOUND || cb.aabb.max.x > BOX_COORD_BOUND || cb.aabb.max.y
                < -BOX_COORD_BOUND || cb.aabb.max.y > BOX_COORD_BOUND {
                proof {
                    assert(!box_in_range(table@[f as int][b as int]));
                }
                return Some(ConfigError::CollisionBoxOutOfRange);
            }
            b = b + 1;
        }
        f = f + 1;
    }
    assert(anim_ok_box_ranges(v, gi));
    None
}

/// Whether two byte vectors hold the same bytes.
pub(crate) fn vecs_u8_equal(a: &Vec<u8>, b: &Vec<u8>) -> (r: bool)
    ensures
        r == (a@ == b@),
{
    if a.len() != b.len() {
        proof {
            assert(a@.len() != b@.len());
        }
        return false;
    }
    let mut i: usize = 0;
    while i < a.len()
        invariant
            a@.len() == b@.len(),
            i <= a@.len(),
            forall|j: int| 0 <= j < i ==> a@[j] == b@[j],
        decreases a@.len() - i,
    {
        if a[i] != b[i] {
            return false;
        }
        i = i + 1;
    }
    proof {
        assert(a@ =~= b@);
    }
    true
}

/// The projectile-table checks, in `fireball_error`'s order.
fn check_fireball(cfg: &GameConfig) -> (r: Option<ConfigError>)
    ensures
        r == fireball_error(cfg@),
{
    let ghost v = cfg@;
    let table = &cfg.collision_library.fireball_collision;
    proof {
        assert(v.collision_library.fireball_collision == table@);
    }
    if table.frame_collision.len() == 0 {
        return Some(ConfigError::MissingProjectileCollision);
    }
    if table.frame_collision[0].len() == 0 {
        proof {
            assert(table@[0].len() == 0);
        }
        return Some(ConfigError::MissingProjectileCollision);
    }
    proof {
        assert(table@[0].len() > 0);
    }
    let n = table.frame_collision.len();
    let mut f: usize = 0;
    while f < n
        invariant
            v.collision_library.fireball_collision == table@,
            table.frame_collision@.len() == n,
            f <= n,
            forall|ff: int| 0 <= ff < f ==> (#[trigger] table@[ff]).len() <= MAX_BOXES_PER_FRAME,
        decreases n - f,
    {
        if table.frame_collision[f].len() > MAX_BOXES_PER_FRAME {
            proof {
                assert(table@[f as int].len() > MAX_BOXES_PER_FRAME);
            }
            return Some(ConfigError::TooManyCollisionBoxes);
        }
        proof {
            assert(table@[f as int].len() <= MAX_BOXES_PER_FRAME);
        }
        f = f + 1;
    }
    assert(fireball_ok_box_counts(v));
    let mut f: usize = 0;
    while f < n
        invariant
            v.collision_library.fireball_collision == table@,
            table.frame_collision@.len() == n,
            f <= n,
            forall|ff: int, b: int|
                0 <= ff < f && 0 <= b < table@[ff].len() ==> box_in_range(
                    #[trigger] table@[ff][b],
                ),
        decreases n - f,
    {
        let frame = &table.frame_collision[f];
        proof {
            assert(table@[f as int] == frame@);
        }
        let mut b: usize = 0;
        while b < frame.len()
            invariant
                table@[f as int] == frame@,
                b <= frame@.len(),
                forall|bb: int| 0 <= bb < b ==> box_in_range(#[trigger] frame@[bb]),
            decreases frame@.len() - b,
        {
            let cb = frame[b];
            if cb.aabb.min.x < -BOX_COORD_BOUND || cb.aabb.min.x > BOX_COORD_BOUND || cb.aabb.min.y
                < -BOX_COORD_BOUND || cb.aabb.min.y > BOX_COORD_BOUND || cb.aabb.max.x
                < -BOX_COORD_BOUND || cb.aabb.max.x > BOX_COORD_BOUND || cb.aabb.max.y
                < -BOX_COORD_BOUND || cb.aabb.max.y > BOX_COORD_BOUND {
                proof {
                    assert(!box_in_range(table@[f as int][b as int]));
                }
                return Some(ConfigError::CollisionBoxOutOfRange);
            }
            b = b + 1;
        }
        f = f + 1;
    }
    assert(fireball_ok_box_ranges(v));
    None
}

/// Whether every combo pattern is well-formed.
fn check_combos(library: &ComboLibrary) -> (r: bool)
    ensures
        r == library_wf(library@),
{
    let mut i: usize = 0;
    while i < library.combos.len()
        invariant
            i <= library.combos@.len(),
            forall|j: int| 0 <= j < i ==> crate::combo::combo_wf(#[trigger] library@[j]),
    decreases library.combos@.len() - i,
    {
        let combo = &library.combos[i];
        proof {
            assert(library@[i as int] == combo@);
        }
        let n = combo.pattern.len();
        if n == 0 {
            proof {
                assert(!crate::combo::combo_wf(library@[i as int]));
            }
            return false;
        }
        if combo.matched_pattern_number > n {
            proof {
                assert(!crate::combo::combo_wf(library@[i as int]));
            }
            return false;
        }
        let mut k: usize = 0;
        while k < n
            invariant
                library@[i as int] == combo@,
                n == combo.pattern@.len(),
                k <= n,
                forall|kk: int|
                    0 <= kk < k ==> (#[trigger] combo.pattern@[kk].final_element <==> kk == n - 1),
            decreases n - k,
        {
            let is_last = k == n - 1;
            if combo.pattern[k].final_element != is_last {
                proof {
                    assert(!(combo@.pattern[k as int].final_element <==> k as int == n - 1));
                    assert(!crate::combo::combo_wf(library@[i as int]));
                }
                return false;
            }
            k = k + 1;
        }
        proof {
            assert(crate::combo::combo_wf(library@[i as int]));
        }
        i = i + 1;
    }
    true
}

} // verus!
