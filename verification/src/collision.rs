//! The frame-indexed collision tables and the report type the strike
//! resolution step works over.

use vstd::prelude::*;
use crate::character::ANIMATION_STATE_COUNT;
use crate::geometry::Rect;

verus! {

/// The role a combat rectangle plays: `Hurt` can be struck, `Hit` strikes,
/// `Parry` turns a would-be strike into a parry.
#[derive(Clone, Copy, PartialEq, Eq, Structural, Debug)]
pub enum CollisionBoxType {
    Hurt,
    Hit,
    Parry,
}

/// One combat rectangle in the canonical right-facing pose's local space.
#[derive(Clone, Copy, PartialEq, Eq, Structural, Debug)]
pub struct CollisionBox {
    pub box_type: CollisionBoxType,
    pub aabb: Rect,
}

impl CollisionBox {
    pub fn new(box_type: CollisionBoxType, aabb: Rect) -> (r: CollisionBox)
        ensures
            r == (CollisionBox { box_type, aabb }),
    {
        CollisionBox { box_type, aabb }
    }
}

/// Which of the two fighters owns the striking side of a report.
#[derive(Clone, Copy, PartialEq, Eq, Structural, Debug)]
pub enum CharacterNumber {
    Number1,
    Number2,
}

/// One observed overlap: the kind of the probing rectangle, the kind of the
/// rectangle it touched, and whose rectangle probed.
#[derive(Clone, Copy, PartialEq, Eq, Structural, Debug)]
pub struct CollisionReport {
    pub collider_type: CollisionBoxType,
    pub collide_type: CollisionBoxType,
    pub collider_character: CharacterNumber,
}

impl CollisionReport {
    pub fn new(
        collider_type: CollisionBoxType,
        collide_type: CollisionBoxType,
        collider_character: CharacterNumber,
    ) -> (r: CollisionReport)
        ensures
            r == (CollisionReport { collider_type, collide_type, collider_character }),
    {
        CollisionReport { collider_type, collide_type, collider_character }
    }
}

/// One animation's collision rectangles, frame by frame.
#[derive(Clone, PartialEq, Debug)]
pub struct CollisionInfo {
    pub frame_collision: Vec<Vec<CollisionBox>>,
}

impl View for CollisionInfo {
    type V = Seq<Seq<CollisionBox>>;

    open spec fn view(&self) -> Seq<Seq<CollisionBox>> {
        self.frame_collision@.map_values(|f: Vec<CollisionBox>| f@)
    }
}

/// The mathematical model of the whole collision library.
#[verifier::ext_equal]
pub struct CollisionLibraryV {
    pub collision_info: Seq<Seq<Seq<CollisionBox>>>,
    pub fireball_collision: Seq<Seq<CollisionBox>>,
}

/// Every animation's collision table, in dense animation-index order, plus
/// the single table shared by all projectiles.
#[derive(Clone, PartialEq, Debug)]
pub struct CollisionLibrary {
    pub collision_info: Vec<CollisionInfo>,
    pub fireball_collision: CollisionInfo,
}

impl View for CollisionLibrary {
    type V = CollisionLibraryV;

    open spec fn view(&self) -> CollisionLibraryV {
        CollisionLibraryV {
            collision_info: self.collision_info@.map_values(|c: CollisionInfo| c@),
            fireball_collision: self.fireball_collision@,
        }
    }
}

impl CollisionLibrary {
    /// Resolve a sheet's authored rectangles into per-animation, per-frame
    /// collision tables. The projectile table is handed in already resolved,
    /// as the sheet does not carry it.
    pub fn new_from_sheet(
        character_sheet: &crate::sheet::CharacterSheet,
        fireball_collision: CollisionInfo,
    ) -> (r: CollisionLibrary)
        requires
            character_sheet@.len() == ANIMATION_STATE_COUNT,
            forall|i: int, f: int, b: int|
                0 <= i < character_sheet@.len() && 0 <= f
                    < (#[trigger] character_sheet@[i]).collision_data.len() && 0 <= b
                    < character_sheet@[i].collision_data[f].len() ==> {
                    let a = #[trigger] character_sheet@[i].collision_data[f][b];
                    &&& -crate::geometry::COORD_BOUND <= a.origin.0 + a.size.0
                        <= crate::geometry::COORD_BOUND
                    &&& -crate::geometry::COORD_BOUND <= a.origin.1 + a.size.1
                        <= crate::geometry::COORD_BOUND
                },
        ensures
            r@.fireball_collision == fireball_collision@,
            r@.collision_info.len() == ANIMATION_STATE_COUNT,
            forall|i: int|
                0 <= i < ANIMATION_STATE_COUNT ==> (#[trigger] r@.collision_info[i]).len()
                    == character_sheet@[i].collision_data.len(),
            forall|i: int, f: int|
                0 <= i < ANIMATION_STATE_COUNT && 0 <= f < character_sheet@[i].collision_data.len()
                    ==> (#[trigger] r@.collision_info[i][f]) == character_sheet@[i].collision_data[f]
                    .map_values(|a: crate::sheet::AABB| crate::sheet::spec_box_of_aabb(a)),
    {
        let mut collision_info: Vec<CollisionInfo> = Vec::new();
        let mut i: usize = 0;
        while i < character_sheet.animations.len()
            invariant
                character_sheet@.len() == ANIMATION_STATE_COUNT,
                forall|ii: int, f: int, b: int|
                    0 <= ii < character_sheet@.len() && 0 <= f
                        < (#[trigger] character_sheet@[ii]).collision_data.len() && 0 <= b
                        < character_sheet@[ii].collision_data[f].len() ==> {
                        let a = #[trigger] character_sheet@[ii].collision_data[f][b];
                        &&& -crate::geometry::COORD_BOUND <= a.origin.0 + a.size.0
                            <= crate::geometry::COORD_BOUND
                        &&& -crate::geometry::COORD_BOUND <= a.origin.1 + a.size.1
                            <= crate::geometry::COORD_BOUND
                    },
                character_sheet.animations@.len() == ANIMATION_STATE_COUNT,
                i <= ANIMATION_STATE_COUNT,
                collision_info@.len() == i,
                forall|ii: int|
                    0 <= ii < i ==> (#[trigger] collision_info@[ii]@).len()
                        == character_sheet@[ii].collision_data.len(),
                forall|ii: int, f: int|
                    0 <= ii < i && 0 <= f < character_sheet@[ii].collision_data.len() ==> (
                    #[trigger] collision_info@[ii]@[f]) == character_sheet@[ii].collision_data[f]
                        .map_values(|a: crate::sheet::AABB| crate::sheet::spec_box_of_aabb(a)),
            decreases character_sheet.animations@.len() - i,
        {
            let animation = &character_sheet.animations[i];
            proof {
                assert(character_sheet@[i as int] == animation@);
            }
            let mut frames: Vec<Vec<CollisionBox>> = Vec::new();
            let mut f: usize = 0;
            while f < animation.collision_data.len()
                invariant
                    forall|ff: int, b: int|
                        0 <= ff < animation@.collision_data.len() && 0 <= b
                            < (#[trigger] animation@.collision_data[ff]).len() ==> {
                            let a = #[trigger] animation@.collision_data[ff][b];
                            &&& -crate::geometry::COORD_BOUND <= a.origin.0 + a.size.0
                                <= crate::geometry::COORD_BOUND
                            &&& -crate::geometry::COORD_BOUND <= a.origin.1 + a.size.1
                                <= crate::geometry::COORD_BOUND
                        },
                    f <= animation.collision_data@.len(),
                    animation@.collision_data.len() == animation.collision_data@.len(),
                    frames@.len() == f,
                    forall|ff: int|
                        0 <= ff < f ==> (#[trigger] frames@[ff]@) == animation@.collision_data[ff]
                            .map_values(
                            |a: crate::sheet::AABB| crate::sheet::spec_box_of_aabb(a),
                        ),
                decreases animation.collision_data@.len() - f,
            {
                let frame = &animation.collision_data[f];
                proof {
                    assert(animation@.collision_data[f as int] == frame@);
                }
                let mut mapped: Vec<CollisionBox> = Vec::new();
                let mut b: usize = 0;
                while b < frame.len()
                    invariant
                        forall|bb: int|
                            0 <= bb < frame@.len() ==> {
                                let a = #[trigger] frame@[bb];
                                &&& -crate::geometry::COORD_BOUND <= a.origin.0 + a.size.0
                                    <= crate::geometry::COORD_BOUND
                                &&& -crate::geometry::COORD_BOUND <= a.origin.1 + a.size.1
                                    <= crate::geometry::COORD_BOUND
                            },
                        b <= frame@.len(),
                        mapped@.len() == b,
                        forall|bb: int|
                            0 <= bb < b ==> #[trigger] mapped@[bb]
                                == crate::sheet::spec_box_of_aabb(frame@[bb]),
                    decreases frame@.len() - b,
                {
                    mapped.push(frame[b].into_collision_box());
                    b = b + 1;
                }
                proof {
                    assert(mapped@ =~= frame@.map_values(
                        |a: crate::sheet::AABB| crate::sheet::spec_box_of_aabb(a),
                    ));
                }
                frames.push(mapped);
                f = f + 1;
            }
            collision_info.push(CollisionInfo { frame_collision: frames });
            i = i + 1;
        }
        let r = CollisionLibrary { collision_info, fireball_collision };
        proof {
            assert forall|ii: int| 0 <= ii < ANIMATION_STATE_COUNT implies (
                #[trigger] r@.collision_info[ii]).len() == character_sheet@[ii].collision_data.len()
                by {
                assert(r@.collision_info[ii] == collision_info@[ii]@);
            }
            assert forall|ii: int, f: int|
                0 <= ii < ANIMATION_STATE_COUNT && 0 <= f
                    < character_sheet@[ii].collision_data.len() implies (
            #[trigger] r@.collision_info[ii][f]) == character_sheet@[ii].collision_data[f]
                .map_values(|a: crate::sheet::AABB| crate::sheet::spec_box_of_aabb(a)) by {
                assert(r@.collision_info[ii] == collision_info@[ii]@);
            }
        }
        r
    }
}

} // verus!
