//! The resolved character-sheet data the core is configured with: per
//! animation, the frame timings, per-frame displacements, and per-frame
//! hit/hurt/parry rectangles. Loading and parsing the authored files is the
//! asset collaborator's job; the core only consumes the resolved tables.

use vstd::prelude::*;
use crate::character::ANIMATION_STATE_COUNT;
use crate::collision::{CollisionBox, CollisionBoxType};
use crate::geometry::{Rect, Vec2};

verus! {

/// How far an animation frame wants to move the character, in coordinate
/// units; movement may still be cut short by walls or the other fighter.
#[derive(Clone, Copy, PartialEq, Eq, Structural, Debug)]
pub struct Displacement {
    pub x: i64,
    pub y: i64,
}

/// The kind of a combat rectangle as authored in the sheet.
#[derive(Clone, Copy, PartialEq, Eq, Structural, Debug)]
pub enum BoxType {
    Hit,
    Hurt,
    Parry,
}

/// A combat rectangle as authored: a kind, a corner and a size, in the
/// canonical right-facing pose's local coordinates.
#[derive(Clone, Copy, PartialEq, Eq, Debug)]
pub struct AABB {
    pub box_type: BoxType,
    pub origin: (i64, i64),
    pub size: (i64, i64),
}

/// The collision box an authored rectangle denotes.
pub open spec fn spec_box_of_aabb(a: AABB) -> CollisionBox {
    CollisionBox {
        box_type: match a.box_type {
            BoxType::Hit => CollisionBoxType::Hit,
            BoxType::Hurt => CollisionBoxType::Hurt,
            BoxType::Parry => CollisionBoxType::Parry,
        },
        aabb: Rect {
            min: Vec2 { x: a.origin.0, y: a.origin.1 },
            max: Vec2 { x: (a.origin.0 + a.size.0) as i64, y: (a.origin.1 + a.size.1) as i64 },
        },
    }
}

impl AABB {
    pub fn new(box_type: BoxType, origin: (i64, i64), size: (i64, i64)) -> (r: AABB)
        ensures
            r == (AABB { box_type, origin, size }),
    {
        AABB { box_type, origin, size }
    }

    /// Resolve the authored rectangle into the collision engine's form.
    pub fn into_collision_box(&self) -> (r: CollisionBox)
        requires
            -crate::geometry::COORD_BOUND <= self.origin.0 + self.size.0
                <= crate::geometry::COORD_BOUND,
            -crate::geometry::COORD_BOUND <= self.origin.1 + self.size.1
                <= crate::geometry::COORD_BOUND,
        ensures
            r == spec_box_of_aabb(*self),
    {
        let collision_box = match self.box_type {
            BoxType::Hit => CollisionBoxType::Hit,
            BoxType::Hurt => CollisionBoxType::Hurt,
            BoxType::Parry => CollisionBoxType::Parry,
        };
        CollisionBox {
            box_type: collision_box,
            aabb: Rect {
                min: Vec2 { x: self.origin.0, y: self.origin.1 },
                max: Vec2 { x: self.origin.0 + self.size.0, y: self.origin.1 + self.size.1 },
            },
        }
    }
}

/// The mathematical model of one animation's authored data.
#[verifier::ext_equal]
pub struct AnimationDataV {
    pub image_file_location: Seq<char>,
    pub collision_data: Seq<Seq<AABB>>,
    pub frame_lengths: Seq<u8>,
    pub displacements: Seq<Displacement>,
}

/// One animation's authored data: where its image lives (irrelevant to the
/// core), its per-frame collision rectangles, per-frame display durations,
/// and per-frame displacements.
#[derive(Clone, PartialEq, Debug)]
pub struct AnimationData {
    pub image_file_location: String,
    pub collision_data: Vec<Vec<AABB>>,
    pub frame_lengths: Vec<u8>,
    pub displacements: Vec<Displacement>,
}

impl View for AnimationData {
    type V = AnimationDataV;

    open spec fn view(&self) -> AnimationDataV {
        AnimationDataV {
            image_file_location: self.image_file_location@,
            collision_data: self.collision_data@.map_values(|f: Vec<AABB>| f@),
            frame_lengths: self.frame_lengths@,
            displacements: self.displacements@,
        }
    }
}

/// A whole character's resolved sheet: one entry per `AnimationState`, in
/// dense animation-index order.
#[derive(Clone, PartialEq, Debug)]
pub struct CharacterSheet {
    pub name: String,
    pub movespeed: i64,
    pub animations: Vec<AnimationData>,
}

impl View for CharacterSheet {
    type V = Seq<AnimationDataV>;

    open spec fn view(&self) -> Seq<AnimationDataV> {
        self.animations@.map_values(|a: AnimationData| a@)
    }
}

/// Structural soundness of a sheet: every animation present, and for each one
/// the three per-frame tables cover the same frames.
pub open spec fn sheet_wf(sheet: Seq<AnimationDataV>) -> bool {
    &&& sheet.len() == ANIMATION_STATE_COUNT
    &&& forall|i: int|
        0 <= i < sheet.len() ==> {
            &&& (#[trigger] sheet[i]).frame_lengths.len() > 0
            &&& sheet[i].collision_data.len() == sheet[i].frame_lengths.len()
            &&& sheet[i].displacements.len() == sheet[i].frame_lengths.len()
        }
}

} // verus!
