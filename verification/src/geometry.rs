//! Fixed-point plane geometry for the simulation. Coordinates are integers in
//! units of one sixteenth of a sprite pixel, so both peers compute the same
//! positions bit for bit; no floating point enters the tick path.

use vstd::prelude::*;

verus! {

/// Coordinate units per sprite pixel.
pub const UNITS_PER_PIXEL: i64 = 16;

/// Width of one animation frame (and of a character's sprite), in units.
pub const FRAME_WIDTH_UNITS: i64 = 4640;

/// Height of one animation frame, in units.
pub const FRAME_HEIGHT_UNITS: i64 = 2848;

/// Width of the arena; character x positions are clamped to keep the whole
/// sprite inside it.
pub const ARENA_WIDTH_UNITS: i64 = 14336;

/// Vertical extent of the arena; character y positions are clamped into
/// `[0, ARENA_HEIGHT_UNITS]`.
pub const ARENA_HEIGHT_UNITS: i64 = 17280;

/// The two characters are never allowed further apart than this.
pub const MAX_PLAYER_DISTANCE_UNITS: i64 = 4640;

/// The vertical line about which a left-facing body's collision boxes are
/// mirrored: the middle of the sprite frame.
pub const REFLECT_AXIS_UNITS: i64 = 2320;

/// Offsets from a character's position to its walk box, and that box's size.
pub const WALK_BOX_OFFSET_X: i64 = 2096;
pub const WALK_BOX_OFFSET_Y: i64 = 912;
pub const WALK_BOX_WIDTH: i64 = 528;
pub const WALK_BOX_HEIGHT: i64 = 160;

/// Every coordinate the simulation handles stays well inside this bound, so
/// sums of a few coordinates never overflow an `i64`.
pub const COORD_BOUND: i64 = 0x10_0000_0000;

/// A point or displacement in the fixed-point plane.
#[derive(Clone, Copy, PartialEq, Eq, Structural, Debug)]
pub struct Vec2 {
    pub x: i64,
    pub y: i64,
}

impl Vec2 {
    pub open spec fn in_bounds(self) -> bool {
        -COORD_BOUND <= self.x <= COORD_BOUND && -COORD_BOUND <= self.y <= COORD_BOUND
    }
}

/// An axis-aligned rectangle, as the half-open area between `min` and `max`.
#[derive(Clone, Copy, PartialEq, Eq, Structural, Debug)]
pub struct Rect {
    pub min: Vec2,
    pub max: Vec2,
}

impl Rect {
    pub open spec fn in_bounds(self) -> bool {
        self.min.in_bounds() && self.max.in_bounds()
    }

    /// Whether the two rectangles overlap in a region of positive area;
    /// rectangles that merely touch along an edge do not intersect.
    pub open spec fn spec_intersects(self, other: Rect) -> bool {
        &&& self.min.x < other.max.x
        &&& other.min.x < self.max.x
        &&& self.min.y < other.max.y
        &&& other.min.y < self.max.y
    }

    pub fn intersects(&self, other: &Rect) -> (r: bool)
        ensures
            r == self.spec_intersects(*other),
    {
        self.min.x < other.max.x && other.min.x < self.max.x && self.min.y < other.max.y
            && other.min.y < self.max.y
    }

    /// The rectangle mirrored about the vertical line `x == x_axis`.
    pub open spec fn spec_reflect(self, x_axis: i64) -> Rect {
        Rect {
            min: Vec2 { x: (2 * x_axis - self.max.x) as i64, y: self.min.y },
            max: Vec2 { x: (2 * x_axis - self.min.x) as i64, y: self.max.y },
        }
    }

    pub fn reflect(&self, x_axis: i64) -> (r: Rect)
        requires
            self.in_bounds(),
            -COORD_BOUND <= x_axis <= COORD_BOUND,
        ensures
            r == self.spec_reflect(x_axis),
    {
        let min_dif = self.min.x - x_axis;
        let max_dif = self.max.x - x_axis;
        Rect {
            min: Vec2 { x: self.min.x - (min_dif + max_dif), y: self.min.y },
            max: Vec2 { x: self.max.x - (min_dif + max_dif), y: self.max.y },
        }
    }

    /// The rectangle moved by `offset`.
    pub open spec fn spec_translate(self, offset: Vec2) -> Rect {
        Rect {
            min: Vec2 {
                x: (self.min.x + offset.x) as i64,
                y: (self.min.y + offset.y) as i64,
            },
            max: Vec2 {
                x: (self.max.x + offset.x) as i64,
                y: (self.max.y + offset.y) as i64,
            },
        }
    }

    pub fn translate(&self, offset: Vec2) -> (r: Rect)
        requires
            self.in_bounds(),
            offset.in_bounds(),
        ensures
            r == self.spec_translate(offset),
    {
        Rect {
            min: Vec2 { x: self.min.x + offset.x, y: self.min.y + offset.y },
            max: Vec2 { x: self.max.x + offset.x, y: self.max.y + offset.y },
        }
    }
}

/// Where a rectangle spanning `[lo, lo + extent)` horizontally or vertically
/// ends up after trying to move by `delta` against an obstacle spanning
/// `[o_lo, o_hi)` on the same axis: the move is cut short exactly when it
/// would carry the rectangle across the obstacle's near edge.
pub open spec fn spec_slide_axis(lo: int, extent: int, delta: int, blocked: bool, o_lo: int, o_hi: int) -> int {
    if blocked {
        if delta > 0 && lo + extent <= o_lo && lo + extent + delta > o_lo {
            o_lo - extent
        } else if delta < 0 && lo >= o_hi && lo + delta < o_hi {
            o_hi
        } else {
            lo + delta
        }
    } else {
        lo + delta
    }
}

/// The walk box after sliding by `velocity` against at most one blocking box.
/// Movement is resolved one axis at a time, x first; on each axis the box
/// stops flush against the obstacle if the move would cross into it while the
/// two boxes overlap on the other axis.
pub open spec fn spec_slide(b: Rect, velocity: Vec2, obstacle: Option<Rect>) -> Rect {
    let width = b.max.x - b.min.x;
    let height = b.max.y - b.min.y;
    let x_blocked = match obstacle {
        Some(o) => b.min.y < o.max.y && o.min.y < b.max.y,
        None => false,
    };
    let nx: int = match obstacle {
        Some(o) => spec_slide_axis(
            b.min.x as int,
            width,
            velocity.x as int,
            x_blocked,
            o.min.x as int,
            o.max.x as int,
        ),
        None => b.min.x + velocity.x,
    };
    let y_blocked = match obstacle {
        Some(o) => nx < o.max.x && o.min.x < nx + width,
        None => false,
    };
    let ny: int = match obstacle {
        Some(o) => spec_slide_axis(
            b.min.y as int,
            height,
            velocity.y as int,
            y_blocked,
            o.min.y as int,
            o.max.y as int,
        ),
        None => b.min.y + velocity.y,
    };
    Rect {
        min: Vec2 { x: nx as i64, y: ny as i64 },
        max: Vec2 { x: (nx + width) as i64, y: (ny + height) as i64 },
    }
}

/// Slide `b` by `velocity`, blocked by `obstacle` if one is given.
pub fn slide(b: &Rect, velocity: Vec2, obstacle: Option<&Rect>) -> (r: Rect)
    requires
        b.in_bounds(),
        velocity.in_bounds(),
        obstacle is Some ==> obstacle.unwrap().in_bounds(),
    ensures
        r == spec_slide(*b, velocity, match obstacle {
            Some(o) => Some(*o),
            None => None,
        }),
{
    let width = b.max.x - b.min.x;
    let height = b.max.y - b.min.y;
    let nx: i64 = match obstacle {
        Some(o) => {
            let blocked = b.min.y < o.max.y && o.min.y < b.max.y;
            if blocked && velocity.x > 0 && b.max.x <= o.min.x && b.max.x + velocity.x > o.min.x {
                o.min.x - width
            } else if blocked && velocity.x < 0 && b.min.x >= o.max.x && b.min.x + velocity.x
                < o.max.x {
                o.max.x
            } else {
                b.min.x + velocity.x
            }
        },
        None => b.min.x + velocity.x,
    };
    let ny: i64 = match obstacle {
        Some(o) => {
            let blocked = nx < o.max.x && o.min.x < nx + width;
            if blocked && velocity.y > 0 && b.max.y <= o.min.y && b.max.y + velocity.y > o.min.y {
                o.min.y - height
            } else if blocked && velocity.y < 0 && b.min.y >= o.max.y && b.min.y + velocity.y
                < o.max.y {
                o.max.y
            } else {
                b.min.y + velocity.y
            }
        },
        None => b.min.y + velocity.y,
    };
    Rect {
        min: Vec2 { x: nx, y: ny },
        max: Vec2 { x: nx + width, y: ny + height },
    }
}

} // verus!
