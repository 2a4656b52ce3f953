//! Points, axis-aligned rectangles, colliders, and the classification of an
//! overlap between two rectangles by the side that was struck.
use vstd::prelude::*;

use crate::units::{COORD_LIMIT, LOCAL_LIMIT, POS_LIMIT, SPAN_LIMIT};

verus! {

/// A point or a vector; lengths in thousandths of a pixel, velocities in
/// thousandths of a pixel per second.
#[derive(Clone, Copy, Debug, PartialEq, Eq, Structural)]
pub struct Vec2 {
    pub x: i64,
    pub y: i64,
}

impl Vec2 {
    pub fn new(x: i64, y: i64) -> (r: Vec2)
        ensures
            r.x == x,
            r.y == y,
    {
        Vec2 { x, y }
    }

    /// Both components lie within `[-limit, limit]`.
    pub open spec fn within(self, limit: int) -> bool {
        -limit <= self.x <= limit && -limit <= self.y <= limit
    }
}

/// An axis-aligned rectangle given by its lower-left and upper-right corners.
#[derive(Clone, Copy, Debug, PartialEq, Eq, Structural)]
pub struct Rect {
    pub min: Vec2,
    pub max: Vec2,
}

impl Rect {
    /// The corners are ordered and lie within `[-limit, limit]`.
    pub open spec fn wf_within(self, limit: int) -> bool {
        &&& self.min.within(limit)
        &&& self.max.within(limit)
        &&& self.min.x <= self.max.x
        &&& self.min.y <= self.max.y
    }

    /// A rectangle of level geometry or of the view.
    pub open spec fn wf(self) -> bool {
        self.wf_within(COORD_LIMIT as int)
    }

    /// The rectangle with the given corners.
    pub fn from_corners(min: Vec2, max: Vec2) -> (r: Rect)
        ensures
            r.min == min,
            r.max == max,
    {
        Rect { min, max }
    }

    /// The rectangle of the given size whose center is `center` (for an odd
    /// size, half a unit lower and further left).
    pub open spec fn centered(center: Vec2, size: Vec2) -> Rect {
        Rect {
            min: Vec2 { x: (center.x - size.x / 2) as i64, y: (center.y - size.y / 2) as i64 },
            max: Vec2 {
                x: (center.x - size.x / 2 + size.x) as i64,
                y: (center.y - size.y / 2 + size.y) as i64,
            },
        }
    }

    pub fn from_center_size(center: Vec2, size: Vec2) -> (r: Rect)
        requires
            center.within(POS_LIMIT as int),
            0 <= size.x <= 2 * COORD_LIMIT,
            0 <= size.y <= 2 * COORD_LIMIT,
        ensures
            r == Rect::centered(center, size),
            r.max.x - r.min.x == size.x,
            r.max.y - r.min.y == size.y,
    {
        let min = Vec2 { x: center.x - size.x / 2, y: center.y - size.y / 2 };
        Rect { min, max: Vec2 { x: min.x + size.x, y: min.y + size.y } }
    }

    /// The rectangle moved by `offset`.
    pub open spec fn translated(self, offset: Vec2) -> Rect {
        Rect {
            min: Vec2 { x: (self.min.x + offset.x) as i64, y: (self.min.y + offset.y) as i64 },
            max: Vec2 { x: (self.max.x + offset.x) as i64, y: (self.max.y + offset.y) as i64 },
        }
    }

    pub fn translate(&self, offset: Vec2) -> (r: Rect)
        requires
            self.wf_within(LOCAL_LIMIT as int),
            offset.within(POS_LIMIT as int),
        ensures
            r == self.translated(offset),
            r.wf_within(POS_LIMIT + LOCAL_LIMIT),
    {
        Rect {
            min: Vec2 { x: self.min.x + offset.x, y: self.min.y + offset.y },
            max: Vec2 { x: self.max.x + offset.x, y: self.max.y + offset.y },
        }
    }
}

/// The side of the second rectangle that the first one struck.
#[derive(Clone, Copy, Debug, PartialEq, Eq, Structural)]
pub enum Collision {
    /// The first rectangle came from the left of the second.
    Left,
    /// The first rectangle came from the right of the second.
    Right,
    /// The first rectangle came from above the second.
    Top,
    /// The first rectangle came from below the second.
    Bottom,
    /// The first rectangle lies within the second on the deciding axis.
    Inside,
}

/// Penetration depth along one axis; `None` stands for an unbounded depth
/// (the rectangle is inside along that axis).
pub open spec fn shallower(a: Option<int>, b: Option<int>) -> bool {
    match (a, b) {
        (None, _) => false,
        (Some(_), None) => true,
        (Some(x), Some(y)) => abs(x) < abs(y),
    }
}

pub open spec fn abs(x: int) -> int {
    if x < 0 {
        -x
    } else {
        x
    }
}

/// The two rectangles share interior points.
pub open spec fn overlaps(a: Rect, b: Rect) -> bool {
    a.min.x < b.max.x && a.max.x > b.min.x && a.min.y < b.max.y && a.max.y > b.min.y
}

/// The side struck along the horizontal axis, with its penetration depth.
pub open spec fn x_contact(a: Rect, b: Rect) -> (Collision, Option<int>) {
    if a.min.x < b.min.x && a.max.x > b.min.x && a.max.x < b.max.x {
        (Collision::Left, Some(b.min.x - a.max.x))
    } else if a.min.x > b.min.x && a.min.x < b.max.x && a.max.x > b.max.x {
        (Collision::Right, Some(a.min.x - b.max.x))
    } else {
        (Collision::Inside, None)
    }
}

/// The side struck along the vertical axis, with its penetration depth.
pub open spec fn y_contact(a: Rect, b: Rect) -> (Collision, Option<int>) {
    if a.min.y < b.min.y && a.max.y > b.min.y && a.max.y < b.max.y {
        (Collision::Bottom, Some(b.min.y - a.max.y))
    } else if a.min.y > b.min.y && a.min.y < b.max.y && a.max.y > b.max.y {
        (Collision::Top, Some(a.min.y - b.max.y))
    } else {
        (Collision::Inside, None)
    }
}

/// How `a` collides with `b`: `None` when they do not overlap; otherwise the
/// side of `b` that `a` struck, taken on the axis of the shallower
/// penetration (the horizontal axis on a tie).
pub open spec fn collision(a: Rect, b: Rect) -> Option<Collision> {
    if overlaps(a, b) {
        let (xc, xd) = x_contact(a, b);
        let (yc, yd) = y_contact(a, b);
        if shallower(yd, xd) {
            Some(yc)
        } else {
            Some(xc)
        }
    } else {
        None
    }
}

/// Classifies the collision of `a` with `b`.
pub fn collide(a: &Rect, b: &Rect) -> (r: Option<Collision>)
    requires
        a.wf_within(SPAN_LIMIT as int),
        b.wf_within(SPAN_LIMIT as int),
    ensures
        r == collision(*a, *b),
{
    if !(a.min.x < b.max.x && a.max.x > b.min.x && a.min.y < b.max.y && a.max.y > b.min.y) {
        return None;
    }
    let (xc, xd): (Collision, Option<i64>) = if a.min.x < b.min.x && a.max.x > b.min.x && a.max.x
        < b.max.x {
        (Collision::Left, Some(b.min.x - a.max.x))
    } else if a.min.x > b.min.x && a.min.x < b.max.x && a.max.x > b.max.x {
        (Collision::Right, Some(a.min.x - b.max.x))
    } else {
        (Collision::Inside, None)
    };
    let (yc, yd): (Collision, Option<i64>) = if a.min.y < b.min.y && a.max.y > b.min.y && a.max.y
        < b.max.y {
        (Collision::Bottom, Some(b.min.y - a.max.y))
    } else if a.min.y > b.min.y && a.min.y < b.max.y && a.max.y > b.max.y {
        (Collision::Top, Some(a.min.y - b.max.y))
    } else {
        (Collision::Inside, None)
    };
    let y_first = match (yd, xd) {
        (None, _) => false,
        (Some(_), None) => true,
        (Some(y), Some(x)) => abs_i64(y) < abs_i64(x),
    };
    if y_first {
        Some(yc)
    } else {
        Some(xc)
    }
}

fn abs_i64(x: i64) -> (r: i64)
    requires
        x > i64::MIN,
    ensures
        r == abs(x as int),
{
    if x < 0 {
        -x
    } else {
        x
    }
}

/// An object's collision rectangle, in the object's local space, and whether
/// it currently takes part in collision queries. A collider that is not solid
/// stays attached to its object but is skipped by every query.
#[derive(Clone, Copy, Debug, PartialEq, Eq, Structural)]
pub struct Collider {
    pub local_rect: Rect,
    pub solid: bool,
}

impl Collider {
    /// The local rectangle is ordered and small enough to be placed anywhere
    /// in the world.
    pub open spec fn wf(self) -> bool {
        self.local_rect.wf_within(LOCAL_LIMIT as int)
    }

    /// The collider's rectangle in world space, for an owner at `position`.
    pub open spec fn world_rect(self, position: Vec2) -> Rect {
        self.local_rect.translated(position)
    }

    /// A solid collider of the given size centered on its owner.
    pub fn from_size(size: Vec2) -> (r: Collider)
        requires
            0 <= size.x <= LOCAL_LIMIT,
            0 <= size.y <= LOCAL_LIMIT,
        ensures
            r.local_rect == Rect::centered(Vec2 { x: 0, y: 0 }, size),
            r.solid,
            r.wf(),
    {
        Collider::from_center_size(Vec2 { x: 0, y: 0 }, size)
    }

    /// A solid collider of the given size centered on `center`, in the
    /// owner's local space.
    pub fn from_center_size(center: Vec2, size: Vec2) -> (r: Collider)
        requires
            center.within(LOCAL_LIMIT / 2),
            0 <= size.x <= LOCAL_LIMIT,
            0 <= size.y <= LOCAL_LIMIT,
        ensures
            r.local_rect == Rect::centered(center, size),
            r.solid,
            r.wf(),
    {
        Collider { local_rect: Rect::from_center_size(center, size), solid: true }
    }

    /// The collider's rectangle in world space, for an owner at `position`.
    pub fn rect(&self, position: Vec2) -> (r: Rect)
        requires
            self.wf(),
            position.within(POS_LIMIT as int),
        ensures
            r == self.world_rect(position),
            r.wf_within(POS_LIMIT + LOCAL_LIMIT),
    {
        self.local_rect.translate(position)
    }

    /// The same collider, solid or not as given.
    pub fn with_solid(self, solid: bool) -> (r: Collider)
        ensures
            r.local_rect == self.local_rect,
            r.solid == solid,
    {
        Collider { solid, ..self }
    }
}

impl Default for Collider {
    /// A solid collider of size zero at its owner's origin.
    fn default() -> (r: Collider)
        ensures
            r.local_rect == (Rect { min: Vec2 { x: 0, y: 0 }, max: Vec2 { x: 0, y: 0 } }),
            r.solid,
    {
        Collider { local_rect: Rect { min: Vec2 { x: 0, y: 0 }, max: Vec2 { x: 0, y: 0 } }, solid: true }
    }
}

} // verus!
