//! Static level geometry: solid blocks that the player stands on and that
//! drops splash against.
use vstd::prelude::*;

use crate::geometry::{Collider, Rect, Vec2};
use crate::units::{COORD_LIMIT, LOCAL_LIMIT, POS_LIMIT};

verus! {

/// One block of level geometry: a collider placed at `position`.
#[derive(Clone, Copy, Debug, PartialEq, Eq, Structural)]
pub struct LevelBundle {
    pub position: Vec2,
    pub collider: Collider,
}

impl LevelBundle {
    pub open spec fn wf(self) -> bool {
        self.collider.wf() && self.position.within(COORD_LIMIT as int)
    }

    /// The block's rectangle in world space.
    pub open spec fn world_rect(self) -> Rect {
        self.collider.world_rect(self.position)
    }

    /// A solid block of the given size centered on `position`.
    pub fn from_center_size(position: Vec2, size: Vec2) -> (r: LevelBundle)
        requires
            position.within(COORD_LIMIT as int),
            0 <= size.x <= LOCAL_LIMIT,
            0 <= size.y <= LOCAL_LIMIT,
        ensures
            r.wf(),
            r.collider.solid,
            r.world_rect() == Rect::centered(Vec2 { x: 0, y: 0 }, size).translated(position),
    {
        LevelBundle { position, collider: Collider::from_size(size) }
    }

    /// A solid block covering exactly the rectangle from `min` to `max`.
    pub fn from_min_max(min: Vec2, max: Vec2) -> (r: LevelBundle)
        requires
            min.within(COORD_LIMIT as int),
            max.within(COORD_LIMIT as int),
            min.x <= max.x <= min.x + LOCAL_LIMIT,
            min.y <= max.y <= min.y + LOCAL_LIMIT,
        ensures
            r.wf(),
            r.collider.solid,
            r.world_rect() == (Rect { min, max }),
    {
        let size = Vec2 { x: max.x - min.x, y: max.y - min.y };
        let local_rect = Rect { min: Vec2 { x: 0, y: 0 }, max: size };
        LevelBundle { position: min, collider: Collider { local_rect, solid: true } }
    }

    /// The block's rectangle in world space.
    pub fn rect(&self) -> (r: Rect)
        requires
            self.wf(),
        ensures
            r == self.world_rect(),
            r.wf_within(POS_LIMIT + LOCAL_LIMIT),
    {
        self.collider.rect(self.position)
    }
}

/// The blocks of one level.
#[derive(Debug)]
pub struct Level {
    pub blocks: Vec<LevelBundle>,
}

impl Level {
    pub open spec fn wf(self) -> bool {
        forall|i: int| 0 <= i < self.blocks@.len() ==> #[trigger] self.blocks@[i].wf()
    }
}

} // verus!
