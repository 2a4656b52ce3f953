//! The levels of the game.
use vstd::prelude::*;

use crate::geometry::{Rect, Vec2};
use crate::level::{Level, LevelBundle};
use crate::units::PX;

verus! {

/// Where the player appears in the first level (its bottom-center point).
pub open spec fn level1_spawn_spec() -> Vec2 {
    Vec2 { x: -550_000i64, y: -184_000i64 }
}

pub fn level1_spawn() -> (r: Vec2)
    ensures
        r == level1_spawn_spec(),
{
    Vec2 { x: -550 * PX, y: -184 * PX }
}

fn block(min_x: i64, min_y: i64, max_x: i64, max_y: i64) -> (r: LevelBundle)
    requires
        -10_000 <= min_x <= max_x <= 10_000,
        -10_000 <= min_y <= max_y <= 10_000,
    ensures
        r.wf(),
        r.collider.solid,
        r.world_rect() == (Rect {
            min: Vec2 { x: (min_x * PX) as i64, y: (min_y * PX) as i64 },
            max: Vec2 { x: (max_x * PX) as i64, y: (max_y * PX) as i64 },
        }),
{
    LevelBundle::from_min_max(
        Vec2 { x: min_x * PX, y: min_y * PX },
        Vec2 { x: max_x * PX, y: max_y * PX },
    )
}

/// The blocks of the first level: the ground and three shelters. Coordinates
/// are given in whole pixels.
pub fn spawn_level() -> (r: Level)
    ensures
        r.wf(),
        r.blocks@.len() == 6,
        // Ground
        r.blocks@[0].world_rect() == (Rect {
            min: Vec2 { x: -1_000_000i64, y: -400_000i64 },
            max: Vec2 { x: 1_000_000i64, y: -200_000i64 },
        }),
        // Left shelter roof
        r.blocks@[1].world_rect() == (Rect {
            min: Vec2 { x: -700_000i64, y: -100_000i64 },
            max: Vec2 { x: -400_000i64, y: 150_000i64 },
        }),
        // Left shelter wall
        r.blocks@[2].world_rect() == (Rect {
            min: Vec2 { x: -700_000i64, y: -200_000i64 },
            max: Vec2 { x: -600_000i64, y: -100_000i64 },
        }),
        // Middle shelter
        r.blocks@[3].world_rect() == (Rect {
            min: Vec2 { x: -100_000i64, y: -60_000i64 },
            max: Vec2 { x: 100_000i64, y: -40_000i64 },
        }),
        // Right shelter roof
        r.blocks@[4].world_rect() == (Rect {
            min: Vec2 { x: 400_000i64, y: -100_000i64 },
            max: Vec2 { x: 700_000i64, y: 150_000i64 },
        }),
        // Right shelter wall
        r.blocks@[5].world_rect() == (Rect {
            min: Vec2 { x: 600_000i64, y: -200_000i64 },
            max: Vec2 { x: 700_000i64, y: -100_000i64 },
        }),
        forall|i: int| 0 <= i < 6 ==> (#[trigger] r.blocks@[i]).collider.solid,
{
    let mut blocks: Vec<LevelBundle> = Vec::new();
    // Ground
    blocks.push(block(-1000, -400, 1000, -200));
    // Left shelter roof
    blocks.push(block(-700, -100, -400, 150));
    // Left shelter wall
    blocks.push(block(-700, -200, -600, -100));
    // Middle shelter
    blocks.push(block(-100, -60, 100, -40));
    // Right shelter roof
    blocks.push(block(400, -100, 700, 150));
    // Right shelter wall
    blocks.push(block(600, -200, 700, -100));
    Level { blocks }
}

} // verus!
