//! Kinematic state and its integration into position.
use vstd::prelude::*;

use crate::geometry::Vec2;
use crate::units::{clamp, clamp_spec, mul_div, scaled, LOCAL_LIMIT, MAX_STEP, POS_LIMIT, SECOND, VEL_LIMIT};

verus! {

/// A velocity, in thousandths of a pixel per second.
#[derive(Clone, Copy, Debug, PartialEq, Eq, Structural)]
pub struct Velocity(pub Vec2);

impl Velocity {
    pub open spec fn wf(self) -> bool {
        self.0.within(VEL_LIMIT as int)
    }
}

/// One coordinate moved at speed `v` for `dt` microseconds, held to the
/// edge of the world.
pub open spec fn advanced(p: int, v: int, dt: int) -> int {
    clamp_spec(p + scaled(v, dt, SECOND as int), -POS_LIMIT, POS_LIMIT as int)
}

/// A position moved by `velocity` for `dt` microseconds.
pub open spec fn moved(position: Vec2, velocity: Vec2, dt: int) -> Vec2 {
    Vec2 {
        x: advanced(position.x as int, velocity.x as int, dt) as i64,
        y: advanced(position.y as int, velocity.y as int, dt) as i64,
    }
}

fn advance(p: i64, v: i64, dt: i64) -> (r: i64)
    requires
        -(POS_LIMIT + LOCAL_LIMIT) <= p <= POS_LIMIT + LOCAL_LIMIT,
        -VEL_LIMIT <= v <= VEL_LIMIT,
        0 <= dt <= MAX_STEP,
    ensures
        r == advanced(p as int, v as int, dt as int),
        -POS_LIMIT <= r <= POS_LIMIT,
{
    proof {
        assert(-VEL_LIMIT * MAX_STEP <= v * dt <= VEL_LIMIT * MAX_STEP) by (nonlinear_arith)
            requires
                -VEL_LIMIT <= v <= VEL_LIMIT,
                0 <= dt <= MAX_STEP,
        ;
        crate::units::lemma_trunc_div_bounds(v * dt, SECOND as int);
    }
    let step = mul_div(v, dt, SECOND);
    clamp(p + step, -POS_LIMIT, POS_LIMIT)
}

/// Moves `position` by `velocity` over a step of `dt` microseconds.
pub fn update_position(position: &mut Vec2, velocity: Velocity, dt: i64)
    requires
        old(position).within(POS_LIMIT + LOCAL_LIMIT),
        velocity.wf(),
        0 <= dt <= MAX_STEP,
    ensures
        *final(position) == moved(*old(position), velocity.0, dt as int),
        final(position).within(POS_LIMIT as int),
{
    position.x = advance(position.x, velocity.0.x, dt);
    position.y = advance(position.y, velocity.0.y, dt);
}

} // verus!
