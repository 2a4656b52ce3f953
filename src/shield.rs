//! The shield: a deflecting collider attached to the player, switched on by
//! the player and paid for with a rechargeable power budget.
use vstd::prelude::*;

use crate::color::{fade_toward, faded, Color};
use crate::geometry::{Collider, Rect, Vec2};
use crate::health::hits_on;
use crate::rain::RainHit;
use crate::units::{MAX_STEP, RATIO_ONE, SECOND};

verus! {

/// Width and height of the shield.
pub const SHIELD_SIZE: i64 = 64_000;

/// Power spent per second while the shield is up, in millionths (0.03 per
/// sixtieth of a second).
pub const SHIELD_COST: i64 = 1_800_000;

/// Power regained per second while the shield is down, in millionths (0.02
/// per sixtieth of a second).
pub const SHIELD_RECHARGE: i64 = 1_200_000;

/// The shield's color at rest.
pub open spec fn shield_color_base() -> Color {
    Color { r: 0, g: 65535, b: 65535, a: 32768 }
}

/// The shield's color right after a hit.
pub open spec fn shield_color_hit() -> Color {
    Color { r: 65535, g: 65535, b: 65535, a: 32768 }
}

/// The shield's power budget, in millionths of a full charge.
#[derive(Clone, Copy, Debug, PartialEq, Eq, Structural)]
pub struct Power(pub i64);

impl Power {
    pub open spec fn wf(self) -> bool {
        0 <= self.0 <= RATIO_ONE
    }

    /// A full charge.
    pub fn full() -> (r: Power)
        ensures
            r.0 == RATIO_ONE,
    {
        Power(RATIO_ONE)
    }
}

/// The shield. Its collider is placed relative to the player's position and
/// is solid only while the shield is up; `visible` follows the same switch.
#[derive(Clone, Copy, Debug, PartialEq, Eq, Structural)]
pub struct Shield {
    pub collider: Collider,
    pub visible: bool,
    pub color: Color,
    pub handle: u64,
}

impl Shield {
    pub open spec fn wf(self) -> bool {
        self.collider.wf() && self.color.wf()
    }

    /// A lowered shield of size `SHIELD_SIZE`, centered on `center` relative
    /// to the player's position.
    pub fn new(center: Vec2, handle: u64) -> (r: Shield)
        requires
            center.within(crate::units::LOCAL_LIMIT / 2),
        ensures
            r.wf(),
            r.collider.local_rect == Rect::centered(center, Vec2 { x: SHIELD_SIZE, y: SHIELD_SIZE }),
            !r.collider.solid,
            !r.visible,
            r.color == shield_color_base(),
            r.handle == handle,
    {
        let size = Vec2 { x: SHIELD_SIZE, y: SHIELD_SIZE };
        Shield {
            collider: Collider::from_center_size(center, size).with_solid(false),
            visible: false,
            color: Color { r: 0, g: 65535, b: 65535, a: 32768 },
            handle,
        }
    }
}

/// Power that keeping the shield up costs over `dt` microseconds.
pub open spec fn shield_cost(dt: int) -> int {
    SHIELD_COST * dt / SECOND as int
}

/// Power regained over `dt` microseconds with the shield down.
pub open spec fn shield_recharge(dt: int) -> int {
    SHIELD_RECHARGE * dt / SECOND as int
}

/// Whether a request for the shield is granted: it is asked for and the
/// budget covers the step.
pub open spec fn shield_granted(active: bool, power: int, dt: int) -> bool {
    active && power >= shield_cost(dt)
}

/// The power budget after a step: debited while the shield is granted,
/// recharged (up to a full charge) while it is not asked for.
pub open spec fn power_after(active: bool, power: int, dt: int) -> int {
    let spent = if shield_granted(active, power, dt) {
        power - shield_cost(dt)
    } else {
        power
    };
    if !active && spent < RATIO_ONE {
        if spent + shield_recharge(dt) < RATIO_ONE {
            spent + shield_recharge(dt)
        } else {
            RATIO_ONE as int
        }
    } else {
        spent
    }
}

/// Shield gating: while the budget is below the cost of a step, a request
/// for the shield is ignored: the shield stays down and, since it was asked
/// for, the budget neither drops nor recharges.
pub proof fn shield_gated_by_power(active: bool, power: int, dt: int)
    requires
        power < shield_cost(dt),
    ensures
        !shield_granted(active, power, dt),
        active ==> power_after(active, power, dt) == power,
{
}

/// Raises or lowers the shield for a step of `delta` microseconds, as asked
/// by `active` and allowed by the power budget, and debits or recharges the
/// budget.
pub fn activate_shield(shield: &mut Shield, power: &mut Power, active: bool, delta: i64)
    requires
        old(power).wf(),
        0 <= delta <= MAX_STEP,
    ensures
        final(shield).collider.solid == shield_granted(active, old(power).0 as int, delta as int),
        final(shield).visible == shield_granted(active, old(power).0 as int, delta as int),
        final(shield).collider.local_rect == old(shield).collider.local_rect,
        final(shield).color == old(shield).color,
        final(shield).handle == old(shield).handle,
        final(power).0 == power_after(active, old(power).0 as int, delta as int),
        final(power).wf(),
        old(power).0 < shield_cost(delta as int) ==> !final(shield).collider.solid,
{
    proof {
        assert(0 <= SHIELD_COST * delta <= SHIELD_COST * MAX_STEP) by (nonlinear_arith)
            requires
                0 <= delta <= MAX_STEP,
                SHIELD_COST > 0,
        ;
        assert(0 <= SHIELD_RECHARGE * delta <= SHIELD_RECHARGE * MAX_STEP) by (nonlinear_arith)
            requires
                0 <= delta <= MAX_STEP,
                SHIELD_RECHARGE > 0,
        ;
    }
    let cost: i64 = SHIELD_COST * delta / SECOND;
    let recharge: i64 = SHIELD_RECHARGE * delta / SECOND;
    if active && power.0 >= cost {
        power.0 = power.0 - cost;
        shield.collider.solid = true;
        shield.visible = true;
    } else {
        shield.collider.solid = false;
        shield.visible = false;
    }
    if !active && power.0 < RATIO_ONE {
        power.0 = if power.0 + recharge < RATIO_ONE {
            power.0 + recharge
        } else {
            RATIO_ONE
        };
    }
}

/// Flashes the shield when any of `hits` names it. A hit on the shield costs
/// no health.
pub fn get_hit_by_rain(shield: &mut Shield, hits: &Vec<RainHit>)
    ensures
        final(shield).color == (if hits_on(hits@, old(shield).handle) > 0 {
            shield_color_hit()
        } else {
            old(shield).color
        }),
        final(shield).collider == old(shield).collider,
        final(shield).visible == old(shield).visible,
        final(shield).handle == old(shield).handle,
{
    let mut hit = false;
    let mut i: usize = 0;
    while i < hits.len()
        invariant
            0 <= i <= hits@.len(),
            hit == (hits_on(hits@.take(i as int), shield.handle) > 0),
        decreases hits@.len() - i,
    {
        proof {
            let taken = hits@.take(i + 1);
            assert(taken.drop_last() =~= hits@.take(i as int));
            assert(taken.last() == hits@[i as int]);
        }
        if hits[i].0 == shield.handle {
            hit = true;
        }
        i = i + 1;
    }
    proof {
        assert(hits@.take(hits@.len() as int) =~= hits@);
    }
    if hit {
        shield.color = Color { r: 65535, g: 65535, b: 65535, a: 32768 };
    }
}

/// Fades the shield's damage flash one step of `delta` microseconds back
/// toward its base color.
pub fn fade_out_damage(shield: &mut Shield, delta: i64)
    requires
        old(shield).wf(),
        0 <= delta <= MAX_STEP,
    ensures
        final(shield).color == faded(old(shield).color, shield_color_base(), delta as int),
        final(shield).wf(),
        final(shield).collider == old(shield).collider,
        final(shield).visible == old(shield).visible,
        final(shield).handle == old(shield).handle,
{
    let base = Color { r: 0, g: 65535, b: 65535, a: 32768 };
    shield.color = fade_toward(shield.color, base, delta);
}

} // verus!
