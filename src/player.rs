//! The player controller: horizontal acceleration, the jump state machine,
//! and collision resolution against the level.
use vstd::prelude::*;

use crate::color::{fade_toward, faded, Color};
use crate::health::{game_overs, health_after, hits_on, take_hits, Health};
use crate::rain::RainHit;
use crate::geometry::{collide, collision, Collider, Collision, Rect, Vec2};
use crate::level::{Level, LevelBundle};
use crate::units::{
    lemma_toward_between, mul_div, scaled, toward, LOCAL_LIMIT, MAX_STEP, POS_LIMIT, RATIO_ONE,
    SECOND, UNIT, VEL_LIMIT,
};
use crate::velocity::{moved, update_position, Velocity};

verus! {

/// Horizontal speed at full intent.
pub const X_SPEED: i64 = 200_000;

/// Rate of the horizontal approach while the player pushes, per second.
pub const ACCELERATION_X: i64 = 10;

/// Rate of the horizontal approach while the player lets go, per second.
pub const DECELERATION_X: i64 = 15;

/// Upward speed at the start of a jump.
pub const JUMP_SPEED: i64 = 400_000;

/// Gravity while jumping, per second.
pub const JUMP_GRAVITY: i64 = -1_000_000;

/// Fastest fall.
pub const FALL_SPEED: i64 = 400_000;

/// Gravity while falling, per second.
pub const FALL_GRAVITY: i64 = -1_000_000;

/// Vertical speed while standing, which keeps the player pressed against
/// the ground for the next collision test.
pub const REST_SPEED: i64 = -1000;

/// Jump power lost per second when the player no longer pushes up, in
/// millionths.
pub const JUMP_DECAY: i64 = 900_000;

/// How much less jump power is lost per second, in millionths, for each
/// thousandth of upward intent.
pub const JUMP_HOLD: i64 = 850;

/// Width and height of the player.
pub const PLAYER_SIZE: i64 = 32_000;

/// The player's color at rest.
pub open spec fn player_color_base() -> Color {
    Color { r: 0, g: 32768, b: 52428, a: 65535 }
}

/// The player's color right after a hit.
pub open spec fn player_color_hit() -> Color {
    Color { r: 32768, g: 12452, b: 24903, a: 65535 }
}

/// The vertical state of the player. `Jumping` carries the remaining jump
/// power, in millionths.
#[derive(Clone, Copy, Debug, PartialEq, Eq, Structural)]
pub enum JumpState {
    Grounded,
    Jumping(i64),
    Falling,
}

/// A vertical speed and jump state that belong together: a jump has power
/// in `(0, 1]` and is not moving down.
pub open spec fn vertical_ok(vy: int, state: JumpState) -> bool {
    match state {
        JumpState::Jumping(p) => 0 < p <= RATIO_ONE && vy >= 0,
        _ => true,
    }
}

/// A movement intent: both axes within `[-1, 1]`, in thousandths.
pub open spec fn intent_ok(intent: Vec2) -> bool {
    intent.within(UNIT as int)
}

/// The horizontal speed aimed at for an intent.
pub open spec fn horizontal_target(ix: int) -> int {
    ix * X_SPEED / UNIT as int
}

/// The rate of approach for an intent, per second.
pub open spec fn horizontal_rate(ix: int) -> int {
    if ix == 0 {
        DECELERATION_X as int
    } else {
        ACCELERATION_X as int
    }
}

/// The horizontal speed after a step of `dt` microseconds: an exponential
/// approach toward the target, by the share `rate * dt` of the gap.
pub open spec fn horizontal_velocity(v: int, ix: int, dt: int) -> int {
    toward(v, horizontal_target(ix), horizontal_rate(ix) * dt)
}

/// Computes the horizontal speed after a step of `delta` microseconds.
pub fn get_velocity_x(velocity_x: i64, movement_x: i64, delta: i64) -> (r: i64)
    requires
        -VEL_LIMIT <= velocity_x <= VEL_LIMIT,
        -UNIT <= movement_x <= UNIT,
        0 <= delta <= MAX_STEP,
    ensures
        r == horizontal_velocity(velocity_x as int, movement_x as int, delta as int),
        -VEL_LIMIT <= r <= VEL_LIMIT,
{
    let rate: i64 = if movement_x == 0 {
        DECELERATION_X
    } else {
        ACCELERATION_X
    } * delta;
    let target: i64 = movement_x * X_SPEED / UNIT;
    proof {
        lemma_toward_between(velocity_x as int, target as int, rate as int);
        assert(-0x4000_0000_0000_0000 <= (target - velocity_x) * rate <= 0x4000_0000_0000_0000)
            by (nonlinear_arith)
            requires
                -2 * VEL_LIMIT <= target - velocity_x <= 2 * VEL_LIMIT,
                0 <= rate <= RATIO_ONE,
        ;
    }
    velocity_x + mul_div(target - velocity_x, rate, SECOND)
}

/// Jump power lost over `dt` microseconds while the upward intent is `iy`,
/// in millionths.
pub open spec fn jump_power_loss(iy: int, dt: int) -> int {
    (JUMP_DECAY - JUMP_HOLD * iy) * dt / SECOND as int
}

/// Jump power after a step.
pub open spec fn decayed_power(p: int, iy: int, dt: int) -> int {
    p * (RATIO_ONE - jump_power_loss(iy, dt)) / RATIO_ONE as int
}

/// Vertical speed and jump state after a step of `dt` microseconds with
/// vertical intent `iy`.
pub open spec fn vertical_velocity(v: int, iy: int, state: JumpState, dt: int) -> (int, JumpState) {
    match state {
        JumpState::Grounded => if iy > 0 {
            (JUMP_SPEED as int, JumpState::Jumping(RATIO_ONE))
        } else {
            (REST_SPEED as int, JumpState::Grounded)
        },
        JumpState::Jumping(p) => if iy < 0 {
            (0, JumpState::Falling)
        } else {
            let p2 = decayed_power(p as int, iy, dt);
            let v2 = scaled(v, p2, RATIO_ONE as int) + scaled(JUMP_GRAVITY as int, dt, SECOND as int);
            (v2, if v2 >= 0 {
                JumpState::Jumping(p2 as i64)
            } else {
                JumpState::Falling
            })
        },
        JumpState::Falling => {
            let v2 = v + scaled(FALL_GRAVITY as int, dt, SECOND as int);
            (if v2 < -FALL_SPEED {
                -FALL_SPEED as int
            } else {
                v2
            }, JumpState::Falling)
        },
    }
}

proof fn lemma_power_decay(p: int, iy: int, dt: int)
    requires
        0 < p <= RATIO_ONE,
        0 <= iy <= UNIT,
        0 <= dt <= MAX_STEP,
    ensures
        0 <= jump_power_loss(iy, dt) < RATIO_ONE,
        0 <= decayed_power(p, iy, dt) <= p,
        dt == 0 ==> decayed_power(p, iy, dt) == p,
        jump_power_loss(iy, dt) > 0 ==> decayed_power(p, iy, dt) < p,
{
    let c = JUMP_DECAY - JUMP_HOLD * iy;
    assert(50_000 <= c <= JUMP_DECAY);
    assert(0 <= c * dt <= JUMP_DECAY * MAX_STEP) by (nonlinear_arith)
        requires
            50_000 <= c <= JUMP_DECAY,
            0 <= dt <= MAX_STEP,
    ;
    let loss = jump_power_loss(iy, dt);
    assert(0 <= loss < RATIO_ONE);
    assert(0 <= p * (RATIO_ONE - loss) <= p * RATIO_ONE) by (nonlinear_arith)
        requires
            0 < p,
            0 <= loss < RATIO_ONE,
    ;
    assert((p * RATIO_ONE) / (RATIO_ONE as int) == p) by (nonlinear_arith);
    assert((p * (RATIO_ONE - loss)) / (RATIO_ONE as int) <= (p * RATIO_ONE) / (RATIO_ONE as int))
        by (nonlinear_arith)
        requires
            0 <= p * (RATIO_ONE - loss) <= p * RATIO_ONE,
    ;
    if loss > 0 {
        assert(p * (RATIO_ONE - loss) <= p * RATIO_ONE - 1) by (nonlinear_arith)
            requires
                0 < p,
                0 < loss,
        ;
        assert((p * (RATIO_ONE - loss)) / (RATIO_ONE as int) < p) by (nonlinear_arith)
            requires
                0 <= p * (RATIO_ONE - loss) <= p * RATIO_ONE - 1,
        ;
    }
    if dt == 0 {
        assert(c * dt == 0) by (nonlinear_arith)
            requires
                dt == 0,
        ;
    }
}

/// Computes the vertical speed and jump state after a step of `delta`
/// microseconds.
pub fn get_velocity_y(velocity_y: i64, movement_y: i64, jump_state: &JumpState, delta: i64) -> (r: (
    i64,
    JumpState,
))
    requires
        -VEL_LIMIT <= velocity_y <= VEL_LIMIT,
        -UNIT <= movement_y <= UNIT,
        0 <= delta <= MAX_STEP,
        vertical_ok(velocity_y as int, *jump_state),
    ensures
        (r.0 as int, r.1) == vertical_velocity(
            velocity_y as int,
            movement_y as int,
            *jump_state,
            delta as int,
        ),
        -VEL_LIMIT <= r.0 <= VEL_LIMIT,
        vertical_ok(r.0 as int, r.1),
{
    match jump_state {
        JumpState::Grounded => {
            if movement_y > 0 {
                (JUMP_SPEED, JumpState::Jumping(RATIO_ONE))
            } else {
                (REST_SPEED, JumpState::Grounded)
            }
        },
        JumpState::Jumping(jump_power) => {
            if movement_y < 0 {
                (0, JumpState::Falling)
            } else {
                let p = *jump_power;
                proof {
                    lemma_power_decay(p as int, movement_y as int, delta as int);
                    assert(0 <= (JUMP_DECAY - JUMP_HOLD * movement_y) * delta <= JUMP_DECAY
                        * MAX_STEP) by (nonlinear_arith)
                        requires
                            50_000 <= JUMP_DECAY - JUMP_HOLD * movement_y <= JUMP_DECAY,
                            0 <= delta <= MAX_STEP,
                    ;
                }
                let loss: i64 = (JUMP_DECAY - JUMP_HOLD * movement_y) * delta / SECOND;
                proof {
                    assert(0 <= p * (RATIO_ONE - loss) <= RATIO_ONE * RATIO_ONE) by (nonlinear_arith)
                        requires
                            0 < p <= RATIO_ONE,
                            0 <= loss < RATIO_ONE,
                    ;
                }
                let new_power: i64 = p * (RATIO_ONE - loss) / RATIO_ONE;
                proof {
                    assert(0 <= velocity_y * new_power <= VEL_LIMIT * RATIO_ONE) by (nonlinear_arith)
                        requires
                            0 <= velocity_y <= VEL_LIMIT,
                            0 <= new_power <= RATIO_ONE,
                    ;
                    crate::units::lemma_trunc_div_bounds(velocity_y * new_power, RATIO_ONE as int);
                    assert((velocity_y * new_power) / (RATIO_ONE as int) <= velocity_y)
                        by (nonlinear_arith)
                        requires
                            0 <= velocity_y,
                            0 <= new_power <= RATIO_ONE,
                    ;
                    crate::units::lemma_trunc_div_bounds(JUMP_GRAVITY * delta, SECOND as int);
                    if new_power == 0 {
                        assert(velocity_y * new_power == 0) by (nonlinear_arith)
                            requires
                                new_power == 0,
                        ;
                    }
                }
                let carried = mul_div(velocity_y, new_power, RATIO_ONE);
                let new_velocity_y = carried + mul_div(JUMP_GRAVITY, delta, SECOND);
                if new_velocity_y >= 0 {
                    (new_velocity_y, JumpState::Jumping(new_power))
                } else {
                    (new_velocity_y, JumpState::Falling)
                }
            }
        },
        JumpState::Falling => {
            proof {
                crate::units::lemma_trunc_div_bounds(FALL_GRAVITY * delta, SECOND as int);
            }
            let v2 = velocity_y + mul_div(FALL_GRAVITY, delta, SECOND);
            if v2 < -FALL_SPEED {
                (-FALL_SPEED, JumpState::Falling)
            } else {
                (v2, JumpState::Falling)
            }
        },
    }
}

/// The player: its jump state, where its bottom-center point stands, its
/// velocity, its collider (in local space, relative to that point), its
/// sprite color and the handle by which drops report hits on it.
#[derive(Clone, Copy, Debug, PartialEq, Eq, Structural)]
pub struct Player {
    pub jump_state: JumpState,
    pub position: Vec2,
    pub velocity: Velocity,
    pub collider: Collider,
    pub color: Color,
    pub handle: u64,
}

impl Player {
    pub open spec fn wf(self) -> bool {
        &&& self.collider.wf()
        &&& self.position.within(POS_LIMIT as int)
        &&& self.velocity.wf()
        &&& vertical_ok(self.velocity.0.y as int, self.jump_state)
        &&& self.color.wf()
    }

    /// The center of the player's body, relative to its bottom-center point.
    pub fn local_center() -> (r: Vec2)
        ensures
            r == (Vec2 { x: 0, y: 16_000i64 }),
    {
        Vec2 { x: 0, y: PLAYER_SIZE / 2 }
    }

    /// A player standing still at `position`, about to fall, with the base
    /// color.
    pub fn spawn(position: Vec2, handle: u64) -> (r: Player)
        requires
            position.within(POS_LIMIT as int),
        ensures
            r.wf(),
            r.jump_state == JumpState::Falling,
            r.position == position,
            r.velocity.0 == (Vec2 { x: 0, y: 0 }),
            r.collider.solid,
            r.collider.local_rect == (Rect {
                min: Vec2 { x: -16_000i64, y: 0 },
                max: Vec2 { x: 16_000i64, y: PLAYER_SIZE },
            }),
            r.color == player_color_base(),
            r.handle == handle,
    {
        let size = Vec2 { x: PLAYER_SIZE, y: PLAYER_SIZE };
        Player {
            jump_state: JumpState::Falling,
            position,
            velocity: Velocity(Vec2 { x: 0, y: 0 }),
            collider: Collider::from_center_size(Player::local_center(), size),
            color: Color { r: 0, g: 32768, b: 52428, a: 65535 },
            handle,
        }
    }
}

/// The player's movement while its collisions are being resolved; `grounded`
/// records whether some contact has put it on the ground.
pub struct Motion {
    pub position: Vec2,
    pub velocity: Vec2,
    pub jump_state: JumpState,
    pub grounded: bool,
}

impl Motion {
    pub open spec fn wf(self) -> bool {
        &&& self.position.within(POS_LIMIT as int)
        &&& self.velocity.within(VEL_LIMIT as int)
        &&& vertical_ok(self.velocity.y as int, self.jump_state)
    }
}

/// The resolution of one contact between the player's collider (`local`,
/// placed at the motion's position) and the rectangle `block`: from above or
/// inside, the player lands on top of the block; from below, it is pushed
/// under it; from a side, it is pushed out beside it. The speed along the
/// axis of contact drops to zero.
pub open spec fn resolve_contact(m: Motion, local: Rect, block: Rect) -> Motion {
    match collision(local.translated(m.position), block) {
        None => m,
        Some(Collision::Top) | Some(Collision::Inside) => Motion {
            position: Vec2 { x: m.position.x, y: (block.max.y - local.min.y) as i64 },
            velocity: Vec2 { x: m.velocity.x, y: 0 },
            jump_state: JumpState::Grounded,
            grounded: true,
        },
        Some(Collision::Bottom) => Motion {
            position: Vec2 { x: m.position.x, y: (block.min.y - local.max.y) as i64 },
            velocity: Vec2 { x: m.velocity.x, y: 0 },
            ..m
        },
        Some(Collision::Left) => Motion {
            position: Vec2 { x: (block.min.x - local.max.x) as i64, y: m.position.y },
            velocity: Vec2 { x: 0, y: m.velocity.y },
            ..m
        },
        Some(Collision::Right) => Motion {
            position: Vec2 { x: (block.max.x - local.min.x) as i64, y: m.position.y },
            velocity: Vec2 { x: 0, y: m.velocity.y },
            ..m
        },
    }
}

/// The contacts with every solid block resolved in turn; a later contact
/// may override an earlier one.
pub open spec fn resolve_all(m: Motion, local: Rect, blocks: Seq<LevelBundle>) -> Motion
    decreases blocks.len(),
{
    if blocks.len() == 0 {
        m
    } else {
        let before = resolve_all(m, local, blocks.drop_last());
        let block = blocks.last();
        if block.collider.solid {
            resolve_contact(before, local, block.world_rect())
        } else {
            before
        }
    }
}

/// The player's movement after the velocity update, before any contact.
pub open spec fn tentative_motion(p: Player, intent: Vec2, dt: int) -> Motion {
    let vx = horizontal_velocity(p.velocity.0.x as int, intent.x as int, dt);
    let (vy, state) = vertical_velocity(p.velocity.0.y as int, intent.y as int, p.jump_state, dt);
    let v = Vec2 { x: vx as i64, y: vy as i64 };
    Motion { position: moved(p.position, v, dt), velocity: v, jump_state: state, grounded: false }
}

/// The player after one step of the controller: velocity update, predicted
/// position, contacts with the level, and a fall for a player that was
/// standing but found no ground.
pub open spec fn controlled(p: Player, intent: Vec2, dt: int, blocks: Seq<LevelBundle>) -> Player {
    let m0 = tentative_motion(p, intent, dt);
    let m = resolve_all(m0, p.collider.local_rect, blocks);
    Player {
        jump_state: if !m.grounded && m0.jump_state == JumpState::Grounded {
            JumpState::Falling
        } else {
            m.jump_state
        },
        position: m.position,
        velocity: Velocity(m.velocity),
        ..p
    }
}

proof fn lemma_resolve_contact_wf(m: Motion, local: Rect, block: LevelBundle)
    requires
        m.wf(),
        local.wf_within(LOCAL_LIMIT as int),
        block.wf(),
    ensures
        resolve_contact(m, local, block.world_rect()).wf(),
{
}

/// Runs the player controller for one step of `delta` microseconds with the
/// movement intent `movement` against the blocks of `level`.
pub fn update_velocity(player: &mut Player, movement: Vec2, delta: i64, level: &Level)
    requires
        old(player).wf(),
        intent_ok(movement),
        0 <= delta <= MAX_STEP,
        level.wf(),
    ensures
        *final(player) == controlled(*old(player), movement, delta as int, level.blocks@),
        final(player).wf(),
{
    let new_velocity_x = get_velocity_x(player.velocity.0.x, movement.x, delta);
    let (new_velocity_y, tentative_state) = get_velocity_y(
        player.velocity.0.y,
        movement.y,
        &player.jump_state,
        delta,
    );
    let mut velocity = Vec2 { x: new_velocity_x, y: new_velocity_y };
    let mut position = player.position;
    update_position(&mut position, Velocity(velocity), delta);
    let mut jump_state = tentative_state;
    let mut grounded = false;
    let local = player.collider.local_rect;
    let ghost m0 = Motion { position, velocity, jump_state, grounded };
    proof {
        assert(m0 == tentative_motion(*old(player), movement, delta as int));
    }
    let mut i: usize = 0;
    while i < level.blocks.len()
        invariant
            0 <= i <= level.blocks@.len(),
            level.wf(),
            local.wf_within(LOCAL_LIMIT as int),
            (Motion { position, velocity, jump_state, grounded }) == resolve_all(
                m0,
                local,
                level.blocks@.take(i as int),
            ),
            (Motion { position, velocity, jump_state, grounded }).wf(),
        decreases level.blocks@.len() - i,
    {
        let block = &level.blocks[i];
        let ghost before = Motion { position, velocity, jump_state, grounded };
        proof {
            assert(level.blocks@.take(i + 1).drop_last() =~= level.blocks@.take(i as int));
            assert(level.blocks@.take(i + 1).last() == *block);
            assert(block.wf());
            lemma_resolve_contact_wf(before, local, *block);
        }
        if block.collider.solid {
            let player_rect = local.translate(position);
            let level_rect = block.rect();
            match collide(&player_rect, &level_rect) {
                None => {},
                Some(Collision::Top) | Some(Collision::Inside) => {
                    velocity.y = 0;
                    jump_state = JumpState::Grounded;
                    grounded = true;
                    position.y = level_rect.max.y - local.min.y;
                },
                Some(Collision::Bottom) => {
                    velocity.y = 0;
                    position.y = level_rect.min.y - local.max.y;
                },
                Some(Collision::Left) => {
                    velocity.x = 0;
                    position.x = level_rect.min.x - local.max.x;
                },
                Some(Collision::Right) => {
                    velocity.x = 0;
                    position.x = level_rect.max.x - local.min.x;
                },
            }
        }
        i = i + 1;
    }
    proof {
        assert(level.blocks@.take(level.blocks@.len() as int) =~= level.blocks@);
    }
    if !grounded && tentative_state == JumpState::Grounded {
        jump_state = JumpState::Falling;
    }
    player.position = position;
    player.velocity = Velocity(velocity);
    player.jump_state = jump_state;
}

/// The horizontal speed after `n` steps at a fixed intent and step length.
pub open spec fn horizontal_after(v: int, ix: int, dt: int, n: nat) -> int
    decreases n,
{
    if n == 0 {
        v
    } else {
        horizontal_velocity(horizontal_after(v, ix, dt, (n - 1) as nat), ix, dt)
    }
}

/// Horizontal convergence: at a fixed intent and step length, every step
/// leaves the speed between where it was and the target speed, so repeated
/// steps approach the target monotonically and never overshoot it; a step
/// whose exact size is at least one unit strictly gains on the target.
pub proof fn horizontal_velocity_converges(v: int, ix: int, dt: int, n: nat)
    requires
        -UNIT <= ix <= UNIT,
        0 <= dt <= MAX_STEP,
    ensures
        horizontal_after(v, ix, dt, n) <= horizontal_target(ix) ==> horizontal_after(v, ix, dt, n)
            <= horizontal_after(v, ix, dt, n + 1) <= horizontal_target(ix),
        horizontal_target(ix) <= horizontal_after(v, ix, dt, n) ==> horizontal_target(ix)
            <= horizontal_after(v, ix, dt, n + 1) <= horizontal_after(v, ix, dt, n),
        (horizontal_target(ix) - horizontal_after(v, ix, dt, n)) * (horizontal_rate(ix) * dt)
            >= RATIO_ONE ==> horizontal_after(v, ix, dt, n) < horizontal_after(v, ix, dt, n + 1),
        (horizontal_after(v, ix, dt, n) - horizontal_target(ix)) * (horizontal_rate(ix) * dt)
            >= RATIO_ONE ==> horizontal_after(v, ix, dt, n + 1) < horizontal_after(v, ix, dt, n),
{
    let a = horizontal_after(v, ix, dt, n);
    assert(horizontal_after(v, ix, dt, n + 1) == horizontal_velocity(a, ix, dt));
    let rate = horizontal_rate(ix);
    assert(0 <= rate * dt <= RATIO_ONE) by (nonlinear_arith)
        requires
            0 <= rate <= DECELERATION_X,
            0 <= dt <= MAX_STEP,
    ;
    lemma_toward_between(a, horizontal_target(ix), rate * dt);
}

/// Jump start: a grounded player pushing up leaves the ground at full jump
/// speed with full jump power.
pub proof fn jump_starts_at_full_power(v: int, iy: int, dt: int)
    requires
        0 < iy <= UNIT,
    ensures
        vertical_velocity(v, iy, JumpState::Grounded, dt) == (
            JUMP_SPEED as int,
            JumpState::Jumping(RATIO_ONE),
        ),
{
}

/// Shortest step, in microseconds, over which a held jump loses a visible
/// amount of power.
pub const MIN_DECAY_STEP: i64 = 20;

/// Held jump: while the player keeps pushing up (or merely does not cancel),
/// every step either ends the jump in a fall or leaves strictly less jump
/// power than before.
pub proof fn held_jump_loses_power(v: int, power: i64, iy: int, dt: int)
    requires
        0 < power <= RATIO_ONE,
        0 <= iy <= UNIT,
        MIN_DECAY_STEP <= dt <= MAX_STEP,
    ensures
        match vertical_velocity(v, iy, JumpState::Jumping(power), dt).1 {
            JumpState::Jumping(p2) => 0 <= p2 < power,
            JumpState::Falling => true,
            JumpState::Grounded => false,
        },
{
    lemma_power_decay(power as int, iy, dt);
    let c = JUMP_DECAY - JUMP_HOLD * iy;
    assert(c * dt >= SECOND) by (nonlinear_arith)
        requires
            c >= 50_000,
            dt >= MIN_DECAY_STEP,
    ;
    assert(jump_power_loss(iy, dt) >= 1);
}

/// Falling: once falling, the vertical speed never increases from one step
/// to the next, and it is held at `-FALL_SPEED` once it gets there.
pub proof fn fall_speed_is_non_increasing(v: int, iy: int, dt: int)
    requires
        -FALL_SPEED <= v,
        0 <= dt,
    ensures
        vertical_velocity(v, iy, JumpState::Falling, dt).1 == JumpState::Falling,
        -FALL_SPEED <= vertical_velocity(v, iy, JumpState::Falling, dt).0 <= v,
{
    let g = FALL_GRAVITY * dt;
    assert(g <= 0) by (nonlinear_arith)
        requires
            g == FALL_GRAVITY * dt,
            FALL_GRAVITY < 0,
            dt >= 0,
    ;
    crate::units::lemma_trunc_div_bounds(g, SECOND as int);
    assert(scaled(FALL_GRAVITY as int, dt, SECOND as int) <= 0);
}

/// Grounded snap: when the predicted position overlaps a solid block from
/// above (or lies inside it), the controller puts the player's bottom edge
/// exactly on the block's top edge, stops its vertical motion and grounds it.
pub proof fn landing_snaps_to_top(p: Player, intent: Vec2, dt: int, block: LevelBundle)
    requires
        p.wf(),
        intent_ok(intent),
        0 <= dt <= MAX_STEP,
        block.wf(),
        block.collider.solid,
        collision(
            p.collider.world_rect(tentative_motion(p, intent, dt).position),
            block.world_rect(),
        ) == Some(Collision::Top) || collision(
            p.collider.world_rect(tentative_motion(p, intent, dt).position),
            block.world_rect(),
        ) == Some(Collision::Inside),
    ensures
        controlled(p, intent, dt, seq![block]).position.y + p.collider.local_rect.min.y
            == block.world_rect().max.y,
        controlled(p, intent, dt, seq![block]).velocity.0.y == 0,
        controlled(p, intent, dt, seq![block]).jump_state == JumpState::Grounded,
{
    let blocks = seq![block];
    let m0 = tentative_motion(p, intent, dt);
    let local = p.collider.local_rect;
    assert(blocks.drop_last() =~= Seq::<LevelBundle>::empty());
    assert(blocks.last() == block);
    assert(resolve_all(m0, local, blocks.drop_last()) == m0);
    assert(resolve_all(m0, local, blocks) == resolve_contact(m0, local, block.world_rect()));
}

/// Applies the hits among `hits` that name the player: each costs one hit
/// point and flashes the player while any point is left; each one that
/// arrives at zero health is a game-over signal instead. Returns the number
/// of game-over signals.
pub fn get_hit_by_rain(player: &mut Player, health: &mut Health, hits: &Vec<RainHit>) -> (r: usize)
    requires
        old(health).wf(),
    ensures
        final(health).wf(),
        final(health).0 == health_after(
            old(health).0 as int,
            hits_on(hits@, old(player).handle) as int,
        ),
        r == game_overs(old(health).0 as int, hits_on(hits@, old(player).handle) as int),
        *final(player) == (Player {
            color: if old(health).0 > 0 && hits_on(hits@, old(player).handle) > 0 {
                player_color_hit()
            } else {
                old(player).color
            },
            ..*old(player)
        }),
{
    let (game_over, hurt) = take_hits(health, hits, player.handle);
    if hurt {
        player.color = Color { r: 32768, g: 12452, b: 24903, a: 65535 };
    }
    game_over
}

/// Fades the player's damage flash one step of `delta` microseconds back
/// toward its base color.
pub fn fade_out_damage(player: &mut Player, delta: i64)
    requires
        old(player).wf(),
        0 <= delta <= MAX_STEP,
    ensures
        *final(player) == (Player {
            color: faded(old(player).color, player_color_base(), delta as int),
            ..*old(player)
        }),
        final(player).wf(),
{
    let base = Color { r: 0, g: 32768, b: 52428, a: 65535 };
    player.color = fade_toward(player.color, base, delta);
}

} // verus!
