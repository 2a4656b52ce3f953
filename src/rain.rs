//! Falling drops: spawning, motion, collision with solid targets, splashes,
//! hit reports, and removal.
use vstd::prelude::*;

use crate::geometry::{abs, collide, collision, Collision, Rect, Vec2};
use crate::random::random_in;
use crate::units::{mul_div, LOCAL_LIMIT, MAX_STEP, POS_LIMIT, SECOND, SPAN_LIMIT, UNIT};
use crate::velocity::{moved, update_position, Velocity};

verus! {

/// Drops spawned per sixtieth of a second.
pub const DENSITY: i64 = 32;

/// Speed of a falling drop.
pub const SPEED: i64 = 800_000;

/// Velocity of a falling drop: `SPEED` along the angle of -1.4 radians.
pub const FALL_VELOCITY_X: i64 = 135_974;
pub const FALL_VELOCITY_Y: i64 = -788_360;

/// Half the width and half the height of a drop's collision box.
pub const DROP_HALF_WIDTH: i64 = 4000;
pub const DROP_HALF_HEIGHT: i64 = 6000;

/// How far left of the view drops may spawn, so that slanted rain also
/// covers the left edge.
pub const SPAWN_MARGIN: i64 = 200_000;

/// Narrowest and widest sprite of a new drop.
pub const MIN_DROP_WIDTH: i64 = 4000;
pub const MAX_DROP_WIDTH: i64 = 16_000;

/// How far below the view a drop is removed.
pub const DESPAWN_MARGIN: i64 = 100_000;

/// Vertical scale below which a drop is removed (0.1, in thousandths).
pub const MIN_SCALE_Y: i64 = 100;

/// A splashing drop keeps this many tenths of its vertical scale each step.
pub const SPLASH_KEEP_TENTHS: i64 = 7;

/// Whether a drop is still falling or has splashed. A drop never goes back
/// from `Splashing` to `Falling`.
#[derive(Clone, Copy, Debug, PartialEq, Eq, Structural)]
pub enum RainState {
    Falling,
    Splashing,
}

/// A drop: its state, the position of its center, its velocity, the scale
/// of its sprite (in thousandths) and the width of its sprite.
#[derive(Clone, Copy, Debug, PartialEq, Eq, Structural)]
pub struct Rain {
    pub state: RainState,
    pub position: Vec2,
    pub velocity: Velocity,
    pub scale_x: i64,
    pub scale_y: i64,
    pub width: i64,
}

impl Rain {
    pub open spec fn wf(self) -> bool {
        &&& self.position.within(POS_LIMIT + LOCAL_LIMIT)
        &&& self.velocity.wf()
        &&& 0 <= self.scale_x <= UNIT
        &&& 0 <= self.scale_y <= UNIT
        &&& 0 <= self.width <= LOCAL_LIMIT
    }

    /// The drop's collision box: a fixed rectangle around its center.
    pub open spec fn hit_box(self) -> Rect {
        Rect {
            min: Vec2 {
                x: (self.position.x - DROP_HALF_WIDTH) as i64,
                y: (self.position.y - DROP_HALF_HEIGHT) as i64,
            },
            max: Vec2 {
                x: (self.position.x + DROP_HALF_WIDTH) as i64,
                y: (self.position.y + DROP_HALF_HEIGHT) as i64,
            },
        }
    }

    pub fn rect(&self) -> (r: Rect)
        requires
            self.wf(),
        ensures
            r == self.hit_box(),
            r.wf_within(SPAN_LIMIT as int),
    {
        Rect {
            min: Vec2 {
                x: self.position.x - DROP_HALF_WIDTH,
                y: self.position.y - DROP_HALF_HEIGHT,
            },
            max: Vec2 {
                x: self.position.x + DROP_HALF_WIDTH,
                y: self.position.y + DROP_HALF_HEIGHT,
            },
        }
    }

    /// A new falling drop at `position` with a sprite `width` wide.
    pub open spec fn falling_at(position: Vec2, width: i64) -> Rain {
        Rain {
            state: RainState::Falling,
            position,
            velocity: Velocity(Vec2 { x: FALL_VELOCITY_X, y: FALL_VELOCITY_Y }),
            scale_x: UNIT,
            scale_y: UNIT,
            width,
        }
    }

    pub fn new(position: Vec2, width: i64) -> (r: Rain)
        ensures
            r == Rain::falling_at(position, width),
    {
        Rain {
            state: RainState::Falling,
            position,
            velocity: Velocity(Vec2 { x: FALL_VELOCITY_X, y: FALL_VELOCITY_Y }),
            scale_x: UNIT,
            scale_y: UNIT,
            width,
        }
    }
}

/// Something a drop can strike: a rectangle in world space, whether it is
/// solid, and, for a hit listener, the handle that a hit on it reports.
#[derive(Clone, Copy, Debug, PartialEq, Eq, Structural)]
pub struct Target {
    pub rect: Rect,
    pub solid: bool,
    pub handle: u64,
    pub hit_listener: bool,
}

impl Target {
    pub open spec fn wf(self) -> bool {
        self.rect.wf_within(POS_LIMIT + LOCAL_LIMIT)
    }
}

/// A report that a drop struck the hit listener with the given handle.
#[derive(Clone, Copy, Debug, PartialEq, Eq, Structural)]
pub struct RainHit(pub u64);

/// Drops spawned over `dt` microseconds: `DENSITY` per sixtieth of a
/// second, rounded to the nearest whole drop.
pub open spec fn spawn_count(dt: int) -> int {
    (DENSITY * 60 * dt + SECOND / 2) / SECOND as int
}

/// A freshly spawned drop for the view `view`: falling from the top edge of
/// the view, somewhere from a little left of the view to its right edge,
/// with a sprite between the narrowest and the widest.
pub open spec fn fresh_in(d: Rain, view: Rect) -> bool {
    &&& d.state == RainState::Falling
    &&& view.min.x - SPAWN_MARGIN <= d.position.x < view.max.x
    &&& d.position.y == view.max.y
    &&& MIN_DROP_WIDTH <= d.width <= MAX_DROP_WIDTH
    &&& d == Rain::falling_at(d.position, d.width)
}

/// Spawns the drops due over a step of `delta` microseconds at the top of
/// `view`, after the drops already there.
pub fn spawn_rain(drops: &mut Vec<Rain>, view: &Rect, delta: i64)
    requires
        view.wf(),
        0 <= delta <= MAX_STEP,
        old(drops)@.len() + 200 <= usize::MAX,
    ensures
        final(drops)@.len() == old(drops)@.len() + spawn_count(delta as int),
        final(drops)@.len() <= old(drops)@.len() + 200,
        final(drops)@.subrange(0, old(drops)@.len() as int) == old(drops)@,
        forall|i: int| 0 <= i < old(drops)@.len() ==> #[trigger] final(drops)@[i] == old(drops)@[i],
        forall|i: int|
            old(drops)@.len() <= i < final(drops)@.len() ==> fresh_in(#[trigger] final(drops)@[i], *view),
        forall|i: int| 0 <= i < final(drops)@.len() && old(drops)@.len() <= i ==> (#[trigger] final(drops)@[i]).wf(),
{
    proof {
        assert(0 <= DENSITY * 60 * delta <= 1920 * MAX_STEP) by (nonlinear_arith)
            requires
                DENSITY == 32,
                0 <= delta <= MAX_STEP,
        ;
    }
    let count: i64 = (DENSITY * 60 * delta + SECOND / 2) / SECOND;
    let start: usize = drops.len();
    let mut k: i64 = 0;
    while k < count
        invariant
            0 <= k <= count,
            count == spawn_count(delta as int),
            count <= 200,
            view.wf(),
            drops@.len() == start + k,
            start + 200 <= usize::MAX,
            drops@.subrange(0, start as int) == old(drops)@,
            start == old(drops)@.len(),
            forall|i: int| start <= i < drops@.len() ==> fresh_in(#[trigger] drops@[i], *view),
            forall|i: int| 0 <= i < drops@.len() && start <= i ==> (#[trigger] drops@[i]).wf(),
        decreases count - k,
    {
        let x = random_in(view.min.x - SPAWN_MARGIN, view.max.x);
        let width = random_in(MIN_DROP_WIDTH, MAX_DROP_WIDTH + 1);
        let d = Rain::new(Vec2 { x, y: view.max.y }, width);
        let ghost before = drops@;
        drops.push(d);
        proof {
            assert(drops@.subrange(0, start as int) =~= before.subrange(0, start as int));
        }
        k = k + 1;
    }
    proof {
        assert forall|i: int| 0 <= i < old(drops)@.len() implies #[trigger] drops@[i] == old(drops)@[i] by {
            assert(drops@.subrange(0, start as int)[i] == drops@[i]);
        }
    }
}

/// Least and (exclusive) greatest share, in thousandths, of its horizontal
/// scale that a drop keeps when it splashes.
pub const SPLASH_SHRINK_MIN: i64 = 200;
pub const SPLASH_SHRINK_END: i64 = 600;

/// Bound (exclusive) on the tilt of a splash, in thousandths; a tilt `t`
/// turns the splash `2 atan(t)` away from straight up, so splashes spread
/// over the upper half-plane, most of them near the vertical.
pub const SPLASH_TILT_END: i64 = 1000;

/// Least and (exclusive) greatest share of `SPEED`, in thousandths, of a
/// splash before its spread is taken into account.
pub const SPLASH_SPEED_MIN: i64 = 100;
pub const SPLASH_SPEED_END: i64 = 400;

/// A splash of tilt `t` keeps `(SPLASH_SPREAD - |t|)` thousandths of its
/// speed: the wider the splash, the slower.
pub const SPLASH_SPREAD: i64 = 1300;

/// Least and (exclusive) greatest share, in thousandths, of its horizontal
/// scale that a drop keeps when it starts running down a wall.
pub const RUN_SHRINK_MIN: i64 = 700;
pub const RUN_SHRINK_END: i64 = 900;

/// Bound (exclusive) on how far, in thousandths of a radian, a drop running
/// down a wall leans away from it.
pub const RUN_TILT_END: i64 = 30;

/// Least and (exclusive) greatest share of `SPEED`, in thousandths, of a drop
/// running down a wall.
pub const RUN_SPEED_MIN: i64 = 400;
pub const RUN_SPEED_END: i64 = 800;

/// Draws that make a splash.
pub open spec fn splash_draws(shrink: int, tilt: int, share: int) -> bool {
    &&& SPLASH_SHRINK_MIN <= shrink < SPLASH_SHRINK_END
    &&& -SPLASH_TILT_END < tilt < SPLASH_TILT_END
    &&& SPLASH_SPEED_MIN <= share < SPLASH_SPEED_END
}

/// Draws that make a drop run down a wall.
pub open spec fn run_draws(shrink: int, tilt: int, share: int) -> bool {
    &&& RUN_SHRINK_MIN <= shrink < RUN_SHRINK_END
    &&& 0 <= tilt < RUN_TILT_END
    &&& RUN_SPEED_MIN <= share < RUN_SPEED_END
}

/// Speed of a splash.
pub open spec fn splash_speed(tilt: int, share: int) -> int {
    SPEED * share * (SPLASH_SPREAD - abs(tilt)) / 1_000_000
}

/// Velocity of a splash: the unit vector `(-2t, 1 - t^2) / (1 + t^2)` (for
/// `t` the tilt) scaled by the splash speed, each component rounded toward
/// zero.
pub open spec fn splash_velocity(tilt: int, share: int) -> Vec2 {
    let k = UNIT as int;
    let n = k * k + tilt * tilt;
    let speed = splash_speed(tilt, share);
    Vec2 {
        x: crate::units::trunc_div(-2 * k * tilt * speed, n) as i64,
        y: ((k * k - tilt * tilt) * speed / n) as i64,
    }
}

/// Velocity of a drop running down a wall: nearly straight down, leaning
/// `tilt` thousandths of a radian away from the wall.
pub open spec fn run_velocity(tilt: int, share: int) -> Vec2 {
    let speed = SPEED * share / UNIT as int;
    Vec2 { x: (-(speed * tilt / UNIT as int)) as i64, y: (-speed) as i64 }
}

/// A drop after splashing on a surface whose top edge is at `top`.
pub open spec fn splashed(d: Rain, top: int, shrink: int, tilt: int, share: int) -> Rain {
    Rain {
        state: RainState::Splashing,
        position: Vec2 { x: d.position.x, y: top as i64 },
        velocity: Velocity(splash_velocity(tilt, share)),
        scale_x: (d.scale_x * shrink / UNIT as int) as i64,
        ..d
    }
}

/// A drop after reaching a wall whose left edge is at `left`: still falling,
/// but down along the wall.
pub open spec fn ran_along(d: Rain, left: int, shrink: int, tilt: int, share: int) -> Rain {
    Rain {
        position: Vec2 { x: left as i64, y: d.position.y },
        velocity: Velocity(run_velocity(tilt, share)),
        scale_x: (d.scale_x * shrink / UNIT as int) as i64,
        ..d
    }
}

/// A drop after an unlikely contact (from below or from the right): it stops
/// falling and becomes invisible, to be removed once it has shrunk.
pub open spec fn fizzled(d: Rain) -> Rain {
    Rain { state: RainState::Splashing, scale_x: 0, ..d }
}

/// `after` is a possible outcome of the drop `before` striking `rect` on the
/// side `c`.
pub open spec fn struck(before: Rain, after: Rain, c: Collision, rect: Rect) -> bool {
    match c {
        Collision::Top | Collision::Inside => exists|shrink: int, tilt: int, share: int|
            splash_draws(shrink, tilt, share) && after == #[trigger] splashed(
                before,
                rect.max.y as int,
                shrink,
                tilt,
                share,
            ),
        Collision::Left => exists|shrink: int, tilt: int, share: int|
            run_draws(shrink, tilt, share) && after == #[trigger] ran_along(
                before,
                rect.min.x as int,
                shrink,
                tilt,
                share,
            ),
        _ => after == fizzled(before),
    }
}

proof fn lemma_shrunk_scale(scale: int, shrink: int)
    requires
        0 <= scale <= UNIT,
        0 <= shrink <= UNIT,
    ensures
        0 <= scale * shrink / (UNIT as int) <= scale,
        shrink < UNIT && scale > 0 ==> scale * shrink / (UNIT as int) < scale,
{
    assert(0 <= scale * shrink <= scale * UNIT) by (nonlinear_arith)
        requires
            0 <= scale,
            0 <= shrink <= UNIT,
    ;
    assert(scale * shrink / (UNIT as int) <= scale) by (nonlinear_arith)
        requires
            0 <= scale * shrink <= scale * UNIT,
    ;
    if shrink < UNIT && scale > 0 {
        assert(scale * shrink <= scale * UNIT - scale) by (nonlinear_arith)
            requires
                0 < scale,
                shrink <= UNIT - 1,
        ;
        assert(scale * shrink / (UNIT as int) < scale) by (nonlinear_arith)
            requires
                0 <= scale * shrink <= scale * UNIT - scale,
                scale > 0,
        ;
    }
}

fn splash_velocity_exec(tilt: i64, share: i64) -> (r: Vec2)
    requires
        -SPLASH_TILT_END < tilt < SPLASH_TILT_END,
        SPLASH_SPEED_MIN <= share < SPLASH_SPEED_END,
    ensures
        r == splash_velocity(tilt as int, share as int),
        r.within(crate::units::VEL_LIMIT as int),
{
    let t_abs: i64 = if tilt < 0 {
        -tilt
    } else {
        tilt
    };
    proof {
        assert(0 <= SPEED * share * (SPLASH_SPREAD - t_abs) <= 800_000 * 400 * 1300) by (nonlinear_arith)
            requires
                0 <= share <= 400,
                0 <= SPLASH_SPREAD - t_abs <= 1300,
                SPEED == 800_000,
        ;
    }
    let speed: i64 = SPEED * share * (SPLASH_SPREAD - t_abs) / 1_000_000;
    proof {
        assert(0 <= tilt * tilt < 1_000_000) by (nonlinear_arith)
            requires
                -1000 < tilt < 1000,
        ;
    }
    let n: i64 = UNIT * UNIT + tilt * tilt;
    proof {
        assert(0 <= speed <= 416_000);
        assert(-832_000_000_000 <= -2 * UNIT * tilt * speed <= 832_000_000_000) by (nonlinear_arith)
            requires
                -1000 < tilt < 1000,
                0 <= speed <= 416_000,
                UNIT == 1000,
        ;
        assert(0 <= (UNIT * UNIT - tilt * tilt) * speed <= 416_000_000_000) by (nonlinear_arith)
            requires
                0 <= tilt * tilt < 1_000_000,
                0 <= speed <= 416_000,
                UNIT == 1000,
        ;
        let ax = -2 * UNIT * tilt * speed;
        let ay = (UNIT * UNIT - tilt * tilt) * speed;
        vstd::arithmetic::div_mod::lemma_div_is_ordered_by_denominator(ay, 1_000_000, n as int);
        if ax >= 0 {
            vstd::arithmetic::div_mod::lemma_div_is_ordered_by_denominator(ax, 1_000_000, n as int);
        } else {
            vstd::arithmetic::div_mod::lemma_div_is_ordered_by_denominator(-ax, 1_000_000, n as int);
        }
    }
    proof {
        assert(-2_000_000 <= -2 * UNIT * tilt <= 2_000_000) by (nonlinear_arith)
            requires
                -1000 < tilt < 1000,
                UNIT == 1000,
        ;
    }
    let vx = mul_div(-2 * UNIT * tilt, speed, n);
    let vy = (UNIT * UNIT - tilt * tilt) * speed / n;
    Vec2 { x: vx, y: vy }
}

/// Turns the drop into a splash on top of `rect`, with the given draws.
pub fn splash_against_top_side(rain: &mut Rain, rect: &Rect, shrink: i64, tilt: i64, share: i64)
    requires
        old(rain).wf(),
        rect.wf_within(POS_LIMIT + LOCAL_LIMIT),
        splash_draws(shrink as int, tilt as int, share as int),
    ensures
        *final(rain) == splashed(*old(rain), rect.max.y as int, shrink as int, tilt as int, share as int),
        final(rain).wf(),
{
    proof {
        lemma_shrunk_scale(rain.scale_x as int, shrink as int);
    }
    rain.state = RainState::Splashing;
    rain.position.y = rect.max.y;
    rain.scale_x = rain.scale_x * shrink / UNIT;
    rain.velocity = Velocity(splash_velocity_exec(tilt, share));
}

/// Sends the drop down along the left side of `rect`, with the given draws.
pub fn run_along_left_side(rain: &mut Rain, rect: &Rect, shrink: i64, tilt: i64, share: i64)
    requires
        old(rain).wf(),
        rect.wf_within(POS_LIMIT + LOCAL_LIMIT),
        run_draws(shrink as int, tilt as int, share as int),
    ensures
        *final(rain) == ran_along(*old(rain), rect.min.x as int, shrink as int, tilt as int, share as int),
        final(rain).wf(),
{
    proof {
        lemma_shrunk_scale(rain.scale_x as int, shrink as int);
        assert(0 <= SPEED * share <= 800_000 * 800) by (nonlinear_arith)
            requires
                0 <= share <= 800,
                SPEED == 800_000,
        ;
    }
    let speed: i64 = SPEED * share / UNIT;
    proof {
        assert(0 <= speed * tilt <= 640_000 * 30) by (nonlinear_arith)
            requires
                0 <= speed <= 640_000,
                0 <= tilt <= 30,
        ;
    }
    rain.position.x = rect.min.x;
    rain.scale_x = rain.scale_x * shrink / UNIT;
    rain.velocity = Velocity(Vec2 { x: -(speed * tilt / UNIT), y: -speed });
}

/// Applies the contact of the drop with `rect` on the side `collision`,
/// drawing the random parts of the response.
pub fn handle_collision(collision: Collision, rect: &Rect, rain: &mut Rain)
    requires
        old(rain).wf(),
        rect.wf_within(POS_LIMIT + LOCAL_LIMIT),
    ensures
        struck(*old(rain), *final(rain), collision, *rect),
        final(rain).wf(),
{
    match collision {
        Collision::Top | Collision::Inside => {
            let shrink = random_in(SPLASH_SHRINK_MIN, SPLASH_SHRINK_END);
            let tilt = random_in(-SPLASH_TILT_END + 1, SPLASH_TILT_END);
            let share = random_in(SPLASH_SPEED_MIN, SPLASH_SPEED_END);
            let ghost before = *rain;
            splash_against_top_side(rain, rect, shrink, tilt, share);
            assert(splash_draws(shrink as int, tilt as int, share as int) && *rain == splashed(
                before,
                rect.max.y as int,
                shrink as int,
                tilt as int,
                share as int,
            ));
        },
        Collision::Left => {
            let shrink = random_in(RUN_SHRINK_MIN, RUN_SHRINK_END);
            let tilt = random_in(0, RUN_TILT_END);
            let share = random_in(RUN_SPEED_MIN, RUN_SPEED_END);
            let ghost before = *rain;
            run_along_left_side(rain, rect, shrink, tilt, share);
            assert(run_draws(shrink as int, tilt as int, share as int) && *rain == ran_along(
                before,
                rect.min.x as int,
                shrink as int,
                tilt as int,
                share as int,
            ));
        },
        _ => {
            // Other contacts are very unlikely given the direction of the
            // rain; the drop is hidden and left to the removal rule.
            rain.state = RainState::Splashing;
            rain.scale_x = 0;
        },
    }
}

/// The drop's collision box overlaps the solid target `t`.
pub open spec fn strikes(d: Rain, t: Target) -> bool {
    t.solid && collision(d.hit_box(), t.rect) is Some
}

/// The first target, from index `j` on, that the drop strikes.
pub open spec fn first_strike(d: Rain, targets: Seq<Target>, j: int) -> Option<int>
    decreases targets.len() - j,
{
    if j < 0 || j >= targets.len() {
        None
    } else if strikes(d, targets[j]) {
        Some(j)
    } else {
        first_strike(d, targets, j + 1)
    }
}

/// The drop moved along its velocity for `dt` microseconds.
pub open spec fn drifted(d: Rain, dt: int) -> Rain {
    Rain { position: moved(d.position, d.velocity.0, dt), ..d }
}

/// `after` is a possible outcome of one step of the drop `before`: it moves;
/// then a splashing drop shrinks vertically, and a falling drop responds to
/// the first target it strikes, if any.
pub open spec fn drop_stepped(before: Rain, after: Rain, targets: Seq<Target>, dt: int) -> bool {
    let m = drifted(before, dt);
    match before.state {
        RainState::Splashing => after == Rain {
            scale_y: (m.scale_y * SPLASH_KEEP_TENTHS / 10) as i64,
            ..m
        },
        RainState::Falling => match first_strike(m, targets, 0) {
            None => after == m,
            Some(k) => collision(m.hit_box(), targets[k].rect) matches Some(c) && struck(
                m,
                after,
                c,
                targets[k].rect,
            ),
        },
    }
}

/// The hit that one step of the drop reports: one for a falling drop whose
/// first struck target is a hit listener, none otherwise.
pub open spec fn hit_of(d: Rain, targets: Seq<Target>, dt: int) -> Seq<RainHit> {
    let m = drifted(d, dt);
    if d.state == RainState::Falling && first_strike(m, targets, 0) is Some
        && targets[first_strike(m, targets, 0)->0].hit_listener {
        seq![RainHit(targets[first_strike(m, targets, 0)->0].handle)]
    } else {
        Seq::empty()
    }
}

/// The hits that one step of the drops reports, in the order of the drops.
pub open spec fn hits_of(drops: Seq<Rain>, targets: Seq<Target>, dt: int) -> Seq<RainHit>
    decreases drops.len(),
{
    if drops.len() == 0 {
        Seq::empty()
    } else {
        hits_of(drops.drop_last(), targets, dt) + hit_of(drops.last(), targets, dt)
    }
}

/// Finds the first target that the drop strikes.
fn find_strike(rain: &Rain, targets: &Vec<Target>) -> (r: Option<usize>)
    requires
        rain.wf(),
        forall|j: int| 0 <= j < targets@.len() ==> (#[trigger] targets@[j]).wf(),
    ensures
        r matches Some(k) ==> first_strike(*rain, targets@, 0) == Some(k as int) && k
            < targets@.len() && strikes(*rain, targets@[k as int]),
        r is None ==> first_strike(*rain, targets@, 0) is None,
{
    let drop_rect = rain.rect();
    let mut j: usize = 0;
    while j < targets.len()
        invariant
            0 <= j <= targets@.len(),
            drop_rect == rain.hit_box(),
            drop_rect.wf_within(SPAN_LIMIT as int),
            forall|k: int| 0 <= k < targets@.len() ==> (#[trigger] targets@[k]).wf(),
            first_strike(*rain, targets@, 0) == first_strike(*rain, targets@, j as int),
        decreases targets@.len() - j,
    {
        let target = &targets[j];
        assert(target.wf());
        if target.solid && collide(&drop_rect, &target.rect).is_some() {
            return Some(j);
        }
        j = j + 1;
    }
    None
}

/// Advances every drop one step of `delta` microseconds against `targets`
/// and reports the hits on hit listeners: drops move along their velocity;
/// a splashing drop then shrinks vertically; a falling drop responds to the
/// first solid target it strikes.
pub fn splash_rain(drops: &mut Vec<Rain>, targets: &Vec<Target>, delta: i64) -> (hits: Vec<RainHit>)
    requires
        forall|i: int| 0 <= i < old(drops)@.len() ==> (#[trigger] old(drops)@[i]).wf(),
        forall|j: int| 0 <= j < targets@.len() ==> (#[trigger] targets@[j]).wf(),
        0 <= delta <= MAX_STEP,
    ensures
        final(drops)@.len() == old(drops)@.len(),
        forall|i: int|
            0 <= i < final(drops)@.len() ==> drop_stepped(
                old(drops)@[i],
                #[trigger] final(drops)@[i],
                targets@,
                delta as int,
            ),
        forall|i: int| 0 <= i < final(drops)@.len() ==> (#[trigger] final(drops)@[i]).wf(),
        hits@ == hits_of(old(drops)@, targets@, delta as int),
{
    let mut hits: Vec<RainHit> = Vec::new();
    let mut i: usize = 0;
    while i < drops.len()
        invariant
            0 <= i <= drops@.len(),
            drops@.len() == old(drops)@.len(),
            0 <= delta <= MAX_STEP,
            forall|j: int| 0 <= j < targets@.len() ==> (#[trigger] targets@[j]).wf(),
            forall|k: int| i <= k < drops@.len() ==> drops@[k] == old(drops)@[k],
            forall|k: int| 0 <= k < old(drops)@.len() ==> (#[trigger] old(drops)@[k]).wf(),
            forall|k: int|
                0 <= k < i ==> drop_stepped(
                    old(drops)@[k],
                    #[trigger] drops@[k],
                    targets@,
                    delta as int,
                ),
            forall|k: int| 0 <= k < i ==> (#[trigger] drops@[k]).wf(),
            hits@ == hits_of(old(drops)@.take(i as int), targets@, delta as int),
        decreases drops@.len() - i,
    {
        let mut rain = drops[i];
        let ghost before = rain;
        assert(before == old(drops)@[i as int]);
        update_position(&mut rain.position, rain.velocity, delta);
        assert(rain == drifted(before, delta as int));
        let ghost hits_before = hits@;
        if rain.state == RainState::Splashing {
            rain.scale_y = rain.scale_y * SPLASH_KEEP_TENTHS / 10;
            assert(drop_stepped(before, rain, targets@, delta as int));
        } else {
            match find_strike(&rain, targets) {
                None => {},
                Some(k) => {
                    let target = &targets[k];
                    assert(target.wf());
                    let c = collide(&rain.rect(), &target.rect);
                    let ghost m = rain;
                    assert(first_strike(m, targets@, 0) == Some(k as int));
                    match c {
                        Some(c) => {
                            handle_collision(c, &target.rect, &mut rain);
                            assert(struck(m, rain, c, target.rect));
                            assert(drop_stepped(before, rain, targets@, delta as int));
                        },
                        None => {},
                    }
                    if target.hit_listener {
                        hits.push(RainHit(target.handle));
                    }
                },
            }
        }
        assert(drop_stepped(before, rain, targets@, delta as int));
        proof {
            let taken = old(drops)@.take(i + 1);
            assert(taken.drop_last() =~= old(drops)@.take(i as int));
            assert(taken.last() == before);
            assert(hits@ =~= hits_before + hit_of(before, targets@, delta as int));
        }
        drops.set(i, rain);
        i = i + 1;
    }
    proof {
        assert(old(drops)@.take(old(drops)@.len() as int) =~= old(drops)@);
    }
    hits
}

/// A drop stays in the world: it has not shrunk away and has not fallen
/// too far below the view.
pub open spec fn stays(d: Rain, view: Rect) -> bool {
    d.scale_y >= MIN_SCALE_Y && d.position.y >= view.min.y - DESPAWN_MARGIN
}

/// The drops that stay, in their order.
pub open spec fn survivors(drops: Seq<Rain>, view: Rect) -> Seq<Rain>
    decreases drops.len(),
{
    if drops.len() == 0 {
        Seq::empty()
    } else if stays(drops.last(), view) {
        survivors(drops.drop_last(), view).push(drops.last())
    } else {
        survivors(drops.drop_last(), view)
    }
}

proof fn lemma_survivors_stay(drops: Seq<Rain>, view: Rect)
    ensures
        forall|i: int|
            0 <= i < survivors(drops, view).len() ==> stays(#[trigger] survivors(drops, view)[i], view)
                && drops.contains(survivors(drops, view)[i]),
        survivors(drops, view).len() <= drops.len(),
    decreases drops.len(),
{
    if drops.len() > 0 {
        lemma_survivors_stay(drops.drop_last(), view);
        let prev = survivors(drops.drop_last(), view);
        assert forall|i: int| 0 <= i < prev.len() implies drops.contains(#[trigger] prev[i]) by {
            let j = choose|j: int| 0 <= j < drops.drop_last().len() && drops.drop_last()[j] == prev[i];
            assert(drops[j] == prev[i]);
        }
        assert(drops[drops.len() - 1] == drops.last());
    }
}

/// Removes the drops that have shrunk away (vertical scale under 0.1) or
/// fallen more than a margin below `view`, keeping the order of the rest.
pub fn despawn_finished_rain(drops: &mut Vec<Rain>, view: &Rect)
    requires
        view.wf(),
    ensures
        final(drops)@ == survivors(old(drops)@, *view),
        final(drops)@.len() <= old(drops)@.len(),
        forall|i: int|
            0 <= i < final(drops)@.len() ==> (#[trigger] final(drops)@[i]).scale_y >= MIN_SCALE_Y
                && old(drops)@.contains(final(drops)@[i]),
{
    let mut kept: Vec<Rain> = Vec::new();
    let mut i: usize = 0;
    while i < drops.len()
        invariant
            0 <= i <= drops@.len(),
            drops@ == old(drops)@,
            view.wf(),
            kept@ == survivors(drops@.take(i as int), *view),
        decreases drops@.len() - i,
    {
        let d = drops[i];
        proof {
            let taken = drops@.take(i + 1);
            assert(taken.drop_last() =~= drops@.take(i as int));
            assert(taken.last() == d);
        }
        if d.scale_y >= MIN_SCALE_Y && d.position.y >= view.min.y - DESPAWN_MARGIN {
            kept.push(d);
        }
        i = i + 1;
    }
    proof {
        assert(drops@.take(drops@.len() as int) =~= drops@);
        lemma_survivors_stay(old(drops)@, *view);
    }
    *drops = kept;
}

/// Splashes are final: a step of a splashing drop leaves it splashing, with
/// seven tenths of its vertical scale.
pub proof fn splashing_stays_splashing(before: Rain, after: Rain, targets: Seq<Target>, dt: int)
    requires
        before.state == RainState::Splashing,
        drop_stepped(before, after, targets, dt),
    ensures
        after.state == RainState::Splashing,
        after.scale_y == before.scale_y * SPLASH_KEEP_TENTHS / 10,
{
}

/// A falling drop whose first struck target it reaches from above (or from
/// inside) splashes: it lands on the target's top edge, and its horizontal
/// scale shrinks (strictly, unless it was already zero).
pub proof fn falling_drop_splashes_on_top(
    before: Rain,
    after: Rain,
    targets: Seq<Target>,
    dt: int,
    k: int,
)
    requires
        before.wf(),
        before.state == RainState::Falling,
        drop_stepped(before, after, targets, dt),
        first_strike(drifted(before, dt), targets, 0) == Some(k),
        collision(drifted(before, dt).hit_box(), targets[k].rect) == Some(Collision::Top)
            || collision(drifted(before, dt).hit_box(), targets[k].rect) == Some(Collision::Inside),
    ensures
        after.state == RainState::Splashing,
        after.position.y == targets[k].rect.max.y,
        after.scale_x <= before.scale_x,
        before.scale_x > 0 ==> after.scale_x < before.scale_x,
{
    let m = drifted(before, dt);
    let rect = targets[k].rect;
    let (shrink, tilt, share) = choose|shrink: int, tilt: int, share: int|
        splash_draws(shrink, tilt, share) && after == #[trigger] splashed(
            m,
            rect.max.y as int,
            shrink,
            tilt,
            share,
        );
    lemma_shrunk_scale(m.scale_x as int, shrink);
}

/// The vertical scale of a splashing drop after `n` steps.
pub open spec fn shrunk_after(scale: int, n: nat) -> int
    decreases n,
{
    if n == 0 {
        scale
    } else {
        shrunk_after(scale, (n - 1) as nat) * SPLASH_KEEP_TENTHS / 10
    }
}

/// Splashes end: from any vertical scale up to 1, seven steps of splashing
/// take the scale under the removal threshold, so a splashing drop is
/// removed after at most seven steps.
pub proof fn splash_ends_within_seven_steps(scale: int)
    requires
        0 <= scale <= UNIT,
    ensures
        shrunk_after(scale, 7) < MIN_SCALE_Y,
{
    reveal_with_fuel(shrunk_after, 8);
}

} // verus!
