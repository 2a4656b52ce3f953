//! Sprite colors with 16-bit channels, and the damage flash that fades a
//! color back to its base.
use vstd::prelude::*;

use crate::units::{lemma_toward_between, toward, RATIO_ONE};
use crate::geometry::abs;

verus! {

/// Full intensity of a color channel.
pub const CHANNEL_MAX: i64 = 65535;

/// One step of an 8-bit channel (1/255 of full intensity): channels closer
/// than this are indistinguishable on screen.
pub const CHANNEL_STEP: i64 = 257;

/// Rate at which a damage flash fades toward the base color, per second.
pub const FADE_RATE: i64 = 3;

/// A color with red, green, blue and alpha channels in `[0, CHANNEL_MAX]`.
#[derive(Clone, Copy, Debug, PartialEq, Eq, Structural)]
pub struct Color {
    pub r: i64,
    pub g: i64,
    pub b: i64,
    pub a: i64,
}

pub open spec fn channel_ok(c: i64) -> bool {
    0 <= c <= CHANNEL_MAX
}

impl Color {
    pub open spec fn wf(self) -> bool {
        channel_ok(self.r) && channel_ok(self.g) && channel_ok(self.b) && channel_ok(self.a)
    }

    pub fn rgba(r: i64, g: i64, b: i64, a: i64) -> (c: Color)
        ensures
            c == (Color { r, g, b, a }),
    {
        Color { r, g, b, a }
    }
}

/// Two channels differ by less than one visible step.
pub open spec fn channels_close(a: int, b: int) -> bool {
    abs(a - b) < CHANNEL_STEP
}

/// The colors look the same: every color channel (alpha aside) is within
/// one visible step.
pub open spec fn look_alike(lhs: Color, rhs: Color) -> bool {
    channels_close(lhs.r as int, rhs.r as int) && channels_close(lhs.g as int, rhs.g as int)
        && channels_close(lhs.b as int, rhs.b as int)
}

fn channel_close(a: i64, b: i64) -> (r: bool)
    requires
        channel_ok(a),
        channel_ok(b),
    ensures
        r == channels_close(a as int, b as int),
{
    let d: i64 = if a >= b {
        a - b
    } else {
        b - a
    };
    d < CHANNEL_STEP
}

/// Whether the two colors look the same.
pub fn colors_equal(lhs: Color, rhs: Color) -> (r: bool)
    requires
        lhs.wf(),
        rhs.wf(),
    ensures
        r == look_alike(lhs, rhs),
{
    channel_close(lhs.r, rhs.r) && channel_close(lhs.g, rhs.g) && channel_close(lhs.b, rhs.b)
}

/// The channel `t` of the way from `a` to `b` (`t` in millionths).
pub open spec fn lerp_channel(a: int, b: int, t: int) -> int {
    toward(a, b, t)
}

/// The color `t` of the way from `lhs` to `rhs`, channel by channel.
pub open spec fn lerp(lhs: Color, rhs: Color, t: int) -> Color {
    Color {
        r: lerp_channel(lhs.r as int, rhs.r as int, t) as i64,
        g: lerp_channel(lhs.g as int, rhs.g as int, t) as i64,
        b: lerp_channel(lhs.b as int, rhs.b as int, t) as i64,
        a: lerp_channel(lhs.a as int, rhs.a as int, t) as i64,
    }
}

fn lerp_channel_exec(a: i64, b: i64, t: i64) -> (r: i64)
    requires
        channel_ok(a),
        channel_ok(b),
        0 <= t <= RATIO_ONE,
    ensures
        r == lerp_channel(a as int, b as int, t as int),
        channel_ok(r),
{
    proof {
        lemma_toward_between(a as int, b as int, t as int);
        assert(-0x4000_0000_0000_0000 <= (b - a) * t <= 0x4000_0000_0000_0000) by (nonlinear_arith)
            requires
                -CHANNEL_MAX <= b - a <= CHANNEL_MAX,
                0 <= t <= RATIO_ONE,
        ;
    }
    a + crate::units::mul_div(b - a, t, RATIO_ONE)
}

/// The color `t` of the way from `lhs` to `rhs` (`t` in millionths).
pub fn lerp_colors(lhs: Color, rhs: Color, t: i64) -> (r: Color)
    requires
        lhs.wf(),
        rhs.wf(),
        0 <= t <= RATIO_ONE,
    ensures
        r == lerp(lhs, rhs, t as int),
        r.wf(),
{
    Color {
        r: lerp_channel_exec(lhs.r, rhs.r, t),
        g: lerp_channel_exec(lhs.g, rhs.g, t),
        b: lerp_channel_exec(lhs.b, rhs.b, t),
        a: lerp_channel_exec(lhs.a, rhs.a, t),
    }
}

/// The share of the way back to the base color covered in a step of `dt`
/// microseconds, in millionths.
pub open spec fn fade_share(dt: int) -> int {
    if FADE_RATE * dt < RATIO_ONE {
        FADE_RATE * dt
    } else {
        RATIO_ONE as int
    }
}

/// One step of a damage flash fading back to `base`: a color at the base
/// stays there, a color that looks like the base snaps to it, and any other
/// color moves part of the way toward it.
pub open spec fn faded(color: Color, base: Color, dt: int) -> Color {
    if color == base {
        color
    } else if look_alike(color, base) {
        base
    } else {
        lerp(color, base, fade_share(dt))
    }
}

/// Moves `color` one step of `dt` microseconds back toward `base`.
pub fn fade_toward(color: Color, base: Color, dt: i64) -> (r: Color)
    requires
        color.wf(),
        base.wf(),
        0 <= dt <= crate::units::MAX_STEP,
    ensures
        r == faded(color, base, dt as int),
        r.wf(),
{
    if color == base {
        color
    } else if colors_equal(color, base) {
        base
    } else {
        let share: i64 = if FADE_RATE * dt < RATIO_ONE {
            FADE_RATE * dt
        } else {
            RATIO_ONE
        };
        lerp_colors(color, base, share)
    }
}

} // verus!
