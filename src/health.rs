//! The player's hit points, and the effect of a batch of hits on them.
use vstd::prelude::*;

use crate::rain::RainHit;

verus! {

/// Hit points of a fresh player.
pub const MAX_HEALTH: u8 = 100;

/// The player's hit points, in `[0, MAX_HEALTH]`.
#[derive(Clone, Copy, Debug, PartialEq, Eq, Structural)]
pub struct Health(pub u8);

impl Health {
    pub open spec fn wf(self) -> bool {
        self.0 <= MAX_HEALTH
    }

    /// Full health.
    pub fn full() -> (r: Health)
        ensures
            r.0 == MAX_HEALTH,
            r.wf(),
    {
        Health(MAX_HEALTH)
    }
}

/// Restores full health, as on entering the game.
pub fn reset_health(health: &mut Health)
    ensures
        final(health).0 == MAX_HEALTH,
{
    health.0 = MAX_HEALTH;
}

/// How many of the hits name the handle `handle`.
pub open spec fn hits_on(hits: Seq<RainHit>, handle: u64) -> nat
    decreases hits.len(),
{
    if hits.len() == 0 {
        0
    } else {
        hits_on(hits.drop_last(), handle) + if hits.last().0 == handle {
            1nat
        } else {
            0nat
        }
    }
}

/// Hit points left after `n` hits on a player with `h`: each hit costs one
/// point while any is left.
pub open spec fn health_after(h: int, n: int) -> int {
    if n <= h {
        h - n
    } else {
        0
    }
}

/// Game-over signals raised by `n` hits on a player with `h` hit points: one
/// for every hit that arrives when no point is left.
pub open spec fn game_overs(h: int, n: int) -> int {
    if n <= h {
        0
    } else {
        n - h
    }
}

/// Applies to `health` the hits among `hits` that name `handle`. Returns how
/// many of them arrived with no hit point left (each of which ends the
/// game) and whether any of them cost a hit point.
pub fn take_hits(health: &mut Health, hits: &Vec<RainHit>, handle: u64) -> (r: (usize, bool))
    requires
        old(health).wf(),
    ensures
        final(health).wf(),
        final(health).0 == health_after(old(health).0 as int, hits_on(hits@, handle) as int),
        r.0 == game_overs(old(health).0 as int, hits_on(hits@, handle) as int),
        r.1 == (old(health).0 > 0 && hits_on(hits@, handle) > 0),
{
    let mut game_over: usize = 0;
    let mut hurt = false;
    let mut i: usize = 0;
    while i < hits.len()
        invariant
            0 <= i <= hits@.len(),
            old(health).wf(),
            health.wf(),
            game_over <= i,
            health.0 == health_after(old(health).0 as int, hits_on(hits@.take(i as int), handle) as int),
            game_over == game_overs(old(health).0 as int, hits_on(hits@.take(i as int), handle) as int),
            hurt == (old(health).0 > 0 && hits_on(hits@.take(i as int), handle) > 0),
        decreases hits@.len() - i,
    {
        proof {
            let taken = hits@.take(i + 1);
            assert(taken.drop_last() =~= hits@.take(i as int));
            assert(taken.last() == hits@[i as int]);
        }
        if hits[i].0 == handle {
            if health.0 > 0 {
                health.0 = health.0 - 1;
                hurt = true;
            } else {
                game_over = game_over + 1;
            }
        }
        i = i + 1;
    }
    proof {
        assert(hits@.take(hits@.len() as int) =~= hits@);
    }
    (game_over, hurt)
}

/// Health bound and game over: from any valid health, a batch of hits
/// leaves health within `[0, MAX_HEALTH]` and never above where it was;
/// every hit either costs one hit point or raises one game-over signal,
/// never both; and at zero health no hit costs anything, each one raising
/// game over exactly once.
pub proof fn hits_keep_health_in_bounds(h: int, n: int)
    requires
        0 <= h <= MAX_HEALTH,
        0 <= n,
    ensures
        0 <= health_after(h, n) <= h <= MAX_HEALTH,
        (h - health_after(h, n)) + game_overs(h, n) == n,
        game_overs(h, n) > 0 ==> health_after(h, n) == 0,
        health_after(0, n) == 0 && game_overs(0, n) == n,
{
}

} // verus!
