//! A game session: every simulated object, the shared counters, and the
//! fixed order of the phases of one simulation step.
use vstd::prelude::*;

use crate::geometry::{Rect, Vec2};
use crate::health::{game_overs, health_after, hits_on, reset_health, Health};
use crate::level::Level;
use crate::levels::{level1_spawn, spawn_level};
use crate::player::{controlled, intent_ok, Player};
use crate::rain::{
    despawn_finished_rain, drop_stepped, fresh_in, hits_of, spawn_count, spawn_rain, splash_rain,
    survivors, Rain, Target, MIN_SCALE_Y,
};
use crate::shield::{activate_shield, power_after, shield_granted, Power, Shield};
use crate::units::MAX_STEP;

verus! {

/// Whether the simulation is running.
#[derive(Clone, Copy, Debug, PartialEq, Eq, Structural)]
pub enum GameState {
    /// No game in progress.
    Stopped,
    /// The simulation advances.
    Playing,
    /// A hit arrived at zero health; the simulation is frozen.
    GameOver,
}

/// The player's input for one step: the movement intent (both axes within
/// `[-1, 1]`, in thousandths) and whether the shield is asked for.
#[derive(Clone, Copy, Debug, PartialEq, Eq, Structural)]
pub struct Actions {
    pub player_movement: Vec2,
    pub shield: bool,
}

/// Handle by which drops report hits on the player.
pub const PLAYER_HANDLE: u64 = 1;

/// Handle by which drops report hits on the shield.
pub const SHIELD_HANDLE: u64 = 2;

/// Handle of level blocks, which are no hit listeners.
pub const LEVEL_HANDLE: u64 = 0;

/// No drops are spawned while this many are alive (a guard on memory, far
/// above what the view ever holds).
pub const MAX_LIVE_DROPS: usize = 1_000_000;

/// A game session.
#[derive(Debug)]
pub struct World {
    pub state: GameState,
    pub player: Player,
    pub shield: Shield,
    pub level: Level,
    pub drops: Vec<Rain>,
    pub health: Health,
    pub power: Power,
    pub view: Rect,
}

/// The targets that drops test, in order: the shield first (so that a raised
/// shield takes the drops meant for the player), then the player, then the
/// blocks of the level.
pub open spec fn targets_of(player: Player, shield: Shield, level: Seq<crate::level::LevelBundle>) -> Seq<Target> {
    seq![
        Target {
            rect: shield.collider.world_rect(player.position),
            solid: shield.collider.solid,
            handle: shield.handle,
            hit_listener: true,
        },
        Target {
            rect: player.collider.world_rect(player.position),
            solid: player.collider.solid,
            handle: player.handle,
            hit_listener: true,
        },
    ] + Seq::new(
        level.len(),
        |i: int|
            Target {
                rect: level[i].world_rect(),
                solid: level[i].collider.solid,
                handle: LEVEL_HANDLE,
                hit_listener: false,
            },
    )
}

/// The drop phases of a step: `spawned` is `drops` with the step's new drops
/// (none while `MAX_LIVE_DROPS` or more are alive) appended at the top of
/// `view`, and each drop of `moved` is a possible outcome of one step of the
/// drop at the same index of `spawned` against `targets`.
pub open spec fn rain_phase(
    drops: Seq<Rain>,
    view: Rect,
    targets: Seq<Target>,
    dt: int,
    spawned: Seq<Rain>,
    moved: Seq<Rain>,
) -> bool {
    &&& spawned.len() == drops.len() + if drops.len() <= MAX_LIVE_DROPS {
        spawn_count(dt)
    } else {
        0
    }
    &&& spawned.subrange(0, drops.len() as int) == drops
    &&& forall|i: int| drops.len() <= i < spawned.len() ==> fresh_in(#[trigger] spawned[i], view)
    &&& moved.len() == spawned.len()
    &&& forall|i: int| 0 <= i < moved.len() ==> drop_stepped(spawned[i], #[trigger] moved[i], targets, dt)
}

impl World {
    pub open spec fn wf(self) -> bool {
        &&& self.player.wf()
        &&& self.player.handle == PLAYER_HANDLE
        &&& self.shield.wf()
        &&& self.shield.handle == SHIELD_HANDLE
        &&& self.level.wf()
        &&& forall|i: int| 0 <= i < self.drops@.len() ==> (#[trigger] self.drops@[i]).wf()
        &&& self.drops@.len() <= MAX_LIVE_DROPS + 200
        &&& self.health.wf()
        &&& self.power.wf()
        &&& self.view.wf()
    }

    /// Enters the game in the first level, for the visible area `view`: full
    /// health and power, the player at the level's spawn point, the shield
    /// down, no drops.
    pub fn new(view: Rect) -> (r: World)
        requires
            view.wf(),
        ensures
            r.wf(),
            r.state == GameState::Playing,
            r.health.0 == crate::health::MAX_HEALTH,
            r.power.0 == crate::units::RATIO_ONE,
            r.drops@.len() == 0,
            r.player.position == crate::levels::level1_spawn_spec(),
            !r.shield.collider.solid,
            r.view == view,
    {
        World {
            state: GameState::Playing,
            player: Player::spawn(level1_spawn(), PLAYER_HANDLE),
            shield: Shield::new(Player::local_center(), SHIELD_HANDLE),
            level: spawn_level(),
            drops: Vec::new(),
            health: Health::full(),
            power: Power::full(),
            view,
        }
    }

    /// Starts the game over after a game over: full health, a fresh player,
    /// shield and level, no drops. The power budget carries over.
    pub fn start_over(&mut self)
        requires
            old(self).wf(),
        ensures
            final(self).wf(),
            final(self).state == GameState::Playing,
            final(self).health.0 == crate::health::MAX_HEALTH,
            final(self).drops@.len() == 0,
            final(self).player.position == crate::levels::level1_spawn_spec(),
            final(self).power == old(self).power,
            final(self).view == old(self).view,
    {
        reset_health(&mut self.health);
        self.player = Player::spawn(level1_spawn(), PLAYER_HANDLE);
        self.shield = Shield::new(Player::local_center(), SHIELD_HANDLE);
        self.level = spawn_level();
        self.drops = Vec::new();
        self.state = GameState::Playing;
    }

    /// Leaves the game: the level and all drops are removed.
    pub fn exit(&mut self)
        requires
            old(self).wf(),
        ensures
            final(self).wf(),
            final(self).state == GameState::Stopped,
            final(self).drops@.len() == 0,
            final(self).level.blocks@.len() == 0,
            final(self).player == old(self).player,
            final(self).shield == old(self).shield,
            final(self).health == old(self).health,
            final(self).power == old(self).power,
            final(self).view == old(self).view,
    {
        self.drops = Vec::new();
        self.level = Level { blocks: Vec::new() };
        self.state = GameState::Stopped;
    }

    /// The targets that drops test this step.
    pub fn targets(&self) -> (r: Vec<Target>)
        requires
            self.player.wf(),
            self.shield.wf(),
            self.level.wf(),
        ensures
            r@ == targets_of(self.player, self.shield, self.level.blocks@),
            forall|j: int| 0 <= j < r@.len() ==> (#[trigger] r@[j]).wf(),
    {
        let mut r: Vec<Target> = Vec::new();
        r.push(
            Target {
                rect: self.shield.collider.rect(self.player.position),
                solid: self.shield.collider.solid,
                handle: self.shield.handle,
                hit_listener: true,
            },
        );
        r.push(
            Target {
                rect: self.player.collider.rect(self.player.position),
                solid: self.player.collider.solid,
                handle: self.player.handle,
                hit_listener: true,
            },
        );
        let ghost level = self.level.blocks@;
        let ghost expected = targets_of(self.player, self.shield, level);
        let mut i: usize = 0;
        while i < self.level.blocks.len()
            invariant
                0 <= i <= level.len(),
                level == self.level.blocks@,
                self.level.wf(),
                expected == targets_of(self.player, self.shield, level),
                r@ =~= expected.take(i + 2),
                forall|j: int| 0 <= j < r@.len() ==> (#[trigger] r@[j]).wf(),
            decreases level.len() - i,
        {
            let block = &self.level.blocks[i];
            assert(block.wf());
            r.push(
                Target {
                    rect: block.rect(),
                    solid: block.collider.solid,
                    handle: LEVEL_HANDLE,
                    hit_listener: false,
                },
            );
            assert(r@ =~= expected.take(i + 3));
            i = i + 1;
        }
        assert(expected.take(level.len() + 2int) =~= expected);
        r
    }

    /// Runs one step of `delta` microseconds while the game is playing, in
    /// this order: player controller, shield, drop spawner, drop motion and
    /// collisions, damage (flash fading, then the step's hits), removal of
    /// finished drops. A step outside play changes nothing.
    pub fn step(&mut self, actions: &Actions, delta: i64)
        requires
            old(self).wf(),
            intent_ok(actions.player_movement),
            0 <= delta <= MAX_STEP,
        ensures
            final(self).wf(),
            old(self).state != GameState::Playing ==> final(self).state == old(self).state
                && final(self).player == old(self).player && final(self).health == old(self).health
                && final(self).power == old(self).power && final(self).drops@ == old(self).drops@,
            old(self).state == GameState::Playing ==> {
                let moved = controlled(
                    old(self).player,
                    actions.player_movement,
                    delta as int,
                    old(self).level.blocks@,
                );
                &&& final(self).player.position == moved.position
                &&& final(self).player.velocity == moved.velocity
                &&& final(self).player.jump_state == moved.jump_state
                &&& final(self).shield.collider.solid == shield_granted(
                    actions.shield,
                    old(self).power.0 as int,
                    delta as int,
                )
                &&& final(self).power.0 == power_after(
                    actions.shield,
                    old(self).power.0 as int,
                    delta as int,
                )
                &&& exists|spawned: Seq<Rain>, moved: Seq<Rain>|
                    #[trigger] rain_phase(
                        old(self).drops@,
                        old(self).view,
                        targets_of(final(self).player, final(self).shield, old(self).level.blocks@),
                        delta as int,
                        spawned,
                        moved,
                    ) && final(self).drops@ == survivors(moved, old(self).view) && final(self).health.0
                        == health_after(
                        old(self).health.0 as int,
                        hits_on(
                            hits_of(
                                spawned,
                                targets_of(
                                    final(self).player,
                                    final(self).shield,
                                    old(self).level.blocks@,
                                ),
                                delta as int,
                            ),
                            PLAYER_HANDLE,
                        ) as int,
                    ) && (final(self).state == GameState::GameOver) == (game_overs(
                        old(self).health.0 as int,
                        hits_on(
                            hits_of(
                                spawned,
                                targets_of(
                                    final(self).player,
                                    final(self).shield,
                                    old(self).level.blocks@,
                                ),
                                delta as int,
                            ),
                            PLAYER_HANDLE,
                        ) as int,
                    ) > 0)
                &&& final(self).state == GameState::GameOver || final(self).state
                    == GameState::Playing
                &&& forall|i: int|
                    0 <= i < final(self).drops@.len() ==> (#[trigger] final(self).drops@[i]).scale_y
                        >= MIN_SCALE_Y
            },
            final(self).level == old(self).level,
            final(self).view == old(self).view,
    {
        if self.state != GameState::Playing {
            return;
        }
        crate::player::update_velocity(&mut self.player, actions.player_movement, delta, &self.level);
        activate_shield(&mut self.shield, &mut self.power, actions.shield, delta);
        let ghost old_drops = self.drops@;
        if self.drops.len() <= MAX_LIVE_DROPS {
            spawn_rain(&mut self.drops, &self.view, delta);
        }
        let ghost spawned = self.drops@;
        let targets = self.targets();
        let hits = splash_rain(&mut self.drops, &targets, delta);
        let ghost moved = self.drops@;
        let ghost player_mid = self.player;
        let ghost shield_mid = self.shield;
        crate::player::fade_out_damage(&mut self.player, delta);
        crate::shield::fade_out_damage(&mut self.shield, delta);
        let game_over = crate::player::get_hit_by_rain(&mut self.player, &mut self.health, &hits);
        crate::shield::get_hit_by_rain(&mut self.shield, &hits);
        let ghost before_removal = self.drops@;
        despawn_finished_rain(&mut self.drops, &self.view);
        proof {
            assert forall|i: int| 0 <= i < self.drops@.len() implies (#[trigger] self.drops@[i]).wf() by {
                assert(before_removal.contains(self.drops@[i]));
                let j = choose|j: int| 0 <= j < before_removal.len() && before_removal[j] == self.drops@[i];
                assert(before_removal[j].wf());
            }
        }
        if game_over > 0 {
            self.state = GameState::GameOver;
        }
        proof {
            if old_drops.len() > MAX_LIVE_DROPS {
                assert(spawned.subrange(0, old_drops.len() as int) =~= old_drops);
            }
            assert(targets_of(self.player, self.shield, self.level.blocks@) =~= targets_of(
                player_mid,
                shield_mid,
                self.level.blocks@,
            ));
            assert(rain_phase(old_drops, self.view, targets@, delta as int, spawned, moved));
        }
    }
}

} // verus!
