use downpour::color::{colors_equal, fade_toward, lerp_colors, Color};
use downpour::geometry::{collide, Collider, Collision, Rect, Vec2};
use downpour::health::{take_hits, Health};
use downpour::level::{Level, LevelBundle};
use downpour::levels::spawn_level;
use downpour::player::{
    fade_out_damage, get_hit_by_rain, get_velocity_x, get_velocity_y, update_velocity, JumpState,
    Player,
};
use downpour::rain::{
    despawn_finished_rain, handle_collision, run_along_left_side, spawn_rain,
    splash_against_top_side, splash_rain, Rain, RainHit, RainState, Target,
};
use downpour::shield::{activate_shield, Power, Shield};
use downpour::velocity::{update_position, Velocity};
use downpour::world::{Actions, GameState, World};

const FRAME: i64 = 16_667;

fn rect(min_x: i64, min_y: i64, max_x: i64, max_y: i64) -> Rect {
    Rect::from_corners(Vec2::new(min_x, min_y), Vec2::new(max_x, max_y))
}

fn ground_level() -> Level {
    Level {
        blocks: vec![LevelBundle::from_center_size(
            Vec2::new(0, -300_000),
            Vec2::new(2_000_000, 200_000),
        )],
    }
}

#[test]
fn player_at_rest_stays_grounded() {
    let level = ground_level();
    let mut player = Player::spawn(Vec2::new(0, -200_000), 1);
    player.jump_state = JumpState::Grounded;
    for _ in 0..60 {
        update_velocity(&mut player, Vec2::new(0, 0), FRAME, &level);
    }
    assert_eq!(player.velocity.0.x, 0);
    assert!(-1000 <= player.velocity.0.y && player.velocity.0.y <= 0);
    assert_eq!(player.position.y, -200_000);
    assert_eq!(player.position.x, 0);
    assert_eq!(player.jump_state, JumpState::Grounded);
}

#[test]
fn drop_splashes_on_top_edge() {
    let target = Target { rect: rect(-500_000, -100_000, 500_000, 100_000), solid: true, handle: 0, hit_listener: false };
    let targets = vec![target];
    let mut drops = vec![Rain::new(Vec2::new(0, 400_000), 8000)];
    let start_scale = drops[0].scale_x;
    let mut steps = 0;
    while drops[0].state == RainState::Falling && steps < 200 {
        let hits = splash_rain(&mut drops, &targets, FRAME);
        assert!(hits.is_empty());
        steps += 1;
    }
    assert_eq!(drops[0].state, RainState::Splashing);
    assert_eq!(drops[0].position.y, 100_000);
    assert!(drops[0].scale_x < start_scale);
}

#[test]
fn horizontal_velocity_approaches_target() {
    assert_eq!(get_velocity_x(0, 1000, FRAME), 33_334);
    let mut v = 0;
    for _ in 0..200 {
        let next = get_velocity_x(v, 1000, FRAME);
        assert!(v <= next && next <= 200_000);
        v = next;
    }
    assert!(v > 199_000);
    // letting go decelerates faster than pushing accelerates
    assert_eq!(get_velocity_x(200_000, 0, FRAME), 200_000 - 50_001);
    assert_eq!(get_velocity_x(-100_000, -500, FRAME), -100_000);
}

#[test]
fn jump_starts_and_decays() {
    assert_eq!(
        get_velocity_y(0, 1000, &JumpState::Grounded, FRAME),
        (400_000, JumpState::Jumping(1_000_000))
    );
    assert_eq!(
        get_velocity_y(400_000, 1000, &JumpState::Jumping(1_000_000), FRAME),
        (382_999, JumpState::Jumping(999_167))
    );
    assert_eq!(get_velocity_y(0, 0, &JumpState::Grounded, FRAME), (-1000, JumpState::Grounded));
    assert_eq!(
        get_velocity_y(100_000, -1000, &JumpState::Jumping(500_000), FRAME),
        (0, JumpState::Falling)
    );
}

#[test]
fn held_jump_power_decreases_until_fall() {
    let (mut v, mut state) = get_velocity_y(0, 1000, &JumpState::Grounded, FRAME);
    let mut last_power = 1_000_001;
    let mut steps = 0;
    while let JumpState::Jumping(p) = state {
        assert!(p < last_power);
        last_power = p;
        let r = get_velocity_y(v, 1000, &state, FRAME);
        v = r.0;
        state = r.1;
        steps += 1;
        assert!(steps < 1000);
    }
    assert_eq!(state, JumpState::Falling);
    let mut last_v = v;
    for _ in 0..100 {
        let r = get_velocity_y(last_v, 1000, &JumpState::Falling, FRAME);
        assert_eq!(r.1, JumpState::Falling);
        assert!(r.0 <= last_v || last_v < -400_000);
        assert!(r.0 >= -400_000);
        last_v = r.0;
    }
    assert_eq!(last_v, -400_000);
}

#[test]
fn fall_is_capped() {
    assert_eq!(get_velocity_y(0, 0, &JumpState::Falling, FRAME), (-16_667, JumpState::Falling));
    assert_eq!(get_velocity_y(-390_000, 0, &JumpState::Falling, FRAME), (-400_000, JumpState::Falling));
}

#[test]
fn landing_snaps_to_ground_top() {
    let level = ground_level();
    let mut player = Player::spawn(Vec2::new(100_000, -195_000), 1);
    player.velocity = Velocity(Vec2::new(0, -400_000));
    update_velocity(&mut player, Vec2::new(0, 0), FRAME, &level);
    assert_eq!(player.position.y, -200_000);
    assert_eq!(player.velocity.0.y, 0);
    assert_eq!(player.jump_state, JumpState::Grounded);
}

#[test]
fn walking_into_wall_stops_beside_it() {
    let level = Level {
        blocks: vec![LevelBundle::from_min_max(Vec2::new(100_000, 0), Vec2::new(200_000, 300_000))],
    };
    let mut player = Player::spawn(Vec2::new(85_000, 100_000), 1);
    player.velocity = Velocity(Vec2::new(200_000, 0));
    player.jump_state = JumpState::Jumping(500_000);
    update_velocity(&mut player, Vec2::new(1000, 0), FRAME, &level);
    assert_eq!(player.velocity.0.x, 0);
    assert_eq!(player.position.x, 100_000 - 16_000);
    // the other side
    let mut player = Player::spawn(Vec2::new(215_000, 100_000), 1);
    player.velocity = Velocity(Vec2::new(-200_000, 0));
    player.jump_state = JumpState::Jumping(500_000);
    update_velocity(&mut player, Vec2::new(-1000, 0), FRAME, &level);
    assert_eq!(player.velocity.0.x, 0);
    assert_eq!(player.position.x, 200_000 + 16_000);
}

#[test]
fn bumping_head_pushes_below_block() {
    let level = Level {
        blocks: vec![LevelBundle::from_min_max(Vec2::new(-500_000, 100_000), Vec2::new(500_000, 200_000))],
    };
    let mut player = Player::spawn(Vec2::new(0, 62_000), 1);
    player.velocity = Velocity(Vec2::new(0, 400_000));
    player.jump_state = JumpState::Jumping(1_000_000);
    update_velocity(&mut player, Vec2::new(0, 1000), FRAME, &level);
    assert_eq!(player.velocity.0.y, 0);
    assert_eq!(player.position.y, 100_000 - 32_000);
    assert_eq!(player.jump_state, JumpState::Jumping(999_167));
}

#[test]
fn leaving_a_ledge_starts_a_fall() {
    let level = Level { blocks: vec![] };
    let mut player = Player::spawn(Vec2::new(0, 0), 1);
    player.jump_state = JumpState::Grounded;
    update_velocity(&mut player, Vec2::new(0, 0), FRAME, &level);
    assert_eq!(player.jump_state, JumpState::Falling);
    assert_eq!(player.velocity.0.y, -1000);
    assert_eq!(player.position.y, -16);
}

#[test]
fn collide_classifies_sides() {
    let b = rect(0, 0, 100, 100);
    assert_eq!(collide(&rect(200, 200, 300, 300), &b), None);
    assert_eq!(collide(&rect(100, 0, 200, 100), &b), None);
    assert_eq!(collide(&rect(-10, 40, 10, 60), &b), Some(Collision::Left));
    assert_eq!(collide(&rect(90, 40, 110, 60), &b), Some(Collision::Right));
    assert_eq!(collide(&rect(40, 90, 60, 110), &b), Some(Collision::Top));
    assert_eq!(collide(&rect(40, -10, 60, 10), &b), Some(Collision::Bottom));
    assert_eq!(collide(&rect(40, 40, 60, 60), &b), Some(Collision::Inside));
    // corner: the shallower penetration decides
    assert_eq!(collide(&rect(-5, 80, 15, 120), &b), Some(Collision::Left));
    assert_eq!(collide(&rect(-15, 97, 5, 117), &b), Some(Collision::Top));
    // equal depths go to the horizontal axis
    assert_eq!(collide(&rect(-10, 90, 10, 110), &b), Some(Collision::Left));
}

#[test]
fn colliders_place_rectangles() {
    let c = Collider::from_center_size(Vec2::new(0, 16_000), Vec2::new(32_000, 32_000));
    assert!(c.solid);
    assert_eq!(c.rect(Vec2::new(1000, 2000)), rect(-15_000, 2000, 17_000, 34_000));
    let d = Collider::from_size(Vec2::new(10, 20)).with_solid(false);
    assert!(!d.solid);
    assert_eq!(d.local_rect, rect(-5, -10, 5, 10));
    let e = Collider::default();
    assert!(e.solid);
    assert_eq!(e.local_rect, rect(0, 0, 0, 0));
}

#[test]
fn shield_needs_power() {
    let mut shield = Shield::new(Vec2::new(0, 16_000), 2);
    let mut power = Power(10_000);
    activate_shield(&mut shield, &mut power, true, FRAME);
    assert!(!shield.collider.solid);
    assert!(!shield.visible);
    assert_eq!(power.0, 10_000);

    let mut power = Power(500_000);
    activate_shield(&mut shield, &mut power, true, FRAME);
    assert!(shield.collider.solid);
    assert!(shield.visible);
    assert_eq!(power.0, 470_000);

    activate_shield(&mut shield, &mut power, false, FRAME);
    assert!(!shield.collider.solid);
    assert_eq!(power.0, 490_000);

    let mut power = Power(990_000);
    activate_shield(&mut shield, &mut power, false, FRAME);
    assert_eq!(power.0, 1_000_000);
}

#[test]
fn health_bounds_and_game_over() {
    let hits = vec![RainHit(1), RainHit(2), RainHit(1), RainHit(1)];
    let mut health = Health(1);
    assert_eq!(take_hits(&mut health, &hits, 1), (2, true));
    assert_eq!(health.0, 0);

    let mut health = Health(0);
    assert_eq!(take_hits(&mut health, &vec![RainHit(1)], 1), (1, false));
    assert_eq!(health.0, 0);

    let mut health = Health(100);
    assert_eq!(take_hits(&mut health, &hits, 2), (0, true));
    assert_eq!(health.0, 99);
}

#[test]
fn player_hit_flashes_and_costs_health() {
    let mut player = Player::spawn(Vec2::new(0, 0), 1);
    let base = player.color;
    let mut health = Health(100);
    let overs = get_hit_by_rain(&mut player, &mut health, &vec![RainHit(1)]);
    assert_eq!(overs, 0);
    assert_eq!(health.0, 99);
    assert_eq!(player.color, Color::rgba(32768, 12452, 24903, 65535));
    for _ in 0..300 {
        fade_out_damage(&mut player, FRAME);
    }
    assert_eq!(player.color, base);
}

#[test]
fn colors_compare_and_blend() {
    let a = Color::rgba(0, 0, 0, 65535);
    let b = Color::rgba(256, 0, 0, 0);
    assert!(colors_equal(a, b));
    assert!(!colors_equal(a, Color::rgba(257, 0, 0, 65535)));
    assert_eq!(
        lerp_colors(Color::rgba(0, 1000, 65535, 0), Color::rgba(1000, 0, 0, 65535), 250_000),
        Color::rgba(250, 750, 49152, 16383)
    );
    let hit = Color::rgba(65535, 65535, 65535, 32768);
    let base = Color::rgba(0, 65535, 65535, 32768);
    assert_eq!(fade_toward(hit, base, FRAME), Color::rgba(62259, 65535, 65535, 32768));
    assert_eq!(fade_toward(Color::rgba(100, 65535, 65535, 32768), base, FRAME), base);
    assert_eq!(fade_toward(base, base, FRAME), base);
}

#[test]
fn spawner_fills_the_top_of_the_view() {
    let view = rect(-640_000, -360_000, 640_000, 360_000);
    let mut drops = vec![Rain::new(Vec2::new(5, 5), 4000)];
    spawn_rain(&mut drops, &view, FRAME);
    assert_eq!(drops.len(), 33);
    assert_eq!(drops[0].position, Vec2::new(5, 5));
    for d in &drops[1..] {
        assert_eq!(d.state, RainState::Falling);
        assert_eq!(d.position.y, 360_000);
        assert!(-840_000 <= d.position.x && d.position.x < 640_000);
        assert!(4000 <= d.width && d.width <= 16_000);
        assert_eq!(d.velocity.0, Vec2::new(135_974, -788_360));
    }
    let first = drops[1].width;
    assert!(drops[1..].iter().any(|d| d.width != first));
    let mut none = Vec::new();
    spawn_rain(&mut none, &view, 0);
    assert!(none.is_empty());
}

#[test]
fn finished_drops_are_removed() {
    let view = rect(-640_000, -360_000, 640_000, 360_000);
    let mut small = Rain::new(Vec2::new(0, 0), 4000);
    small.scale_y = 99;
    let mut edge = Rain::new(Vec2::new(0, 0), 4000);
    edge.scale_y = 100;
    let low = Rain::new(Vec2::new(0, -460_001), 4000);
    let just = Rain::new(Vec2::new(0, -460_000), 4000);
    let mut drops = vec![small, edge, low, just];
    despawn_finished_rain(&mut drops, &view);
    assert_eq!(drops, vec![edge, just]);
}

#[test]
fn splash_and_run_responses() {
    let r = rect(-50_000, -50_000, 50_000, 50_000);
    let mut d = Rain::new(Vec2::new(0, 52_000), 4000);
    splash_against_top_side(&mut d, &r, 500, 0, 250);
    assert_eq!(d.state, RainState::Splashing);
    assert_eq!(d.position, Vec2::new(0, 50_000));
    assert_eq!(d.scale_x, 500);
    assert_eq!(d.velocity.0, Vec2::new(0, 260_000));

    let mut d = Rain::new(Vec2::new(-52_000, 0), 4000);
    splash_against_top_side(&mut d, &r, 200, 500, 100);
    assert_eq!(d.velocity.0, Vec2::new(-51_200, 38_400));

    let mut d = Rain::new(Vec2::new(-52_000, 0), 4000);
    run_along_left_side(&mut d, &r, 800, 10, 500);
    assert_eq!(d.state, RainState::Falling);
    assert_eq!(d.position, Vec2::new(-50_000, 0));
    assert_eq!(d.scale_x, 800);
    assert_eq!(d.velocity.0, Vec2::new(-4000, -400_000));

    let mut d = Rain::new(Vec2::new(52_000, 0), 4000);
    handle_collision(Collision::Right, &r, &mut d);
    assert_eq!(d.state, RainState::Splashing);
    assert_eq!(d.scale_x, 0);

    let mut d = Rain::new(Vec2::new(0, 52_000), 4000);
    handle_collision(Collision::Top, &r, &mut d);
    assert_eq!(d.state, RainState::Splashing);
    assert_eq!(d.position.y, 50_000);
    assert!(200 <= d.scale_x && d.scale_x < 600);
    assert!(d.velocity.0.y > 0);
}

#[test]
fn splashing_drops_shrink_and_hits_are_reported() {
    let listener = Target { rect: rect(-50_000, -50_000, 50_000, 50_000), solid: true, handle: 7, hit_listener: true };
    let ghost = Target { rect: rect(-50_000, -50_000, 50_000, 50_000), solid: false, handle: 8, hit_listener: true };
    let mut splashing = Rain::new(Vec2::new(900_000, 0), 4000);
    splashing.state = RainState::Splashing;
    let mut drops = vec![splashing, Rain::new(Vec2::new(0, 40_000), 4000)];
    let hits = splash_rain(&mut drops, &vec![ghost, listener], FRAME);
    assert_eq!(hits, vec![RainHit(7)]);
    assert_eq!(drops[0].scale_y, 700);
    assert_eq!(drops[0].state, RainState::Splashing);
    assert_eq!(drops[1].state, RainState::Splashing);
    let mut n = 0;
    while drops[0].scale_y >= 100 {
        splash_rain(&mut drops, &vec![], FRAME);
        n += 1;
    }
    assert!(n <= 6);
}

#[test]
fn integration_moves_by_velocity() {
    let mut p = Vec2::new(0, 0);
    update_position(&mut p, Velocity(Vec2::new(135_974, -788_360)), FRAME);
    assert_eq!(p, Vec2::new(2266, -13_139));
}

#[test]
fn first_level_layout() {
    let level = spawn_level();
    assert_eq!(level.blocks.len(), 6);
    assert_eq!(level.blocks[0].rect(), rect(-1_000_000, -400_000, 1_000_000, -200_000));
    assert_eq!(level.blocks[1].rect(), rect(-700_000, -100_000, -400_000, 150_000));
    assert_eq!(level.blocks[2].rect(), rect(-700_000, -200_000, -600_000, -100_000));
    assert_eq!(level.blocks[3].rect(), rect(-100_000, -60_000, 100_000, -40_000));
    assert_eq!(level.blocks[4].rect(), rect(400_000, -100_000, 700_000, 150_000));
    assert_eq!(level.blocks[5].rect(), rect(600_000, -200_000, 700_000, -100_000));
    assert!(level.blocks.iter().all(|b| b.collider.solid));
}

#[test]
fn world_steps_and_freezes_on_game_over() {
    let view = rect(-640_000, -360_000, 640_000, 360_000);
    let mut world = World::new(view);
    assert_eq!(world.state, GameState::Playing);
    assert_eq!(world.health.0, 100);
    let actions = Actions { player_movement: Vec2::new(0, 0), shield: true };
    for _ in 0..30 {
        world.step(&actions, FRAME);
    }
    assert!(world.health.0 <= 100);
    assert!(world.drops.iter().all(|d| d.scale_y >= 100));
    assert_eq!(world.targets().len(), 8);

    world.state = GameState::GameOver;
    let before = world.player;
    world.step(&actions, FRAME);
    assert_eq!(world.player, before);

    world.start_over();
    assert_eq!(world.state, GameState::Playing);
    assert_eq!(world.health.0, 100);
    assert!(world.drops.is_empty());
    let player = world.player;
    let health = world.health;
    let power = world.power;
    world.exit();
    assert_eq!(world.state, GameState::Stopped);
    assert_eq!(world.player, player);
    assert_eq!(world.health, health);
    assert_eq!(world.power, power);
    assert!(world.level.blocks.is_empty());
}
