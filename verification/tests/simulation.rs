use platformer_core::enemies::{DeathAnimation, Enemy, EnemyPhase};
use platformer_core::fixed::Vec3;
use platformer_core::game_state::GameState;
use platformer_core::player::{JumpEffect, MoveInput, Probe, ProbeHit};
use platformer_core::respawn::RespawnTimer;
use platformer_core::world::World;

fn floor() -> Option<ProbeHit> {
    Some(ProbeHit { distance: 1000, normal: Vec3::new(0, 1000, 0) })
}

fn right() -> MoveInput {
    MoveInput { forward: false, back: false, left: false, right: true, sprint: false }
}

fn consistent(state: &GameState) -> bool {
    (state.combo_timer > 0) == (state.combo_count > 0)
}

#[test]
fn a_new_world_is_a_fresh_session() {
    let world = World::new();
    assert_eq!(world.state, GameState::new());
    assert_eq!(world.position, Vec3::new(0, 5000, 0));
    assert_eq!(world.velocity, Vec3::zero());
    assert_eq!(world.respawn, None);
    assert_eq!(world.enemies.len(), 4);
    assert!(world.player.has_double_jump);
}

#[test]
fn control_steers_senses_the_ground_and_asks_for_the_wall_probe() {
    let mut world = World::new();
    let probe = world.control(&right(), 16_667, None);
    assert_eq!(world.velocity, Vec3::new(8000, 0, 0));
    assert!(!world.player.is_grounded);
    assert_eq!(probe, Some(Probe { direction: Vec3::new(1000, 0, 0), max_distance: 1100 }));
    let grounded = world.control(&right(), 16_667, floor());
    assert!(world.player.is_grounded);
    assert_eq!(grounded, None);
}

#[test]
fn a_jump_press_on_the_ground_jumps() {
    let mut world = World::new();
    world.control(&right(), 16_667, floor());
    let events = world.advance(None, true, 16_667);
    assert_eq!(events.jump, Some(JumpEffect::Jump));
    assert_eq!(world.velocity, Vec3::new(8000, 12_000, 0));
    assert!(events.defeated.is_empty());
    assert!(events.removed.is_empty());
    assert!(!events.fell);
    assert!(!events.respawned);
    assert!(!events.game_over);
}

#[test]
fn a_tick_moves_the_enemies() {
    let mut world = World::new();
    world.control(&MoveInput::none(), 100_000, floor());
    world.advance(None, false, 100_000);
    assert_eq!(world.enemies[0].position, Vec3::new(-4800, 1000, 0));
    assert_eq!(world.enemies[2].position, Vec3::new(-10_000, 1000, -4800));
    assert_eq!(world.enemies[2].patrol_direction, Vec3::new(0, 0, 1000));
}

#[test]
fn a_stomped_enemy_leaves_after_half_a_second_of_ticks() {
    let mut world = World::new();
    world.enemies = vec![Enemy::new(5, Vec3::new(0, 1000, 0), Vec3::new(9000, 1000, 0))];
    world.enemies[0].speed = 0;
    world.position = Vec3::new(900, 1500, 0);
    world.velocity = Vec3::new(0, -2000, 0);
    let events = world.advance(None, false, 100_000);
    assert_eq!(events.defeated, vec![Vec3::new(0, 1000, 0)]);
    assert_eq!(world.state.score, 200);
    assert_eq!(world.state.combo_count, 1);
    assert_eq!(world.state.combo_timer, 2_900_000);
    assert_eq!(
        world.enemies[0].phase,
        EnemyPhase::Dying(DeathAnimation { elapsed: 0, initial_pos: Vec3::new(0, 1000, 0) })
    );
    let mut tick = 1;
    while tick <= 4 {
        let quiet = world.advance(None, false, 100_000);
        assert!(quiet.defeated.is_empty());
        assert!(quiet.removed.is_empty());
        assert_eq!(world.enemies.len(), 1);
        assert_eq!(world.state.score, 200);
        tick += 1;
    }
    let last = world.advance(None, false, 100_000);
    assert_eq!(last.removed, vec![5]);
    assert!(world.enemies.is_empty());
    assert_eq!(world.state.score, 200);
    assert_eq!(world.state.lives, 3);
}

#[test]
fn a_side_hit_takes_a_life_every_tick_of_contact() {
    let mut world = World::new();
    world.enemies = vec![Enemy::new(5, Vec3::new(0, 1000, 0), Vec3::new(9000, 1000, 0))];
    world.enemies[0].speed = 0;
    world.position = Vec3::new(900, 1100, 0);
    let first = world.advance(None, false, 16_667);
    assert_eq!(world.state.lives, 2);
    assert!(!first.game_over);
    world.advance(None, false, 16_667);
    let third = world.advance(None, false, 16_667);
    assert_eq!(world.state.lives, 0);
    assert!(third.game_over);
    world.advance(None, false, 16_667);
    assert_eq!(world.state.lives, 0);
}

#[test]
fn a_jump_in_the_tick_of_contact_is_no_stomp() {
    let mut world = World::new();
    world.enemies = vec![Enemy::new(5, Vec3::new(0, 1000, 0), Vec3::new(9000, 1000, 0))];
    world.enemies[0].speed = 0;
    world.position = Vec3::new(900, 1500, 0);
    world.velocity = Vec3::new(0, -2000, 0);
    let events = world.advance(None, true, 16_667);
    assert_eq!(events.jump, Some(JumpEffect::DoubleJump));
    assert!(events.defeated.is_empty());
    assert_eq!(world.state, GameState::new());
    assert!(!world.enemies[0].is_dying());
}

#[test]
fn a_fall_takes_a_life_and_the_respawn_follows_two_seconds_later() {
    let mut world = World::new();
    world.state.lives = 1;
    world.position = Vec3::new(400, -11_000, 0);
    world.velocity = Vec3::new(0, -30_000, 0);
    let fall = world.advance(None, false, 500_000);
    assert!(fall.fell);
    assert!(fall.game_over);
    assert!(!fall.respawned);
    assert_eq!(world.state.lives, 0);
    assert_eq!(world.respawn, Some(RespawnTimer { elapsed: 0 }));
    let mut tick = 1;
    while tick <= 3 {
        let held = world.advance(None, false, 500_000);
        assert!(!held.fell);
        assert!(!held.respawned);
        assert_eq!(world.position, Vec3::new(400, -15_000, 0));
        assert_eq!(world.respawn, Some(RespawnTimer { elapsed: 500_000 * tick }));
        tick += 1;
    }
    let back = world.advance(None, false, 500_000);
    assert!(back.respawned);
    assert_eq!(world.position, Vec3::new(0, 5000, 0));
    assert_eq!(world.respawn, None);
    assert_eq!(world.velocity, Vec3::new(0, -30_000, 0));
    assert_eq!(world.state.lives, 0);
}

#[test]
fn the_combo_decays_in_the_tick_that_ends_its_window() {
    let mut world = World::new();
    world.enemies.clear();
    world.state.combo_count = 1;
    world.state.combo_timer = 50_000;
    world.advance(None, false, 100_000);
    assert_eq!(world.state.combo_timer, 0);
    assert_eq!(world.state.combo_count, 0);
}

#[test]
fn the_combo_stays_consistent_through_a_run_of_ticks() {
    let mut world = World::new();
    let mut tick: i32 = 0;
    while tick < 600 {
        world.position = Vec3::new(-5000 + tick * 20, if tick % 7 < 4 { 1500 } else { 1000 }, 0);
        let probe = world.control(&right(), 16_667, if tick % 5 == 0 { floor() } else { None });
        let wall = match probe {
            Some(_) if tick % 3 == 0 => {
                Some(ProbeHit { distance: 300, normal: Vec3::new(-1000, 0, 0) })
            }
            _ => None,
        };
        world.velocity.y = if tick % 2 == 0 { -2000 } else { 500 };
        world.advance(wall, tick % 11 == 0, 16_667);
        assert!(consistent(&world.state));
        for enemy in &world.enemies {
            assert!(!enemy.is_removed());
        }
        tick += 1;
    }
}
