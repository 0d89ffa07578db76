use platformer_core::fixed::Vec3;
use platformer_core::player::{
    ground_probe, player_jump, player_movement, JumpEffect, MoveInput, Player, Probe, ProbeHit,
    PROBE_RANGE, WALL_JUMP_COOLDOWN,
};

fn keys(forward: bool, back: bool, left: bool, right: bool, sprint: bool) -> MoveInput {
    MoveInput { forward, back, left, right, sprint }
}

fn hit(distance: u32, normal: Vec3) -> Option<ProbeHit> {
    Some(ProbeHit { distance, normal })
}

fn floor(distance: u32) -> Option<ProbeHit> {
    hit(distance, Vec3::new(0, 1000, 0))
}

fn airborne() -> Player {
    let mut player = Player::new();
    player.is_grounded = false;
    player.has_double_jump = false;
    player
}

#[test]
fn a_fresh_player_has_the_stock_tunables() {
    let player = Player::new();
    assert_eq!(player.speed, 8000);
    assert_eq!(player.sprint_speed, 14_000);
    assert_eq!(player.jump_force, 12_000);
    assert_eq!(player.wall_jump_force, 10_000);
    assert!(!player.is_grounded);
    assert!(!player.is_sprinting);
    assert!(player.has_double_jump);
    assert_eq!(player.wall_normal, None);
    assert_eq!(player.wall_jump_cooldown, 0);
    let other = Player::default();
    assert_eq!(other.speed, 8000);
    assert!(other.has_double_jump);
}

#[test]
fn one_key_moves_along_its_axis_at_base_speed() {
    let mut player = Player::new();
    let mut velocity = Vec3::new(123, -456, 789);
    player.steer(&mut velocity, &keys(true, false, false, false, false));
    assert_eq!(velocity, Vec3::new(0, -456, -8000));
    player.steer(&mut velocity, &keys(false, true, false, false, false));
    assert_eq!(velocity, Vec3::new(0, -456, 8000));
    player.steer(&mut velocity, &keys(false, false, true, false, false));
    assert_eq!(velocity, Vec3::new(-8000, -456, 0));
    player.steer(&mut velocity, &keys(false, false, false, true, false));
    assert_eq!(velocity, Vec3::new(8000, -456, 0));
    assert!(!player.is_sprinting);
}

#[test]
fn two_keys_move_along_the_diagonal_at_the_same_speed() {
    let mut player = Player::new();
    let mut velocity = Vec3::zero();
    player.steer(&mut velocity, &keys(false, true, false, true, false));
    assert_eq!(velocity, Vec3::new(5656, 0, 5656));
}

#[test]
fn sprint_moves_at_sprint_speed() {
    let mut player = Player::new();
    let mut velocity = Vec3::zero();
    player.steer(&mut velocity, &keys(false, false, false, true, true));
    assert_eq!(velocity, Vec3::new(14_000, 0, 0));
    assert!(player.is_sprinting);
    player.steer(&mut velocity, &keys(false, true, true, false, true));
    assert_eq!(velocity, Vec3::new(-9899, 0, 9899));
}

#[test]
fn opposite_keys_cancel() {
    let mut player = Player::new();
    let mut velocity = Vec3::new(1000, 0, 1000);
    player.steer(&mut velocity, &keys(true, true, false, true, false));
    assert_eq!(velocity, Vec3::new(8000, 0, 0));
    player.steer(&mut velocity, &keys(true, true, true, true, false));
    assert_eq!(velocity, Vec3::new(6400, 0, 0));
}

#[test]
fn without_input_the_horizontal_velocity_is_damped_by_a_fifth() {
    let mut player = Player::new();
    let mut velocity = Vec3::new(8000, -3000, -7);
    player_movement(&mut player, &mut velocity, &MoveInput::none());
    assert_eq!(velocity, Vec3::new(6400, -3000, -5));
    player_movement(&mut player, &mut velocity, &MoveInput::none());
    assert_eq!(velocity, Vec3::new(5120, -3000, -4));
    let mut slow = Vec3::new(1, 0, -1);
    player_movement(&mut player, &mut slow, &MoveInput::none());
    assert_eq!(slow, Vec3::zero());
}

#[test]
fn steering_with_an_extreme_speed_saturates() {
    let mut player = Player::new();
    player.speed = i32::MIN;
    let mut velocity = Vec3::zero();
    player.steer(&mut velocity, &keys(false, false, true, false, false));
    assert_eq!(velocity, Vec3::new(i32::MAX, 0, 0));
    player.steer(&mut velocity, &keys(false, false, false, true, false));
    assert_eq!(velocity, Vec3::new(i32::MIN, 0, 0));
}

#[test]
fn the_ground_probe_looks_straight_down() {
    assert_eq!(
        ground_probe(),
        Probe { direction: Vec3::new(0, -1000, 0), max_distance: 1100 }
    );
    assert_eq!(PROBE_RANGE, 1100);
}

#[test]
fn a_ground_hit_within_range_grounds_and_restores_the_double_jump() {
    let mut player = airborne();
    player.sense_ground(16_667, floor(1099));
    assert!(player.is_grounded);
    assert!(player.has_double_jump);
}

#[test]
fn a_ground_hit_at_the_range_or_no_hit_leaves_the_player_in_the_air() {
    let mut player = airborne();
    player.sense_ground(16_667, floor(1100));
    assert!(!player.is_grounded);
    assert!(!player.has_double_jump);
    player.is_grounded = true;
    player.sense_ground(16_667, None);
    assert!(!player.is_grounded);
    assert!(!player.has_double_jump);
}

#[test]
fn the_cooldown_runs_down_and_stops_at_zero() {
    let mut player = airborne();
    player.wall_jump_cooldown = 300_000;
    player.sense_ground(100_000, None);
    assert_eq!(player.wall_jump_cooldown, 200_000);
    player.sense_ground(250_000, None);
    assert_eq!(player.wall_jump_cooldown, 0);
    player.sense_ground(u64::MAX, None);
    assert_eq!(player.wall_jump_cooldown, 0);
}

#[test]
fn the_wall_probe_follows_the_signs_of_the_horizontal_velocity() {
    let player = airborne();
    assert_eq!(
        player.wall_probe(&Vec3::new(5, -9000, 0)),
        Some(Probe { direction: Vec3::new(1000, 0, 0), max_distance: 1100 })
    );
    assert_eq!(
        player.wall_probe(&Vec3::new(0, 0, -8000)),
        Some(Probe { direction: Vec3::new(0, 0, -1000), max_distance: 1100 })
    );
    assert_eq!(
        player.wall_probe(&Vec3::new(3000, 0, -1)),
        Some(Probe { direction: Vec3::new(707, 0, -707), max_distance: 1100 })
    );
}

#[test]
fn no_wall_probe_on_the_ground_during_cooldown_or_at_rest() {
    let moving = Vec3::new(8000, 0, 0);
    let mut grounded = airborne();
    grounded.is_grounded = true;
    assert_eq!(grounded.wall_probe(&moving), None);
    let mut cooling = airborne();
    cooling.wall_jump_cooldown = 1;
    assert_eq!(cooling.wall_probe(&moving), None);
    assert_eq!(airborne().wall_probe(&Vec3::new(0, -5000, 0)), None);
}

#[test]
fn a_wall_hit_is_remembered_and_a_miss_forgotten() {
    let moving = Vec3::new(8000, 0, 0);
    let normal = Vec3::new(-1000, 0, 0);
    let mut player = airborne();
    player.sense_wall(&moving, hit(400, normal));
    assert_eq!(player.wall_normal, Some(normal));
    player.sense_wall(&moving, None);
    assert_eq!(player.wall_normal, None);
}

#[test]
fn a_wall_hit_that_was_not_asked_for_is_ignored() {
    let moving = Vec3::new(8000, 0, 0);
    let normal = Vec3::new(-1000, 0, 0);
    let mut cooling = airborne();
    cooling.wall_jump_cooldown = 1;
    cooling.wall_normal = Some(normal);
    cooling.sense_wall(&moving, hit(400, normal));
    assert_eq!(cooling.wall_normal, None);
    let mut grounded = airborne();
    grounded.is_grounded = true;
    grounded.sense_wall(&moving, hit(400, normal));
    assert_eq!(grounded.wall_normal, None);
    let mut resting = airborne();
    resting.sense_wall(&Vec3::zero(), hit(400, normal));
    assert_eq!(resting.wall_normal, None);
}

#[test]
fn grounded_jump_beats_double_jump() {
    let mut player = Player::new();
    player.is_grounded = true;
    player.has_double_jump = true;
    player.wall_normal = Some(Vec3::new(1000, 0, 0));
    let mut velocity = Vec3::new(100, -200, 300);
    assert_eq!(player.jump(&mut velocity), Some(JumpEffect::Jump));
    assert_eq!(velocity, Vec3::new(100, 12_000, 300));
    assert!(player.has_double_jump);
    assert_eq!(player.wall_jump_cooldown, 0);
}

#[test]
fn double_jump_is_nine_tenths_and_is_used_up() {
    let mut player = Player::new();
    let mut velocity = Vec3::new(100, -200, 300);
    assert_eq!(player.jump(&mut velocity), Some(JumpEffect::DoubleJump));
    assert_eq!(velocity, Vec3::new(100, 10_800, 300));
    assert!(!player.has_double_jump);
    assert_eq!(player.jump(&mut velocity), None);
    assert_eq!(velocity, Vec3::new(100, 10_800, 300));
}

#[test]
fn double_jump_rounds_toward_zero() {
    let mut player = Player::new();
    player.jump_force = 12_005;
    let mut velocity = Vec3::zero();
    player.jump(&mut velocity);
    assert_eq!(velocity.y, 10_804);
    let mut down = Player::new();
    down.jump_force = -12_005;
    down.jump(&mut velocity);
    assert_eq!(velocity.y, -10_804);
}

#[test]
fn double_jump_beats_wall_jump() {
    let mut player = Player::new();
    player.wall_normal = Some(Vec3::new(1000, 0, 0));
    let mut velocity = Vec3::zero();
    assert_eq!(player.jump(&mut velocity), Some(JumpEffect::DoubleJump));
    assert_eq!(player.wall_jump_cooldown, 0);
}

#[test]
fn wall_jump_launches_up_and_away_from_the_wall() {
    let normal = Vec3::new(1000, 0, 0);
    let mut player = airborne();
    player.wall_normal = Some(normal);
    let mut velocity = Vec3::new(-8000, -3000, 77);
    assert_eq!(player.jump(&mut velocity), Some(JumpEffect::WallJump { normal }));
    assert_eq!(velocity, Vec3::new(8321, 5547, 0));
    assert_eq!(player.wall_jump_cooldown, WALL_JUMP_COOLDOWN);
    assert_eq!(player.wall_jump_cooldown, 300_000);
}

#[test]
fn wall_jump_off_other_walls() {
    let mut velocity = Vec3::zero();
    let mut player = airborne();
    player.wall_normal = Some(Vec3::new(0, 0, -1000));
    player.jump(&mut velocity);
    assert_eq!(velocity, Vec3::new(0, 5547, -8321));
    let mut other = airborne();
    other.wall_normal = Some(Vec3::new(707, 0, 707));
    other.jump(&mut velocity);
    assert_eq!(velocity, Vec3::new(5883, 5547, 5883));
}

#[test]
fn wall_jump_is_refused_during_cooldown() {
    let mut player = airborne();
    player.wall_normal = Some(Vec3::new(1000, 0, 0));
    player.wall_jump_cooldown = 1;
    let mut velocity = Vec3::new(1, 2, 3);
    assert_eq!(player.jump(&mut velocity), None);
    assert_eq!(velocity, Vec3::new(1, 2, 3));
    assert_eq!(player.wall_jump_cooldown, 1);
    assert_eq!(player.wall_normal, Some(Vec3::new(1000, 0, 0)));
}

#[test]
fn a_jump_press_with_nothing_to_jump_from_is_dropped() {
    let mut player = airborne();
    let mut velocity = Vec3::new(1, 2, 3);
    assert_eq!(player.jump(&mut velocity), None);
    assert_eq!(velocity, Vec3::new(1, 2, 3));
    assert!(!player.has_double_jump);
    assert!(!player.is_grounded);
}

#[test]
fn a_tick_on_the_ground_with_a_press_is_a_ground_jump() {
    let mut player = airborne();
    let mut velocity = Vec3::new(8000, -100, 0);
    let effect = player_jump(&mut player, &mut velocity, 16_667, floor(1000), None, true);
    assert_eq!(effect, Some(JumpEffect::Jump));
    assert_eq!(velocity, Vec3::new(8000, 12_000, 0));
    assert!(player.is_grounded);
    assert!(player.has_double_jump);
}

#[test]
fn a_tick_without_a_press_only_senses() {
    let mut player = airborne();
    let normal = Vec3::new(-1000, 0, 0);
    let mut velocity = Vec3::new(8000, -100, 0);
    let effect = player_jump(&mut player, &mut velocity, 16_667, None, hit(500, normal), false);
    assert_eq!(effect, None);
    assert_eq!(velocity, Vec3::new(8000, -100, 0));
    assert_eq!(player.wall_normal, Some(normal));
    assert!(!player.is_grounded);
}

#[test]
fn a_tick_at_a_wall_with_a_press_is_a_wall_jump_and_the_next_is_not() {
    let mut player = airborne();
    let normal = Vec3::new(-1000, 0, 0);
    let mut velocity = Vec3::new(8000, -100, 0);
    let first = player_jump(&mut player, &mut velocity, 16_667, None, hit(500, normal), true);
    assert_eq!(first, Some(JumpEffect::WallJump { normal }));
    assert_eq!(velocity, Vec3::new(-8321, 5547, 0));
    let second = player_jump(&mut player, &mut velocity, 16_667, None, hit(500, normal), true);
    assert_eq!(second, None);
    assert_eq!(player.wall_jump_cooldown, 300_000 - 16_667);
    assert_eq!(player.wall_normal, None);
}

#[test]
fn the_cooldown_that_ends_this_tick_allows_the_wall_jump() {
    let mut player = airborne();
    player.wall_jump_cooldown = 16_667;
    let normal = Vec3::new(-1000, 0, 0);
    let mut velocity = Vec3::new(8000, -100, 0);
    let effect = player_jump(&mut player, &mut velocity, 16_667, None, hit(500, normal), true);
    assert_eq!(effect, Some(JumpEffect::WallJump { normal }));
}
