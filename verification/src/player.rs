//! The player controller: steering, ground and wall sensing, and the choice
//! among ground jump, double jump and wall jump.
//!
//! The controller never queries the world itself. Each tick its caller casts
//! the probes that the controller asks for and hands back what they hit.

use vstd::prelude::*;
use crate::fixed::{
    clamp_i32, div_toward_zero, lemma_div_toward_zero_of_multiple, lemma_floor_sqrt_of_square,
    rescale, rescaled, saturate, Vec3,
};

verus! {

/// How far the ground probe and the wall probe reach (1.1 units).
pub const PROBE_RANGE: u32 = 1100;

/// Microseconds after a wall jump during which no other is allowed (0.3 s).
pub const WALL_JUMP_COOLDOWN: u64 = 300_000;

/// The scale at which a direction built from signs is handed to `rescale`,
/// so that a diagonal keeps six digits.
pub const SIGN_SCALE: i64 = 1_000_000;

/// The player's tunables and kinematic flags. Speeds and forces are in
/// thousandths of a unit per second, the cooldown in microseconds.
#[derive(Clone, Copy, Debug)]
pub struct Player {
    pub speed: i32,
    pub sprint_speed: i32,
    pub jump_force: i32,
    pub wall_jump_force: i32,
    pub is_grounded: bool,
    pub is_sprinting: bool,
    pub has_double_jump: bool,
    pub wall_normal: Option<Vec3>,
    pub wall_jump_cooldown: u64,
}

/// The movement keys held during a tick.
#[derive(Clone, Copy, Debug, PartialEq, Eq, Structural)]
pub struct MoveInput {
    pub forward: bool,
    pub back: bool,
    pub left: bool,
    pub right: bool,
    pub sprint: bool,
}

/// A ray for the caller to cast from the player's position, ignoring the
/// player's own body.
#[derive(Clone, Copy, Debug, PartialEq, Eq, Structural)]
pub struct Probe {
    /// Unit direction, in thousandths.
    pub direction: Vec3,
    /// Reach, in thousandths of a unit.
    pub max_distance: u32,
}

/// The nearest surface that a probe met.
#[derive(Clone, Copy, Debug, PartialEq, Eq, Structural)]
pub struct ProbeHit {
    /// Distance to the surface, in thousandths of a unit.
    pub distance: u32,
    /// The surface's normal, a unit vector in thousandths.
    pub normal: Vec3,
}

/// What a jump press set off, for presentation.
#[derive(Clone, Copy, Debug, PartialEq, Eq, Structural)]
pub enum JumpEffect {
    Jump,
    DoubleJump,
    WallJump { normal: Vec3 },
}

/// -1, 0 or 1 as `v` is negative, zero or positive.
pub open spec fn sign_of(v: int) -> int {
    if v < 0 {
        -1
    } else if v > 0 {
        1
    } else {
        0
    }
}

/// The direction along one axis that two opposite keys give: each held key
/// pulls its way, and both together cancel.
pub open spec fn axis(negative: bool, positive: bool) -> int {
    (if positive { 1int } else { 0int }) - (if negative { 1int } else { 0int })
}

/// The vector of length `length` that points the way of the signs `sx`
/// and `sz` in the ground plane; zero when both are zero.
pub open spec fn heading(sx: int, sz: int, length: int) -> Vec3 {
    rescaled(sx * SIGN_SCALE, 0, sz * SIGN_SCALE, length)
}

/// A horizontal velocity component after one tick without input: four
/// fifths of it, rounded toward zero.
pub open spec fn damped(v: int) -> int {
    div_toward_zero(v * 4, 5)
}

/// The velocity of a wall jump off a surface with normal `normal`: the
/// direction `up + 1.5 * normal`, at speed `force`.
pub open spec fn wall_jump_velocity(normal: Vec3, force: int) -> Vec3 {
    rescaled(3 * normal.x, 2000 + 3 * normal.y, 3 * normal.z, force)
}

/// The vertical speed of a double jump: nine tenths of `jump_force`,
/// rounded toward zero.
pub open spec fn double_jump_speed(jump_force: int) -> int {
    div_toward_zero(jump_force * 9, 10)
}

impl MoveInput {
    /// -1 for left, 1 for right.
    pub open spec fn dir_x(self) -> int {
        axis(self.left, self.right)
    }

    /// -1 for forward, 1 for back.
    pub open spec fn dir_z(self) -> int {
        axis(self.forward, self.back)
    }

    /// No key held.
    pub fn none() -> (input: MoveInput)
        ensures
            input == (MoveInput {
                forward: false,
                back: false,
                left: false,
                right: false,
                sprint: false,
            }),
    {
        MoveInput { forward: false, back: false, left: false, right: false, sprint: false }
    }
}

/// A length-`length` vector pointing the way of the signs `sx` and `sz`.
fn heading_of(sx: i64, sz: i64, length: i32) -> (v: Vec3)
    requires
        -1 <= sx <= 1,
        -1 <= sz <= 1,
    ensures
        v == heading(sx as int, sz as int, length as int),
{
    rescale(sx * SIGN_SCALE, 0, sz * SIGN_SCALE, length)
}

fn sign(v: i32) -> (s: i64)
    ensures
        s == sign_of(v as int),
{
    if v < 0 {
        -1
    } else if v > 0 {
        1
    } else {
        0
    }
}

fn key_axis(negative: bool, positive: bool) -> (a: i64)
    ensures
        a == axis(negative, positive),
{
    let p: i64 = if positive { 1 } else { 0 };
    let n: i64 = if negative { 1 } else { 0 };
    p - n
}

/// Along one axis alone, a heading is the length itself in that direction.
pub proof fn lemma_heading_along_axis(sx: int, sz: int, length: int)
    requires
        -1 <= sx <= 1,
        -1 <= sz <= 1,
        i32::MIN <= length <= i32::MAX,
    ensures
        sx != 0 && sz == 0 ==> heading(sx, sz, length) == (Vec3 {
            x: clamp_i32(sx * length) as i32,
            y: 0,
            z: 0,
        }),
        sx == 0 && sz != 0 ==> heading(sx, sz, length) == (Vec3 {
            x: 0,
            y: 0,
            z: clamp_i32(sz * length) as i32,
        }),
        sx == 0 && sz == 0 ==> heading(sx, sz, length) == (Vec3 { x: 0, y: 0, z: 0 }),
{
    if sx == 0 && sz == 0 {
        lemma_floor_sqrt_of_square(0);
    } else if sx == 0 || sz == 0 {
        lemma_floor_sqrt_of_square(1_000_000);
        let s = if sx != 0 { sx } else { sz };
        assert((s * 1_000_000) * (s * 1_000_000) == 1_000_000 * 1_000_000) by (nonlinear_arith)
            requires
                s == 1 || s == -1,
        ;
        assert(s * 1_000_000 * length == (s * length) * 1_000_000) by (nonlinear_arith);
        lemma_div_toward_zero_of_multiple(s * length, 1_000_000);
    }
}

impl Player {
    /// The player at the start of a session: in the air, with the double
    /// jump at hand.
    pub open spec fn initial() -> Player {
        Player {
            speed: 8000,
            sprint_speed: 14000,
            jump_force: 12000,
            wall_jump_force: 10000,
            is_grounded: false,
            is_sprinting: false,
            has_double_jump: true,
            wall_normal: None,
            wall_jump_cooldown: 0,
        }
    }

    /// The speed at which the player moves under `input`.
    pub open spec fn active_speed(self, input: MoveInput) -> i32 {
        if input.sprint {
            self.sprint_speed
        } else {
            self.speed
        }
    }

    /// The velocity that steering under `input` makes of `velocity`. With a
    /// direction held, the horizontal part is that direction at the active
    /// speed; with none, the horizontal part is damped. The vertical part
    /// stays.
    pub open spec fn steered_velocity(self, velocity: Vec3, input: MoveInput) -> Vec3 {
        if input.dir_x() != 0 || input.dir_z() != 0 {
            let h = heading(input.dir_x(), input.dir_z(), self.active_speed(input) as int);
            Vec3 { x: h.x, y: velocity.y, z: h.z }
        } else {
            Vec3 {
                x: damped(velocity.x as int) as i32,
                y: velocity.y,
                z: damped(velocity.z as int) as i32,
            }
        }
    }

    /// The player after the cooldown ran for `dt` and the ground probe came
    /// back with `ground`.
    pub open spec fn ground_sensed(self, dt: u64, ground: Option<ProbeHit>) -> Player {
        let grounded = ground matches Some(hit) && hit.distance < PROBE_RANGE;
        Player {
            wall_jump_cooldown: if self.wall_jump_cooldown >= dt {
                (self.wall_jump_cooldown - dt) as u64
            } else {
                0
            },
            is_grounded: grounded,
            has_double_jump: self.has_double_jump || grounded,
            ..self
        }
    }

    /// The wall probe to cast: none on the ground, none during the cooldown,
    /// none while the player does not move horizontally; else one along the
    /// signs of the horizontal velocity.
    pub open spec fn wall_probe_wanted(self, velocity: Vec3) -> Option<Probe> {
        if self.is_grounded || self.wall_jump_cooldown > 0
            || (velocity.x == 0 && velocity.z == 0) {
            None
        } else {
            Some(
                Probe {
                    direction: heading(
                        sign_of(velocity.x as int),
                        sign_of(velocity.z as int),
                        1000,
                    ),
                    max_distance: PROBE_RANGE,
                },
            )
        }
    }

    /// The player after the wall probe came back with `wall`. What a probe
    /// that was not wanted reports is ignored.
    pub open spec fn wall_sensed(self, velocity: Vec3, wall: Option<ProbeHit>) -> Player {
        Player {
            wall_normal: match (self.wall_probe_wanted(velocity), wall) {
                (Some(_), Some(hit)) => Some(hit.normal),
                _ => None,
            },
            ..self
        }
    }

    /// The jump that a press sets off: the ground jump if grounded; else
    /// the double jump if it is at hand; else the wall jump if a wall is
    /// known and the cooldown is over; else none.
    pub open spec fn jump_choice(self) -> Option<JumpEffect> {
        if self.is_grounded {
            Some(JumpEffect::Jump)
        } else if self.has_double_jump {
            Some(JumpEffect::DoubleJump)
        } else if self.wall_normal is Some && self.wall_jump_cooldown == 0 {
            Some(JumpEffect::WallJump { normal: self.wall_normal->0 })
        } else {
            None
        }
    }

    /// The player after a jump press.
    pub open spec fn jumped(self) -> Player {
        match self.jump_choice() {
            Some(JumpEffect::DoubleJump) => Player { has_double_jump: false, ..self },
            Some(JumpEffect::WallJump { .. }) => Player {
                wall_jump_cooldown: WALL_JUMP_COOLDOWN,
                ..self
            },
            _ => self,
        }
    }

    /// The velocity that a jump press makes of `velocity`.
    pub open spec fn jump_velocity(self, velocity: Vec3) -> Vec3 {
        match self.jump_choice() {
            Some(JumpEffect::Jump) => Vec3 { y: self.jump_force, ..velocity },
            Some(JumpEffect::DoubleJump) => Vec3 {
                y: double_jump_speed(self.jump_force as int) as i32,
                ..velocity
            },
            Some(JumpEffect::WallJump { normal }) => wall_jump_velocity(
                normal,
                self.wall_jump_force as int,
            ),
            None => velocity,
        }
    }

    pub fn new() -> (player: Player)
        ensures
            player == Player::initial(),
    {
        Player {
            speed: 8000,
            sprint_speed: 14000,
            jump_force: 12000,
            wall_jump_force: 10000,
            is_grounded: false,
            is_sprinting: false,
            has_double_jump: true,
            wall_normal: None,
            wall_jump_cooldown: 0,
        }
    }

    /// Steers: notes whether the player sprints and turns `velocity` into
    /// the velocity that `input` asks for.
    pub fn steer(&mut self, velocity: &mut Vec3, input: &MoveInput)
        ensures
            *final(self) == (Player { is_sprinting: input.sprint, ..*old(self) }),
            *final(velocity) == old(self).steered_velocity(*old(velocity), *input),
            final(velocity).y == old(velocity).y,
            input.dir_x() != 0 && input.dir_z() == 0 ==> final(velocity).z == 0
                && final(velocity).x == clamp_i32(input.dir_x() * old(self).active_speed(*input)),
            input.dir_x() == 0 && input.dir_z() != 0 ==> final(velocity).x == 0
                && final(velocity).z == clamp_i32(input.dir_z() * old(self).active_speed(*input)),
    {
        proof {
            lemma_heading_along_axis(
                input.dir_x(),
                input.dir_z(),
                self.active_speed(*input) as int,
            );
        }
        self.is_sprinting = input.sprint;
        let speed: i32 = if input.sprint {
            self.sprint_speed
        } else {
            self.speed
        };
        let dx: i64 = key_axis(input.left, input.right);
        let dz: i64 = key_axis(input.forward, input.back);
        if dx != 0 || dz != 0 {
            let h = heading_of(dx, dz, speed);
            velocity.x = h.x;
            velocity.z = h.z;
        } else {
            velocity.x = saturate((velocity.x as i128 * 4) / 5);
            velocity.z = saturate((velocity.z as i128 * 4) / 5);
        }
    }

    /// Runs the wall-jump cooldown for `dt` microseconds, never below zero,
    /// and takes in what the ground probe hit: a hit within range grounds
    /// the player and hands the double jump back.
    pub fn sense_ground(&mut self, dt: u64, ground: Option<ProbeHit>)
        ensures
            *final(self) == old(self).ground_sensed(dt, ground),
            final(self).is_grounded == (ground matches Some(hit) && hit.distance < PROBE_RANGE),
            final(self).is_grounded ==> final(self).has_double_jump,
    {
        self.wall_jump_cooldown = self.wall_jump_cooldown.saturating_sub(dt);
        let grounded = match ground {
            Some(hit) => hit.distance < PROBE_RANGE,
            None => false,
        };
        self.is_grounded = grounded;
        if grounded {
            self.has_double_jump = true;
        }
    }

    /// The wall probe that the caller is to cast this tick, if any.
    pub fn wall_probe(&self, velocity: &Vec3) -> (probe: Option<Probe>)
        ensures
            probe == self.wall_probe_wanted(*velocity),
            self.is_grounded || self.wall_jump_cooldown > 0 ==> probe is None,
    {
        if self.is_grounded || self.wall_jump_cooldown > 0
            || (velocity.x == 0 && velocity.z == 0) {
            None
        } else {
            Some(
                Probe {
                    direction: heading_of(sign(velocity.x), sign(velocity.z), 1000),
                    max_distance: PROBE_RANGE,
                },
            )
        }
    }

    /// Takes in what the wall probe hit: the wall's normal is known after a
    /// hit of a probe that was wanted, and unknown otherwise.
    pub fn sense_wall(&mut self, velocity: &Vec3, wall: Option<ProbeHit>)
        ensures
            *final(self) == old(self).wall_sensed(*velocity, wall),
            old(self).is_grounded || old(self).wall_jump_cooldown > 0
                ==> final(self).wall_normal is None,
    {
        let wanted = self.wall_probe(velocity);
        self.wall_normal = match (wanted, wall) {
            (Some(_), Some(hit)) => Some(hit.normal),
            _ => None,
        };
    }

    /// Resolves one jump press. The first of these that applies happens,
    /// and only that one: grounded, a ground jump at `jump_force`; the double
    /// jump at hand, a double jump at nine tenths of it, which uses the
    /// double jump up; a wall known and the cooldown over, a wall jump, which
    /// starts the cooldown. Otherwise nothing changes.
    pub fn jump(&mut self, velocity: &mut Vec3) -> (effect: Option<JumpEffect>)
        ensures
            effect == old(self).jump_choice(),
            *final(self) == old(self).jumped(),
            *final(velocity) == old(self).jump_velocity(*old(velocity)),
            old(self).is_grounded ==> effect == Some(JumpEffect::Jump)
                && final(velocity).y == old(self).jump_force
                && final(self).has_double_jump == old(self).has_double_jump,
            old(self).wall_jump_cooldown > 0
                ==> !(effect matches Some(JumpEffect::WallJump { .. })),
            effect is None ==> *final(self) == *old(self) && *final(velocity) == *old(velocity),
    {
        if self.is_grounded {
            velocity.y = self.jump_force;
            Some(JumpEffect::Jump)
        } else if self.has_double_jump {
            velocity.y = saturate((self.jump_force as i128 * 9) / 10);
            self.has_double_jump = false;
            Some(JumpEffect::DoubleJump)
        } else if self.wall_normal.is_some() && self.wall_jump_cooldown == 0 {
            let normal = self.wall_normal.unwrap();
            *velocity = rescale(
                3 * normal.x as i64,
                2000 + 3 * normal.y as i64,
                3 * normal.z as i64,
                self.wall_jump_force,
            );
            self.wall_jump_cooldown = WALL_JUMP_COOLDOWN;
            Some(JumpEffect::WallJump { normal })
        } else {
            None
        }
    }
}

impl Default for Player {
    fn default() -> (player: Player)
        ensures
            player == Player::initial(),
    {
        Player::new()
    }
}

/// The ground probe: straight down, as far as `PROBE_RANGE`.
pub fn ground_probe() -> (probe: Probe)
    ensures
        probe == (Probe { direction: Vec3 { x: 0, y: -1000i32, z: 0 }, max_distance: PROBE_RANGE }),
{
    Probe { direction: Vec3 { x: 0, y: -1000, z: 0 }, max_distance: PROBE_RANGE }
}

/// The horizontal half of the controller's tick: see `Player::steer`.
pub fn player_movement(player: &mut Player, velocity: &mut Vec3, input: &MoveInput)
    ensures
        *final(player) == (Player { is_sprinting: input.sprint, ..*old(player) }),
        *final(velocity) == old(player).steered_velocity(*old(velocity), *input),
{
    player.steer(velocity, input);
}

/// The player that `player_jump` leaves before it looks at the jump key.
pub open spec fn sensed(
    player: Player,
    velocity: Vec3,
    dt: u64,
    ground: Option<ProbeHit>,
    wall: Option<ProbeHit>,
) -> Player {
    player.ground_sensed(dt, ground).wall_sensed(velocity, wall)
}

/// The vertical half of the controller's tick, in its fixed order: the
/// cooldown runs, the ground probe is taken in, then the wall probe, and
/// then, if jump was pressed this tick, the press is resolved by
/// `Player::jump`. `wall` is what the probe of `Player::wall_probe` hit,
/// cast after `Player::sense_ground`.
pub fn player_jump(
    player: &mut Player,
    velocity: &mut Vec3,
    dt: u64,
    ground: Option<ProbeHit>,
    wall: Option<ProbeHit>,
    jump_pressed: bool,
) -> (effect: Option<JumpEffect>)
    ensures
        jump_pressed ==> {
            let before = sensed(*old(player), *old(velocity), dt, ground, wall);
            &&& effect == before.jump_choice()
            &&& *final(player) == before.jumped()
            &&& *final(velocity) == before.jump_velocity(*old(velocity))
        },
        !jump_pressed ==> {
            &&& effect is None
            &&& *final(player) == sensed(*old(player), *old(velocity), dt, ground, wall)
            &&& *final(velocity) == *old(velocity)
        },
        final(player).is_grounded == (ground matches Some(hit) && hit.distance < PROBE_RANGE),
        jump_pressed && final(player).is_grounded ==> effect == Some(JumpEffect::Jump),
        old(player).wall_jump_cooldown > dt
            ==> !(effect matches Some(JumpEffect::WallJump { .. })),
{
    player.sense_ground(dt, ground);
    player.sense_wall(velocity, wall);
    if jump_pressed {
        player.jump(velocity)
    } else {
        None
    }
}

} // verus!
