//! The supervisor of the death zone: a player who falls below the level
//! loses a life, is held out of sight while a timer runs, and then stands
//! at the spawn point again.

use vstd::prelude::*;
use crate::fixed::{total_time, Vec3};
use crate::game_state::GameState;

verus! {

/// The height below which the player has fallen out of the level
/// (-10 units).
pub const DEATH_Y: i32 = -10_000;

/// The height at which the player is held while the respawn timer runs
/// (5 units below `DEATH_Y`).
pub const RESPAWN_HOLD_Y: i32 = -15_000;

/// Microseconds from the fall to the respawn (2 s).
pub const RESPAWN_DELAY: u64 = 2_000_000;

/// The space below the level.
#[derive(Clone, Copy, Debug, PartialEq, Eq, Structural)]
pub struct DeathZone;

/// The timer that runs while the player is held below the level.
#[derive(Clone, Copy, Debug, PartialEq, Eq, Structural)]
pub struct RespawnTimer {
    /// Microseconds since the fall.
    pub elapsed: u64,
}

/// Where the player stands at the start of a session and after a respawn.
pub open spec fn spawn_point() -> Vec3 {
    Vec3 { x: 0, y: 5000, z: 0 }
}

/// The player falls now: below the death zone's edge, not held for a
/// respawn already, and with a life to lose.
pub open spec fn falls(state: GameState, position: Vec3, respawn: Option<RespawnTimer>) -> bool {
    position.y < DEATH_Y && respawn is None && state.lives > 0
}

/// The position and the timer after `dt` microseconds of a respawn: until
/// the timer has run `RESPAWN_DELAY` the player is held at
/// `RESPAWN_HOLD_Y`; then the player stands at the spawn point and the
/// timer is gone. Without a timer nothing changes.
pub open spec fn respawn_step(
    position: Vec3,
    respawn: Option<RespawnTimer>,
    dt: u64,
) -> (Vec3, Option<RespawnTimer>) {
    match respawn {
        None => (position, None),
        Some(timer) => if timer.elapsed + dt >= RESPAWN_DELAY {
            (spawn_point(), None)
        } else {
            (
                Vec3 { y: RESPAWN_HOLD_Y, ..position },
                Some(RespawnTimer { elapsed: (timer.elapsed + dt) as u64 }),
            )
        },
    }
}

/// The position and the timer after one `respawn_step` for each of `dts`.
pub open spec fn respawn_steps(
    position: Vec3,
    respawn: Option<RespawnTimer>,
    dts: Seq<u64>,
) -> (Vec3, Option<RespawnTimer>)
    decreases dts.len(),
{
    if dts.len() == 0 {
        (position, respawn)
    } else {
        let (p, r) = respawn_steps(position, respawn, dts.drop_last());
        respawn_step(p, r, dts.last())
    }
}

impl DeathZone {
    /// Whether a point lies in the death zone.
    pub fn contains(position: &Vec3) -> (inside: bool)
        ensures
            inside == (position.y < DEATH_Y),
    {
        position.y < DEATH_Y
    }
}

impl RespawnTimer {
    pub fn new() -> (timer: RespawnTimer)
        ensures
            timer == (RespawnTimer { elapsed: 0 }),
    {
        RespawnTimer { elapsed: 0 }
    }
}

pub fn spawn_position() -> (position: Vec3)
    ensures
        position == spawn_point(),
{
    Vec3 { x: 0, y: 5000, z: 0 }
}

/// Watches the death zone. A player who `falls` loses one life and gets a
/// fresh respawn timer; otherwise nothing changes. Returns whether the
/// player fell.
pub fn check_death_zone(
    state: &mut GameState,
    position: &Vec3,
    respawn: &mut Option<RespawnTimer>,
) -> (fell: bool)
    ensures
        fell == falls(*old(state), *position, *old(respawn)),
        fell ==> *final(state) == old(state).fallen()
            && final(state).lives == old(state).lives - 1
            && *final(respawn) == Some(RespawnTimer { elapsed: 0 }),
        !fell ==> *final(state) == *old(state) && *final(respawn) == *old(respawn),
        old(state).combo_consistent() ==> final(state).combo_consistent(),
{
    if DeathZone::contains(position) && respawn.is_none() && state.lives > 0 {
        state.lose_life();
        *respawn = Some(RespawnTimer::new());
        true
    } else {
        false
    }
}

/// Runs a respawn for `dt` microseconds: see `respawn_step`. Returns
/// whether the player was put back at the spawn point. The player's
/// velocity is none of this function's business: it stays as it is.
pub fn respawn_player(
    position: &mut Vec3,
    respawn: &mut Option<RespawnTimer>,
    dt: u64,
) -> (respawned: bool)
    ensures
        (*final(position), *final(respawn)) == respawn_step(*old(position), *old(respawn), dt),
        respawned == (*old(respawn) is Some && *final(respawn) is None),
        respawned ==> *final(position) == spawn_point(),
{
    match *respawn {
        None => false,
        Some(timer) => {
            let elapsed: u64 = timer.elapsed.saturating_add(dt);
            if elapsed >= RESPAWN_DELAY {
                *position = spawn_position();
                *respawn = None;
                true
            } else {
                position.y = RESPAWN_HOLD_Y;
                *respawn = Some(RespawnTimer { elapsed });
                false
            }
        },
    }
}

/// Whether the session is over: no life is left.
pub fn check_game_over(state: &GameState) -> (over: bool)
    ensures
        over == (state.lives == 0),
{
    state.is_game_over()
}

/// A player who fell stands at the spawn point again with the tick with
/// which two seconds of ticks have added up since the fall, and is held
/// below the level until then.
pub proof fn lemma_respawn_after_delay(position: Vec3, dts: Seq<u64>)
    ensures
        ({
            let (p, r) = respawn_steps(position, Some(RespawnTimer { elapsed: 0 }), dts);
            &&& total_time(dts) >= RESPAWN_DELAY ==> r is None && p == spawn_point()
            &&& total_time(dts) < RESPAWN_DELAY ==> r == Some(
                RespawnTimer { elapsed: total_time(dts) as u64 },
            )
            &&& 0 < total_time(dts) < RESPAWN_DELAY ==> p.y == RESPAWN_HOLD_Y
        }),
    decreases dts.len(),
{
    if dts.len() > 0 {
        lemma_respawn_after_delay(position, dts.drop_last());
    }
}

} // verus!
