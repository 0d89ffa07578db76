//! Power-ups: what kinds exist, what each is worth, and when the player
//! picks one up.

use vstd::prelude::*;
use rand::rngs::ThreadRng;
use crate::fixed::Vec3;
use crate::game_state::GameState;
use crate::random::{random_in, Region};

verus! {

/// The player picks up a power-up that lies strictly closer than this
/// (1.2 units).
pub const POWERUP_PICKUP_RADIUS: u32 = 1200;

/// How many mushrooms a level holds.
pub const MUSHROOM_COUNT: usize = 8;

/// How many fire flowers a level holds.
pub const FIRE_FLOWER_COUNT: usize = 3;

#[derive(Clone, Copy, Debug, PartialEq, Eq, Structural)]
pub enum PowerUpType {
    Mushroom,
    FireFlower,
    Star,
}

impl PowerUpType {
    /// The score that picking up a power-up of this kind adds.
    pub open spec fn value(self) -> u32 {
        match self {
            PowerUpType::Mushroom => 1000,
            PowerUpType::FireFlower => 1500,
            PowerUpType::Star => 2000,
        }
    }

    pub fn score_value(&self) -> (points: u32)
        ensures
            points == self.value(),
    {
        match self {
            PowerUpType::Mushroom => 1000,
            PowerUpType::FireFlower => 1500,
            PowerUpType::Star => 2000,
        }
    }
}

/// A power-up lying in the level.
#[derive(Clone, Copy, Debug, PartialEq, Eq, Structural)]
pub struct PowerUp {
    pub powerup_type: PowerUpType,
}

/// A power-up at its place in the level.
#[derive(Clone, Copy, Debug, PartialEq, Eq, Structural)]
pub struct PlacedPowerUp {
    pub position: Vec3,
    pub powerup: PowerUp,
}

impl PlacedPowerUp {
    /// Whether a player at `player_position` picks this power-up up.
    pub open spec fn in_reach(self, player_position: Vec3) -> bool {
        player_position.distance_squared(self.position) < POWERUP_PICKUP_RADIUS
            * POWERUP_PICKUP_RADIUS
    }

    pub fn is_in_reach(&self, player_position: &Vec3) -> (near: bool)
        ensures
            near == self.in_reach(*player_position),
    {
        player_position.within(&self.position, POWERUP_PICKUP_RADIUS)
    }
}

/// The ledger after the player at `player_position` picked up what is in
/// reach among `powerups`, one after the other.
pub open spec fn ledger_with_powerups(
    state: GameState,
    player_position: Vec3,
    powerups: Seq<PlacedPowerUp>,
) -> GameState
    decreases powerups.len(),
{
    if powerups.len() == 0 {
        state
    } else {
        let before = ledger_with_powerups(state, player_position, powerups.drop_last());
        if powerups.last().in_reach(player_position) {
            before.with_powerup(powerups.last().powerup.powerup_type)
        } else {
            before
        }
    }
}

/// Those of `powerups`, in their order, that are in reach of a player at
/// `player_position` (`taken`), or those that are not (`!taken`).
pub open spec fn powerups_split(
    player_position: Vec3,
    powerups: Seq<PlacedPowerUp>,
    taken: bool,
) -> Seq<PlacedPowerUp>
    decreases powerups.len(),
{
    if powerups.len() == 0 {
        Seq::empty()
    } else if powerups.last().in_reach(player_position) == taken {
        powerups_split(player_position, powerups.drop_last(), taken).push(powerups.last())
    } else {
        powerups_split(player_position, powerups.drop_last(), taken)
    }
}

/// Picks up every power-up in reach of the player: each adds its kind's
/// value to the score and leaves the level. Returns the power-ups that
/// were picked up, in their order.
pub fn collect_powerups(
    state: &mut GameState,
    player_position: &Vec3,
    powerups: &mut Vec<PlacedPowerUp>,
) -> (collected: Vec<PlacedPowerUp>)
    ensures
        *final(state) == ledger_with_powerups(*old(state), *player_position, old(powerups)@),
        collected@ == powerups_split(*player_position, old(powerups)@, true),
        final(powerups)@ == powerups_split(*player_position, old(powerups)@, false),
        old(state).combo_consistent() ==> final(state).combo_consistent(),
{
    let ghost before = powerups@;
    let ghost ledger = *state;
    let mut collected: Vec<PlacedPowerUp> = Vec::new();
    let mut left: Vec<PlacedPowerUp> = Vec::new();
    let n = powerups.len();
    let mut i: usize = 0;
    while i < n
        invariant
            i <= n,
            n == before.len(),
            powerups@ == before,
            *state == ledger_with_powerups(ledger, *player_position, before.take(i as int)),
            collected@ == powerups_split(*player_position, before.take(i as int), true),
            left@ == powerups_split(*player_position, before.take(i as int), false),
            ledger.combo_consistent() ==> state.combo_consistent(),
        decreases n - i,
    {
        let placed = powerups[i];
        proof {
            assert(before.take(i + 1).drop_last() =~= before.take(i as int));
        }
        if placed.is_in_reach(player_position) {
            state.collect_powerup(placed.powerup.powerup_type);
            collected.push(placed);
        } else {
            left.push(placed);
        }
        i += 1;
    }
    proof {
        assert(before.take(n as int) =~= before);
    }
    *powerups = left;
    collected
}

/// Where the mushrooms of a level may lie: 18 units to either side, 1.5
/// units high, up to 20 units ahead.
pub open spec fn mushroom_region() -> Region {
    Region {
        x_min: -18_000i32,
        x_end: 18_000,
        y_min: 1500,
        y_end: 1501,
        z_min: -20_000i32,
        z_end: 0,
    }
}

/// Where the fire flowers of a level may lie: 15 units to either side, 2
/// units high, from 18 to 5 units ahead.
pub open spec fn fire_flower_region() -> Region {
    Region {
        x_min: -15_000i32,
        x_end: 15_000,
        y_min: 2000,
        y_end: 2001,
        z_min: -18_000i32,
        z_end: -5000i32,
    }
}

/// A power-up of kind `kind` somewhere in `region`.
pub open spec fn placed_in(placed: PlacedPowerUp, kind: PowerUpType, region: Region) -> bool {
    placed.powerup.powerup_type == kind && region.contains(placed.position)
}

/// Puts the power-ups of a level: first `MUSHROOM_COUNT` mushrooms, each
/// somewhere in `mushroom_region`, then `FIRE_FLOWER_COUNT` fire flowers,
/// each somewhere in `fire_flower_region`, wherever chance has it.
pub fn spawn_powerups(rng: &mut ThreadRng) -> (powerups: Vec<PlacedPowerUp>)
    ensures
        powerups@.len() == MUSHROOM_COUNT + FIRE_FLOWER_COUNT,
        forall|i: int|
            0 <= i < MUSHROOM_COUNT ==> placed_in(
                #[trigger] powerups@[i],
                PowerUpType::Mushroom,
                mushroom_region(),
            ),
        forall|i: int|
            MUSHROOM_COUNT <= i < MUSHROOM_COUNT + FIRE_FLOWER_COUNT ==> placed_in(
                #[trigger] powerups@[i],
                PowerUpType::FireFlower,
                fire_flower_region(),
            ),
{
    let mut powerups: Vec<PlacedPowerUp> = Vec::new();
    let mut i: usize = 0;
    while i < MUSHROOM_COUNT
        invariant
            i <= MUSHROOM_COUNT,
            powerups@.len() == i,
            forall|j: int|
                0 <= j < i ==> placed_in(
                    #[trigger] powerups@[j],
                    PowerUpType::Mushroom,
                    mushroom_region(),
                ),
        decreases MUSHROOM_COUNT - i,
    {
        let x = random_in(rng, -18_000, 18_000);
        let z = random_in(rng, -20_000, 0);
        let position = Vec3 { x, y: 1500, z };
        powerups.push(
            PlacedPowerUp { position, powerup: PowerUp { powerup_type: PowerUpType::Mushroom } },
        );
        i += 1;
    }
    let mut k: usize = 0;
    while k < FIRE_FLOWER_COUNT
        invariant
            k <= FIRE_FLOWER_COUNT,
            powerups@.len() == MUSHROOM_COUNT + k,
            forall|j: int|
                0 <= j < MUSHROOM_COUNT ==> placed_in(
                    #[trigger] powerups@[j],
                    PowerUpType::Mushroom,
                    mushroom_region(),
                ),
            forall|j: int|
                MUSHROOM_COUNT <= j < MUSHROOM_COUNT + k ==> placed_in(
                    #[trigger] powerups@[j],
                    PowerUpType::FireFlower,
                    fire_flower_region(),
                ),
        decreases FIRE_FLOWER_COUNT - k,
    {
        let x = random_in(rng, -15_000, 15_000);
        let z = random_in(rng, -18_000, -5000);
        let position = Vec3 { x, y: 2000, z };
        powerups.push(
            PlacedPowerUp { position, powerup: PowerUp { powerup_type: PowerUpType::FireFlower } },
        );
        k += 1;
    }
    powerups
}

} // verus!
