//! Coins: the player picks up every coin that is close enough.

use vstd::prelude::*;
use rand::rngs::ThreadRng;
use crate::fixed::Vec3;
use crate::game_state::GameState;
use crate::random::{random_point, Region};

verus! {

/// The player picks up a coin that lies strictly closer than this (1 unit).
pub const COIN_PICKUP_RADIUS: u32 = 1000;

/// How many coins a level holds.
pub const COIN_COUNT: usize = 30;

#[derive(Clone, Copy, Debug, PartialEq, Eq, Structural)]
pub struct Coin {
    pub value: u32,
}

/// A coin lying in the level.
#[derive(Clone, Copy, Debug, PartialEq, Eq, Structural)]
pub struct PlacedCoin {
    pub position: Vec3,
    pub coin: Coin,
}

impl PlacedCoin {
    /// Whether a player at `player_position` picks this coin up.
    pub open spec fn in_reach(self, player_position: Vec3) -> bool {
        player_position.distance_squared(self.position) < COIN_PICKUP_RADIUS * COIN_PICKUP_RADIUS
    }

    pub fn is_in_reach(&self, player_position: &Vec3) -> (near: bool)
        ensures
            near == self.in_reach(*player_position),
    {
        player_position.within(&self.position, COIN_PICKUP_RADIUS)
    }
}

/// The ledger after the player at `player_position` picked up what is in
/// reach among `coins`, one coin after the other.
pub open spec fn ledger_with_coins(
    state: GameState,
    player_position: Vec3,
    coins: Seq<PlacedCoin>,
) -> GameState
    decreases coins.len(),
{
    if coins.len() == 0 {
        state
    } else {
        let before = ledger_with_coins(state, player_position, coins.drop_last());
        if coins.last().in_reach(player_position) {
            before.with_coin(coins.last().coin.value)
        } else {
            before
        }
    }
}

/// Those of `coins`, in their order, that are in reach of a player at
/// `player_position` (`taken`), or those that are not (`!taken`).
pub open spec fn coins_split(
    player_position: Vec3,
    coins: Seq<PlacedCoin>,
    taken: bool,
) -> Seq<PlacedCoin>
    decreases coins.len(),
{
    if coins.len() == 0 {
        Seq::empty()
    } else if coins.last().in_reach(player_position) == taken {
        coins_split(player_position, coins.drop_last(), taken).push(coins.last())
    } else {
        coins_split(player_position, coins.drop_last(), taken)
    }
}

/// Every coin is either taken or left.
pub proof fn lemma_coins_split(player_position: Vec3, coins: Seq<PlacedCoin>)
    ensures
        coins_split(player_position, coins, true).len()
            + coins_split(player_position, coins, false).len() == coins.len(),
    decreases coins.len(),
{
    if coins.len() > 0 {
        lemma_coins_split(player_position, coins.drop_last());
    }
}

/// Picks up every coin in reach of the player: each adds its value to the
/// coins and a hundred times its value to the score, and leaves the level.
/// Returns the coins that were picked up, in their order.
pub fn collect_coins(
    state: &mut GameState,
    player_position: &Vec3,
    coins: &mut Vec<PlacedCoin>,
) -> (collected: Vec<PlacedCoin>)
    ensures
        *final(state) == ledger_with_coins(*old(state), *player_position, old(coins)@),
        collected@ == coins_split(*player_position, old(coins)@, true),
        final(coins)@ == coins_split(*player_position, old(coins)@, false),
        collected@.len() + final(coins)@.len() == old(coins)@.len(),
        old(state).combo_consistent() ==> final(state).combo_consistent(),
{
    let ghost before = coins@;
    let ghost ledger = *state;
    let mut collected: Vec<PlacedCoin> = Vec::new();
    let mut left: Vec<PlacedCoin> = Vec::new();
    let n = coins.len();
    let mut i: usize = 0;
    while i < n
        invariant
            i <= n,
            n == before.len(),
            coins@ == before,
            *state == ledger_with_coins(ledger, *player_position, before.take(i as int)),
            collected@ == coins_split(*player_position, before.take(i as int), true),
            left@ == coins_split(*player_position, before.take(i as int), false),
            ledger.combo_consistent() ==> state.combo_consistent(),
        decreases n - i,
    {
        let placed = coins[i];
        proof {
            assert(before.take(i + 1).drop_last() =~= before.take(i as int));
        }
        if placed.is_in_reach(player_position) {
            state.collect_coin(placed.coin.value);
            collected.push(placed);
        } else {
            left.push(placed);
        }
        i += 1;
    }
    proof {
        assert(before.take(n as int) =~= before);
        lemma_coins_split(*player_position, before);
    }
    *coins = left;
    collected
}

/// Where the coins of a level may lie: 20 units to either side, from 1 to
/// 8 units high, from 25 units ahead to 5 units behind.
pub open spec fn coin_region() -> Region {
    Region {
        x_min: -20_000i32,
        x_end: 20_000,
        y_min: 1000,
        y_end: 8000,
        z_min: -25_000i32,
        z_end: 5000,
    }
}

/// Puts the coins of a level: `COIN_COUNT` coins worth 1 each, each
/// somewhere in `coin_region`, wherever chance has it.
pub fn spawn_coins(rng: &mut ThreadRng) -> (coins: Vec<PlacedCoin>)
    ensures
        coins@.len() == COIN_COUNT,
        forall|i: int|
            0 <= i < coins@.len() ==> (#[trigger] coins@[i]).coin.value == 1
                && coin_region().contains(coins@[i].position),
{
    let region = Region {
        x_min: -20_000,
        x_end: 20_000,
        y_min: 1000,
        y_end: 8000,
        z_min: -25_000,
        z_end: 5000,
    };
    let mut coins: Vec<PlacedCoin> = Vec::new();
    let mut i: usize = 0;
    while i < COIN_COUNT
        invariant
            i <= COIN_COUNT,
            coins@.len() == i,
            region == coin_region(),
            forall|j: int|
                0 <= j < coins@.len() ==> (#[trigger] coins@[j]).coin.value == 1
                    && coin_region().contains(coins@[j].position),
        decreases COIN_COUNT - i,
    {
        let position = random_point(rng, &region);
        coins.push(PlacedCoin { position, coin: Coin { value: 1 } });
        i += 1;
    }
    coins
}

} // verus!
