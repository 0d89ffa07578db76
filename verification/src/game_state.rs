//! The session's ledger: score, coins, lives and the stomp combo.

use vstd::prelude::*;
use crate::powerups::PowerUpType;

verus! {

/// Lives at the start of a session.
pub const STARTING_LIVES: u32 = 3;

/// Score for a stomp at multiplier 1.
pub const STOMP_SCORE: u32 = 200;

/// The combo counts on, but multiplies the score by at most this.
pub const MAX_COMBO_MULTIPLIER: u32 = 10;

/// Microseconds after a stomp within which the next one continues the combo
/// (3 seconds).
pub const COMBO_WINDOW: u64 = 3_000_000;

/// Score per unit of coin value.
pub const COIN_SCORE: u32 = 100;

/// The `u32` nearest to `v`.
pub open spec fn saturated_u32(v: int) -> u32 {
    if v > u32::MAX {
        u32::MAX
    } else if v < 0 {
        0
    } else {
        v as u32
    }
}

/// Score, coins, lives and combo of one session. `combo_timer` is the
/// time left in the combo window, in microseconds.
#[derive(Clone, Copy, Debug, PartialEq, Eq, Structural)]
pub struct GameState {
    pub score: u32,
    pub coins: u32,
    pub lives: u32,
    pub combo_count: u32,
    pub combo_timer: u64,
}

/// Something that changes the ledger.
#[derive(Clone, Copy, Debug, PartialEq, Eq, Structural)]
pub enum LedgerEvent {
    /// The player stomped an enemy.
    Stomp,
    /// An enemy hit the player for `amount` lives.
    Damage { amount: u32 },
    /// `dt` microseconds went by.
    Tick { dt: u64 },
    /// The player picked up a coin worth `value`.
    Coin { value: u32 },
    /// The player picked up a power-up.
    PowerUp { kind: PowerUpType },
    /// The player fell out of the level.
    Fall,
}

impl GameState {
    /// The ledger of a fresh session.
    pub open spec fn initial() -> GameState {
        GameState { score: 0, coins: 0, lives: STARTING_LIVES, combo_count: 0, combo_timer: 0 }
    }

    /// The combo window is open exactly while a combo is counted.
    pub open spec fn combo_consistent(self) -> bool {
        self.combo_timer > 0 <==> self.combo_count > 0
    }

    /// What the next stomp adds to the score: 200 times the combo count it
    /// reaches, the count taken as 10 at most.
    pub open spec fn stomp_gain(self) -> int {
        STOMP_SCORE * vstd::math::min(self.combo_count + 1, MAX_COMBO_MULTIPLIER as int)
    }

    /// The ledger after a stomp.
    pub open spec fn stomped(self) -> GameState {
        GameState {
            score: saturated_u32(self.score + self.stomp_gain()),
            combo_count: saturated_u32(self.combo_count + 1),
            combo_timer: COMBO_WINDOW,
            ..self
        }
    }

    /// The ledger after an enemy hit the player for `amount` lives.
    pub open spec fn damaged(self, amount: u32) -> GameState {
        GameState {
            lives: saturated_u32(self.lives - amount),
            combo_count: 0,
            combo_timer: 0,
            ..self
        }
    }

    /// The ledger after `dt` microseconds went by.
    pub open spec fn decayed(self, dt: u64) -> GameState {
        if self.combo_timer == 0 {
            self
        } else if dt >= self.combo_timer {
            GameState { combo_count: 0, combo_timer: 0, ..self }
        } else {
            GameState { combo_timer: (self.combo_timer - dt) as u64, ..self }
        }
    }

    /// The ledger after the player picked up a coin worth `value`.
    pub open spec fn with_coin(self, value: u32) -> GameState {
        GameState {
            coins: saturated_u32(self.coins + value),
            score: saturated_u32(self.score + value * COIN_SCORE),
            ..self
        }
    }

    /// The ledger after the player picked up a power-up.
    pub open spec fn with_powerup(self, kind: PowerUpType) -> GameState {
        GameState { score: saturated_u32(self.score + kind.value()), ..self }
    }

    /// The ledger after the player fell out of the level.
    pub open spec fn fallen(self) -> GameState {
        GameState { lives: saturated_u32(self.lives - 1), ..self }
    }

    /// The ledger after `event`.
    pub open spec fn after(self, event: LedgerEvent) -> GameState {
        match event {
            LedgerEvent::Stomp => self.stomped(),
            LedgerEvent::Damage { amount } => self.damaged(amount),
            LedgerEvent::Tick { dt } => self.decayed(dt),
            LedgerEvent::Coin { value } => self.with_coin(value),
            LedgerEvent::PowerUp { kind } => self.with_powerup(kind),
            LedgerEvent::Fall => self.fallen(),
        }
    }

    /// The ledger after each of `events` in turn.
    pub open spec fn after_all(self, events: Seq<LedgerEvent>) -> GameState
        decreases events.len(),
    {
        if events.len() == 0 {
            self
        } else {
            self.after_all(events.drop_last()).after(events.last())
        }
    }

    pub fn new() -> (state: GameState)
        ensures
            state == GameState::initial(),
            state.combo_consistent(),
    {
        GameState { score: 0, coins: 0, lives: STARTING_LIVES, combo_count: 0, combo_timer: 0 }
    }

    pub fn score(&self) -> (n: u32)
        ensures
            n == self.score,
    {
        self.score
    }

    pub fn coins(&self) -> (n: u32)
        ensures
            n == self.coins,
    {
        self.coins
    }

    pub fn lives(&self) -> (n: u32)
        ensures
            n == self.lives,
    {
        self.lives
    }

    /// The combo count as it is, not capped at the multiplier's ceiling.
    pub fn combo_count(&self) -> (n: u32)
        ensures
            n == self.combo_count,
    {
        self.combo_count
    }

    /// The session is over once no life is left.
    pub fn is_game_over(&self) -> (over: bool)
        ensures
            over == (self.lives == 0),
    {
        self.lives == 0
    }

    /// The combo to announce: the count, from the second stomp of a combo on.
    pub fn combo_banner(&self) -> (banner: Option<u32>)
        ensures
            banner == (if self.combo_count > 1 {
                Some(self.combo_count)
            } else {
                None
            }),
    {
        if self.combo_count > 1 {
            Some(self.combo_count)
        } else {
            None
        }
    }

    /// Records a stomp: the combo count goes up by one, the combo window
    /// reopens in full, and the score grows by the gain that is returned.
    pub fn stomp(&mut self) -> (gain: u32)
        ensures
            gain == 200 * vstd::math::min(old(self).combo_count + 1, 10),
            gain == old(self).stomp_gain(),
            *final(self) == old(self).stomped(),
            final(self).combo_consistent(),
    {
        self.combo_count = self.combo_count.saturating_add(1);
        self.combo_timer = COMBO_WINDOW;
        let multiplier: u32 = if self.combo_count < MAX_COMBO_MULTIPLIER {
            self.combo_count
        } else {
            MAX_COMBO_MULTIPLIER
        };
        let gain: u32 = STOMP_SCORE * multiplier;
        self.score = self.score.saturating_add(gain);
        gain
    }

    /// Records a hit by an enemy: the combo is cleared whatever the lives
    /// are; the lives go down by `amount`, and stop at zero.
    pub fn damage(&mut self, amount: u32)
        ensures
            final(self).combo_count == 0,
            final(self).combo_timer == 0,
            final(self).lives == (if old(self).lives >= amount {
                old(self).lives - amount
            } else {
                0
            }),
            final(self).score == old(self).score,
            final(self).coins == old(self).coins,
            *final(self) == old(self).damaged(amount),
            final(self).combo_consistent(),
    {
        if self.lives > 0 {
            self.lives = self.lives.saturating_sub(amount);
        }
        self.combo_count = 0;
        self.combo_timer = 0;
    }

    /// Lets `dt` microseconds go by: an open combo window shrinks by `dt`,
    /// and when it closes the combo count goes back to zero with it.
    pub fn update_combo_timer(&mut self, dt: u64)
        ensures
            *final(self) == old(self).decayed(dt),
            old(self).combo_timer > dt ==> final(self).combo_timer == old(self).combo_timer - dt
                && final(self).combo_count == old(self).combo_count,
            0 < old(self).combo_timer <= dt ==> final(self).combo_timer == 0
                && final(self).combo_count == 0,
            old(self).combo_consistent() ==> final(self).combo_consistent(),
    {
        if self.combo_timer > 0 {
            if dt >= self.combo_timer {
                self.combo_timer = 0;
                self.combo_count = 0;
            } else {
                self.combo_timer = self.combo_timer - dt;
            }
        }
    }

    /// Records a coin worth `value`: that many coins more, and 100 points
    /// for each.
    pub fn collect_coin(&mut self, value: u32)
        ensures
            *final(self) == old(self).with_coin(value),
            old(self).combo_consistent() ==> final(self).combo_consistent(),
    {
        self.coins = self.coins.saturating_add(value);
        assert(value * COIN_SCORE == value * 100);
        let points: u64 = value as u64 * COIN_SCORE as u64;
        let total: u64 = self.score as u64 + points;
        self.score = if total > u32::MAX as u64 {
            u32::MAX
        } else {
            total as u32
        };
    }

    /// Records a power-up: its kind's value is added to the score.
    pub fn collect_powerup(&mut self, kind: PowerUpType)
        ensures
            *final(self) == old(self).with_powerup(kind),
            old(self).combo_consistent() ==> final(self).combo_consistent(),
    {
        self.score = self.score.saturating_add(kind.score_value());
    }

    /// Records a fall out of the level: one life less, if any was left.
    /// Returns whether a life was lost.
    pub fn lose_life(&mut self) -> (lost: bool)
        ensures
            lost == (old(self).lives > 0),
            *final(self) == old(self).fallen(),
            old(self).combo_consistent() ==> final(self).combo_consistent(),
    {
        if self.lives > 0 {
            self.lives = self.lives - 1;
            true
        } else {
            false
        }
    }

    /// Records `event`.
    pub fn apply(&mut self, event: LedgerEvent)
        ensures
            *final(self) == old(self).after(event),
            old(self).combo_consistent() ==> final(self).combo_consistent(),
    {
        match event {
            LedgerEvent::Stomp => {
                self.stomp();
            },
            LedgerEvent::Damage { amount } => {
                self.damage(amount);
            },
            LedgerEvent::Tick { dt } => {
                self.update_combo_timer(dt);
            },
            LedgerEvent::Coin { value } => {
                self.collect_coin(value);
            },
            LedgerEvent::PowerUp { kind } => {
                self.collect_powerup(kind);
            },
            LedgerEvent::Fall => {
                self.lose_life();
            },
        }
    }
}

impl Default for GameState {
    fn default() -> (state: GameState)
        ensures
            state == GameState::initial(),
    {
        GameState::new()
    }
}

/// One event keeps the combo window and the combo count in step.
pub proof fn lemma_event_keeps_combo_consistent(state: GameState, event: LedgerEvent)
    requires
        state.combo_consistent(),
    ensures
        state.after(event).combo_consistent(),
{
}

/// For all ticks: from a ledger whose combo window is open exactly while
/// its combo count is above zero, and so from a session's start, every run
/// of events leads to such a ledger again.
pub proof fn lemma_combo_consistent_always(start: GameState, events: Seq<LedgerEvent>)
    requires
        start.combo_consistent(),
    ensures
        start.after_all(events).combo_consistent(),
        GameState::initial().after_all(events).combo_consistent(),
    decreases events.len(),
{
    if events.len() > 0 {
        lemma_combo_consistent_always(start, events.drop_last());
        lemma_event_keeps_combo_consistent(start.after_all(events.drop_last()), events.last());
        lemma_combo_consistent_always(GameState::initial(), events.drop_last());
        lemma_event_keeps_combo_consistent(
            GameState::initial().after_all(events.drop_last()),
            events.last(),
        );
    }
}

/// Whatever the combo was, a stomp that finds it at `k` gains
/// `200 * min(k + 1, 10)`.
pub proof fn lemma_stomp_gain(state: GameState, k: u32)
    requires
        state.combo_count == k,
    ensures
        state.stomp_gain() == 200 * vstd::math::min(k + 1, 10),
        state.combo_count < u32::MAX ==> state.stomped().combo_count == k + 1,
        state.score + state.stomp_gain() <= u32::MAX ==> state.stomped().score == state.score
            + 200 * vstd::math::min(k + 1, 10),
{
}

} // verus!
