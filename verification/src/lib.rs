//! The gameplay core of a 3D platformer: the player's controller, the
//! enemies and their contact with the player, the ledger of score, lives and
//! combo, and the supervisor of the death zone.
//!
//! The core holds no engine and no physics. Its host samples the input,
//! integrates the player's body, casts the probes that the controller asks
//! for, and draws; the core decides what those mean. Every public function
//! is total, and all are verified against their contracts but the one call
//! into the random number generator, whose contract is trusted.
//!
//! All quantities are fixed-point: lengths and speeds in thousandths of a
//! world unit (per second), durations in microseconds. See [`fixed`].
//!
//! [`world::World`] runs a whole tick in its fixed order; the other modules
//! hold the parts, which a host may also call one by one.

pub mod collectibles;
pub mod enemies;
pub mod fixed;
pub mod game_state;
pub mod pause;
pub mod player;
pub mod powerups;
pub mod random;
pub mod respawn;
pub mod world;
