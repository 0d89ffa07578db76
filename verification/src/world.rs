//! One tick of the whole simulation, in its fixed order: the player
//! controller, then the enemies, then the contacts between them, then the
//! combo's decay, then the death zone.
//!
//! A tick has two halves, because the wall probe that the controller needs
//! depends on what the first half decides. The caller samples the input and
//! casts the ground probe, calls `World::control`, casts the wall probe that
//! it asks for, and calls `World::advance`.

use vstd::prelude::*;
use crate::enemies::{
    all_updated, contacts_resolved, level_enemies, remove_finished, removed_ids,
    resolve_contacts, spawn_enemies, survivors, update_enemies, Enemy,
};
use crate::fixed::Vec3;
use crate::game_state::GameState;
use crate::player::{JumpEffect, MoveInput, Player, Probe, ProbeHit};
use crate::respawn::{
    check_death_zone, falls, respawn_player, respawn_step, spawn_point, spawn_position,
    RespawnTimer,
};

verus! {

/// The state of a session. `position` is the player's position as the
/// physics backend last reported it; `velocity` is the velocity that the
/// controller asks the backend for.
pub struct World {
    pub state: GameState,
    pub player: Player,
    pub position: Vec3,
    pub velocity: Vec3,
    pub respawn: Option<RespawnTimer>,
    pub enemies: Vec<Enemy>,
}

/// A `World` as a value of mathematics.
pub struct WorldView {
    pub state: GameState,
    pub player: Player,
    pub position: Vec3,
    pub velocity: Vec3,
    pub respawn: Option<RespawnTimer>,
    pub enemies: Seq<Enemy>,
}

/// What happened during the second half of a tick, for presentation.
pub struct TickEvents {
    /// The jump that was set off, if any.
    pub jump: Option<JumpEffect>,
    /// Where each enemy stood that was stomped.
    pub defeated: Vec<Vec3>,
    /// The names of the enemies that left the world.
    pub removed: Vec<u32>,
    /// The player fell out of the level and lost a life.
    pub fell: bool,
    /// The player was put back at the spawn point.
    pub respawned: bool,
    /// No life is left.
    pub game_over: bool,
}

impl View for World {
    type V = WorldView;

    open spec fn view(&self) -> WorldView {
        WorldView {
            state: self.state,
            player: self.player,
            position: self.position,
            velocity: self.velocity,
            respawn: self.respawn,
            enemies: self.enemies@,
        }
    }
}

impl WorldView {
    /// The world at the start of a session.
    pub open spec fn initial(enemies: Seq<Enemy>) -> WorldView {
        WorldView {
            state: GameState::initial(),
            player: Player::initial(),
            position: spawn_point(),
            velocity: Vec3 { x: 0, y: 0, z: 0 },
            respawn: None,
            enemies,
        }
    }

    /// The world after the first half of a tick: the player is steered,
    /// the wall-jump cooldown has run, and the ground probe is taken in.
    pub open spec fn controlled(
        self,
        input: MoveInput,
        dt: u64,
        ground: Option<ProbeHit>,
    ) -> WorldView {
        let steered = Player { is_sprinting: input.sprint, ..self.player };
        WorldView {
            player: steered.ground_sensed(dt, ground),
            velocity: self.player.steered_velocity(self.velocity, input),
            ..self
        }
    }

    /// The player as the jump key finds it in the second half of a tick.
    pub open spec fn player_sensed(self, wall: Option<ProbeHit>) -> Player {
        self.player.wall_sensed(self.velocity, wall)
    }

    /// The jump that the second half of a tick sets off.
    pub open spec fn jump(self, wall: Option<ProbeHit>, jump_pressed: bool) -> Option<JumpEffect> {
        if jump_pressed {
            self.player_sensed(wall).jump_choice()
        } else {
            None
        }
    }

    /// The world after the controller's part of the second half of a
    /// tick: the wall probe is taken in and a jump press is resolved.
    pub open spec fn jumped(self, wall: Option<ProbeHit>, jump_pressed: bool) -> WorldView {
        if jump_pressed {
            WorldView {
                player: self.player_sensed(wall).jumped(),
                velocity: self.player_sensed(wall).jump_velocity(self.velocity),
                ..self
            }
        } else {
            WorldView { player: self.player_sensed(wall), ..self }
        }
    }

    /// The world after every enemy had its tick and the contacts between
    /// them and the player were resolved.
    pub open spec fn fought(self, dt: u64) -> WorldView {
        let resolved = contacts_resolved(
            self.state,
            self.position,
            self.velocity,
            all_updated(self.enemies, dt),
        );
        WorldView { state: resolved.0, enemies: resolved.1, ..self }
    }

    /// Where each enemy stood that `fought` saw stomped.
    pub open spec fn defeated(self, dt: u64) -> Seq<Vec3> {
        contacts_resolved(self.state, self.position, self.velocity, all_updated(self.enemies, dt)).2
    }

    /// The world after the combo decayed and a running respawn went on.
    pub open spec fn settled(self, dt: u64) -> WorldView {
        let step = respawn_step(self.position, self.respawn, dt);
        WorldView { state: self.state.decayed(dt), position: step.0, respawn: step.1, ..self }
    }

    /// The world after the death zone was watched and the removed enemies
    /// were deleted.
    pub open spec fn swept(self) -> WorldView {
        if falls(self.state, self.position, self.respawn) {
            WorldView {
                state: self.state.fallen(),
                respawn: Some(RespawnTimer { elapsed: 0 }),
                enemies: survivors(self.enemies),
                ..self
            }
        } else {
            WorldView { enemies: survivors(self.enemies), ..self }
        }
    }

    /// The world after the second half of a tick.
    pub open spec fn advanced(
        self,
        wall: Option<ProbeHit>,
        jump_pressed: bool,
        dt: u64,
    ) -> WorldView {
        self.jumped(wall, jump_pressed).fought(dt).settled(dt).swept()
    }
}

impl World {
    /// A session's start: a fresh ledger and player, the player at the
    /// spawn point and at rest, the level's enemies on their routes.
    pub fn new() -> (world: World)
        ensures
            world@ == WorldView::initial(level_enemies()),
    {
        World {
            state: GameState::new(),
            player: Player::new(),
            position: spawn_position(),
            velocity: Vec3::zero(),
            respawn: None,
            enemies: spawn_enemies(),
        }
    }

    /// The first half of a tick: steers the player by `input`, runs the
    /// wall-jump cooldown for `dt` microseconds and takes in what the
    /// ground probe hit. Returns the wall probe to cast before `advance`.
    pub fn control(
        &mut self,
        input: &MoveInput,
        dt: u64,
        ground: Option<ProbeHit>,
    ) -> (probe: Option<Probe>)
        ensures
            final(self)@ == old(self)@.controlled(*input, dt, ground),
            probe == final(self)@.player.wall_probe_wanted(final(self)@.velocity),
    {
        self.player.steer(&mut self.velocity, input);
        self.player.sense_ground(dt, ground);
        self.player.wall_probe(&self.velocity)
    }

    /// The second half of a tick of `dt` microseconds, in this order: the
    /// wall probe is taken in and a jump press resolved; every enemy
    /// patrols or dies on; the contacts between player and enemies are
    /// resolved; the combo decays; a running respawn goes on; the death
    /// zone is watched; the removed enemies are deleted.
    pub fn advance(
        &mut self,
        wall: Option<ProbeHit>,
        jump_pressed: bool,
        dt: u64,
    ) -> (events: TickEvents)
        ensures
            final(self)@ == old(self)@.advanced(wall, jump_pressed, dt),
            events.jump == old(self)@.jump(wall, jump_pressed),
            events.defeated@ == old(self)@.jumped(wall, jump_pressed).defeated(dt),
            events.removed@ == removed_ids(
                old(self)@.jumped(wall, jump_pressed).fought(dt).enemies,
            ),
            events.fell == {
                let settled = old(self)@.jumped(wall, jump_pressed).fought(dt).settled(dt);
                falls(settled.state, settled.position, settled.respawn)
            },
            events.respawned == {
                let settled = old(self)@.jumped(wall, jump_pressed).fought(dt).settled(dt);
                old(self)@.respawn is Some && settled.respawn is None
            },
            events.game_over == (final(self)@.state.lives == 0),
            old(self)@.state.combo_consistent() ==> final(self)@.state.combo_consistent(),
            forall|i: int|
                0 <= i < final(self)@.enemies.len()
                    ==> !(#[trigger] final(self)@.enemies[i].phase is Removed),
    {
        self.player.sense_wall(&self.velocity, wall);
        let jump = if jump_pressed {
            self.player.jump(&mut self.velocity)
        } else {
            None
        };
        update_enemies(&mut self.enemies, dt);
        let defeated = resolve_contacts(
            &mut self.state,
            &self.position,
            &self.velocity,
            &mut self.enemies,
        );
        self.state.update_combo_timer(dt);
        let respawned = respawn_player(&mut self.position, &mut self.respawn, dt);
        let fell = check_death_zone(&mut self.state, &self.position, &mut self.respawn);
        let removed = remove_finished(&mut self.enemies);
        let game_over = self.state.is_game_over();
        TickEvents { jump, defeated, removed, fell, respawned, game_over }
    }
}

} // verus!
