//! Enemies: the patrol back and forth along a route, the contact with the
//! player that ends in a stomp or in damage, and the death animation after
//! which an enemy is removed.

use vstd::prelude::*;
use crate::fixed::{
    clamp_i32, div_toward_zero, lemma_square_bound, rescale, rescaled, saturate, sum_of_squares,
    Vec3,
};
use crate::game_state::GameState;

verus! {

/// An enemy turns around when it is strictly closer than this to an end of
/// its route (0.5 units).
pub const PATROL_TURN_RADIUS: u32 = 500;

/// Player and enemy touch when their distance on the ground plane is
/// strictly below this (1 unit).
pub const CONTACT_RADIUS: u32 = 1000;

/// The player stomps only from strictly more than this above the enemy
/// (0.3 units).
pub const STOMP_HEIGHT: i32 = 300;

/// Microseconds from an enemy's defeat to its removal (0.5 s).
pub const DEATH_ANIMATION_DURATION: u64 = 500_000;

/// Microseconds times thousandths: the divisor that turns
/// `direction * speed * dt` into thousandths of a unit.
pub const STEP_DIVISOR: i128 = 1_000_000_000;

/// The two ends of an enemy's route, fixed when it is spawned.
#[derive(Clone, Copy, Debug, PartialEq, Eq, Structural)]
pub struct PatrolPoint {
    pub start: Vec3,
    pub end: Vec3,
}

/// The timer of a defeated enemy, and where it stood when it was defeated.
#[derive(Clone, Copy, Debug, PartialEq, Eq, Structural)]
pub struct DeathAnimation {
    /// Microseconds since the defeat, at most `DEATH_ANIMATION_DURATION`.
    pub elapsed: u64,
    pub initial_pos: Vec3,
}

/// Where an enemy is in its life.
#[derive(Clone, Copy, Debug, PartialEq, Eq, Structural)]
pub enum EnemyPhase {
    Patrolling,
    Dying(DeathAnimation),
    Removed,
}

/// One enemy. `id` is the name under which the enemy's host knows it for
/// as long as it lives; `speed` is in thousandths of a unit per second,
/// `patrol_direction` a unit vector in thousandths, `damage` in lives.
#[derive(Clone, Copy, Debug, PartialEq, Eq, Structural)]
pub struct Enemy {
    pub id: u32,
    pub speed: i32,
    pub patrol_direction: Vec3,
    pub damage: u32,
    pub position: Vec3,
    pub patrol: PatrolPoint,
    pub phase: EnemyPhase,
}

/// How a defeated enemy is to be drawn: squashed and sunk.
#[derive(Clone, Copy, Debug, PartialEq, Eq, Structural)]
pub struct DeathPose {
    /// Scale along each axis, in thousandths.
    pub scale: Vec3,
    /// Height at which to draw the enemy.
    pub y: i32,
}

/// What a contact test between the player and one enemy came to.
#[derive(Clone, Copy, Debug, PartialEq, Eq, Structural)]
pub enum Contact {
    /// They do not touch, or the enemy is out of play, or the player is
    /// above the enemy without falling.
    Miss,
    /// The player defeated the enemy and gained `gain` points.
    Stomp { gain: u32 },
    /// The enemy hit the player.
    Damage,
}

/// Something that happens to an enemy.
#[derive(Clone, Copy, Debug, PartialEq, Eq, Structural)]
pub enum EnemyEvent {
    /// `dt` microseconds went by.
    Tick { dt: u64 },
    /// A contact test with the player.
    Touch { player_position: Vec3, player_velocity: Vec3 },
}

/// The time that the ticks among `events` add up to.
pub open spec fn ticked_time(events: Seq<EnemyEvent>) -> nat
    decreases events.len(),
{
    if events.len() == 0 {
        0
    } else {
        ticked_time(events.drop_last()) + match events.last() {
            EnemyEvent::Tick { dt } => dt as nat,
            EnemyEvent::Touch { .. } => 0,
        }
    }
}

/// The coordinate `c` after `dt` microseconds at `speed` along the
/// direction component `direction`.
pub open spec fn stepped(c: int, direction: int, speed: int, dt: int) -> int {
    clamp_i32(c + div_toward_zero(direction * speed * dt, STEP_DIVISOR as int))
}

impl PatrolPoint {
    /// The unit vector from `start` toward `end`; zero when they coincide.
    pub open spec fn direction(self) -> Vec3 {
        rescaled(
            self.end.x - self.start.x,
            self.end.y - self.start.y,
            self.end.z - self.start.z,
            1000,
        )
    }

    pub fn heading(&self) -> (d: Vec3)
        ensures
            d == self.direction(),
    {
        rescale(
            self.end.x as i64 - self.start.x as i64,
            self.end.y as i64 - self.start.y as i64,
            self.end.z as i64 - self.start.z as i64,
            1000,
        )
    }
}

impl DeathAnimation {
    /// The animation at the moment of defeat.
    pub open spec fn started(position: Vec3) -> DeathAnimation {
        DeathAnimation { elapsed: 0, initial_pos: position }
    }

    /// The animation `dt` microseconds later.
    pub open spec fn advanced(self, dt: u64) -> DeathAnimation {
        DeathAnimation {
            elapsed: if self.elapsed + dt >= DEATH_ANIMATION_DURATION {
                DEATH_ANIMATION_DURATION
            } else {
                (self.elapsed + dt) as u64
            },
            ..self
        }
    }

    /// The animation has run its full duration.
    pub open spec fn finished(self) -> bool {
        self.elapsed >= DEATH_ANIMATION_DURATION
    }

    /// The part of the animation that has run, in thousandths.
    pub open spec fn fraction(self) -> int {
        if self.finished() {
            1000
        } else {
            (self.elapsed / 500) as int
        }
    }

    pub fn start(position: Vec3) -> (animation: DeathAnimation)
        ensures
            animation == DeathAnimation::started(position),
    {
        DeathAnimation { elapsed: 0, initial_pos: position }
    }

    pub fn tick(&mut self, dt: u64)
        ensures
            *final(self) == old(self).advanced(dt),
    {
        let sum: u64 = self.elapsed.saturating_add(dt);
        self.elapsed = if sum >= DEATH_ANIMATION_DURATION {
            DEATH_ANIMATION_DURATION
        } else {
            sum
        };
    }

    pub fn is_finished(&self) -> (done: bool)
        ensures
            done == self.finished(),
    {
        self.elapsed >= DEATH_ANIMATION_DURATION
    }

    /// The part of the animation that has run, in thousandths: 0 at the
    /// defeat, 1000 at the end.
    pub fn progress(&self) -> (p: u32)
        ensures
            p == self.fraction(),
            p <= 1000,
    {
        if self.elapsed >= DEATH_ANIMATION_DURATION {
            1000
        } else {
            (self.elapsed / 500) as u32
        }
    }

    /// The pose at this point of the animation: with `p` the progress, the
    /// enemy is widened by `p`, flattened by four fifths of `p`, and sunk by
    /// half of `p` below where it was defeated.
    pub fn pose(&self) -> (pose: DeathPose)
        ensures
            pose.scale.x == 1000 + self.fraction(),
            pose.scale.y == 1000 - self.fraction() * 4 / 5,
            pose.scale.z == 1000 + self.fraction(),
            pose.y == clamp_i32(self.initial_pos.y - self.fraction() / 2),
    {
        let p: i32 = self.progress() as i32;
        DeathPose {
            scale: Vec3 { x: 1000 + p, y: 1000 - p * 4 / 5, z: 1000 + p },
            y: saturate(self.initial_pos.y as i128 - (p / 2) as i128),
        }
    }
}

impl Enemy {
    /// A fresh enemy at the start of the route from `start` to `end`:
    /// patrolling at 2 units per second along the x axis, dealing 1 damage.
    pub open spec fn spawned(id: u32, start: Vec3, end: Vec3) -> Enemy {
        Enemy {
            id,
            speed: 2000,
            patrol_direction: Vec3 { x: 1000, y: 0, z: 0 },
            damage: 1,
            position: start,
            patrol: PatrolPoint { start, end },
            phase: EnemyPhase::Patrolling,
        }
    }

    /// Defeated or removed: out of play.
    pub open spec fn dying(self) -> bool {
        !(self.phase is Patrolling)
    }

    /// The direction in which the enemy walks next: back toward the start
    /// when it is near the end of its route, toward the end when it is near
    /// the start, and as before anywhere else.
    pub open spec fn next_direction(self) -> Vec3 {
        if self.position.distance_squared(self.patrol.end) < PATROL_TURN_RADIUS
            * PATROL_TURN_RADIUS {
            self.patrol.direction().opposite()
        } else if self.position.distance_squared(self.patrol.start) < PATROL_TURN_RADIUS
            * PATROL_TURN_RADIUS {
            self.patrol.direction()
        } else {
            self.patrol_direction
        }
    }

    /// The enemy after patrolling for `dt` microseconds: it turns where
    /// `next_direction` says and then walks that way at its speed. An enemy
    /// out of play stays as it is.
    pub open spec fn patrolled(self, dt: u64) -> Enemy {
        if self.dying() {
            self
        } else {
            let d = self.next_direction();
            Enemy {
                patrol_direction: d,
                position: Vec3 {
                    x: stepped(self.position.x as int, d.x as int, self.speed as int, dt as int)
                        as i32,
                    y: stepped(self.position.y as int, d.y as int, self.speed as int, dt as int)
                        as i32,
                    z: stepped(self.position.z as int, d.z as int, self.speed as int, dt as int)
                        as i32,
                },
                ..self
            }
        }
    }

    /// The enemy after its death animation ran for `dt` microseconds: once
    /// the animation is finished the enemy is removed. An enemy that is not
    /// dying stays as it is.
    pub open spec fn animated(self, dt: u64) -> Enemy {
        match self.phase {
            EnemyPhase::Dying(animation) => if animation.advanced(dt).finished() {
                Enemy { phase: EnemyPhase::Removed, ..self }
            } else {
                Enemy { phase: EnemyPhase::Dying(animation.advanced(dt)), ..self }
            },
            _ => self,
        }
    }

    /// The enemy after a tick of `dt` microseconds: patrol for those that
    /// patrol, death animation for those that die.
    pub open spec fn updated(self, dt: u64) -> Enemy {
        self.patrolled(dt).animated(dt)
    }

    /// What a contact test of this enemy with a player at `player_position`
    /// moving at `player_velocity` comes to, when the ledger's next stomp
    /// gains `gain`.
    ///
    /// An enemy out of play is never touched. Otherwise they touch when
    /// their distance on the ground plane is below `CONTACT_RADIUS`. Then it
    /// is a stomp if the player is more than `STOMP_HEIGHT` above the enemy
    /// and falling, damage if the player is not that high, and nothing if
    /// the player is that high without falling.
    pub open spec fn contact(
        self,
        player_position: Vec3,
        player_velocity: Vec3,
        gain: u32,
    ) -> Contact {
        if self.dying() {
            Contact::Miss
        } else if player_position.planar_distance_squared(self.position) >= CONTACT_RADIUS
            * CONTACT_RADIUS {
            Contact::Miss
        } else if player_position.y - self.position.y > STOMP_HEIGHT {
            if player_velocity.y < 0 {
                Contact::Stomp { gain }
            } else {
                Contact::Miss
            }
        } else {
            Contact::Damage
        }
    }

    /// The enemy after it was stomped: dying, its animation at the start
    /// and anchored where the enemy stands.
    pub open spec fn stomped(self) -> Enemy {
        Enemy { phase: EnemyPhase::Dying(DeathAnimation::started(self.position)), ..self }
    }

    /// The enemy after `event`.
    pub open spec fn after(self, event: EnemyEvent) -> Enemy {
        match event {
            EnemyEvent::Tick { dt } => self.updated(dt),
            EnemyEvent::Touch { player_position, player_velocity } => enemy_after(
                self,
                self.contact(player_position, player_velocity, 0),
            ),
        }
    }

    /// The enemy after each of `events` in turn.
    pub open spec fn after_all(self, events: Seq<EnemyEvent>) -> Enemy
        decreases events.len(),
    {
        if events.len() == 0 {
            self
        } else {
            self.after_all(events.drop_last()).after(events.last())
        }
    }

    /// A fresh enemy at the start of the route from `start` to `end`.
    pub fn new(id: u32, start: Vec3, end: Vec3) -> (enemy: Enemy)
        ensures
            enemy == Enemy::spawned(id, start, end),
            !enemy.dying(),
    {
        Enemy {
            id,
            speed: 2000,
            patrol_direction: Vec3 { x: 1000, y: 0, z: 0 },
            damage: 1,
            position: start,
            patrol: PatrolPoint { start, end },
            phase: EnemyPhase::Patrolling,
        }
    }

    /// Whether the enemy is out of play: defeated, or removed already.
    pub fn is_dying(&self) -> (dying: bool)
        ensures
            dying == self.dying(),
    {
        match self.phase {
            EnemyPhase::Patrolling => false,
            _ => true,
        }
    }

    /// Whether the enemy is to be deleted at the end of the tick.
    pub fn is_removed(&self) -> (removed: bool)
        ensures
            removed == (self.phase is Removed),
    {
        match self.phase {
            EnemyPhase::Removed => true,
            _ => false,
        }
    }

    /// The direction that the enemy is to face: the one it walks in, unless
    /// that is shorter than a hundredth of a unit or as short.
    pub fn facing(&self) -> (direction: Option<Vec3>)
        ensures
            direction == (if sum_of_squares(
                self.patrol_direction.x as int,
                self.patrol_direction.y as int,
                self.patrol_direction.z as int,
            ) > 100 {
                Some(self.patrol_direction)
            } else {
                None
            }),
    {
        let d = self.patrol_direction;
        proof {
            lemma_square_bound(d.x as int, 0x8000_0000);
            lemma_square_bound(d.y as int, 0x8000_0000);
            lemma_square_bound(d.z as int, 0x8000_0000);
        }
        let len2: i128 = d.x as i128 * d.x as i128 + d.y as i128 * d.y as i128 + d.z as i128
            * d.z as i128;
        if len2 > 100 {
            Some(d)
        } else {
            None
        }
    }
}

impl Default for Enemy {
    /// A fresh enemy, named 0, whose route starts and ends at the origin.
    fn default() -> (enemy: Enemy)
        ensures
            enemy == Enemy::spawned(0, Vec3 { x: 0, y: 0, z: 0 }, Vec3 { x: 0, y: 0, z: 0 }),
    {
        Enemy::new(0, Vec3 { x: 0, y: 0, z: 0 }, Vec3 { x: 0, y: 0, z: 0 })
    }
}

proof fn lemma_step_bound(direction: int, speed: int, dt: int)
    by (nonlinear_arith)
    requires
        -0x8000_0000 <= direction <= 0x8000_0000,
        -0x8000_0000 <= speed <= 0x8000_0000,
        0 <= dt <= 0xFFFF_FFFF_FFFF_FFFF,
    ensures
        -0x4000_0000_0000_0000 <= direction * speed <= 0x4000_0000_0000_0000,
        -0x4000_0000_0000_0000 * 0xFFFF_FFFF_FFFF_FFFF <= direction * speed * dt
            <= 0x4000_0000_0000_0000 * 0xFFFF_FFFF_FFFF_FFFF,
{
}

fn step(c: i32, direction: i32, speed: i32, dt: u64) -> (r: i32)
    ensures
        r == stepped(c as int, direction as int, speed as int, dt as int),
{
    proof {
        lemma_step_bound(direction as int, speed as int, dt as int);
    }
    let rate: i128 = direction as i128 * speed as i128;
    let run: i128 = rate * dt as i128;
    saturate(c as i128 + run / STEP_DIVISOR)
}

/// One patrol step of `dt` microseconds: see `Enemy::patrolled`.
pub fn enemy_patrol(enemy: &mut Enemy, dt: u64)
    ensures
        *final(enemy) == old(enemy).patrolled(dt),
        old(enemy).dying() ==> *final(enemy) == *old(enemy),
        final(enemy).phase == old(enemy).phase,
{
    if enemy.is_dying() {
        return ;
    }
    if enemy.position.within(&enemy.patrol.end, PATROL_TURN_RADIUS) {
        enemy.patrol_direction = enemy.patrol.heading().negated();
    } else if enemy.position.within(&enemy.patrol.start, PATROL_TURN_RADIUS) {
        enemy.patrol_direction = enemy.patrol.heading();
    }
    let d = enemy.patrol_direction;
    let p = enemy.position;
    enemy.position = Vec3 {
        x: step(p.x, d.x, enemy.speed, dt),
        y: step(p.y, d.y, enemy.speed, dt),
        z: step(p.z, d.z, enemy.speed, dt),
    };
}

/// One step of `dt` microseconds of a dying enemy's animation: see
/// `Enemy::animated`. Returns whether this step removed the enemy.
pub fn enemy_death_animation(enemy: &mut Enemy, dt: u64) -> (removed: bool)
    ensures
        *final(enemy) == old(enemy).animated(dt),
        removed == (old(enemy).phase is Dying && final(enemy).phase is Removed),
        old(enemy).phase matches EnemyPhase::Dying(animation) ==> (removed
            <==> animation.elapsed + dt >= DEATH_ANIMATION_DURATION),
{
    match enemy.phase {
        EnemyPhase::Dying(animation) => {
            let mut animation = animation;
            animation.tick(dt);
            if animation.is_finished() {
                enemy.phase = EnemyPhase::Removed;
                true
            } else {
                enemy.phase = EnemyPhase::Dying(animation);
                false
            }
        },
        _ => false,
    }
}

/// The contact test between the player and one enemy, and what follows
/// from it: see `Enemy::contact`.
///
/// A stomp is recorded in the ledger and sends the enemy dying; damage is
/// recorded in the ledger with the enemy's `damage`; a miss changes nothing.
pub fn enemy_collision_with_player(
    state: &mut GameState,
    player_position: &Vec3,
    player_velocity: &Vec3,
    enemy: &mut Enemy,
) -> (contact: Contact)
    ensures
        contact == old(enemy).contact(
            *player_position,
            *player_velocity,
            old(state).stomp_gain() as u32,
        ),
        contact is Miss ==> *final(state) == *old(state) && *final(enemy) == *old(enemy),
        contact matches Contact::Stomp { gain } ==> {
            &&& gain == 200 * vstd::math::min(old(state).combo_count + 1, 10)
            &&& *final(state) == old(state).stomped()
            &&& *final(enemy) == old(enemy).stomped()
        },
        contact is Damage ==> {
            &&& *final(state) == old(state).damaged(old(enemy).damage)
            &&& final(state).combo_count == 0
            &&& final(state).combo_timer == 0
            &&& *final(enemy) == *old(enemy)
        },
        old(enemy).dying() ==> contact is Miss,
        old(state).combo_consistent() ==> final(state).combo_consistent(),
{
    if enemy.is_dying() {
        return Contact::Miss;
    }
    if !player_position.planar_within(&enemy.position, CONTACT_RADIUS) {
        return Contact::Miss;
    }
    let height_diff: i64 = player_position.y as i64 - enemy.position.y as i64;
    if height_diff > STOMP_HEIGHT as i64 {
        if player_velocity.y < 0 {
            let gain = state.stomp();
            enemy.phase = EnemyPhase::Dying(DeathAnimation::start(enemy.position));
            Contact::Stomp { gain }
        } else {
            Contact::Miss
        }
    } else {
        state.damage(enemy.damage);
        Contact::Damage
    }
}

/// An enemy out of play takes part in no contact test: wherever the
/// player is and however the player moves, the test is a miss and leaves
/// the ledger and the enemy as they are.
pub proof fn lemma_dying_enemy_is_not_touched(
    state: GameState,
    enemy: Enemy,
    player_position: Vec3,
    player_velocity: Vec3,
    gain: u32,
)
    requires
        enemy.dying(),
    ensures
        enemy.contact(player_position, player_velocity, gain) is Miss,
        enemy_after(enemy, enemy.contact(player_position, player_velocity, gain)) == enemy,
        ledger_after(state, enemy, enemy.contact(player_position, player_velocity, gain))
            == state,
{
}

/// An enemy out of play never comes back into play: whatever ticks and
/// contact tests follow, it stays out of play and where it is, and every
/// later contact test with it is a miss.
pub proof fn lemma_dying_is_final(
    enemy: Enemy,
    events: Seq<EnemyEvent>,
    player_position: Vec3,
    player_velocity: Vec3,
    gain: u32,
)
    requires
        enemy.dying(),
    ensures
        enemy.after_all(events).dying(),
        enemy.after_all(events).position == enemy.position,
        enemy.after_all(events).contact(player_position, player_velocity, gain) is Miss,
    decreases events.len(),
{
    if events.len() > 0 {
        lemma_dying_is_final(
            enemy,
            events.drop_last(),
            player_position,
            player_velocity,
            gain,
        );
    }
}

/// A stomped enemy is removed by the tick with which half a second of
/// ticks has added up since the stomp, and by no earlier one, whatever
/// contact tests come in between: after `events`, it is removed if their
/// ticks add up to `DEATH_ANIMATION_DURATION` or more, and is else still
/// dying with exactly their sum on its timer.
pub proof fn lemma_removed_after_duration(enemy: Enemy, events: Seq<EnemyEvent>)
    requires
        !enemy.dying(),
    ensures
        ticked_time(events) >= DEATH_ANIMATION_DURATION
            ==> enemy.stomped().after_all(events).phase is Removed,
        ticked_time(events) < DEATH_ANIMATION_DURATION
            ==> enemy.stomped().after_all(events).phase == EnemyPhase::Dying(
            DeathAnimation { elapsed: ticked_time(events) as u64, initial_pos: enemy.position },
        ),
    decreases events.len(),
{
    if events.len() > 0 {
        lemma_removed_after_duration(enemy, events.drop_last());
    }
}

/// The ledger after a contact test with `enemy` came to `contact`.
pub open spec fn ledger_after(state: GameState, enemy: Enemy, contact: Contact) -> GameState {
    match contact {
        Contact::Miss => state,
        Contact::Stomp { .. } => state.stomped(),
        Contact::Damage => state.damaged(enemy.damage),
    }
}

/// The enemy after a contact test with it came to `contact`.
pub open spec fn enemy_after(enemy: Enemy, contact: Contact) -> Enemy {
    match contact {
        Contact::Stomp { .. } => enemy.stomped(),
        _ => enemy,
    }
}

/// One tick's contact tests, enemy by enemy from the first: the ledger
/// that they leave, the enemies as they leave them, and the positions of
/// the enemies that were stomped, in the order in which they were tested.
pub open spec fn contacts_resolved(
    state: GameState,
    player_position: Vec3,
    player_velocity: Vec3,
    enemies: Seq<Enemy>,
) -> (GameState, Seq<Enemy>, Seq<Vec3>)
    decreases enemies.len(),
{
    if enemies.len() == 0 {
        (state, Seq::empty(), Seq::empty())
    } else {
        let (ledger, tested, defeated) = contacts_resolved(
            state,
            player_position,
            player_velocity,
            enemies.drop_last(),
        );
        let enemy = enemies.last();
        let contact = enemy.contact(player_position, player_velocity, ledger.stomp_gain() as u32);
        (
            ledger_after(ledger, enemy, contact),
            tested.push(enemy_after(enemy, contact)),
            if contact is Stomp {
                defeated.push(enemy.position)
            } else {
                defeated
            },
        )
    }
}

/// The enemies that stay in the world at the end of a tick: all but the
/// removed ones, in their order.
pub open spec fn survivors(enemies: Seq<Enemy>) -> Seq<Enemy>
    decreases enemies.len(),
{
    if enemies.len() == 0 {
        Seq::empty()
    } else if enemies.last().phase is Removed {
        survivors(enemies.drop_last())
    } else {
        survivors(enemies.drop_last()).push(enemies.last())
    }
}

/// The contact tests of a tick leave as many enemies as they found, leave
/// every enemy out of play untouched, send the others at most dying, and
/// keep the ledger's combo consistent.
pub proof fn lemma_contacts_resolved(
    state: GameState,
    player_position: Vec3,
    player_velocity: Vec3,
    enemies: Seq<Enemy>,
)
    ensures
        ({
            let (ledger, tested, defeated) = contacts_resolved(
                state,
                player_position,
                player_velocity,
                enemies,
            );
            &&& tested.len() == enemies.len()
            &&& defeated.len() <= enemies.len()
            &&& forall|i: int|
                0 <= i < enemies.len() ==> #[trigger] tested[i] == enemies[i] || (
                !enemies[i].dying() && tested[i] == enemies[i].stomped())
            &&& forall|i: int|
                0 <= i < enemies.len() && enemies[i].dying() ==> #[trigger] tested[i] == enemies[i]
            &&& state.combo_consistent() ==> ledger.combo_consistent()
        }),
    decreases enemies.len(),
{
    if enemies.len() > 0 {
        lemma_contacts_resolved(state, player_position, player_velocity, enemies.drop_last());
    }
}

/// Every one of `enemies` after a tick of `dt` microseconds.
pub open spec fn all_updated(enemies: Seq<Enemy>, dt: u64) -> Seq<Enemy> {
    Seq::new(enemies.len(), |i: int| enemies[i].updated(dt))
}

/// A tick of `dt` microseconds for every enemy: see `Enemy::updated`.
pub fn update_enemies(enemies: &mut Vec<Enemy>, dt: u64)
    ensures
        final(enemies)@ == all_updated(old(enemies)@, dt),
        final(enemies)@.len() == old(enemies)@.len(),
        forall|i: int|
            0 <= i < old(enemies)@.len()
                ==> #[trigger] final(enemies)@[i] == old(enemies)@[i].updated(dt),
{
    let ghost before = enemies@;
    let n = enemies.len();
    let mut i: usize = 0;
    while i < n
        invariant
            i <= n,
            n == before.len(),
            enemies@.len() == n,
            forall|j: int| 0 <= j < i ==> #[trigger] enemies@[j] == before[j].updated(dt),
            forall|j: int| i <= j < n ==> #[trigger] enemies@[j] == before[j],
        decreases n - i,
    {
        let mut enemy = enemies[i];
        enemy_patrol(&mut enemy, dt);
        enemy_death_animation(&mut enemy, dt);
        enemies[i] = enemy;
        i += 1;
    }
}

/// One tick's contact tests between the player and every enemy, in the
/// order of `enemies`: see `contacts_resolved`. Returns where each stomped
/// enemy stands, for the burst of particles there.
pub fn resolve_contacts(
    state: &mut GameState,
    player_position: &Vec3,
    player_velocity: &Vec3,
    enemies: &mut Vec<Enemy>,
) -> (defeated: Vec<Vec3>)
    ensures
        (*final(state), final(enemies)@, defeated@) == contacts_resolved(
            *old(state),
            *player_position,
            *player_velocity,
            old(enemies)@,
        ),
        final(enemies)@.len() == old(enemies)@.len(),
        forall|i: int|
            0 <= i < old(enemies)@.len() && old(enemies)@[i].dying()
                ==> #[trigger] final(enemies)@[i] == old(enemies)@[i],
        old(state).combo_consistent() ==> final(state).combo_consistent(),
{
    let ghost before = enemies@;
    let ghost ledger = *state;
    let mut defeated: Vec<Vec3> = Vec::new();
    let n = enemies.len();
    let mut i: usize = 0;
    while i < n
        invariant
            i <= n,
            n == before.len(),
            enemies@.len() == n,
            forall|j: int| i <= j < n ==> #[trigger] enemies@[j] == before[j],
            (*state, enemies@.take(i as int), defeated@) == contacts_resolved(
                ledger,
                *player_position,
                *player_velocity,
                before.take(i as int),
            ),
        decreases n - i,
    {
        let mut enemy = enemies[i];
        let position = enemy.position;
        let contact = enemy_collision_with_player(
            state,
            player_position,
            player_velocity,
            &mut enemy,
        );
        match contact {
            Contact::Stomp { .. } => {
                defeated.push(position);
            },
            _ => {},
        }
        enemies[i] = enemy;
        proof {
            assert(before.take(i + 1).drop_last() =~= before.take(i as int));
        }
        i += 1;
    }
    proof {
        assert(before.take(n as int) =~= before);
        lemma_contacts_resolved(ledger, *player_position, *player_velocity, before);
    }
    defeated
}

/// The names of the removed ones among `enemies`, in their order.
pub open spec fn removed_ids(enemies: Seq<Enemy>) -> Seq<u32>
    decreases enemies.len(),
{
    if enemies.len() == 0 {
        Seq::empty()
    } else if enemies.last().phase is Removed {
        removed_ids(enemies.drop_last()).push(enemies.last().id)
    } else {
        removed_ids(enemies.drop_last())
    }
}

/// Every enemy either stays or is named among the removed.
pub proof fn lemma_survivors_and_removed(enemies: Seq<Enemy>)
    ensures
        survivors(enemies).len() + removed_ids(enemies).len() == enemies.len(),
        forall|i: int|
            0 <= i < survivors(enemies).len() ==> !(#[trigger] survivors(enemies)[i].phase
                is Removed),
    decreases enemies.len(),
{
    if enemies.len() > 0 {
        lemma_survivors_and_removed(enemies.drop_last());
    }
}

/// The deletion at the end of a tick: the removed enemies leave the
/// world, the others stay in their order. Returns the names of those that
/// left, in their order.
pub fn remove_finished(enemies: &mut Vec<Enemy>) -> (removed: Vec<u32>)
    ensures
        final(enemies)@ == survivors(old(enemies)@),
        removed@ == removed_ids(old(enemies)@),
        removed@.len() + final(enemies)@.len() == old(enemies)@.len(),
        forall|i: int|
            0 <= i < final(enemies)@.len() ==> !(#[trigger] final(enemies)@[i].phase is Removed),
{
    let ghost before = enemies@;
    let mut kept: Vec<Enemy> = Vec::new();
    let mut removed: Vec<u32> = Vec::new();
    let n = enemies.len();
    let mut i: usize = 0;
    while i < n
        invariant
            i <= n,
            n == before.len(),
            enemies@ == before,
            kept@ == survivors(before.take(i as int)),
            removed@ == removed_ids(before.take(i as int)),
        decreases n - i,
    {
        let enemy = enemies[i];
        proof {
            assert(before.take(i + 1).drop_last() =~= before.take(i as int));
        }
        if enemy.is_removed() {
            removed.push(enemy.id);
        } else {
            kept.push(enemy);
        }
        i += 1;
    }
    proof {
        assert(before.take(n as int) =~= before);
        lemma_survivors_and_removed(before);
    }
    *enemies = kept;
    removed
}

/// Finds the first enemy named `id`: its index, or none if no enemy has
/// that name.
pub fn find_enemy(enemies: &Vec<Enemy>, id: u32) -> (found: Option<usize>)
    ensures
        match found {
            Some(i) => i < enemies@.len() && enemies@[i as int].id == id && forall|j: int|
                0 <= j < i ==> (#[trigger] enemies@[j]).id != id,
            None => forall|j: int| 0 <= j < enemies@.len() ==> (#[trigger] enemies@[j]).id != id,
        },
{
    let n = enemies.len();
    let mut i: usize = 0;
    while i < n
        invariant
            i <= n,
            n == enemies@.len(),
            forall|j: int| 0 <= j < i ==> (#[trigger] enemies@[j]).id != id,
        decreases n - i,
    {
        if enemies[i].id == id {
            return Some(i);
        }
        i += 1;
    }
    None
}

/// The enemies of the level, each at the start of its route and named by
/// its place in the list.
pub open spec fn level_enemies() -> Seq<Enemy> {
    seq![
        Enemy::spawned(0, Vec3 { x: -5000i32, y: 1000, z: 0 }, Vec3 { x: 5000, y: 1000, z: 0 }),
        Enemy::spawned(
            1,
            Vec3 { x: 8000, y: 1000, z: -10000i32 },
            Vec3 { x: 15000, y: 1000, z: -10000i32 },
        ),
        Enemy::spawned(
            2,
            Vec3 { x: -10000i32, y: 1000, z: -5000i32 },
            Vec3 { x: -10000i32, y: 1000, z: 5000 },
        ),
        Enemy::spawned(
            3,
            Vec3 { x: 0, y: 1000, z: -15000i32 },
            Vec3 { x: 10000, y: 1000, z: -15000i32 },
        ),
    ]
}

/// Puts the enemies of the level: see `level_enemies`.
pub fn spawn_enemies() -> (enemies: Vec<Enemy>)
    ensures
        enemies@ == level_enemies(),
{
    let mut enemies: Vec<Enemy> = Vec::new();
    enemies.push(Enemy::new(0, Vec3 { x: -5000, y: 1000, z: 0 }, Vec3 { x: 5000, y: 1000, z: 0 }));
    enemies.push(
        Enemy::new(1, Vec3 { x: 8000, y: 1000, z: -10000 }, Vec3 { x: 15000, y: 1000, z: -10000 }),
    );
    enemies.push(
        Enemy::new(2, Vec3 { x: -10000, y: 1000, z: -5000 }, Vec3 { x: -10000, y: 1000, z: 5000 }),
    );
    enemies.push(
        Enemy::new(3, Vec3 { x: 0, y: 1000, z: -15000 }, Vec3 { x: 10000, y: 1000, z: -15000 }),
    );
    enemies
}

} // verus!
