//! Enemies, their companions and what each does in a frame.

use vstd::prelude::*;
use crate::clock::{elapsed, elapsed_since};
use crate::geometry::Size;
use crate::timer::Timer;

verus! {

/// Period of the enemy spawn timer, in nanoseconds.
pub const ENEMY_SPAWN_COOLDOWN: u64 = 3_000_000_000;

/// Period of the ability timer shared by bishops and propagators, in nanoseconds.
pub const ENEMY_ABILITY_CYCLE: u64 = 10_000_000_000;

/// One of the four directions in which a propagator releases its neonates.
#[derive(Clone, Copy, Debug, PartialEq, Eq, Structural)]
pub enum Compass {
    East,
    West,
    North,
    South,
}

impl Compass {
    /// The unit step of the direction, as `(x, y)`.
    pub open spec fn step(self) -> (int, int) {
        match self {
            Compass::East => (1, 0),
            Compass::West => (-1, 0),
            Compass::North => (0, 1),
            Compass::South => (0, -1),
        }
    }

    /// Computes [`Compass::step`].
    pub fn offset(&self) -> (xy: (i32, i32))
        ensures
            (xy.0 as int, xy.1 as int) == self.step(),
    {
        match self {
            Compass::East => (1, 0),
            Compass::West => (-1, 0),
            Compass::North => (0, 1),
            Compass::South => (0, -1),
        }
    }
}

/// What a neonate remembers of its release.
#[derive(Clone, Copy, Debug, PartialEq, Eq, Structural)]
pub struct NeonateGestation {
    /// The direction it was released in.
    pub direction: Compass,
    /// When it was released.
    pub spawn_time: u64,
}

impl NeonateGestation {
    /// Time since the release, at `now`.
    pub fn time_since_spawn(&self, now: u64) -> (age: u64)
        ensures
            age == elapsed_since(now, self.spawn_time),
    {
        elapsed(now, self.spawn_time)
    }
}

/// The kind of an enemy, with the state that some kinds carry.
#[derive(Clone, Copy, Debug, PartialEq, Eq, Structural)]
pub enum EnemyType {
    Pawn,
    Stinger,
    Splitter {
        /// Generation: how many splits lie behind this one.
        split_count: usize,
        /// When it last took a new heading.
        instant: u64,
    },
    Rogue,
    Bishop,
    Propagator,
    Neonate(NeonateGestation),
}

/// A companion that a bishop releases to strengthen other enemies.
#[derive(Clone, Copy, Debug, PartialEq, Eq, Structural)]
pub struct Deacon {
    pub speed: u32,
    pub size: Size,
    /// When it was released.
    pub instant: u64,
}

/// An enemy on the field.
#[derive(Clone, Copy, Debug, PartialEq, Eq, Structural)]
pub struct Enemy {
    pub health: i64,
    pub variant: EnemyType,
    pub speed: u32,
    pub size: Size,
}

/// Paces enemy spawning.
#[derive(Clone, Copy, Debug, PartialEq, Eq, Structural)]
pub struct EnemySpawnCooldownTimer {
    pub timer: Timer,
}

/// Paces the abilities of bishops and propagators.
#[derive(Clone, Copy, Debug, PartialEq, Eq, Structural)]
pub struct EnemyAbilityTimer {
    pub timer: Timer,
}

impl Default for EnemySpawnCooldownTimer {
    fn default() -> (it: EnemySpawnCooldownTimer)
        ensures
            it.timer == Timer::fresh(ENEMY_SPAWN_COOLDOWN),
    {
        EnemySpawnCooldownTimer { timer: Timer::new(ENEMY_SPAWN_COOLDOWN) }
    }
}

impl Default for EnemyAbilityTimer {
    fn default() -> (it: EnemyAbilityTimer)
        ensures
            it.timer == Timer::fresh(ENEMY_ABILITY_CYCLE),
    {
        EnemyAbilityTimer { timer: Timer::new(ENEMY_ABILITY_CYCLE) }
    }
}

/// Advances the spawn timer by one frame of `delta` nanoseconds.
pub fn enemy_spawn_timer_ticker(enemy_spawn_timer: &mut EnemySpawnCooldownTimer, delta: u64)
    requires
        old(enemy_spawn_timer).timer.can_tick(delta),
    ensures
        final(enemy_spawn_timer).timer == old(enemy_spawn_timer).timer.after(delta),
        final(enemy_spawn_timer).timer.wf(),
{
    enemy_spawn_timer.timer.tick(delta);
}

/// Advances the ability timer by one frame of `delta` nanoseconds.
pub fn enemy_ability_timer(enemy_ability_timer: &mut EnemyAbilityTimer, delta: u64)
    requires
        old(enemy_ability_timer).timer.can_tick(delta),
    ensures
        final(enemy_ability_timer).timer == old(enemy_ability_timer).timer.after(delta),
        final(enemy_ability_timer).timer.wf(),
{
    enemy_ability_timer.timer.tick(delta);
}

/// How long a splitter keeps a heading, a neonate its release direction and a
/// deacon its rest, in nanoseconds.
pub const HEADING_MEMORY: u64 = 1_000_000_000;

/// How far a deacon sees, in world units.
pub const DEACON_SIGHT: u64 = 35;

/// Speed of a deacon that has found an enemy to make for.
pub const DEACON_CHASE_SPEED: u32 = 10;

/// Health that a deacon gives to the enemy it merges into.
pub const DEACON_HEAL: i64 = 10;

/// Where an enemy is to head in a frame.
#[derive(Clone, Copy, Debug, PartialEq, Eq, Structural)]
pub enum Steering {
    /// Towards the base, thrown off along each axis by a random amount of at
    /// most `jitter` thousandths of the unit heading.
    Base { jitter: u32 },
    /// Towards the player.
    Player,
    /// Along the heading it already has.
    Keep,
    /// Along the direction it was released in.
    Release(Compass),
    /// Nowhere: it stays where it is.
    Stay,
}

/// How an enemy's sprite turns in a frame.
#[derive(Clone, Copy, Debug, PartialEq, Eq, Structural)]
pub enum Spin {
    /// It faces the way it moves.
    Face,
    /// It turns on by half a circle divided by `steps`, clockwise or not.
    Turn { clockwise: bool, steps: u32 },
    /// It keeps its rotation.
    Hold,
}

/// What an enemy does in a frame.
pub struct Orders {
    pub steering: Steering,
    pub spin: Spin,
    /// Deacons released at the enemy's place.
    pub deacons: Vec<Deacon>,
    /// Neonates released at the enemy's place.
    pub neonates: Vec<Enemy>,
}

/// The deacon that a bishop releases at `now`.
pub open spec fn released_deacon(now: u64) -> Deacon {
    Deacon { speed: 20, size: Size::square(10), instant: now }
}

/// The neonate that a propagator releases at `now` in the given direction.
pub open spec fn released_neonate(direction: Compass, now: u64) -> Enemy {
    Enemy {
        health: 50,
        variant: EnemyType::Neonate(NeonateGestation { direction, spawn_time: now }),
        speed: 20,
        size: Size::square(10),
    }
}

impl Enemy {
    /// Whether a splitter takes a new heading at `now`: one fresh from a wave
    /// does so in every frame, a child once its heading is older than
    /// [`HEADING_MEMORY`].
    pub open spec fn redirects(self, now: u64) -> bool {
        match self.variant {
            EnemyType::Splitter { split_count, instant } => split_count == 0 || elapsed_since(
                now,
                instant,
            ) > HEADING_MEMORY,
            _ => false,
        }
    }

    /// The enemy after its frame at `now`: a splitter that takes a new heading
    /// remembers when it did; nothing else changes.
    pub open spec fn moved(self, now: u64) -> Enemy {
        match self.variant {
            EnemyType::Splitter { split_count, instant } => if self.redirects(now) {
                Enemy { variant: EnemyType::Splitter { split_count, instant: now }, ..self }
            } else {
                self
            },
            _ => self,
        }
    }

    /// Where the enemy heads in its frame at `now`.
    ///
    /// Pawns and stingers make for the base with a jitter of 400 and 500
    /// thousandths. A splitter makes straight for the base when it takes a new
    /// heading and keeps its heading otherwise. A rogue hunts the player and,
    /// without one, makes for the base. A bishop makes for the base. A
    /// propagator does so too, but stays where it is in the frames in which it
    /// releases neonates. A neonate follows the direction of its release for
    /// [`HEADING_MEMORY`] and makes for the base with a jitter of 500
    /// thousandths from then on.
    pub open spec fn steering(self, player_present: bool, ability_finished: bool, now: u64) -> Steering {
        match self.variant {
            EnemyType::Pawn => Steering::Base { jitter: 400 },
            EnemyType::Stinger => Steering::Base { jitter: 500 },
            EnemyType::Splitter { .. } => if self.redirects(now) {
                Steering::Base { jitter: 0 }
            } else {
                Steering::Keep
            },
            EnemyType::Rogue => if player_present {
                Steering::Player
            } else {
                Steering::Base { jitter: 0 }
            },
            EnemyType::Bishop => Steering::Base { jitter: 0 },
            EnemyType::Propagator => if ability_finished {
                Steering::Stay
            } else {
                Steering::Base { jitter: 0 }
            },
            EnemyType::Neonate(gestation) => if elapsed_since(now, gestation.spawn_time)
                > HEADING_MEMORY {
                Steering::Base { jitter: 500 }
            } else {
                Steering::Release(gestation.direction)
            },
        }
    }

    /// How the enemy's sprite turns in a frame.
    pub open spec fn spin(self, player_present: bool, ability_finished: bool) -> Spin {
        match self.variant {
            EnemyType::Pawn => Spin::Face,
            EnemyType::Stinger => Spin::Face,
            EnemyType::Splitter { .. } => Spin::Turn { clockwise: false, steps: 135 },
            EnemyType::Rogue => Spin::Turn { clockwise: player_present, steps: 90 },
            EnemyType::Bishop => Spin::Turn { clockwise: true, steps: 90 },
            EnemyType::Propagator => if ability_finished {
                Spin::Hold
            } else {
                Spin::Turn { clockwise: true, steps: 180 }
            },
            EnemyType::Neonate(_) => Spin::Face,
        }
    }

    /// The deacons that the enemy releases in its frame at `now`: two from a
    /// bishop whenever the ability timer has completed its period.
    pub open spec fn deacons(self, ability_finished: bool, now: u64) -> Seq<Deacon> {
        if self.variant is Bishop && ability_finished {
            seq![released_deacon(now), released_deacon(now)]
        } else {
            Seq::empty()
        }
    }

    /// The neonates that the enemy releases in its frame at `now`: four from a
    /// propagator whenever the ability timer has completed its period, one for
    /// each direction of the compass.
    pub open spec fn neonates(self, ability_finished: bool, now: u64) -> Seq<Enemy> {
        if self.variant is Propagator && ability_finished {
            seq![
                released_neonate(Compass::East, now),
                released_neonate(Compass::West, now),
                released_neonate(Compass::North, now),
                released_neonate(Compass::South, now),
            ]
        } else {
            Seq::empty()
        }
    }

    /// The enemy after a deacon has merged into it: healed by
    /// [`DEACON_HEAL`] and faster by one. A dead enemy is past help.
    pub open spec fn buffed(self) -> Enemy {
        if self.health > 0 {
            Enemy {
                health: (self.health + DEACON_HEAL) as i64,
                speed: (self.speed + 1) as u32,
                ..self
            }
        } else {
            self
        }
    }

    /// Takes a deacon in: see [`Enemy::buffed`].
    pub fn buff(&mut self)
        requires
            old(self).health + DEACON_HEAL <= i64::MAX,
            old(self).speed < u32::MAX,
        ensures
            *final(self) == old(self).buffed(),
    {
        if self.health > 0 {
            self.health = self.health + DEACON_HEAL;
            self.speed = self.speed + 1;
        }
    }
}

/// Decides what an enemy does in its frame at `now`.
///
/// `player_present` tells whether there is a player to hunt, and
/// `ability_finished` whether the ability timer has completed its period in
/// this frame. The engine moves the enemy by its speed along the heading that
/// the orders name, turns its sprite, and puts the released companions at the
/// enemy's place.
pub fn enemy_movement(enemy: &mut Enemy, player_present: bool, ability_finished: bool, now: u64) -> (orders:
    Orders)
    ensures
        *final(enemy) == old(enemy).moved(now),
        orders.steering == old(enemy).steering(player_present, ability_finished, now),
        orders.spin == old(enemy).spin(player_present, ability_finished),
        orders.deacons@ == old(enemy).deacons(ability_finished, now),
        orders.neonates@ == old(enemy).neonates(ability_finished, now),
{
    let mut deacons: Vec<Deacon> = Vec::new();
    let mut neonates: Vec<Enemy> = Vec::new();
    let steering: Steering;
    let spin: Spin;
    match enemy.variant {
        EnemyType::Pawn => {
            steering = Steering::Base { jitter: 400 };
            spin = Spin::Face;
        },
        EnemyType::Stinger => {
            steering = Steering::Base { jitter: 500 };
            spin = Spin::Face;
        },
        EnemyType::Splitter { split_count, instant } => {
            if split_count == 0 || elapsed(now, instant) > HEADING_MEMORY {
                steering = Steering::Base { jitter: 0 };
                enemy.variant = EnemyType::Splitter { split_count, instant: now };
            } else {
                steering = Steering::Keep;
            }
            spin = Spin::Turn { clockwise: false, steps: 135 };
        },
        EnemyType::Rogue => {
            if player_present {
                steering = Steering::Player;
            } else {
                steering = Steering::Base { jitter: 0 };
            }
            spin = Spin::Turn { clockwise: player_present, steps: 90 };
        },
        EnemyType::Bishop => {
            if ability_finished {
                let deacon = Deacon { speed: 20, size: Size::new(10, 10), instant: now };
                deacons.push(deacon);
                deacons.push(deacon);
            }
            steering = Steering::Base { jitter: 0 };
            spin = Spin::Turn { clockwise: true, steps: 90 };
        },
        EnemyType::Propagator => {
            if ability_finished {
                neonates.push(release_neonate(Compass::East, now));
                neonates.push(release_neonate(Compass::West, now));
                neonates.push(release_neonate(Compass::North, now));
                neonates.push(release_neonate(Compass::South, now));
                steering = Steering::Stay;
                spin = Spin::Hold;
            } else {
                steering = Steering::Base { jitter: 0 };
                spin = Spin::Turn { clockwise: true, steps: 180 };
            }
        },
        EnemyType::Neonate(gestation) => {
            if gestation.time_since_spawn(now) > HEADING_MEMORY {
                steering = Steering::Base { jitter: 500 };
            } else {
                steering = Steering::Release(gestation.direction);
            }
            spin = Spin::Face;
        },
    }
    assert(deacons@ =~= old(enemy).deacons(ability_finished, now));
    assert(neonates@ =~= old(enemy).neonates(ability_finished, now));
    Orders { steering, spin, deacons, neonates }
}

/// Makes the neonate that a propagator releases at `now` in the given
/// direction.
pub fn release_neonate(direction: Compass, now: u64) -> (neonate: Enemy)
    ensures
        neonate == released_neonate(direction, now),
{
    Enemy {
        health: 50,
        variant: EnemyType::Neonate(NeonateGestation { direction, spawn_time: now }),
        speed: 20,
        size: Size::new(10, 10),
    }
}

/// What a deacon sees of one enemy.
#[derive(Clone, Copy, Debug, PartialEq, Eq, Structural)]
pub struct Sighting {
    pub variant: EnemyType,
    /// Distance between the two, in thousandths of a world unit, rounded down.
    pub distance: u64,
    /// Whether their bounding boxes overlap.
    pub touching: bool,
}

/// What a deacon does in a frame.
#[derive(Clone, Copy, Debug, PartialEq, Eq, Structural)]
pub struct DeaconOrders {
    /// The place, among the sightings, of the enemy to make for.
    pub target: Option<usize>,
    /// Whether the deacon merges into its target, which is then to be
    /// strengthened by [`Enemy::buff`].
    pub merge: bool,
    /// The speed at which the deacon moves in this frame.
    pub speed: u32,
    /// Whether the deacon is to be removed.
    pub despawn: bool,
}

impl Deacon {
    /// Whether the deacon has rested for [`HEADING_MEMORY`] and is awake at
    /// `now`.
    pub open spec fn awake(self, now: u64) -> bool {
        elapsed_since(now, self.instant) > HEADING_MEMORY
    }
}

/// Whether a deacon may make for the enemy of a sighting: any but a bishop.
pub open spec fn eligible(sighting: Sighting) -> bool {
    !(sighting.variant is Bishop)
}

/// Whether the sighting at place `at` is of the nearest enemy that a deacon may
/// make for; of two at the same distance the earlier is the nearer.
pub open spec fn nearest_at(sightings: Seq<Sighting>, at: int) -> bool {
    &&& 0 <= at < sightings.len()
    &&& eligible(sightings[at])
    &&& forall|other: int|
        0 <= other < sightings.len() && eligible(#[trigger] sightings[other]) ==> {
            ||| sightings[at].distance < sightings[other].distance
            ||| sightings[at].distance == sightings[other].distance && at <= other
        }
}

/// Whether the sighting at place `at` is of the enemy that an awake deacon
/// makes for: the nearest it may make for, if that is within
/// [`DEACON_SIGHT`].
pub open spec fn in_sight(sightings: Seq<Sighting>, at: int) -> bool {
    nearest_at(sightings, at) && sightings[at].distance <= DEACON_SIGHT * 1000
}

/// Decides what a deacon does in its frame at `now`.
///
/// `sightings` holds what the deacon sees of each enemy on the field and
/// `hit` tells whether a bullet touches it. A deacon rests for
/// [`HEADING_MEMORY`] after its release: it does not move and finds no enemy.
/// Awake, it makes for the nearest enemy that is no bishop, at
/// [`DEACON_CHASE_SPEED`], if that is within [`DEACON_SIGHT`], and merges into
/// it on touch; with none in sight it stands still. A bullet removes it
/// whether it rests or not.
pub fn deacon_behaviour(deacon: &mut Deacon, sightings: &Vec<Sighting>, hit: bool, now: u64) -> (orders:
    DeaconOrders)
    ensures
        !old(deacon).awake(now) ==> *final(deacon) == *old(deacon) && orders == (DeaconOrders {
            target: None,
            merge: false,
            speed: 0,
            despawn: hit,
        }),
        old(deacon).awake(now) ==> {
            &&& orders.target matches Some(at) ==> in_sight(sightings@, at as int) && orders.merge
                == sightings@[at as int].touching
            &&& orders.target is None ==> !orders.merge && forall|at: int| !in_sight(sightings@, at)
            &&& orders.speed == if orders.target is Some {
                DEACON_CHASE_SPEED
            } else {
                0
            }
            &&& *final(deacon) == (Deacon { speed: orders.speed, ..*old(deacon) })
            &&& orders.despawn == (hit || orders.merge)
        },
{
    if elapsed(now, deacon.instant) <= HEADING_MEMORY {
        return DeaconOrders { target: None, merge: false, speed: 0, despawn: hit };
    }
    let mut best: Option<usize> = None;
    let mut i: usize = 0;
    while i < sightings.len()
        invariant
            i <= sightings.len(),
            best matches Some(at) ==> nearest_at(sightings@.take(i as int), at as int),
            best is None ==> forall|j: int| 0 <= j < i ==> !eligible(#[trigger] sightings@[j]),
        decreases sightings.len() - i,
    {
        let ghost seen = sightings@.take(i as int);
        let ghost next = sightings@.take(i + 1);
        let sighting = sightings[i];
        let bishop = match sighting.variant {
            EnemyType::Bishop => true,
            _ => false,
        };
        assert(forall|j: int| 0 <= j < i ==> next[j] == seen[j]);
        assert(next[i as int] == sighting);
        if !bishop {
            match best {
                Some(at) => {
                    if sighting.distance < sightings[at].distance {
                        best = Some(i);
                    }
                },
                None => {
                    best = Some(i);
                },
            }
        }
        i += 1;
    }
    assert(sightings@.take(i as int) =~= sightings@);
    match best {
        Some(at) => {
            if sightings[at].distance <= DEACON_SIGHT * 1000 {
                let merge = sightings[at].touching;
                deacon.speed = DEACON_CHASE_SPEED;
                DeaconOrders {
                    target: Some(at),
                    merge,
                    speed: DEACON_CHASE_SPEED,
                    despawn: hit || merge,
                }
            } else {
                deacon.speed = 0;
                assert forall|other: int| !in_sight(sightings@, other) by {
                    if nearest_at(sightings@, other) {
                        assert(eligible(sightings@[at as int]));
                        assert(eligible(sightings@[other]));
                    }
                }
                DeaconOrders { target: None, merge: false, speed: 0, despawn: hit }
            }
        },
        None => {
            deacon.speed = 0;
            DeaconOrders { target: None, merge: false, speed: 0, despawn: hit }
        },
    }
}

/// A deacon is inert while it rests: for [`HEADING_MEMORY`] after its release
/// it is not awake, whatever is near it; and the enemy that an awake deacon
/// makes for is no bishop and within [`DEACON_SIGHT`].
pub proof fn deacon_rests_first(deacon: Deacon, sightings: Seq<Sighting>, at: int, now: u64)
    ensures
        elapsed_since(now, deacon.instant) <= HEADING_MEMORY ==> !deacon.awake(now),
        in_sight(sightings, at) ==> !(sightings[at].variant is Bishop) && sightings[at].distance
            <= 35_000,
{
}

} // verus!
