//! The player: movement, shooting, and what shots and collisions do.

use vstd::prelude::*;
use crate::bullet::Bullet;
use crate::chance::{below, is_below, random_bits};
use crate::base::Base;
use crate::enemy::{Enemy, EnemyType};
use crate::geometry::{Field, Point};
use crate::part::{green_red_or_blue, pick_green_red_or_blue, pick_red_or_blue, red_or_blue, PartTier};
use crate::geometry::Size;
use crate::part::Part;
use crate::sound::Sound;
use crate::timer::Timer;

verus! {

/// Side of the box by which the player is held within the play area.
pub const PLAYER_SIZE: u32 = 32;

/// Half of [`PLAYER_SIZE`].
pub const PLAYER_MARGIN: u32 = 16;

/// Period of the blaster at base level one, in nanoseconds.
pub const BLASTER_COOLDOWN: u64 = 500_000_000;

/// How far from a fallen splitter its children appear, along both axes.
pub const SPLIT_OFFSET: u32 = 10;

/// The player's ship.
#[derive(Clone, Copy, Debug, PartialEq, Eq, Structural)]
pub struct Player {
    pub health: i64,
    pub speed: u32,
    pub size: Size,
    pub max_health: i64,
}

/// Paces the player's blaster.
#[derive(Clone, Copy, Debug, PartialEq, Eq, Structural)]
pub struct BlasterCooldownTimer {
    pub timer: Timer,
}

impl Default for BlasterCooldownTimer {
    fn default() -> (it: BlasterCooldownTimer)
        ensures
            it.timer == Timer::fresh(BLASTER_COOLDOWN),
    {
        BlasterCooldownTimer { timer: Timer::new(BLASTER_COOLDOWN) }
    }
}

impl BlasterCooldownTimer {
    /// Gives the blaster a new period, in nanoseconds; the timer starts over.
    pub fn set_cooldown(&mut self, new_cooldown: u64)
        ensures
            final(self).timer == Timer::fresh(new_cooldown),
    {
        self.timer = Timer::new(new_cooldown);
    }
}

impl Player {
    /// The player as a session starts.
    pub open spec fn initial() -> Player {
        Player { health: 100, speed: 250, size: Size::square(15), max_health: 100 }
    }

    /// The player as a session starts.
    pub fn new() -> (player: Player)
        ensures
            player == Player::initial(),
    {
        Player { health: 100, speed: 250, size: Size::new(15, 15), max_health: 100 }
    }
}

/// What the death of an enemy leaves behind.
pub struct DeathOutcome {
    /// Enemies that take the place of the fallen one.
    pub children: Vec<Enemy>,
    /// The part dropped where it fell, if any.
    pub reward: Option<PartTier>,
    /// The clip to play.
    pub sound: Sound,
}

/// What a bullet's contact with an enemy comes to.
pub struct Hit {
    /// Whether the bullet struck and is to be removed.
    pub bullet_spent: bool,
    /// Set when the hit killed the enemy, which is then to be removed.
    pub death: Option<DeathOutcome>,
}

/// A child of a splitter of generation `parent`, born at `now`.
pub open spec fn split_child(parent: usize, now: u64) -> Enemy {
    if parent == 0 {
        Enemy {
            health: 100,
            variant: EnemyType::Splitter { split_count: 1, instant: now },
            speed: 20,
            size: Size::square(10),
        }
    } else {
        Enemy {
            health: 100,
            variant: EnemyType::Splitter { split_count: 2, instant: now },
            speed: 25,
            size: Size::square(5),
        }
    }
}

/// The enemies that take the place of one of kind `variant` killed at `now`:
/// two children for a splitter of the first two generations, none otherwise.
pub open spec fn death_children(variant: EnemyType, now: u64) -> Seq<Enemy> {
    match variant {
        EnemyType::Splitter { split_count, .. } => if split_count <= 1 {
            seq![split_child(split_count, now), split_child(split_count, now)]
        } else {
            Seq::empty()
        },
        _ => Seq::empty(),
    }
}

/// The part that the death of an enemy of kind `variant` drops: `reward_draw`
/// decides whether there is one, `tier_draw` which.
pub open spec fn death_reward(variant: EnemyType, reward_draw: u64, tier_draw: u64) -> Option<
    PartTier,
> {
    match variant {
        EnemyType::Pawn => if below(reward_draw, 10, 100) {
            Some(PartTier::Blue)
        } else {
            None
        },
        EnemyType::Stinger => if below(reward_draw, 10, 100) {
            Some(PartTier::Red)
        } else {
            None
        },
        EnemyType::Rogue => if below(reward_draw, 20, 100) {
            Some(red_or_blue(tier_draw, 40))
        } else {
            None
        },
        EnemyType::Splitter { split_count, .. } => if split_count == 1 && below(
            reward_draw,
            30,
            100,
        ) {
            Some(red_or_blue(tier_draw, 50))
        } else {
            None
        },
        EnemyType::Bishop => if below(reward_draw, 30, 100) {
            Some(green_red_or_blue(tier_draw, 25, 50))
        } else {
            None
        },
        EnemyType::Propagator => Some(green_red_or_blue(tier_draw, 40, 50)),
        EnemyType::Neonate(_) => None,
    }
}

/// The clip that the death of an enemy of kind `variant` plays.
pub open spec fn death_sound(variant: EnemyType) -> Sound {
    match variant {
        EnemyType::Splitter { split_count, .. } => if split_count <= 1 {
            Sound::SplitterBurst
        } else {
            Sound::EnemyDestroyed
        },
        _ => Sound::EnemyDestroyed,
    }
}

/// What the death of an enemy of kind `variant` at `now` leaves behind, for
/// the two draws of its reward roll.
pub fn on_death(variant: EnemyType, reward_draw: u64, tier_draw: u64, now: u64) -> (outcome:
    DeathOutcome)
    ensures
        outcome.children@ == death_children(variant, now),
        outcome.reward == death_reward(variant, reward_draw, tier_draw),
        outcome.sound == death_sound(variant),
{
    let mut children: Vec<Enemy> = Vec::new();
    let mut reward: Option<PartTier> = None;
    let mut sound = Sound::EnemyDestroyed;
    match variant {
        EnemyType::Pawn => {
            if is_below(reward_draw, 10, 100) {
                reward = Some(PartTier::Blue);
            }
        },
        EnemyType::Stinger => {
            if is_below(reward_draw, 10, 100) {
                reward = Some(PartTier::Red);
            }
        },
        EnemyType::Rogue => {
            if is_below(reward_draw, 20, 100) {
                reward = Some(pick_red_or_blue(tier_draw, 40));
            }
        },
        EnemyType::Splitter { split_count, .. } => {
            if split_count == 0 {
                let child = Enemy {
                    health: 100,
                    variant: EnemyType::Splitter { split_count: 1, instant: now },
                    speed: 20,
                    size: Size::new(10, 10),
                };
                children.push(child);
                children.push(child);
                sound = Sound::SplitterBurst;
            } else if split_count == 1 {
                let child = Enemy {
                    health: 100,
                    variant: EnemyType::Splitter { split_count: 2, instant: now },
                    speed: 25,
                    size: Size::new(5, 5),
                };
                children.push(child);
                children.push(child);
                sound = Sound::SplitterBurst;
                if is_below(reward_draw, 30, 100) {
                    reward = Some(pick_red_or_blue(tier_draw, 50));
                }
            }
        },
        EnemyType::Bishop => {
            if is_below(reward_draw, 30, 100) {
                reward = Some(pick_green_red_or_blue(tier_draw, 25, 50));
            }
        },
        EnemyType::Propagator => {
            reward = Some(pick_green_red_or_blue(tier_draw, 40, 50));
        },
        EnemyType::Neonate(_) => {},
    }
    assert(children@ =~= death_children(variant, now));
    DeathOutcome { children, reward, sound }
}

/// Whether a bullet of the given damage can be applied to the enemy without
/// leaving the range of its health counter.
pub open spec fn damage_fits(enemy: Enemy, damage: i64) -> bool {
    i64::MIN <= enemy.health - damage <= i64::MAX
}

/// Whether the contact of a bullet of the given damage kills the enemy.
pub open spec fn kills(enemy: Enemy, damage: i64) -> bool {
    enemy.health > 0 && enemy.health - damage <= 0
}

/// The enemy after the contact with a bullet of the given damage. An enemy
/// that is already dead is past harm and stays as it is.
pub open spec fn struck(enemy: Enemy, damage: i64) -> Enemy {
    if enemy.health > 0 {
        Enemy { health: (enemy.health - damage) as i64, ..enemy }
    } else {
        enemy
    }
}

/// Resolves the contact of a bullet with an enemy, for the two draws of the
/// reward roll.
///
/// A live enemy takes the bullet's damage and the bullet is spent; where that
/// brings the enemy's health to zero or below, the enemy is dead and
/// [`on_death`] says what it leaves. An enemy that is already dead, and only
/// waits to be removed, takes nothing: the enemy stays as it is and the bullet
/// flies on.
pub fn bullet_hits_enemy(
    enemy: &mut Enemy,
    bullet: &Bullet,
    reward_draw: u64,
    tier_draw: u64,
    now: u64,
) -> (hit: Hit)
    requires
        damage_fits(*old(enemy), bullet.damage),
    ensures
        *final(enemy) == struck(*old(enemy), bullet.damage),
        hit.bullet_spent == (old(enemy).health > 0),
        hit.death is Some == kills(*old(enemy), bullet.damage),
        hit.death matches Some(outcome) ==> {
            &&& outcome.children@ == death_children(old(enemy).variant, now)
            &&& outcome.reward == death_reward(old(enemy).variant, reward_draw, tier_draw)
            &&& outcome.sound == death_sound(old(enemy).variant)
        },
{
    if enemy.health <= 0 {
        return Hit { bullet_spent: false, death: None };
    }
    enemy.health = enemy.health - bullet.damage;
    if enemy.health <= 0 {
        let outcome = on_death(enemy.variant, reward_draw, tier_draw, now);
        Hit { bullet_spent: true, death: Some(outcome) }
    } else {
        Hit { bullet_spent: true, death: None }
    }
}

/// Resolves the contact of a bullet with an enemy, rolling for the reward.
///
/// The enemy and the bullet fare as in [`bullet_hits_enemy`]; what a death
/// leaves is what [`on_death`] gives for some pair of draws.
pub fn player_shoot_enemy(enemy: &mut Enemy, bullet: &Bullet, now: u64) -> (hit: Hit)
    requires
        damage_fits(*old(enemy), bullet.damage),
    ensures
        *final(enemy) == struck(*old(enemy), bullet.damage),
        hit.bullet_spent == (old(enemy).health > 0),
        hit.death is Some == kills(*old(enemy), bullet.damage),
        hit.death matches Some(outcome) ==> {
            &&& outcome.children@ == death_children(old(enemy).variant, now)
            &&& outcome.sound == death_sound(old(enemy).variant)
            &&& exists|reward_draw: u64, tier_draw: u64|
                outcome.reward == #[trigger] death_reward(
                    old(enemy).variant,
                    reward_draw,
                    tier_draw,
                )
        },
{
    let reward_draw: u64 = random_bits();
    let tier_draw: u64 = random_bits();
    bullet_hits_enemy(enemy, bullet, reward_draw, tier_draw, now)
}

/// Killing a splitter of the first generation always leaves exactly two of
/// the second and no part; killing one of the second leaves exactly two of the
/// third and at most one part, red or blue; killing one of a later generation
/// leaves no children and no part.
pub proof fn splitter_chain(split_count: usize, instant: u64, reward_draw: u64, tier_draw: u64, now: u64)
    ensures
        ({
            let variant = EnemyType::Splitter { split_count, instant };
            let children = death_children(variant, now);
            let reward = death_reward(variant, reward_draw, tier_draw);
            &&& split_count == 0 ==> {
                &&& children.len() == 2
                &&& forall|i: int|
                    0 <= i < 2 ==> (#[trigger] children[i]).variant == (EnemyType::Splitter {
                        split_count: 1,
                        instant: now,
                    })
                &&& reward is None
            }
            &&& split_count == 1 ==> {
                &&& children.len() == 2
                &&& forall|i: int|
                    0 <= i < 2 ==> (#[trigger] children[i]).variant == (EnemyType::Splitter {
                        split_count: 2,
                        instant: now,
                    })
                &&& (reward is None || reward == Some(PartTier::Red) || reward == Some(
                    PartTier::Blue,
                ))
            }
            &&& split_count >= 2 ==> children.len() == 0 && reward is None
        }),
{
}

/// One of the four ways the player's ship can face.
#[derive(Clone, Copy, Debug, PartialEq, Eq, Structural)]
pub enum Facing {
    Up,
    Left,
    Down,
    Right,
}

/// Where the movement keys send the player in a frame.
#[derive(Clone, Copy, Debug, PartialEq, Eq, Structural)]
pub struct Heading {
    /// Steps along the axes, each -1, 0 or 1; the engine scales a diagonal to
    /// unit length and moves the player by its speed.
    pub x: i8,
    pub y: i8,
    /// The way the ship turns to face; `None` leaves it as it is.
    pub facing: Option<Facing>,
}

/// The step along one axis when the key towards the positive and the key
/// towards the negative side are held or not.
pub open spec fn axis_step(positive: bool, negative: bool) -> int {
    (if positive { 1int } else { 0int }) - (if negative { 1int } else { 0int })
}

/// The way the ship faces for the keys held: that of the last held key in the
/// order up, left, down, right.
pub open spec fn facing_for(up: bool, left: bool, down: bool, right: bool) -> Option<Facing> {
    if right {
        Some(Facing::Right)
    } else if down {
        Some(Facing::Down)
    } else if left {
        Some(Facing::Left)
    } else if up {
        Some(Facing::Up)
    } else {
        None
    }
}

/// Reads the movement keys of a frame: each key held adds its step, so that
/// opposite keys cancel.
pub fn player_movement(up: bool, left: bool, down: bool, right: bool) -> (heading: Heading)
    ensures
        heading.x == axis_step(right, left),
        heading.y == axis_step(up, down),
        heading.facing == facing_for(up, left, down, right),
{
    let mut x: i8 = 0;
    let mut y: i8 = 0;
    let mut facing: Option<Facing> = None;
    if up {
        y = y + 1;
        facing = Some(Facing::Up);
    }
    if left {
        x = x - 1;
        facing = Some(Facing::Left);
    }
    if down {
        y = y - 1;
        facing = Some(Facing::Down);
    }
    if right {
        x = x + 1;
        facing = Some(Facing::Right);
    }
    Heading { x, y, facing }
}

/// Holds the player within the play area: the place nearest to `place` that
/// keeps [`PLAYER_MARGIN`] from every edge.
pub fn confine_player_movement(place: Point, field: &Field) -> (held: Point)
    ensures
        (held.x as int, held.y as int) == field.confined(place, PLAYER_MARGIN),
{
    field.confine(place, PLAYER_MARGIN)
}

/// Advances the blaster's timer by one frame of `delta` nanoseconds.
pub fn blaster_timer_ticker(blaster_timer: &mut BlasterCooldownTimer, delta: u64)
    requires
        old(blaster_timer).timer.can_tick(delta),
    ensures
        final(blaster_timer).timer == old(blaster_timer).timer.after(delta),
        final(blaster_timer).timer.wf(),
{
    blaster_timer.timer.tick(delta);
}

/// Ends the player's part in a session: where there was a player, the blaster
/// gets its first period back.
pub fn despawn_player(blaster_timer: &mut BlasterCooldownTimer, player_present: bool)
    ensures
        final(blaster_timer).timer == if player_present {
            Timer::fresh(BLASTER_COOLDOWN)
        } else {
            old(blaster_timer).timer
        },
{
    if player_present {
        *blaster_timer = BlasterCooldownTimer::default();
    }
}

/// Decides whether the player fires in a frame at `now`.
///
/// A bullet leaves the barrel when the cursor is over the play area, the
/// trigger is held and the blaster's timer has completed a period in this
/// frame. The engine aims it from the player at the cursor.
pub fn player_shoot(
    cursor_present: bool,
    trigger_held: bool,
    blaster_timer: &BlasterCooldownTimer,
    now: u64,
) -> (shot: Option<Bullet>)
    ensures
        shot == if cursor_present && trigger_held && blaster_timer.timer.times_finished_this_tick
            > 0 {
            Some(Bullet::fired(now))
        } else {
            None
        },
{
    if cursor_present && trigger_held && blaster_timer.timer.just_finished() {
        Some(Bullet::new(now))
    } else {
        None
    }
}

/// What becomes of a part on the field in a frame.
#[derive(Clone, Copy, Debug, PartialEq, Eq, Structural)]
pub struct Pickup {
    /// The clip to play when the part was collected.
    pub sound: Option<Sound>,
    /// Whether the part is to be removed from the field.
    pub despawn: bool,
}

/// The clip that collecting a part of the given tier plays.
pub open spec fn collect_sound(part_tier: PartTier) -> Sound {
    match part_tier {
        PartTier::Blue => Sound::CollectBlue,
        PartTier::Red => Sound::CollectRed,
        PartTier::Green => Sound::CollectGreen,
    }
}

/// One frame of a part on the field at `now`.
///
/// `touching` tells whether the player's box overlaps the part's. A part that
/// the player touches goes to the base, at the end of its collection, and
/// leaves the field; a part older than its lifetime leaves the field too.
pub fn base_part_collecting(base: &mut Base, part: &Part, touching: bool, now: u64) -> (pickup:
    Pickup)
    ensures
        final(base)@ == if touching {
            old(base)@.collected(*part)
        } else {
            old(base)@
        },
        pickup.sound == if touching {
            Some(collect_sound(part.part_tier))
        } else {
            None
        },
        pickup.despawn == (touching || part.timed_out(now)),
        old(base)@.wf() ==> final(base)@.wf(),
{
    let mut sound: Option<Sound> = None;
    if touching {
        sound = Some(
            match part.part_tier {
                PartTier::Blue => Sound::CollectBlue,
                PartTier::Red => Sound::CollectRed,
                PartTier::Green => Sound::CollectGreen,
            },
        );
        base.collect(*part);
    }
    Pickup { sound, despawn: touching || part.expired(now) }
}

/// What a ram of the player by an enemy comes to.
#[derive(Clone, Copy, Debug, PartialEq, Eq, Structural)]
pub struct PlayerHit {
    /// Whether the enemy struck and is to be removed.
    pub enemy_spent: bool,
    /// Whether the player was knocked out and is to be put at the base.
    pub returned: bool,
}

/// Whether the ram of an enemy of the given health knocks the player out.
pub open spec fn knocked_out(player: Player, enemy_health: i64) -> bool {
    enemy_health > 0 && player.health - enemy_health <= 0
}

/// The player after an enemy of the given health has rammed it: the player
/// loses as much health as the enemy had left and, when knocked out while a
/// base stands, is healed in full. A dead enemy does nothing.
pub open spec fn rammed_player(player: Player, enemy_health: i64, base_present: bool) -> Player {
    if enemy_health <= 0 {
        player
    } else if knocked_out(player, enemy_health) && base_present {
        Player { health: player.max_health, ..player }
    } else {
        Player { health: (player.health - enemy_health) as i64, ..player }
    }
}

/// Resolves the contact of an enemy with the player.
///
/// The enemy is spent on the player. A player whose health falls to zero or
/// below is not lost: while a base stands, the player returns there at full
/// health.
pub fn enemy_hit_player(player: &mut Player, enemy: &Enemy, base_present: bool) -> (hit: PlayerHit)
    requires
        enemy.health > 0 ==> old(player).health - enemy.health >= i64::MIN,
    ensures
        *final(player) == rammed_player(*old(player), enemy.health, base_present),
        hit.enemy_spent == (enemy.health > 0),
        hit.returned == (knocked_out(*old(player), enemy.health) && base_present),
{
    if enemy.health <= 0 {
        return PlayerHit { enemy_spent: false, returned: false };
    }
    player.health = player.health - enemy.health;
    if player.health <= 0 && base_present {
        player.health = player.max_health;
        PlayerHit { enemy_spent: true, returned: true }
    } else {
        PlayerHit { enemy_spent: true, returned: false }
    }
}

} // verus!
