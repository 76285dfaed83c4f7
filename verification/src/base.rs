//! The base: its recipe of parts, its levels, and what reaching one brings.

use vstd::prelude::*;
use crate::chance::{below, is_below, random_bits};
use crate::clock::{elapsed, elapsed_since, whole_seconds, NANOS_PER_SEC};
use crate::enemy::Enemy;
use crate::game::GameOver;
use crate::part::{
    green_red_or_blue, pick_green_red_or_blue, pick_red_or_blue, red_or_blue, Part, PartTier,
};
use crate::player::{BlasterCooldownTimer, Player};
use crate::geometry::Size;
use crate::sound::Sound;
use crate::timer::Timer;

verus! {

/// The largest number of parts a recipe can ask for.
pub const MAX_PARTS_CAP: usize = 8;

/// The defended structure.
#[derive(Debug, PartialEq)]
pub struct Base {
    pub health: i64,
    pub level: i64,
    /// Parts collected towards the current recipe, in the order of collection.
    pub parts: Vec<Part>,
    /// The recipe of the current level.
    pub parts_required: Vec<PartTier>,
    /// Length of the recipes to come.
    pub max_parts: usize,
    /// Set when a level was reached and its effects are still to be applied.
    pub leveled_up: bool,
    pub size: Size,
    /// When the base was built.
    pub instant: u64,
}

/// A base as the contracts see it.
#[verifier::ext_equal]
pub struct BaseView {
    pub health: i64,
    pub level: i64,
    pub parts: Seq<Part>,
    pub parts_required: Seq<PartTier>,
    pub max_parts: usize,
    pub leveled_up: bool,
    pub size: Size,
    /// When the base was built.
    pub instant: u64,
}

impl View for Base {
    type V = BaseView;

    open spec fn view(&self) -> BaseView {
        BaseView {
            health: self.health,
            level: self.level,
            parts: self.parts@,
            parts_required: self.parts_required@,
            max_parts: self.max_parts,
            leveled_up: self.leveled_up,
            size: self.size,
            instant: self.instant,
        }
    }
}

/// What marks a building that the base gains with a level.
#[derive(Clone, Copy, Debug, PartialEq, Eq, Structural)]
pub enum BuildingKind {
    /// An annex without a function of its own.
    BaseBuilding,
    /// A turret, which starts without a target.
    Turret,
}

/// A building to be raised beside the base.
#[derive(Clone, Copy, Debug, PartialEq, Eq, Structural)]
pub struct BuildingSpawn {
    pub kind: BuildingKind,
    /// Offset from the base's centre, in world units.
    pub offset_x: i32,
    pub offset_y: i32,
    /// Scale of the sprite, in percent.
    pub scale_percent: u32,
    /// Number of the building's sprite on the asset sheet.
    pub sprite: u32,
    /// Whether the sprite is turned by half a circle.
    pub half_turn: bool,
}

/// What the engine is to do when a level's effects have been applied.
pub struct LevelUp {
    pub buildings: Vec<BuildingSpawn>,
    pub sound: Sound,
}

/// What a level fixes of the player, the base and the blaster.
pub struct LevelStats {
    pub player_speed: u32,
    pub player_health: i64,
    pub base_health: i64,
    pub base_size: u32,
    /// Period of the blaster, in nanoseconds.
    pub blaster_cooldown: u64,
}

/// The values of levels one to six; a level below one reads as one, a level
/// above six as six.
pub open spec fn stats_at(level: i64) -> LevelStats {
    if level <= 1 {
        LevelStats {
            player_speed: 250,
            player_health: 100,
            base_health: 500,
            base_size: 50,
            blaster_cooldown: 500_000_000,
        }
    } else if level == 2 {
        LevelStats {
            player_speed: 300,
            player_health: 150,
            base_health: 1000,
            base_size: 55,
            blaster_cooldown: 400_000_000,
        }
    } else if level == 3 {
        LevelStats {
            player_speed: 350,
            player_health: 200,
            base_health: 1500,
            base_size: 60,
            blaster_cooldown: 300_000_000,
        }
    } else if level == 4 {
        LevelStats {
            player_speed: 400,
            player_health: 250,
            base_health: 2000,
            base_size: 65,
            blaster_cooldown: 200_000_000,
        }
    } else if level == 5 {
        LevelStats {
            player_speed: 450,
            player_health: 300,
            base_health: 2500,
            base_size: 70,
            blaster_cooldown: 100_000_000,
        }
    } else {
        LevelStats {
            player_speed: 500,
            player_health: 300,
            base_health: 3000,
            base_size: 70,
            blaster_cooldown: 100_000_000,
        }
    }
}

/// The buildings that reaching `level` raises.
pub open spec fn buildings_at(level: i64) -> Seq<BuildingSpawn> {
    if level == 2 {
        seq![
            BuildingSpawn {
                kind: BuildingKind::BaseBuilding,
                offset_x: 34,
                offset_y: 5,
                scale_percent: 20,
                sprite: 1,
                half_turn: false,
            },
        ]
    } else if level == 3 {
        seq![
            BuildingSpawn {
                kind: BuildingKind::BaseBuilding,
                offset_x: -24i32,
                offset_y: -6i32,
                scale_percent: 40,
                sprite: 2,
                half_turn: false,
            },
        ]
    } else if level == 4 {
        seq![
            BuildingSpawn {
                kind: BuildingKind::BaseBuilding,
                offset_x: -15i32,
                offset_y: -25i32,
                scale_percent: 50,
                sprite: 18,
                half_turn: false,
            },
        ]
    } else if level == 5 {
        seq![
            BuildingSpawn {
                kind: BuildingKind::Turret,
                offset_x: 5,
                offset_y: -27i32,
                scale_percent: 30,
                sprite: 20,
                half_turn: true,
            },
        ]
    } else if level == 6 {
        seq![
            BuildingSpawn {
                kind: BuildingKind::Turret,
                offset_x: 15,
                offset_y: 36,
                scale_percent: 30,
                sprite: 20,
                half_turn: false,
            },
            BuildingSpawn {
                kind: BuildingKind::BaseBuilding,
                offset_x: 15,
                offset_y: 30,
                scale_percent: 40,
                sprite: 18,
                half_turn: false,
            },
        ]
    } else {
        Seq::empty()
    }
}

/// The clip that reaching `level` plays.
pub open spec fn level_sound(level: i64) -> Sound {
    if level == 2 {
        Sound::LevelTwo
    } else if level == 3 || level == 4 {
        Sound::LevelThreeFour
    } else if level == 5 {
        Sound::LevelFive
    } else {
        Sound::LevelSix
    }
}

/// The tier that a draw picks for one entry of the recipe of `level`.
///
/// Level one asks for blue only; levels two to four mix in red with odds of
/// 30, 40 and 50 percent; level five asks for green below 30 percent, red from
/// there to 50 percent and blue above; level six for green or red at even
/// odds; every other level for each tier in a third of the draws.
pub open spec fn required_tier(level: i64, draw: u64) -> PartTier {
    if level == 1 {
        PartTier::Blue
    } else if level == 2 {
        red_or_blue(draw, 30)
    } else if level == 3 {
        red_or_blue(draw, 40)
    } else if level == 4 {
        red_or_blue(draw, 50)
    } else if level == 5 {
        green_red_or_blue(draw, 30, 50)
    } else if level == 6 {
        if below(draw, 50, 100) {
            PartTier::Green
        } else {
            PartTier::Red
        }
    } else if below(draw, 1, 3) {
        PartTier::Green
    } else if below(draw, 2, 3) {
        PartTier::Red
    } else {
        PartTier::Blue
    }
}

/// Computes [`required_tier`].
pub fn pick_required_tier(level: i64, draw: u64) -> (tier: PartTier)
    ensures
        tier == required_tier(level, draw),
{
    if level == 1 {
        PartTier::Blue
    } else if level == 2 {
        pick_red_or_blue(draw, 30)
    } else if level == 3 {
        pick_red_or_blue(draw, 40)
    } else if level == 4 {
        pick_red_or_blue(draw, 50)
    } else if level == 5 {
        pick_green_red_or_blue(draw, 30, 50)
    } else if level == 6 {
        if is_below(draw, 50, 100) {
            PartTier::Green
        } else {
            PartTier::Red
        }
    } else if is_below(draw, 1, 3) {
        PartTier::Green
    } else if is_below(draw, 2, 3) {
        PartTier::Red
    } else {
        PartTier::Blue
    }
}

/// The recipe that a sequence of draws makes for `level`, one entry a draw.
pub open spec fn recipe(level: i64, draws: Seq<u64>) -> Seq<PartTier> {
    Seq::new(draws.len(), |i: int| required_tier(level, draws[i]))
}

impl BaseView {
    /// The base as it is built at `now`.
    pub open spec fn initial(now: u64) -> BaseView {
        BaseView {
            health: 500,
            level: 1,
            parts: Seq::empty(),
            parts_required: Seq::empty(),
            max_parts: 3,
            leveled_up: false,
            size: Size::square(50),
            instant: now,
        }
    }

    /// The recipe never asks for more than `max_parts` parts, recipes never
    /// grow beyond [`MAX_PARTS_CAP`], and levels start at one.
    pub open spec fn wf(self) -> bool {
        self.parts_required.len() <= self.max_parts <= MAX_PARTS_CAP && self.level >= 1
    }

    /// Whether a new recipe is due: nothing is asked for and nothing is held.
    pub open spec fn wants_recipe(self) -> bool {
        self.parts.len() == 0 && self.parts_required.len() == 0
    }

    /// The base after one more entry was asked of the recipe; a full recipe
    /// takes none.
    pub open spec fn asked(self, part_tier: PartTier) -> BaseView {
        if self.parts_required.len() >= self.max_parts {
            self
        } else {
            BaseView { parts_required: self.parts_required.push(part_tier), ..self }
        }
    }

    /// The base after a new recipe was drawn where one was due: one entry for
    /// each of the first `max_parts` draws.
    pub open spec fn refilled(self, draws: Seq<u64>) -> BaseView {
        if self.wants_recipe() {
            let count = if draws.len() <= self.max_parts {
                draws.len() as int
            } else {
                self.max_parts as int
            };
            BaseView { parts_required: recipe(self.level, draws.take(count)), ..self }
        } else {
            self
        }
    }

    /// The base after the player has collected `part`.
    pub open spec fn collected(self, part: Part) -> BaseView {
        BaseView { parts: self.parts.push(part), ..self }
    }

    /// Whether some collected part differs from the recipe's entry at its
    /// place.
    pub open spec fn recipe_broken(self) -> bool {
        exists|i: int|
            0 <= i < self.parts.len() && i < self.parts_required.len() && (
            #[trigger] self.parts[i]).part_tier != self.parts_required[i]
    }

    /// Whether the collected parts are the recipe, entry for entry.
    pub open spec fn recipe_complete(self) -> bool {
        &&& self.parts.len() > 0
        &&& self.parts.len() == self.parts_required.len()
        &&& forall|i: int|
            0 <= i < self.parts.len() ==> (#[trigger] self.parts[i]).part_tier
                == self.parts_required[i]
    }

    /// The base with recipe and collection emptied.
    pub open spec fn cleared(self) -> BaseView {
        BaseView { parts: Seq::empty(), parts_required: Seq::empty(), ..self }
    }

    /// The base one level up: recipe and collection emptied, the next recipe
    /// one longer up to [`MAX_PARTS_CAP`], and the level's effects pending.
    pub open spec fn promoted(self) -> BaseView {
        BaseView {
            parts: Seq::empty(),
            parts_required: Seq::empty(),
            max_parts: if self.max_parts < MAX_PARTS_CAP {
                (self.max_parts + 1) as usize
            } else {
                self.max_parts
            },
            level: (self.level + 1) as i64,
            leveled_up: true,
            ..self
        }
    }

    /// The base after its collection was held against the recipe: a wrong
    /// part anywhere discards everything collected and the recipe with it; the
    /// complete recipe raises the level; a correct beginning waits for more.
    pub open spec fn checked(self) -> BaseView {
        if self.recipe_broken() {
            self.cleared()
        } else if self.recipe_complete() {
            self.promoted()
        } else {
            self
        }
    }

    /// The base after the leveling step of one frame.
    pub open spec fn leveled(self, draws: Seq<u64>) -> BaseView {
        self.refilled(draws).checked()
    }

    /// Whether the effects of a level are due.
    pub open spec fn effects_due(self) -> bool {
        self.leveled_up && 2 <= self.level <= 6
    }

    /// The base after the effects of its level were applied where they were
    /// due: the health pool of the level, the size of the level up to level
    /// five, and nothing pending.
    pub open spec fn upgraded(self) -> BaseView {
        if self.effects_due() {
            BaseView {
                health: stats_at(self.level).base_health,
                size: if self.level <= 5 {
                    Size::square(stats_at(self.level).base_size)
                } else {
                    self.size
                },
                leveled_up: false,
                ..self
            }
        } else {
            self
        }
    }

    /// The base after the level was raised by hand.
    pub open spec fn cheated(self) -> BaseView {
        BaseView { level: (self.level + 1) as i64, leveled_up: true, ..self }
    }

    /// Whether an enemy of the given health, ramming the base, does anything:
    /// a fallen base and a dead enemy are past it.
    pub open spec fn rammed_by(self, enemy_health: i64) -> bool {
        self.health > 0 && enemy_health > 0
    }

    /// The base after an enemy of the given health has rammed it.
    pub open spec fn rammed(self, enemy_health: i64) -> BaseView {
        if self.rammed_by(enemy_health) {
            BaseView { health: (self.health - enemy_health) as i64, ..self }
        } else {
            self
        }
    }

    /// The result of the run if the ram of an enemy of the given health at
    /// `now` brings the base down.
    pub open spec fn fall(self, enemy_health: i64, now: u64) -> Option<GameOver> {
        if self.rammed_by(enemy_health) && self.health - enemy_health <= 0 {
            Some(
                GameOver {
                    time_alive: (elapsed_since(now, self.instant) / (NANOS_PER_SEC as nat)) as u64,
                    base_level: self.level,
                },
            )
        } else {
            None
        }
    }
}

/// The player after the effects of the base's level were applied where they
/// were due: speed and health pool of the level, and full health.
pub open spec fn upgraded_player(base: BaseView, player: Player) -> Player {
    if base.effects_due() {
        Player {
            health: stats_at(base.level).player_health,
            max_health: stats_at(base.level).player_health,
            speed: stats_at(base.level).player_speed,
            ..player
        }
    } else {
        player
    }
}

/// The blaster's timer after the effects of the base's level were applied
/// where they were due: up to level five it starts over with the period of the
/// level.
pub open spec fn upgraded_blaster(base: BaseView, timer: Timer) -> Timer {
    if base.effects_due() && base.level <= 5 {
        Timer::fresh(stats_at(base.level).blaster_cooldown)
    } else {
        timer
    }
}

/// What a ram of the base by an enemy comes to.
pub struct BaseHit {
    /// Whether the enemy struck and is to be removed.
    pub enemy_spent: bool,
    /// Set when the ram brought the base down.
    pub game_over: Option<GameOver>,
}

impl Base {
    /// Builds the base at `now`.
    pub fn new(now: u64) -> (base: Base)
        ensures
            base@ == BaseView::initial(now),
            base@.wf(),
    {
        Base {
            health: 500,
            level: 1,
            parts: Vec::new(),
            parts_required: Vec::new(),
            max_parts: 3,
            leveled_up: false,
            size: Size::new(50, 50),
            instant: now,
        }
    }

    /// Asks one more part of the recipe. A recipe that already has
    /// `max_parts` entries takes none and the call fails.
    pub fn push_part_required(&mut self, part_tier: PartTier) -> (pushed: Result<(), ()>)
        ensures
            final(self)@ == old(self)@.asked(part_tier),
            pushed is Ok <==> old(self)@.parts_required.len() < old(self)@.max_parts,
            old(self)@.wf() ==> final(self)@.wf(),
    {
        if self.parts_required.len() >= self.max_parts {
            Err(())
        } else {
            self.parts_required.push(part_tier);
            Ok(())
        }
    }

    /// Takes a collected part into the base.
    pub fn collect(&mut self, part: Part)
        ensures
            final(self)@ == old(self)@.collected(part),
            old(self)@.wf() ==> final(self)@.wf(),
    {
        self.parts.push(part);
    }

    /// Draws a new recipe where one is due, one entry for each of the first
    /// `max_parts` draws.
    pub fn refill_recipe(&mut self, draws: &Vec<u64>)
        ensures
            final(self)@ == old(self)@.refilled(draws@),
            old(self)@.wf() ==> final(self)@.wf(),
    {
        if self.parts.len() == 0 && self.parts_required.len() == 0 {
            let mut i: usize = 0;
            while i < self.max_parts && i < draws.len()
                invariant
                    i <= self.max_parts,
                    i <= draws.len(),
                    self@ == (BaseView {
                        parts_required: recipe(old(self).level, draws@.take(i as int)),
                        ..old(self)@
                    }),
                decreases draws.len() - i,
            {
                let tier = pick_required_tier(self.level, draws[i]);
                let _ = self.push_part_required(tier);
                proof {
                    let before = draws@.take(i as int);
                    let after = draws@.take(i + 1);
                    assert(recipe(old(self).level, after) =~= recipe(
                        old(self).level,
                        before,
                    ).push(tier));
                }
                i += 1;
            }
        }
    }

    /// Holds the collection against the recipe and settles it as
    /// [`BaseView::checked`] says.
    pub fn check_recipe(&mut self)
        requires
            old(self).level < i64::MAX,
        ensures
            final(self)@ == old(self)@.checked(),
            old(self)@.wf() ==> final(self)@.wf(),
    {
        let held: usize = self.parts.len();
        let asked: usize = self.parts_required.len();
        let both: usize = if held <= asked {
            held
        } else {
            asked
        };
        let mut i: usize = 0;
        let mut broken = false;
        while i < both
            invariant_except_break
                !broken,
                forall|j: int|
                    0 <= j < i ==> (#[trigger] self.parts@[j]).part_tier
                        == self.parts_required@[j],
            invariant
                i <= both,
                both <= self.parts.len(),
                both <= self.parts_required.len(),
                *self == *old(self),
            ensures
                broken ==> self@.recipe_broken(),
                !broken ==> i == both && (forall|j: int|
                    0 <= j < both ==> (#[trigger] self.parts@[j]).part_tier
                        == self.parts_required@[j]),
                *self == *old(self),
            decreases both - i,
        {
            if self.parts[i].part_tier != self.parts_required[i] {
                broken = true;
                break ;
            }
            i += 1;
        }
        if broken {
            self.parts.clear();
            self.parts_required.clear();
        } else if held == asked && held > 0 {
            assert(old(self)@.recipe_complete());
            self.parts.clear();
            self.parts_required.clear();
            if self.max_parts < MAX_PARTS_CAP {
                self.max_parts += 1;
            }
            self.level += 1;
            self.leveled_up = true;
        } else {
            assert(!old(self)@.recipe_complete());
        }
    }

    /// The leveling step of one frame for given draws: a new recipe where one
    /// is due, then the check of the collection against the recipe.
    pub fn base_leveling_with(&mut self, draws: &Vec<u64>)
        requires
            old(self).level < i64::MAX,
        ensures
            final(self)@ == old(self)@.leveled(draws@),
            old(self)@.wf() ==> final(self)@.wf(),
    {
        self.refill_recipe(draws);
        self.check_recipe();
    }
}

/// The leveling step of one frame, with a draw of its own for each entry of a
/// new recipe.
pub fn base_leveling(base: &mut Base)
    requires
        old(base).level < i64::MAX,
    ensures
        exists|draws: Seq<u64>|
            draws.len() == old(base).max_parts && final(base)@ == #[trigger] old(base)@.leveled(
                draws,
            ),
        old(base)@.wf() ==> final(base)@.wf(),
{
    let mut draws: Vec<u64> = Vec::new();
    let mut i: usize = 0;
    while i < base.max_parts
        invariant
            i <= base.max_parts,
            draws.len() == i,
            *base == *old(base),
        decreases base.max_parts - i,
    {
        draws.push(random_bits());
        i += 1;
    }
    base.base_leveling_with(&draws);
}

/// Applies the effects of the base's level where they are due: once after the
/// base has reached one of the levels two to six.
///
/// The player gets the speed and health pool of the level and is healed, the
/// base gets its health pool and, up to level five, its size, and the blaster
/// starts over with the period of the level, also up to level five. The result
/// names the buildings to raise and the clip to play; it is `None` when no
/// effects were due, and then nothing has changed.
pub fn base_levels(base: &mut Base, player: &mut Player, blaster_timer: &mut BlasterCooldownTimer) -> (raised:
    Option<LevelUp>)
    ensures
        final(base)@ == old(base)@.upgraded(),
        *final(player) == upgraded_player(old(base)@, *old(player)),
        final(blaster_timer).timer == upgraded_blaster(old(base)@, old(blaster_timer).timer),
        raised is Some == old(base)@.effects_due(),
        old(base)@.wf() ==> final(base)@.wf(),
        raised matches Some(up) ==> up.buildings@ == buildings_at(old(base).level) && up.sound
            == level_sound(old(base).level),
{
    if !base.leveled_up || base.level < 2 || base.level > 6 {
        return None;
    }
    let mut buildings: Vec<BuildingSpawn> = Vec::new();
    let sound: Sound;
    if base.level == 2 {
        buildings.push(
            BuildingSpawn {
                kind: BuildingKind::BaseBuilding,
                offset_x: 34,
                offset_y: 5,
                scale_percent: 20,
                sprite: 1,
                half_turn: false,
            },
        );
        sound = Sound::LevelTwo;
        blaster_timer.set_cooldown(400_000_000);
        player.speed = 300;
        player.max_health = 150;
        player.health = 150;
        base.health = 1000;
        base.size = Size::new(55, 55);
    } else if base.level == 3 {
        buildings.push(
            BuildingSpawn {
                kind: BuildingKind::BaseBuilding,
                offset_x: -24,
                offset_y: -6,
                scale_percent: 40,
                sprite: 2,
                half_turn: false,
            },
        );
        sound = Sound::LevelThreeFour;
        blaster_timer.set_cooldown(300_000_000);
        player.speed = 350;
        player.max_health = 200;
        player.health = 200;
        base.health = 1500;
        base.size = Size::new(60, 60);
    } else if base.level == 4 {
        buildings.push(
            BuildingSpawn {
                kind: BuildingKind::BaseBuilding,
                offset_x: -15,
                offset_y: -25,
                scale_percent: 50,
                sprite: 18,
                half_turn: false,
            },
        );
        sound = Sound::LevelThreeFour;
        blaster_timer.set_cooldown(200_000_000);
        player.speed = 400;
        player.max_health = 250;
        player.health = 250;
        base.health = 2000;
        base.size = Size::new(65, 65);
    } else if base.level == 5 {
        buildings.push(
            BuildingSpawn {
                kind: BuildingKind::Turret,
                offset_x: 5,
                offset_y: -27,
                scale_percent: 30,
                sprite: 20,
                half_turn: true,
            },
        );
        sound = Sound::LevelFive;
        blaster_timer.set_cooldown(100_000_000);
        player.speed = 450;
        player.max_health = 300;
        player.health = 300;
        base.health = 2500;
        base.size = Size::new(70, 70);
    } else {
        buildings.push(
            BuildingSpawn {
                kind: BuildingKind::Turret,
                offset_x: 15,
                offset_y: 36,
                scale_percent: 30,
                sprite: 20,
                half_turn: false,
            },
        );
        buildings.push(
            BuildingSpawn {
                kind: BuildingKind::BaseBuilding,
                offset_x: 15,
                offset_y: 30,
                scale_percent: 40,
                sprite: 18,
                half_turn: false,
            },
        );
        sound = Sound::LevelSix;
        player.speed = 500;
        player.max_health = 300;
        player.health = 300;
        base.health = 3000;
    }
    base.leveled_up = false;
    assert(buildings@ =~= buildings_at(old(base).level));
    Some(LevelUp { buildings, sound })
}

/// Raises the level by hand when the cheat key was pressed in this frame; the
/// effects of the new level are then pending as after a completed recipe.
pub fn cheat_leveling(base: &mut Base, pressed: bool)
    requires
        old(base).level < i64::MAX,
    ensures
        final(base)@ == if pressed {
            old(base)@.cheated()
        } else {
            old(base)@
        },
        old(base)@.wf() ==> final(base)@.wf(),
{
    if pressed {
        base.level += 1;
        base.leveled_up = true;
    }
}

/// Resolves the contact of an enemy with the base at `now`.
///
/// The enemy is spent on the base, which loses as much health as the enemy had
/// left; where that brings the base to zero or below, the run is over and the
/// result carries its score. A base that has already fallen and an enemy that
/// is already dead do nothing to each other.
pub fn enemy_hit_base(base: &mut Base, enemy: &Enemy, now: u64) -> (hit: BaseHit)
    ensures
        final(base)@ == old(base)@.rammed(enemy.health),
        hit.enemy_spent == old(base)@.rammed_by(enemy.health),
        hit.game_over == old(base)@.fall(enemy.health, now),
        old(base)@.wf() ==> final(base)@.wf(),
{
    if base.health <= 0 || enemy.health <= 0 {
        return BaseHit { enemy_spent: false, game_over: None };
    }
    base.health = base.health - enemy.health;
    if base.health <= 0 {
        let time_alive: u64 = whole_seconds(elapsed(now, base.instant));
        BaseHit {
            enemy_spent: true,
            game_over: Some(GameOver { time_alive, base_level: base.level }),
        }
    } else {
        BaseHit { enemy_spent: true, game_over: None }
    }
}

/// The base after the player has collected `pickups` one by one, the
/// collection being held against the recipe after each.
pub open spec fn after_pickups(base: BaseView, pickups: Seq<Part>) -> BaseView
    decreases pickups.len(),
{
    if pickups.len() == 0 {
        base
    } else {
        after_pickups(base, pickups.drop_last()).collected(pickups.last()).checked()
    }
}

/// Whether the first `count` of `pickups` are what the recipe asks for at
/// their places.
pub open spec fn pickups_match(base: BaseView, pickups: Seq<Part>, count: int) -> bool {
    forall|i: int|
        0 <= i < count ==> (#[trigger] pickups[i]).part_tier == base.parts_required[i]
}

/// While the pickups follow the recipe and fall short of it, the base only
/// holds them.
proof fn matching_pickups_are_held(base: BaseView, pickups: Seq<Part>)
    requires
        base.parts.len() == 0,
        pickups.len() < base.parts_required.len(),
        pickups_match(base, pickups, pickups.len() as int),
    ensures
        after_pickups(base, pickups) == (BaseView { parts: pickups, ..base }),
    decreases pickups.len(),
{
    if pickups.len() == 0 {
        assert(base.parts =~= pickups);
    } else {
        let earlier = pickups.drop_last();
        assert(pickups_match(base, earlier, earlier.len() as int)) by {
            assert forall|i: int| 0 <= i < earlier.len() implies (#[trigger] earlier[i]).part_tier
                == base.parts_required[i] by {
                assert(earlier[i] == pickups[i]);
            }
        }
        matching_pickups_are_held(base, earlier);
        let held = (BaseView { parts: earlier, ..base }).collected(pickups.last());
        assert(held.parts =~= pickups);
        assert(!held.recipe_broken());
        assert(!held.recipe_complete());
    }
}

/// Pickups that are the recipe, entry for entry, raise the level exactly once:
/// with the last of them the level goes up by one, the next recipe grows by one
/// entry up to [`MAX_PARTS_CAP`], recipe and collection are empty and the
/// level's effects are pending; before the last, the level has not moved.
pub proof fn exact_pickups_level_up_once(base: BaseView, pickups: Seq<Part>)
    requires
        base.level < i64::MAX,
        base.parts.len() == 0,
        base.parts_required.len() > 0,
        pickups.len() == base.parts_required.len(),
        pickups_match(base, pickups, pickups.len() as int),
    ensures
        after_pickups(base, pickups) == base.promoted(),
        base.promoted().level == base.level + 1,
        base.promoted().max_parts == if base.max_parts < MAX_PARTS_CAP {
            base.max_parts + 1
        } else {
            base.max_parts as int
        },
        base.promoted().parts.len() == 0,
        base.promoted().parts_required.len() == 0,
        base.promoted().leveled_up,
        forall|count: int|
            0 <= count < pickups.len() ==> (#[trigger] after_pickups(
                base,
                pickups.take(count),
            )).level == base.level,
{
    let earlier = pickups.drop_last();
    assert(pickups_match(base, earlier, earlier.len() as int)) by {
        assert forall|i: int| 0 <= i < earlier.len() implies (#[trigger] earlier[i]).part_tier
            == base.parts_required[i] by {
            assert(earlier[i] == pickups[i]);
        }
    }
    matching_pickups_are_held(base, earlier);
    let held = (BaseView { parts: earlier, ..base }).collected(pickups.last());
    assert(held.parts =~= pickups);
    assert(!held.recipe_broken());
    assert(held.recipe_complete());
    assert(held.promoted() == base.promoted());
    assert forall|count: int| 0 <= count < pickups.len() implies (#[trigger] after_pickups(
        base,
        pickups.take(count),
    )).level == base.level by {
        let some = pickups.take(count);
        assert(pickups_match(base, some, some.len() as int)) by {
            assert forall|i: int| 0 <= i < some.len() implies (#[trigger] some[i]).part_tier
                == base.parts_required[i] by {
                assert(some[i] == pickups[i]);
            }
        }
        matching_pickups_are_held(base, some);
    }
}

/// A single pickup out of order discards everything: where the pickups follow
/// the recipe up to some place and the next one does not, recipe and
/// collection are empty after it and the level, the length of the recipes to
/// come and the pending effects are as they were.
pub proof fn wrong_pickup_clears(base: BaseView, pickups: Seq<Part>)
    requires
        base.parts.len() == 0,
        0 < pickups.len() <= base.parts_required.len(),
        pickups_match(base, pickups, pickups.len() - 1),
        pickups.last().part_tier != base.parts_required[pickups.len() - 1],
    ensures
        after_pickups(base, pickups) == base.cleared(),
        base.cleared().level == base.level,
        base.cleared().max_parts == base.max_parts,
        base.cleared().leveled_up == base.leveled_up,
        base.cleared().parts.len() == 0,
        base.cleared().parts_required.len() == 0,
{
    let earlier = pickups.drop_last();
    assert(pickups_match(base, earlier, earlier.len() as int)) by {
        assert forall|i: int| 0 <= i < earlier.len() implies (#[trigger] earlier[i]).part_tier
            == base.parts_required[i] by {
            assert(earlier[i] == pickups[i]);
        }
    }
    matching_pickups_are_held(base, earlier);
    let held = (BaseView { parts: earlier, ..base }).collected(pickups.last());
    assert(held.parts =~= pickups);
    assert(held.parts[pickups.len() - 1].part_tier != held.parts_required[pickups.len() - 1]);
    assert(held.recipe_broken());
    assert(held.cleared() == base.cleared());
}

/// A session starts with the values of level one.
pub proof fn new_session_has_level_one_values(now: u64)
    ensures
        Player::initial().health == stats_at(1).player_health,
        Player::initial().max_health == stats_at(1).player_health,
        Player::initial().speed == stats_at(1).player_speed,
        BaseView::initial(now).health == stats_at(1).base_health,
        BaseView::initial(now).size == Size::square(stats_at(1).base_size),
        Timer::fresh(crate::player::BLASTER_COOLDOWN).duration == stats_at(1).blaster_cooldown,
{
}

/// Once the effects of a level from two to six are applied, the player is at
/// full health with the health pool and speed of the level, the base has the
/// health pool of the level, and the blaster has the period of the level.
///
/// Level six leaves the blaster and the size of the base as level five set
/// them, so for level six the last two hold of a base that came by level five.
pub proof fn level_up_installs_level_values(base: BaseView, player: Player, timer: Timer)
    requires
        base.effects_due(),
        base.level == 6 ==> timer.duration == stats_at(5).blaster_cooldown && base.size
            == Size::square(stats_at(5).base_size),
    ensures
        upgraded_player(base, player).health == stats_at(base.level).player_health,
        upgraded_player(base, player).max_health == stats_at(base.level).player_health,
        upgraded_player(base, player).speed == stats_at(base.level).player_speed,
        base.upgraded().health == stats_at(base.level).base_health,
        base.upgraded().size == Size::square(stats_at(base.level).base_size),
        upgraded_blaster(base, timer).duration == stats_at(base.level).blaster_cooldown,
        !base.upgraded().leveled_up,
{
}

/// A base falls once: after a ram has brought it down, no further ram changes
/// it or ends the run again.
pub proof fn base_falls_once(base: BaseView, first: i64, second: i64, now: u64, later: u64)
    requires
        base.fall(first, now) is Some,
    ensures
        base.rammed(first).fall(second, later) is None,
        base.rammed(first).rammed(second) == base.rammed(first),
{
}

} // verus!
