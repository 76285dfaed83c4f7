//! The wave director: which enemies come, how many, and where from.

use vstd::prelude::*;
use crate::chance::{draw_range, random_bits};
use crate::enemy::{Enemy, EnemyType};
use crate::geometry::{Field, Point, Size, THOUSANDTHS};
use crate::timer::Timer;

verus! {

/// Time between two waves, in nanoseconds.
pub const WAVE_COOLDOWN: u64 = 15_000_000_000;

/// How far outside the play area enemies appear, in world units.
pub const SPAWN_MARGIN: u32 = 20;

/// How many of the unlocked variants, counted from the oldest, take part in
/// the selection.
pub const RANKED_VARIANTS: usize = 4;

/// The state of the wave director.
pub struct WaveTimer {
    pub timer: Timer,
    /// Number of the last wave released.
    pub wave: usize,
    /// One less than the number of enemies in a wave.
    pub enemy_count: i32,
    /// The unlocked variants, oldest first.
    pub variants: Vec<EnemyType>,
}

/// The wave director as the contracts see it.
#[verifier::ext_equal]
pub struct WaveView {
    pub timer: Timer,
    pub wave: usize,
    pub enemy_count: i32,
    pub variants: Seq<EnemyType>,
}

impl View for WaveTimer {
    type V = WaveView;

    open spec fn view(&self) -> WaveView {
        WaveView {
            timer: self.timer,
            wave: self.wave,
            enemy_count: self.enemy_count,
            variants: self.variants@,
        }
    }
}

/// A weight of the selection, as a fraction.
#[derive(Clone, Copy, Debug, PartialEq, Eq, Structural)]
pub struct Probability {
    pub numerator: u64,
    pub denominator: u64,
}

/// An edge of the play area.
#[derive(Clone, Copy, Debug, PartialEq, Eq, Structural)]
pub enum Edge {
    /// The edge at `y = -SPAWN_MARGIN`.
    Top,
    /// The edge at `y = height + SPAWN_MARGIN`.
    Bottom,
    /// The edge at `x = -SPAWN_MARGIN`.
    Left,
    /// The edge at `x = width + SPAWN_MARGIN`.
    Right,
}

/// The three draws that place and pick one enemy of a wave.
#[derive(Clone, Copy, Debug, PartialEq, Eq, Structural)]
pub struct SpawnDraws {
    /// Picks the edge.
    pub side: u64,
    /// Picks the place along the edge.
    pub along: u64,
    /// Picks the variant.
    pub pick: u64,
}

/// An enemy to be put on the field.
#[derive(Clone, Copy, Debug, PartialEq, Eq, Structural)]
pub struct Spawn {
    pub enemy: Enemy,
    /// Where it appears.
    pub place: Point,
}

/// The pool of the splitter as a variant: a template whose state is replaced
/// when an enemy is made from it.
pub open spec fn splitter_template() -> EnemyType {
    EnemyType::Splitter { split_count: 0, instant: 0 }
}

/// How many variants take part in the selection from a pool of `elements`.
pub open spec fn ranked(elements: nat) -> nat {
    if elements <= RANKED_VARIANTS {
        elements
    } else {
        RANKED_VARIANTS as nat
    }
}

/// The sum of the ranks of `ranks` ranked variants, `ranks * (ranks + 1) / 2`.
pub open spec fn rank_total(ranks: nat) -> nat {
    ranks * (ranks + 1) / 2
}

/// The weights of the selection from a pool of `elements`: the variant at
/// place `i` among the `n` ranked ones has weight `(n - i) / (n (n + 1) / 2)`.
pub open spec fn probabilities(elements: nat) -> Seq<Probability> {
    Seq::new(
        ranked(elements),
        |i: int|
            Probability {
                numerator: (ranked(elements) - i) as u64,
                denominator: rank_total(ranked(elements)) as u64,
            },
    )
}

/// The numerators of the first `count` weights among `ranks`, added up.
pub open spec fn cumulative(ranks: nat, count: nat) -> nat
    decreases count,
{
    if count == 0 {
        0
    } else {
        (cumulative(ranks, (count - 1) as nat) + ranks - (count - 1)) as nat
    }
}

/// Whether the draw lies below the weights of the first `count` variants
/// together.
pub open spec fn within(ranks: nat, draw: u64, count: nat) -> bool {
    draw * rank_total(ranks) < cumulative(ranks, count) * draw_range()
}

/// The place of the first variant, from `from` on, whose weight together with
/// those before it exceeds the draw.
pub open spec fn first_within(ranks: nat, draw: u64, from: nat) -> nat
    decreases ranks - from,
{
    if from >= ranks || within(ranks, draw, from + 1) {
        from
    } else {
        first_within(ranks, draw, from + 1)
    }
}

/// The place in a pool of `elements` that the draw selects; none in an empty
/// pool.
pub open spec fn selected(elements: nat, draw: u64) -> Option<nat> {
    if elements == 0 {
        None
    } else {
        Some(first_within(ranked(elements), draw, 0))
    }
}

/// The edge that a draw picks, each with equal odds.
pub open spec fn edge_for(side: u64) -> Edge {
    if side % 4 == 0 {
        Edge::Top
    } else if side % 4 == 1 {
        Edge::Bottom
    } else if side % 4 == 2 {
        Edge::Left
    } else {
        Edge::Right
    }
}

/// The part of a length that a draw picks: `length * along / 2^64`, rounded
/// down.
pub open spec fn part_of(length: u32, along: u64) -> int {
    length * along / draw_range()
}

/// The place that two draws pick for an enemy: somewhere along one edge of the
/// play area, [`SPAWN_MARGIN`] outside it.
pub open spec fn place_for(field: Field, side: u64, along: u64) -> Point {
    match edge_for(side) {
        Edge::Top => Point {
            x: part_of(field.width, along) as i64,
            y: (-(SPAWN_MARGIN * THOUSANDTHS)) as i64,
        },
        Edge::Bottom => Point {
            x: part_of(field.width, along) as i64,
            y: (field.height + SPAWN_MARGIN * THOUSANDTHS) as i64,
        },
        Edge::Left => Point {
            x: (-(SPAWN_MARGIN * THOUSANDTHS)) as i64,
            y: part_of(field.height, along) as i64,
        },
        Edge::Right => Point {
            x: (field.width + SPAWN_MARGIN * THOUSANDTHS) as i64,
            y: part_of(field.height, along) as i64,
        },
    }
}

/// The enemy that a wave makes of a variant at `now`; neonates do not come in
/// waves.
pub open spec fn recruit(variant: EnemyType, now: u64) -> Option<Enemy> {
    match variant {
        EnemyType::Pawn => Some(
            Enemy { health: 50, variant: EnemyType::Pawn, speed: 25, size: Size::square(10) },
        ),
        EnemyType::Stinger => Some(
            Enemy { health: 50, variant: EnemyType::Stinger, speed: 40, size: Size::square(10) },
        ),
        EnemyType::Splitter { .. } => Some(
            Enemy {
                health: 100,
                variant: EnemyType::Splitter { split_count: 0, instant: now },
                speed: 20,
                size: Size::square(15),
            },
        ),
        EnemyType::Rogue => Some(
            Enemy { health: 200, variant: EnemyType::Rogue, speed: 25, size: Size::square(15) },
        ),
        EnemyType::Bishop => Some(
            Enemy { health: 300, variant: EnemyType::Bishop, speed: 15, size: Size::square(20) },
        ),
        EnemyType::Propagator => Some(
            Enemy {
                health: 500,
                variant: EnemyType::Propagator,
                speed: 5,
                size: Size::square(25),
            },
        ),
        EnemyType::Neonate(_) => None,
    }
}

/// The enemy that three draws make of a pool at `now`; none where the pool is
/// empty or the variant selected does not come in waves.
pub open spec fn planned(pool: Seq<EnemyType>, field: Field, draws: SpawnDraws, now: u64) -> Option<
    Spawn,
> {
    match selected(pool.len(), draws.pick) {
        Some(place) => match recruit(pool[place as int], now) {
            Some(enemy) => Some(Spawn { enemy, place: place_for(field, draws.side, draws.along) }),
            None => None,
        },
        None => None,
    }
}

/// The enemies of a wave, one for each triple of draws in turn; the wave ends
/// early at the first triple that makes none.
pub open spec fn wave_spawns(
    pool: Seq<EnemyType>,
    field: Field,
    draws: Seq<SpawnDraws>,
    now: u64,
) -> Seq<Spawn>
    decreases draws.len(),
{
    if draws.len() == 0 {
        Seq::empty()
    } else {
        match planned(pool, field, draws[0], now) {
            Some(spawn) => seq![spawn] + wave_spawns(pool, field, draws.skip(1), now),
            None => Seq::empty(),
        }
    }
}

/// The number of enemies in a wave: one more than `enemy_count`, none where
/// that is negative.
pub open spec fn wave_size(enemy_count: i32) -> nat {
    if enemy_count >= 0 {
        (enemy_count + 1) as nat
    } else {
        0
    }
}

/// `enemy_count` once wave `wave` is released.
pub open spec fn enemy_count_at(wave: nat) -> i32 {
    if wave == 0 {
        5
    } else if wave == 6 {
        6
    } else if wave == 15 {
        7
    } else if wave == 20 {
        8
    } else if wave == 25 {
        9
    } else if wave == 30 {
        10
    } else {
        11
    }
}

/// The unlocked variants once wave `wave` is released.
pub open spec fn pool_at(wave: nat) -> Seq<EnemyType> {
    if wave < 6 {
        seq![EnemyType::Pawn]
    } else if wave < 15 {
        seq![EnemyType::Pawn, EnemyType::Stinger]
    } else if wave < 20 {
        seq![EnemyType::Pawn, EnemyType::Stinger, EnemyType::Rogue]
    } else if wave < 25 {
        seq![EnemyType::Pawn, EnemyType::Stinger, EnemyType::Rogue, splitter_template()]
    } else if wave < 30 {
        seq![EnemyType::Stinger, EnemyType::Rogue, splitter_template(), EnemyType::Bishop]
    } else {
        seq![EnemyType::Rogue, splitter_template(), EnemyType::Bishop, EnemyType::Propagator]
    }
}

/// A pool without its oldest variant.
pub open spec fn without_oldest(pool: Seq<EnemyType>) -> Seq<EnemyType> {
    if pool.len() > 0 {
        pool.remove(0)
    } else {
        pool
    }
}

impl WaveView {
    /// The wave director as a session starts.
    pub open spec fn initial() -> WaveView {
        WaveView {
            timer: Timer::fresh(WAVE_COOLDOWN),
            wave: 0,
            enemy_count: 5,
            variants: seq![EnemyType::Pawn],
        }
    }

    /// The wave director after the next wave is released: waves 6, 15, 20, 25
    /// and 30 each unlock a variant and set their own `enemy_count`, waves 25
    /// and 30 also retire the oldest variant, and every other wave sets
    /// `enemy_count` to 11.
    pub open spec fn advanced(self) -> WaveView {
        let wave = self.wave + 1;
        if wave == 6 {
            WaveView {
                wave: wave as usize,
                enemy_count: 6,
                variants: self.variants.push(EnemyType::Stinger),
                ..self
            }
        } else if wave == 15 {
            WaveView {
                wave: wave as usize,
                enemy_count: 7,
                variants: self.variants.push(EnemyType::Rogue),
                ..self
            }
        } else if wave == 20 {
            WaveView {
                wave: wave as usize,
                enemy_count: 8,
                variants: self.variants.push(splitter_template()),
                ..self
            }
        } else if wave == 25 {
            WaveView {
                wave: wave as usize,
                enemy_count: 9,
                variants: without_oldest(self.variants).push(EnemyType::Bishop),
                ..self
            }
        } else if wave == 30 {
            WaveView {
                wave: wave as usize,
                enemy_count: 10,
                variants: without_oldest(self.variants).push(EnemyType::Propagator),
                ..self
            }
        } else {
            WaveView { wave: wave as usize, enemy_count: 11, ..self }
        }
    }

    /// Whether pool and `enemy_count` are those of the wave last released.
    pub open spec fn on_schedule(self) -> bool {
        self.variants == pool_at(self.wave as nat) && self.enemy_count == enemy_count_at(
            self.wave as nat,
        )
    }
}

impl Default for WaveTimer {
    fn default() -> (it: WaveTimer)
        ensures
            it@ == WaveView::initial(),
    {
        let mut variants: Vec<EnemyType> = Vec::new();
        variants.push(EnemyType::Pawn);
        assert(variants@ =~= seq![EnemyType::Pawn]);
        WaveTimer { timer: Timer::new(WAVE_COOLDOWN), wave: 0, enemy_count: 5, variants }
    }
}

impl WaveTimer {
    /// Releases the next wave: see [`WaveView::advanced`].
    pub fn advance(&mut self)
        requires
            old(self).wave < usize::MAX,
        ensures
            final(self)@ == old(self)@.advanced(),
    {
        self.wave += 1;
        if self.wave == 6 {
            self.enemy_count = 6;
            self.variants.push(EnemyType::Stinger);
        } else if self.wave == 15 {
            self.enemy_count = 7;
            self.variants.push(EnemyType::Rogue);
        } else if self.wave == 20 {
            self.enemy_count = 8;
            self.variants.push(EnemyType::Splitter { split_count: 0, instant: 0 });
        } else if self.wave == 25 {
            self.enemy_count = 9;
            if self.variants.len() > 0 {
                self.variants.remove(0);
            }
            self.variants.push(EnemyType::Bishop);
        } else if self.wave == 30 {
            self.enemy_count = 10;
            if self.variants.len() > 0 {
                self.variants.remove(0);
            }
            self.variants.push(EnemyType::Propagator);
        } else {
            self.enemy_count = 11;
        }
    }
}

/// The sum of the ranks of up to four variants, case by case.
proof fn rank_total_of_ranked(elements: nat)
    ensures
        ranked(elements) <= 4,
        ranked(elements) == 0 ==> rank_total(ranked(elements)) == 0,
        ranked(elements) == 1 ==> rank_total(ranked(elements)) == 1,
        ranked(elements) == 2 ==> rank_total(ranked(elements)) == 3,
        ranked(elements) == 3 ==> rank_total(ranked(elements)) == 6,
        ranked(elements) == 4 ==> rank_total(ranked(elements)) == 10,
        cumulative(ranked(elements), ranked(elements)) == rank_total(ranked(elements)),
{
    let ranks = ranked(elements);
    reveal_with_fuel(cumulative, 5);
    if ranks == 0 {
    } else if ranks == 1 {
    } else if ranks == 2 {
    } else if ranks == 3 {
    } else {
    }
}

/// The numerators of a sequence of weights, added up.
pub open spec fn numerator_sum(weights: Seq<Probability>) -> int
    decreases weights.len(),
{
    if weights.len() == 0 {
        0
    } else {
        numerator_sum(weights.drop_last()) + weights.last().numerator
    }
}

/// The weights of a selection add up to one: they share one denominator (1, 3,
/// 6 or 10 for one to four ranked variants), and their numerators add up to
/// it. They fall strictly from each place to the next, and the weight at place
/// `i` among `n` is `(n - i) / (n (n + 1) / 2)`.
pub proof fn probabilities_are_triangular(elements: nat)
    ensures
        probabilities(elements).len() == ranked(elements),
        numerator_sum(probabilities(elements)) == rank_total(ranked(elements)),
        rank_total(ranked(elements)) == if ranked(elements) == 0 {
            0int
        } else if ranked(elements) == 1 {
            1int
        } else if ranked(elements) == 2 {
            3int
        } else if ranked(elements) == 3 {
            6int
        } else {
            10int
        },
        forall|count: nat|
            count <= ranked(elements) ==> numerator_sum(
                #[trigger] probabilities(elements).take(count as int),
            ) == cumulative(ranked(elements), count),
        forall|i: int|
            0 <= i < ranked(elements) ==> {
                &&& (#[trigger] probabilities(elements)[i]).numerator == ranked(elements) - i
                &&& probabilities(elements)[i].denominator == rank_total(ranked(elements))
            },
        forall|i: int, j: int|
            0 <= i < j < ranked(elements) ==> (#[trigger] probabilities(elements)[i]).numerator > (
            #[trigger] probabilities(elements)[j]).numerator,
{
    rank_total_of_ranked(elements);
    let weights = probabilities(elements);
    assert forall|count: nat| count <= ranked(elements) implies numerator_sum(
        #[trigger] weights.take(count as int),
    ) == cumulative(ranked(elements), count) by {
        partial_sums_are_cumulative(elements, count);
    }
    assert(weights.take(ranked(elements) as int) =~= weights);
}

/// The numerators of the first `count` weights add up to what [`cumulative`]
/// gives.
proof fn partial_sums_are_cumulative(elements: nat, count: nat)
    requires
        count <= ranked(elements),
    ensures
        numerator_sum(probabilities(elements).take(count as int)) == cumulative(
            ranked(elements),
            count,
        ),
    decreases count,
{
    let weights = probabilities(elements);
    if count > 0 {
        partial_sums_are_cumulative(elements, (count - 1) as nat);
        assert(weights.take(count as int).drop_last() =~= weights.take(count - 1));
        assert(weights.take(count as int).last() == weights[count - 1]);
        rank_total_of_ranked(elements);
    }
}

/// A draw always selects a variant of a pool that has one, and among the
/// ranked ones: the place selected is the one whose share of the unit interval
/// holds the draw.
pub proof fn selection_is_total(elements: nat, draw: u64)
    requires
        elements > 0,
    ensures
        selected(elements, draw) matches Some(place) && place < ranked(elements) && place
            < elements && within(ranked(elements), draw, place + 1) && !within(
            ranked(elements),
            draw,
            place,
        ),
{
    let ranks = ranked(elements);
    rank_total_of_ranked(elements);
    assert(within(ranks, draw, ranks)) by {
        assert(draw * rank_total(ranks) < rank_total(ranks) * draw_range()) by (nonlinear_arith)
            requires
                rank_total(ranks) > 0,
                draw < draw_range(),
        ;
    }
    assert(!within(ranks, draw, 0)) by {
        assert(draw * rank_total(ranks) >= 0) by (nonlinear_arith)
            requires
                draw >= 0,
                rank_total(ranks) >= 0,
        ;
    }
    first_within_is_first(ranks, draw, 0);
}

/// From a place below which the draw is not yet covered, the walk ends at a
/// ranked place, covered there and not before.
proof fn first_within_is_first(ranks: nat, draw: u64, from: nat)
    requires
        from < ranks,
        within(ranks, draw, ranks),
        !within(ranks, draw, from),
    ensures
        first_within(ranks, draw, from) < ranks,
        within(ranks, draw, first_within(ranks, draw, from) + 1),
        !within(ranks, draw, first_within(ranks, draw, from)),
    decreases ranks - from,
{
    if !within(ranks, draw, from + 1) {
        first_within_is_first(ranks, draw, from + 1);
    }
}

/// The weights of the selection from a pool of `elements` variants.
pub fn calculate_probabilities(elements: usize) -> (probs: Vec<Probability>)
    ensures
        probs@ == probabilities(elements as nat),
{
    let ranks: u64 = if elements <= RANKED_VARIANTS {
        elements as u64
    } else {
        RANKED_VARIANTS as u64
    };
    proof {
        rank_total_of_ranked(elements as nat);
    }
    let total: u64 = if ranks == 0 {
        0
    } else if ranks == 1 {
        1
    } else if ranks == 2 {
        3
    } else if ranks == 3 {
        6
    } else {
        10
    };
    let mut probs: Vec<Probability> = Vec::new();
    let mut i: u64 = 0;
    while i < ranks
        invariant
            i <= ranks,
            ranks == ranked(elements as nat),
            total == rank_total(ranks as nat),
            probs@ == probabilities(elements as nat).take(i as int),
        decreases ranks - i,
    {
        probs.push(Probability { numerator: ranks - i, denominator: total });
        assert(probs@ =~= probabilities(elements as nat).take(i + 1));
        i += 1;
    }
    assert(probs@ =~= probabilities(elements as nat));
    probs
}

/// The place in a pool of `elements` variants that a draw selects: the first,
/// oldest first, whose weight together with those before it exceeds the draw.
/// An empty pool has none; any other pool always has one, among its ranked
/// variants.
pub fn select_variant(elements: usize, draw: u64) -> (place: Option<usize>)
    ensures
        elements == 0 ==> place is None,
        elements > 0 ==> (place matches Some(at) && selected(elements as nat, draw) == Some(
            at as nat,
        ) && at < elements && at < RANKED_VARIANTS),
{
    if elements == 0 {
        return None;
    }
    let ranks: u64 = if elements <= RANKED_VARIANTS {
        elements as u64
    } else {
        RANKED_VARIANTS as u64
    };
    proof {
        rank_total_of_ranked(elements as nat);
        selection_is_total(elements as nat, draw);
    }
    let total: u128 = if ranks == 1 {
        1
    } else if ranks == 2 {
        3
    } else if ranks == 3 {
        6
    } else {
        10
    };
    assert(draw * total <= 0xFFFF_FFFF_FFFF_FFFF * 10) by (nonlinear_arith)
        requires
            draw <= 0xFFFF_FFFF_FFFF_FFFF,
            0 <= total <= 10,
    ;
    let scaled: u128 = (draw as u128) * total;
    let mut covered: u128 = 0;
    let mut i: u64 = 0;
    while i < ranks
        invariant
            i <= ranks <= 4,
            ranks == ranked(elements as nat),
            covered == cumulative(ranks as nat, i as nat),
            covered <= 4 * i,
            scaled == draw * rank_total(ranks as nat),
            first_within(ranks as nat, draw, 0) == first_within(ranks as nat, draw, i as nat),
        decreases ranks - i,
    {
        covered = covered + (ranks - i) as u128;
        assert(covered * 0x1_0000_0000_0000_0000 <= 16 * 0x1_0000_0000_0000_0000)
            by (nonlinear_arith)
            requires
                covered <= 16,
        ;
        if scaled < covered * 0x1_0000_0000_0000_0000u128 {
            return Some(i as usize);
        }
        i += 1;
    }
    None
}

/// The edge that a draw picks.
pub fn spawn_edge(side: u64) -> (edge: Edge)
    ensures
        edge == edge_for(side),
{
    let pick: u64 = side % 4;
    if pick == 0 {
        Edge::Top
    } else if pick == 1 {
        Edge::Bottom
    } else if pick == 2 {
        Edge::Left
    } else {
        Edge::Right
    }
}

/// The enemy that a wave makes of a variant at `now`, with the health, speed
/// and size of its kind.
pub fn spawn_enemy(variant: EnemyType, now: u64) -> (enemy: Option<Enemy>)
    ensures
        enemy == recruit(variant, now),
{
    match variant {
        EnemyType::Pawn => Some(
            Enemy { health: 50, variant: EnemyType::Pawn, speed: 25, size: Size::new(10, 10) },
        ),
        EnemyType::Stinger => Some(
            Enemy { health: 50, variant: EnemyType::Stinger, speed: 40, size: Size::new(10, 10) },
        ),
        EnemyType::Splitter { .. } => Some(
            Enemy {
                health: 100,
                variant: EnemyType::Splitter { split_count: 0, instant: now },
                speed: 20,
                size: Size::new(15, 15),
            },
        ),
        EnemyType::Rogue => Some(
            Enemy { health: 200, variant: EnemyType::Rogue, speed: 25, size: Size::new(15, 15) },
        ),
        EnemyType::Bishop => Some(
            Enemy { health: 300, variant: EnemyType::Bishop, speed: 15, size: Size::new(20, 20) },
        ),
        EnemyType::Propagator => Some(
            Enemy {
                health: 500,
                variant: EnemyType::Propagator,
                speed: 5,
                size: Size::new(25, 25),
            },
        ),
        EnemyType::Neonate(_) => None,
    }
}

/// The part of a length that a draw picks.
pub fn scale_by(length: u32, along: u64) -> (part: u32)
    ensures
        part == part_of(length, along),
        part <= length,
{
    assert(length * along <= 0xFFFF_FFFF * 0xFFFF_FFFF_FFFF_FFFF) by (nonlinear_arith)
        requires
            0 <= length <= 0xFFFF_FFFF,
            0 <= along <= 0xFFFF_FFFF_FFFF_FFFF,
    ;
    let product: u128 = (length as u128) * (along as u128);
    assert(product / 0x1_0000_0000_0000_0000 <= length) by (nonlinear_arith)
        requires
            product == length * along,
            0 <= along < 0x1_0000_0000_0000_0000,
            0 <= length,
    ;
    (product / 0x1_0000_0000_0000_0000u128) as u32
}

/// The place that two draws pick for an enemy.
pub fn spawn_place(field: &Field, side: u64, along: u64) -> (place: Point)
    ensures
        place == place_for(*field, side, along),
{
    let margin: i64 = (SPAWN_MARGIN as i64) * THOUSANDTHS;
    match spawn_edge(side) {
        Edge::Top => Point { x: scale_by(field.width, along) as i64, y: -margin },
        Edge::Bottom => Point {
            x: scale_by(field.width, along) as i64,
            y: field.height as i64 + margin,
        },
        Edge::Left => Point { x: -margin, y: scale_by(field.height, along) as i64 },
        Edge::Right => Point {
            x: field.width as i64 + margin,
            y: scale_by(field.height, along) as i64,
        },
    }
}

/// The enemy that three draws make of a pool at `now`.
pub fn plan_spawn(pool: &Vec<EnemyType>, field: &Field, draws: SpawnDraws, now: u64) -> (spawn:
    Option<Spawn>)
    ensures
        spawn == planned(pool@, *field, draws, now),
{
    match select_variant(pool.len(), draws.pick) {
        Some(place) => match spawn_enemy(pool[place], now) {
            Some(enemy) => Some(Spawn { enemy, place: spawn_place(field, draws.side, draws.along) }),
            None => None,
        },
        None => None,
    }
}

/// The enemies of a wave from a pool, one for each triple of draws in turn.
pub fn spawn_wave(pool: &Vec<EnemyType>, field: &Field, draws: &Vec<SpawnDraws>, now: u64) -> (spawns:
    Vec<Spawn>)
    ensures
        spawns@ == wave_spawns(pool@, *field, draws@, now),
{
    let mut spawns: Vec<Spawn> = Vec::new();
    let mut i: usize = 0;
    assert(draws@.skip(0) =~= draws@);
    assert(spawns@ + wave_spawns(pool@, *field, draws@, now) =~= wave_spawns(pool@, *field, draws@, now));
    while i < draws.len()
        invariant
            i <= draws.len(),
            wave_spawns(pool@, *field, draws@, now) == spawns@ + wave_spawns(
                pool@,
                *field,
                draws@.skip(i as int),
                now,
            ),
        decreases draws.len() - i,
    {
        let ghost rest = draws@.skip(i as int);
        let ghost before = spawns@;
        assert(rest[0] == draws@[i as int]);
        assert(rest.skip(1) =~= draws@.skip(i + 1));
        match plan_spawn(pool, field, draws[i], now) {
            Some(spawn) => {
                spawns.push(spawn);
                assert(before + (seq![spawn] + wave_spawns(pool@, *field, draws@.skip(i + 1), now))
                    =~= spawns@ + wave_spawns(pool@, *field, draws@.skip(i + 1), now));
            },
            None => {
                return spawns;
            },
        }
        i += 1;
    }
    assert(draws@.skip(i as int).len() == 0);
    spawns
}

/// The work of the wave director in one frame.
///
/// In a frame in which the wave timer has completed its period, the next wave
/// is released: the director advances as [`WaveView::advanced`] says and one
/// more enemy than the new `enemy_count` is made from the new pool and placed
/// around the field, each from three draws of its own. In any other frame nothing happens.
pub fn wave_spawner(wave_timer: &mut WaveTimer, field: &Field, now: u64) -> (spawns: Vec<Spawn>)
    requires
        old(wave_timer).timer.finished ==> old(wave_timer).wave < usize::MAX,
    ensures
        !old(wave_timer).timer.finished ==> final(wave_timer)@ == old(wave_timer)@
            && spawns@.len() == 0,
        old(wave_timer).timer.finished ==> final(wave_timer)@ == old(wave_timer)@.advanced()
            && exists|draws: Seq<SpawnDraws>|
            draws.len() == wave_size(final(wave_timer).enemy_count) && spawns@
                == #[trigger] wave_spawns(final(wave_timer)@.variants, *field, draws, now),
{
    if !wave_timer.timer.finished() {
        return Vec::new();
    }
    wave_timer.advance();
    let count: usize = if wave_timer.enemy_count >= 0 {
        (wave_timer.enemy_count as i64 + 1) as usize
    } else {
        0
    };
    let mut draws: Vec<SpawnDraws> = Vec::new();
    let mut i: usize = 0;
    while i < count
        invariant
            i <= count,
            draws.len() == i,
            count == wave_size(wave_timer.enemy_count),
            wave_timer@ == old(wave_timer)@.advanced(),
        decreases count - i,
    {
        let side: u64 = random_bits();
        let along: u64 = random_bits();
        let pick: u64 = random_bits();
        draws.push(SpawnDraws { side, along, pick });
        i += 1;
    }
    let spawns = spawn_wave(&wave_timer.variants, field, &draws, now);
    assert(spawns@ == wave_spawns(wave_timer@.variants, *field, draws@, now));
    spawns
}

/// Advances the wave timer by one frame of `delta` nanoseconds.
pub fn wave_timer_ticker(wave_timer: &mut WaveTimer, delta: u64)
    requires
        old(wave_timer).timer.can_tick(delta),
    ensures
        final(wave_timer)@ == (WaveView {
            timer: old(wave_timer).timer.after(delta),
            ..old(wave_timer)@
        }),
        final(wave_timer).timer.wf(),
{
    wave_timer.timer.tick(delta);
}

/// Puts the wave director back to the start of a session.
pub fn reset_waves(wave_timer: &mut WaveTimer)
    ensures
        final(wave_timer)@ == WaveView::initial(),
{
    *wave_timer = WaveTimer::default();
}

/// The wave director after the first `count` waves of a session.
pub open spec fn after_waves(count: nat) -> WaveView
    decreases count,
{
    if count == 0 {
        WaveView::initial()
    } else {
        after_waves((count - 1) as nat).advanced()
    }
}

/// Through a session the wave director keeps to the schedule: after any
/// number of waves, the pool and `enemy_count` are those that [`pool_at`] and
/// [`enemy_count_at`] give for the wave last released.
pub proof fn waves_follow_schedule(count: nat)
    requires
        count <= usize::MAX,
    ensures
        after_waves(count).wave == count,
        after_waves(count).on_schedule(),
    decreases count,
{
    if count > 0 {
        let before = after_waves((count - 1) as nat);
        waves_follow_schedule((count - 1) as nat);
        let after = before.advanced();
        assert(after.variants =~= pool_at(count));
    }
}

} // verus!
