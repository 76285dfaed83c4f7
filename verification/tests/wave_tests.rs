use base_defense::enemy::{Enemy, EnemyType};
use base_defense::geometry::{Field, Point, Size};
use base_defense::timer::Timer;
use base_defense::wave::{
    calculate_probabilities, plan_spawn, reset_waves, scale_by, select_variant, spawn_edge,
    spawn_enemy, spawn_place, spawn_wave, wave_spawner, wave_timer_ticker, Edge, Probability,
    Spawn, SpawnDraws, WaveTimer,
};

const SECOND: u64 = 1_000_000_000;

fn template() -> EnemyType {
    EnemyType::Splitter { split_count: 0, instant: 0 }
}

fn after(waves: usize) -> WaveTimer {
    let mut director = WaveTimer::default();
    for _ in 0..waves {
        director.advance();
    }
    director
}

fn field() -> Field {
    Field { width: 1_280_000, height: 720_000 }
}

/// The largest draw below `numerator / denominator`.
fn last_below(numerator: u128, denominator: u128) -> u64 {
    let scaled = numerator << 64;
    ((scaled + denominator - 1) / denominator - 1) as u64
}

#[test]
fn director_starts_with_pawns() {
    let director = WaveTimer::default();
    assert_eq!(director.wave, 0);
    assert_eq!(director.enemy_count, 5);
    assert_eq!(director.variants, vec![EnemyType::Pawn]);
    assert_eq!(director.timer, Timer::new(15 * SECOND));
}

#[test]
fn wave_one() {
    let director = after(1);
    assert_eq!(director.wave, 1);
    assert_eq!(director.enemy_count, 11);
    assert_eq!(director.variants, vec![EnemyType::Pawn]);
}

#[test]
fn wave_six_unlocks_stingers() {
    assert_eq!(after(5).enemy_count, 11);
    assert_eq!(after(5).variants, vec![EnemyType::Pawn]);
    let director = after(6);
    assert_eq!(director.wave, 6);
    assert_eq!(director.enemy_count, 6);
    assert_eq!(director.variants, vec![EnemyType::Pawn, EnemyType::Stinger]);
    assert_eq!(after(7).enemy_count, 11);
    assert_eq!(after(7).variants, vec![EnemyType::Pawn, EnemyType::Stinger]);
}

#[test]
fn wave_fifteen_unlocks_rogues() {
    let director = after(15);
    assert_eq!(director.enemy_count, 7);
    assert_eq!(director.variants, vec![EnemyType::Pawn, EnemyType::Stinger, EnemyType::Rogue]);
}

#[test]
fn wave_twenty_unlocks_splitters() {
    let director = after(20);
    assert_eq!(director.enemy_count, 8);
    assert_eq!(
        director.variants,
        vec![EnemyType::Pawn, EnemyType::Stinger, EnemyType::Rogue, template()]
    );
}

#[test]
fn wave_twenty_five_trades_pawns_for_bishops() {
    let director = after(25);
    assert_eq!(director.enemy_count, 9);
    assert_eq!(
        director.variants,
        vec![EnemyType::Stinger, EnemyType::Rogue, template(), EnemyType::Bishop]
    );
}

#[test]
fn wave_thirty_trades_stingers_for_propagators() {
    let director = after(30);
    assert_eq!(director.enemy_count, 10);
    assert_eq!(
        director.variants,
        vec![EnemyType::Rogue, template(), EnemyType::Bishop, EnemyType::Propagator]
    );
}

#[test]
fn wave_thirty_one_and_later() {
    for waves in [31usize, 32, 100] {
        let director = after(waves);
        assert_eq!(director.wave, waves);
        assert_eq!(director.enemy_count, 11);
        assert_eq!(
            director.variants,
            vec![EnemyType::Rogue, template(), EnemyType::Bishop, EnemyType::Propagator]
        );
    }
}

#[test]
fn advance_with_an_empty_pool_drops_nothing() {
    let mut director = WaveTimer::default();
    director.wave = 24;
    director.variants.clear();
    director.advance();
    assert_eq!(director.variants, vec![EnemyType::Bishop]);
    assert_eq!(director.enemy_count, 9);
}

#[test]
fn advance_leaves_the_timer_alone() {
    let mut director = WaveTimer::default();
    wave_timer_ticker(&mut director, 4 * SECOND);
    let timer = director.timer;
    director.advance();
    assert_eq!(director.timer, timer);
}

#[test]
fn reset_waves_goes_back_to_the_start() {
    let mut director = after(27);
    wave_timer_ticker(&mut director, 7 * SECOND);
    reset_waves(&mut director);
    assert_eq!(director.wave, 0);
    assert_eq!(director.enemy_count, 5);
    assert_eq!(director.variants, vec![EnemyType::Pawn]);
    assert_eq!(director.timer, Timer::new(15 * SECOND));
}

fn weights(elements: usize) -> Vec<(u64, u64)> {
    calculate_probabilities(elements).iter().map(|p| (p.numerator, p.denominator)).collect()
}

#[test]
fn probabilities_are_triangular() {
    assert_eq!(weights(0), vec![]);
    assert_eq!(weights(1), vec![(1, 1)]);
    assert_eq!(weights(2), vec![(2, 3), (1, 3)]);
    assert_eq!(weights(3), vec![(3, 6), (2, 6), (1, 6)]);
    assert_eq!(weights(4), vec![(4, 10), (3, 10), (2, 10), (1, 10)]);
}

#[test]
fn probabilities_rank_at_most_four() {
    assert_eq!(weights(5), weights(4));
    assert_eq!(weights(9), weights(4));
    assert_eq!(weights(usize::MAX), weights(4));
}

#[test]
fn probabilities_sum_to_one_and_fall() {
    for elements in 1..=4usize {
        let probs = calculate_probabilities(elements);
        assert_eq!(probs.len(), elements);
        let total: u64 = probs.iter().map(|p| p.numerator).sum();
        assert_eq!(total, probs[0].denominator);
        let sum: f64 = probs.iter().map(|p| p.numerator as f64 / p.denominator as f64).sum();
        assert!((sum - 1.0).abs() < 1e-12);
        for pair in probs.windows(2) {
            assert!(pair[0].numerator > pair[1].numerator);
            assert_eq!(pair[0].denominator, pair[1].denominator);
        }
    }
}

#[test]
fn probabilities_of_three_as_decimals() {
    let probs: Vec<Probability> = calculate_probabilities(3);
    let decimals: Vec<f64> =
        probs.iter().map(|p| p.numerator as f64 / p.denominator as f64).collect();
    assert_eq!(decimals[0], 0.5);
    assert!((decimals[1] - 0.3333333333333333).abs() < 1e-15);
    assert!((decimals[2] - 0.16666666666666666).abs() < 1e-15);
}

#[test]
fn empty_pool_selects_nothing() {
    assert_eq!(select_variant(0, 0), None);
    assert_eq!(select_variant(0, u64::MAX), None);
}

#[test]
fn single_variant_is_always_selected() {
    assert_eq!(select_variant(1, 0), Some(0));
    assert_eq!(select_variant(1, 1 << 63), Some(0));
    assert_eq!(select_variant(1, u64::MAX), Some(0));
}

#[test]
fn two_variants_split_two_to_one() {
    let edge = last_below(2, 3);
    assert_eq!(edge, 12297829382473034410);
    assert_eq!(select_variant(2, 0), Some(0));
    assert_eq!(select_variant(2, edge), Some(0));
    assert_eq!(select_variant(2, edge + 1), Some(1));
    assert_eq!(select_variant(2, u64::MAX), Some(1));
}

#[test]
fn three_variants_split_three_two_one() {
    assert_eq!(select_variant(3, 0), Some(0));
    assert_eq!(select_variant(3, (1 << 63) - 1), Some(0));
    assert_eq!(select_variant(3, 1 << 63), Some(1));
    assert_eq!(last_below(5, 6), 15372286728091293013);
    assert_eq!(select_variant(3, 15372286728091293013), Some(1));
    assert_eq!(select_variant(3, 15372286728091293014), Some(2));
    assert_eq!(select_variant(3, u64::MAX), Some(2));
}

#[test]
fn four_variants_split_four_three_two_one() {
    assert_eq!(select_variant(4, 0), Some(0));
    assert_eq!(select_variant(4, 7378697629483820646), Some(0));
    assert_eq!(select_variant(4, 7378697629483820647), Some(1));
    assert_eq!(select_variant(4, 12912720851596686131), Some(1));
    assert_eq!(select_variant(4, 12912720851596686132), Some(2));
    assert_eq!(select_variant(4, 16602069666338596454), Some(2));
    assert_eq!(select_variant(4, 16602069666338596455), Some(3));
    assert_eq!(select_variant(4, u64::MAX), Some(3));
}

#[test]
fn larger_pools_select_among_the_four_oldest() {
    for draw in [0u64, 7378697629483820647, 12912720851596686132, 16602069666338596455, u64::MAX] {
        assert_eq!(select_variant(6, draw), select_variant(4, draw));
        assert_eq!(select_variant(usize::MAX, draw), select_variant(4, draw));
    }
}

#[test]
fn selection_agrees_with_walking_the_decimal_weights() {
    // a double-precision draw is k / 2^53 for the top 53 bits k of the word;
    // where rounding leaves the decimal weights short of one, the walk over
    // them runs off the end and the exact selection takes the last variant
    for elements in 1..=4usize {
        let probs = calculate_probabilities(elements);
        for k in [0u64, 1, 1 << 20, (1 << 52) - 1, 1 << 52, (1 << 52) + 12345, 3 << 51, (1 << 53) - 1] {
            let draw = k as f64 / 9007199254740992.0;
            let mut cumulative = 0.0f64;
            let mut walked = None;
            for (i, p) in probs.iter().enumerate() {
                cumulative += p.numerator as f64 / p.denominator as f64;
                if draw < cumulative {
                    walked = Some(i);
                    break;
                }
            }
            let expected = walked.unwrap_or(elements - 1);
            assert_eq!(select_variant(elements, k << 11), Some(expected), "{} {}", elements, k);
        }
    }
}

#[test]
fn edges_by_remainder() {
    assert_eq!(spawn_edge(0), Edge::Top);
    assert_eq!(spawn_edge(1), Edge::Bottom);
    assert_eq!(spawn_edge(2), Edge::Left);
    assert_eq!(spawn_edge(3), Edge::Right);
    assert_eq!(spawn_edge(4), Edge::Top);
    assert_eq!(spawn_edge(u64::MAX), Edge::Right);
    assert_eq!(spawn_edge(u64::MAX - 1), Edge::Left);
}

#[test]
fn scale_by_takes_a_fraction_of_the_length() {
    assert_eq!(scale_by(1_280_000, 0), 0);
    assert_eq!(scale_by(1_280_000, 1 << 63), 640_000);
    assert_eq!(scale_by(1_280_000, 1 << 62), 320_000);
    assert_eq!(scale_by(1_280_000, u64::MAX), 1_279_999);
    assert_eq!(scale_by(0, u64::MAX), 0);
    assert_eq!(scale_by(u32::MAX, u64::MAX), u32::MAX - 1);
    assert_eq!(scale_by(3, (1 << 63) + 1), 1);
}

#[test]
fn places_lie_twenty_units_outside_the_field() {
    let f = field();
    assert_eq!(spawn_place(&f, 0, 1 << 63), Point { x: 640_000, y: -20_000 });
    assert_eq!(spawn_place(&f, 1, 1 << 62), Point { x: 320_000, y: 740_000 });
    assert_eq!(spawn_place(&f, 2, 1 << 63), Point { x: -20_000, y: 360_000 });
    assert_eq!(spawn_place(&f, 3, 0), Point { x: 1_300_000, y: 0 });
    assert_eq!(spawn_place(&f, 7, u64::MAX), Point { x: 1_300_000, y: 719_999 });
}

#[test]
fn enemies_start_with_the_values_of_their_kind() {
    let square = |side: u32| Size { width: side, height: side };
    assert_eq!(
        spawn_enemy(EnemyType::Pawn, 9),
        Some(Enemy { health: 50, variant: EnemyType::Pawn, speed: 25, size: square(10) })
    );
    assert_eq!(
        spawn_enemy(EnemyType::Stinger, 9),
        Some(Enemy { health: 50, variant: EnemyType::Stinger, speed: 40, size: square(10) })
    );
    assert_eq!(
        spawn_enemy(template(), 9),
        Some(Enemy {
            health: 100,
            variant: EnemyType::Splitter { split_count: 0, instant: 9 },
            speed: 20,
            size: square(15)
        })
    );
    assert_eq!(
        spawn_enemy(EnemyType::Splitter { split_count: 2, instant: 3 }, 9),
        spawn_enemy(template(), 9)
    );
    assert_eq!(
        spawn_enemy(EnemyType::Rogue, 9),
        Some(Enemy { health: 200, variant: EnemyType::Rogue, speed: 25, size: square(15) })
    );
    assert_eq!(
        spawn_enemy(EnemyType::Bishop, 9),
        Some(Enemy { health: 300, variant: EnemyType::Bishop, speed: 15, size: square(20) })
    );
    assert_eq!(
        spawn_enemy(EnemyType::Propagator, 9),
        Some(Enemy { health: 500, variant: EnemyType::Propagator, speed: 5, size: square(25) })
    );
}

#[test]
fn neonates_do_not_come_in_waves() {
    let neonate = base_defense::enemy::release_neonate(base_defense::enemy::Compass::East, 0);
    assert_eq!(spawn_enemy(neonate.variant, 9), None);
}

#[test]
fn plan_spawn_picks_place_and_variant() {
    let pool = vec![EnemyType::Pawn, EnemyType::Stinger, EnemyType::Rogue];
    let spawn = plan_spawn(&pool, &field(), SpawnDraws { side: 2, along: 1 << 63, pick: 1 << 63 }, 5);
    assert_eq!(
        spawn,
        Some(Spawn {
            enemy: spawn_enemy(EnemyType::Stinger, 5).unwrap(),
            place: Point { x: -20_000, y: 360_000 }
        })
    );
    let none = plan_spawn(&vec![], &field(), SpawnDraws { side: 0, along: 0, pick: 0 }, 5);
    assert_eq!(none, None);
}

#[test]
fn spawn_wave_makes_one_enemy_per_triple() {
    let pool = after(30).variants;
    let draws = vec![
        SpawnDraws { side: 0, along: 0, pick: 0 },
        SpawnDraws { side: 1, along: 0, pick: 7378697629483820647 },
        SpawnDraws { side: 2, along: 0, pick: 12912720851596686132 },
        SpawnDraws { side: 3, along: 0, pick: u64::MAX },
    ];
    let spawns = spawn_wave(&pool, &field(), &draws, 77);
    let variants: Vec<EnemyType> = spawns.iter().map(|s| s.enemy.variant).collect();
    assert_eq!(
        variants,
        vec![
            EnemyType::Rogue,
            EnemyType::Splitter { split_count: 0, instant: 77 },
            EnemyType::Bishop,
            EnemyType::Propagator
        ]
    );
    let places: Vec<Point> = spawns.iter().map(|s| s.place).collect();
    assert_eq!(
        places,
        vec![
            Point { x: 0, y: -20_000 },
            Point { x: 0, y: 740_000 },
            Point { x: -20_000, y: 0 },
            Point { x: 1_300_000, y: 0 }
        ]
    );
}

#[test]
fn spawn_wave_ends_at_the_first_triple_that_makes_none() {
    let neonate = base_defense::enemy::release_neonate(base_defense::enemy::Compass::East, 0);
    let pool = vec![EnemyType::Pawn, neonate.variant];
    let draws = vec![
        SpawnDraws { side: 0, along: 0, pick: 0 },
        SpawnDraws { side: 0, along: 0, pick: u64::MAX },
        SpawnDraws { side: 0, along: 0, pick: 0 },
    ];
    assert_eq!(spawn_wave(&pool, &field(), &draws, 0).len(), 1);
    assert_eq!(spawn_wave(&vec![], &field(), &draws, 0).len(), 0);
    assert_eq!(spawn_wave(&pool, &field(), &vec![], 0).len(), 0);
}

#[test]
fn wave_spawner_waits_for_the_timer() {
    let mut director = WaveTimer::default();
    wave_timer_ticker(&mut director, 14 * SECOND);
    assert!(wave_spawner(&mut director, &field(), 0).is_empty());
    assert_eq!(director.wave, 0);
    assert_eq!(director.enemy_count, 5);
}

#[test]
fn wave_spawner_releases_the_first_wave() {
    let mut director = WaveTimer::default();
    wave_timer_ticker(&mut director, 15 * SECOND);
    let spawns = wave_spawner(&mut director, &field(), 15 * SECOND);
    assert_eq!(director.wave, 1);
    assert_eq!(director.enemy_count, 11);
    assert_eq!(spawns.len(), 12);
    let f = field();
    for spawn in spawns {
        assert_eq!(spawn.enemy, spawn_enemy(EnemyType::Pawn, 0).unwrap());
        let p = spawn.place;
        let on_top = p.y == -20_000 && 0 <= p.x && p.x < f.width as i64;
        let on_bottom = p.y == 740_000 && 0 <= p.x && p.x < f.width as i64;
        let on_left = p.x == -20_000 && 0 <= p.y && p.y < f.height as i64;
        let on_right = p.x == 1_300_000 && 0 <= p.y && p.y < f.height as i64;
        assert!(on_top || on_bottom || on_left || on_right);
    }
    // the next frame is quiet again
    wave_timer_ticker(&mut director, 16_000_000);
    assert!(wave_spawner(&mut director, &field(), 16 * SECOND).is_empty());
    assert_eq!(director.wave, 1);
}

#[test]
fn wave_spawner_sizes_the_sixth_wave() {
    let mut director = after(5);
    wave_timer_ticker(&mut director, 15 * SECOND);
    let spawns = wave_spawner(&mut director, &field(), 0);
    assert_eq!(director.wave, 6);
    assert_eq!(spawns.len(), 7);
    for spawn in spawns {
        assert!(matches!(spawn.enemy.variant, EnemyType::Pawn | EnemyType::Stinger));
    }
}

#[test]
fn wave_spawner_with_a_negative_count_releases_nothing() {
    let mut director = WaveTimer::default();
    wave_timer_ticker(&mut director, 15 * SECOND);
    // a later wave sets its own count; a negative one is left only where no wave follows
    director.enemy_count = -3;
    director.timer.finished = false;
    assert!(wave_spawner(&mut director, &field(), 0).is_empty());
    assert_eq!(director.wave, 0);
}

#[test]
fn wave_spawner_after_wave_thirty_uses_the_late_pool() {
    let mut director = after(30);
    wave_timer_ticker(&mut director, 15 * SECOND);
    let spawns = wave_spawner(&mut director, &field(), 0);
    assert_eq!(spawns.len(), 12);
    for spawn in spawns {
        assert!(!matches!(spawn.enemy.variant, EnemyType::Pawn | EnemyType::Stinger));
    }
}
