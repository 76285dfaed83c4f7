use base_defense::base::Base;
use base_defense::bullet::Bullet;
use base_defense::enemy::{release_neonate, Compass, Enemy, EnemyType};
use base_defense::geometry::{Field, Point, Size};
use base_defense::part::{Part, PartTier};
use base_defense::player::{
    base_part_collecting, bullet_hits_enemy, confine_player_movement, enemy_hit_player, on_death,
    player_movement, player_shoot, player_shoot_enemy, BlasterCooldownTimer, Facing, Heading,
    Pickup, Player, PlayerHit,
};
use base_defense::sound::Sound;

const SECOND: u64 = 1_000_000_000;

fn square(side: u32) -> Size {
    Size { width: side, height: side }
}

fn enemy(variant: EnemyType, health: i64) -> Enemy {
    Enemy { health, variant, speed: 20, size: square(10) }
}

/// The largest draw that still lies below `percent` percent.
fn last_below(percent: u128) -> u64 {
    (((percent << 64) + 99) / 100 - 1) as u64
}

#[test]
fn player_starts_with_a_hundred_health() {
    assert_eq!(
        Player::new(),
        Player { health: 100, speed: 250, size: square(15), max_health: 100 }
    );
}

#[test]
fn pawn_drops_blue_in_a_tenth_of_the_kills() {
    let lucky = on_death(EnemyType::Pawn, last_below(10), u64::MAX, 0);
    assert_eq!(lucky.reward, Some(PartTier::Blue));
    assert!(lucky.children.is_empty());
    assert_eq!(lucky.sound, Sound::EnemyDestroyed);
    let unlucky = on_death(EnemyType::Pawn, last_below(10) + 1, 0, 0);
    assert_eq!(unlucky.reward, None);
    assert_eq!(on_death(EnemyType::Pawn, 0, 0, 0).reward, Some(PartTier::Blue));
    assert_eq!(on_death(EnemyType::Pawn, u64::MAX, 0, 0).reward, None);
}

#[test]
fn stinger_drops_red_in_a_tenth_of_the_kills() {
    assert_eq!(on_death(EnemyType::Stinger, last_below(10), 0, 0).reward, Some(PartTier::Red));
    assert_eq!(on_death(EnemyType::Stinger, last_below(10) + 1, 0, 0).reward, None);
}

#[test]
fn rogue_drops_red_or_blue_in_a_fifth_of_the_kills() {
    let reward = |r: u64, t: u64| on_death(EnemyType::Rogue, r, t, 0).reward;
    assert_eq!(reward(last_below(20), last_below(40)), Some(PartTier::Red));
    assert_eq!(reward(last_below(20), last_below(40) + 1), Some(PartTier::Blue));
    assert_eq!(reward(0, u64::MAX), Some(PartTier::Blue));
    assert_eq!(reward(last_below(20) + 1, 0), None);
}

#[test]
fn bishop_drops_any_tier_in_three_tenths_of_the_kills() {
    let reward = |r: u64, t: u64| on_death(EnemyType::Bishop, r, t, 0).reward;
    assert_eq!(reward(last_below(30), last_below(25)), Some(PartTier::Green));
    assert_eq!(reward(last_below(30), last_below(25) + 1), Some(PartTier::Red));
    assert_eq!(reward(last_below(30), last_below(50)), Some(PartTier::Red));
    assert_eq!(reward(last_below(30), last_below(50) + 1), Some(PartTier::Blue));
    assert_eq!(reward(last_below(30) + 1, 0), None);
}

#[test]
fn propagator_always_drops_a_part() {
    let reward = |r: u64, t: u64| on_death(EnemyType::Propagator, r, t, 0).reward;
    for r in [0u64, 1 << 63, u64::MAX] {
        assert_eq!(reward(r, 0), Some(PartTier::Green));
        assert_eq!(reward(r, last_below(40)), Some(PartTier::Green));
        assert_eq!(reward(r, last_below(40) + 1), Some(PartTier::Red));
        assert_eq!(reward(r, last_below(50)), Some(PartTier::Red));
        assert_eq!(reward(r, last_below(50) + 1), Some(PartTier::Blue));
        assert_eq!(reward(r, u64::MAX), Some(PartTier::Blue));
    }
}

#[test]
fn neonate_drops_nothing() {
    let neonate = release_neonate(Compass::West, 0);
    let outcome = on_death(neonate.variant, 0, 0, 0);
    assert_eq!(outcome.reward, None);
    assert!(outcome.children.is_empty());
    assert_eq!(outcome.sound, Sound::EnemyDestroyed);
}

#[test]
fn fresh_splitter_splits_in_two_without_reward() {
    for (r, t) in [(0u64, 0u64), (u64::MAX, u64::MAX), (0, u64::MAX)] {
        let outcome = on_death(EnemyType::Splitter { split_count: 0, instant: 3 }, r, t, 44);
        let child = Enemy {
            health: 100,
            variant: EnemyType::Splitter { split_count: 1, instant: 44 },
            speed: 20,
            size: square(10),
        };
        assert_eq!(outcome.children, vec![child, child]);
        assert_eq!(outcome.reward, None);
        assert_eq!(outcome.sound, Sound::SplitterBurst);
    }
}

#[test]
fn split_child_splits_again_and_may_drop_a_part() {
    let variant = EnemyType::Splitter { split_count: 1, instant: 3 };
    let child = Enemy {
        health: 100,
        variant: EnemyType::Splitter { split_count: 2, instant: 44 },
        speed: 25,
        size: square(5),
    };
    let red = on_death(variant, last_below(30), last_below(50), 44);
    assert_eq!(red.children, vec![child, child]);
    assert_eq!(red.reward, Some(PartTier::Red));
    assert_eq!(red.sound, Sound::SplitterBurst);
    let blue = on_death(variant, last_below(30), last_below(50) + 1, 44);
    assert_eq!(blue.children, vec![child, child]);
    assert_eq!(blue.reward, Some(PartTier::Blue));
    let none = on_death(variant, last_below(30) + 1, 0, 44);
    assert_eq!(none.children, vec![child, child]);
    assert_eq!(none.reward, None);
}

#[test]
fn later_generations_leave_nothing() {
    for split_count in [2usize, 3, 17, usize::MAX] {
        let outcome = on_death(EnemyType::Splitter { split_count, instant: 3 }, 0, 0, 44);
        assert!(outcome.children.is_empty());
        assert_eq!(outcome.reward, None);
        assert_eq!(outcome.sound, Sound::EnemyDestroyed);
    }
}

#[test]
fn bullet_wounds_without_killing() {
    let mut rogue = enemy(EnemyType::Rogue, 200);
    let hit = bullet_hits_enemy(&mut rogue, &Bullet::new(0), 0, 0, 1);
    assert_eq!(rogue.health, 150);
    assert!(hit.bullet_spent);
    assert!(hit.death.is_none());
}

#[test]
fn bullet_kills_at_zero_health() {
    let mut pawn = enemy(EnemyType::Pawn, 50);
    let hit = bullet_hits_enemy(&mut pawn, &Bullet::new(0), 0, 0, 1);
    assert_eq!(pawn.health, 0);
    assert!(hit.bullet_spent);
    let outcome = hit.death.unwrap();
    assert_eq!(outcome.reward, Some(PartTier::Blue));
    assert!(outcome.children.is_empty());
}

#[test]
fn bullet_damage_is_that_of_the_moment_of_the_hit() {
    let mut bullet = Bullet::new(0);
    bullet.damage = 100;
    let mut rogue = enemy(EnemyType::Rogue, 200);
    assert!(bullet_hits_enemy(&mut rogue, &bullet, u64::MAX, 0, 1).death.is_none());
    assert_eq!(rogue.health, 100);
    let hit = bullet_hits_enemy(&mut rogue, &bullet, u64::MAX, 0, 1);
    assert_eq!(rogue.health, 0);
    assert_eq!(hit.death.unwrap().reward, None);
}

#[test]
fn dead_enemy_takes_no_second_hit() {
    let mut pawn = enemy(EnemyType::Pawn, 50);
    assert!(bullet_hits_enemy(&mut pawn, &Bullet::new(0), 0, 0, 1).death.is_some());
    let again = bullet_hits_enemy(&mut pawn, &Bullet::new(0), 0, 0, 1);
    assert!(!again.bullet_spent);
    assert!(again.death.is_none());
    assert_eq!(pawn.health, 0);
    let mut overkilled = enemy(EnemyType::Splitter { split_count: 0, instant: 0 }, -20);
    let hit = bullet_hits_enemy(&mut overkilled, &Bullet::new(0), 0, 0, 1);
    assert!(!hit.bullet_spent);
    assert!(hit.death.is_none());
    assert_eq!(overkilled.health, -20);
}

#[test]
fn splitter_chain_through_hits() {
    let mut splitter = enemy(EnemyType::Splitter { split_count: 0, instant: 0 }, 50);
    let first = bullet_hits_enemy(&mut splitter, &Bullet::new(0), 0, 0, 9).death.unwrap();
    assert_eq!(first.children.len(), 2);
    let mut child = first.children[0];
    assert_eq!(child.health, 100);
    assert!(bullet_hits_enemy(&mut child, &Bullet::new(0), 0, 0, 9).death.is_none());
    let second = bullet_hits_enemy(&mut child, &Bullet::new(0), 0, 0, 10).death.unwrap();
    assert_eq!(second.children.len(), 2);
    assert_eq!(second.reward, Some(PartTier::Red));
    let mut grandchild = second.children[1];
    assert_eq!(grandchild.variant, EnemyType::Splitter { split_count: 2, instant: 10 });
    assert!(bullet_hits_enemy(&mut grandchild, &Bullet::new(0), 0, 0, 11).death.is_none());
    let third = bullet_hits_enemy(&mut grandchild, &Bullet::new(0), 0, 0, 11).death.unwrap();
    assert!(third.children.is_empty());
    assert_eq!(third.reward, None);
}

#[test]
fn player_shoot_enemy_rolls_for_the_reward() {
    for _ in 0..50 {
        let mut propagator = enemy(EnemyType::Propagator, 50);
        let hit = player_shoot_enemy(&mut propagator, &Bullet::new(0), 3);
        assert_eq!(propagator.health, 0);
        assert!(hit.bullet_spent);
        let outcome = hit.death.unwrap();
        assert!(outcome.reward.is_some());
        assert!(outcome.children.is_empty());

        let mut fresh = enemy(EnemyType::Splitter { split_count: 0, instant: 0 }, 10);
        let outcome = player_shoot_enemy(&mut fresh, &Bullet::new(0), 3).death.unwrap();
        assert_eq!(outcome.children.len(), 2);
        assert_eq!(outcome.reward, None);

        let mut pawn = enemy(EnemyType::Pawn, 50);
        let outcome = player_shoot_enemy(&mut pawn, &Bullet::new(0), 3).death.unwrap();
        assert!(matches!(outcome.reward, None | Some(PartTier::Blue)));
    }
    let mut rogue = enemy(EnemyType::Rogue, 200);
    let hit = player_shoot_enemy(&mut rogue, &Bullet::new(0), 3);
    assert_eq!(rogue.health, 150);
    assert!(hit.death.is_none());
}

#[test]
fn movement_keys() {
    let none = player_movement(false, false, false, false);
    assert_eq!(none, Heading { x: 0, y: 0, facing: None });
    assert_eq!(
        player_movement(true, false, false, false),
        Heading { x: 0, y: 1, facing: Some(Facing::Up) }
    );
    assert_eq!(
        player_movement(false, true, false, false),
        Heading { x: -1, y: 0, facing: Some(Facing::Left) }
    );
    assert_eq!(
        player_movement(false, false, true, false),
        Heading { x: 0, y: -1, facing: Some(Facing::Down) }
    );
    assert_eq!(
        player_movement(false, false, false, true),
        Heading { x: 1, y: 0, facing: Some(Facing::Right) }
    );
}

#[test]
fn movement_keys_combine_and_cancel() {
    assert_eq!(
        player_movement(true, true, false, false),
        Heading { x: -1, y: 1, facing: Some(Facing::Left) }
    );
    assert_eq!(
        player_movement(true, false, false, true),
        Heading { x: 1, y: 1, facing: Some(Facing::Right) }
    );
    assert_eq!(
        player_movement(true, false, true, false),
        Heading { x: 0, y: 0, facing: Some(Facing::Down) }
    );
    assert_eq!(
        player_movement(true, true, true, true),
        Heading { x: 0, y: 0, facing: Some(Facing::Right) }
    );
    assert_eq!(
        player_movement(false, true, true, false),
        Heading { x: -1, y: -1, facing: Some(Facing::Down) }
    );
}

#[test]
fn player_is_held_within_the_field() {
    let field = Field { width: 1_280_000, height: 720_000 };
    let inside = Point { x: 500_000, y: 300_000 };
    assert_eq!(confine_player_movement(inside, &field), inside);
    assert_eq!(
        confine_player_movement(Point { x: 15_999, y: 300_000 }, &field),
        Point { x: 16_000, y: 300_000 }
    );
    assert_eq!(
        confine_player_movement(Point { x: 16_000, y: 704_000 }, &field),
        Point { x: 16_000, y: 704_000 }
    );
    assert_eq!(
        confine_player_movement(Point { x: 1_264_001, y: 704_001 }, &field),
        Point { x: 1_264_000, y: 704_000 }
    );
    assert_eq!(
        confine_player_movement(Point { x: -5_000_000, y: 9_000_000 }, &field),
        Point { x: 16_000, y: 704_000 }
    );
    assert_eq!(
        confine_player_movement(Point { x: i64::MAX, y: i64::MIN }, &field),
        Point { x: 1_264_000, y: 16_000 }
    );
}

#[test]
fn player_fires_on_the_tick_of_the_blaster() {
    let mut blaster = BlasterCooldownTimer::default();
    assert_eq!(player_shoot(true, true, &blaster, 5), None);
    blaster.timer.tick(500_000_000);
    assert_eq!(player_shoot(true, true, &blaster, 5), Some(Bullet::new(5)));
    assert_eq!(
        Bullet::new(5),
        Bullet { speed: 250, size: square(10), damage: 50, instant: 5 }
    );
    assert_eq!(player_shoot(false, true, &blaster, 5), None);
    assert_eq!(player_shoot(true, false, &blaster, 5), None);
    blaster.timer.tick(1);
    assert_eq!(player_shoot(true, true, &blaster, 5), None);
}

#[test]
fn touched_part_goes_to_the_base() {
    let mut base = Base::new(0);
    let red = Part::new(PartTier::Red, SECOND);
    let pickup = base_part_collecting(&mut base, &red, true, 2 * SECOND);
    assert_eq!(pickup, Pickup { sound: Some(Sound::CollectRed), despawn: true });
    assert_eq!(base.parts, vec![red]);
    let green = Part::new(PartTier::Green, SECOND);
    let pickup = base_part_collecting(&mut base, &green, true, 2 * SECOND);
    assert_eq!(pickup.sound, Some(Sound::CollectGreen));
    let blue = Part::new(PartTier::Blue, SECOND);
    let pickup = base_part_collecting(&mut base, &blue, true, 2 * SECOND);
    assert_eq!(pickup.sound, Some(Sound::CollectBlue));
    assert_eq!(base.parts, vec![red, green, blue]);
}

#[test]
fn untouched_part_waits_ten_seconds() {
    let mut base = Base::new(0);
    let part = Part::new(PartTier::Blue, SECOND);
    assert_eq!(part.size, square(15));
    let waiting = Pickup { sound: None, despawn: false };
    assert_eq!(base_part_collecting(&mut base, &part, false, SECOND), waiting);
    assert_eq!(base_part_collecting(&mut base, &part, false, 11 * SECOND), waiting);
    assert_eq!(
        base_part_collecting(&mut base, &part, false, 11 * SECOND + 1),
        Pickup { sound: None, despawn: true }
    );
    assert!(base.parts.is_empty());
    assert!(!part.expired(11 * SECOND));
    assert!(part.expired(11 * SECOND + 1));
}

#[test]
fn old_part_can_still_be_collected() {
    let mut base = Base::new(0);
    let part = Part::new(PartTier::Blue, 0);
    let pickup = base_part_collecting(&mut base, &part, true, 60 * SECOND);
    assert_eq!(pickup, Pickup { sound: Some(Sound::CollectBlue), despawn: true });
    assert_eq!(base.parts.len(), 1);
}

#[test]
fn enemy_wounds_the_player() {
    let mut player = Player::new();
    let hit = enemy_hit_player(&mut player, &enemy(EnemyType::Pawn, 50), true);
    assert_eq!(hit, PlayerHit { enemy_spent: true, returned: false });
    assert_eq!(player.health, 50);
    assert_eq!(player.max_health, 100);
}

#[test]
fn knocked_out_player_returns_to_the_base_healed() {
    let mut player = Player::new();
    player.max_health = 150;
    let hit = enemy_hit_player(&mut player, &enemy(EnemyType::Stinger, 100), true);
    assert_eq!(hit, PlayerHit { enemy_spent: true, returned: true });
    assert_eq!(player.health, 150);
    let mut other = Player::new();
    let hit = enemy_hit_player(&mut other, &enemy(EnemyType::Propagator, 500), true);
    assert!(hit.returned);
    assert_eq!(other.health, 100);
}

#[test]
fn without_a_base_the_player_stays_down() {
    let mut player = Player::new();
    let hit = enemy_hit_player(&mut player, &enemy(EnemyType::Rogue, 200), false);
    assert_eq!(hit, PlayerHit { enemy_spent: true, returned: false });
    assert_eq!(player.health, -100);
}

#[test]
fn dead_enemy_does_not_hurt_the_player() {
    let mut player = Player::new();
    let hit = enemy_hit_player(&mut player, &enemy(EnemyType::Rogue, 0), true);
    assert_eq!(hit, PlayerHit { enemy_spent: false, returned: false });
    assert_eq!(player.health, 100);
    let hit = enemy_hit_player(&mut player, &enemy(EnemyType::Rogue, -30), true);
    assert!(!hit.enemy_spent);
    assert_eq!(player.health, 100);
}
