//! Bullets: how long they live and what they carry.

use vstd::prelude::*;
use crate::clock::{elapsed, elapsed_since};
use crate::geometry::{Field, Point, Size};

verus! {

/// Lifetime of a bullet, in nanoseconds.
pub const BULLET_LIFETIME: u64 = 1_500_000_000;

/// Speed of a bullet as it leaves the barrel.
pub const BULLET_SPEED: u32 = 250;

/// Side of the box by which a bullet is held within the play area; a bullet
/// leaves the field once its centre is closer than half of it to an edge.
pub const BULLET_SIZE: u32 = 16;

/// Half of [`BULLET_SIZE`].
pub const BULLET_MARGIN: u32 = 8;

/// Damage of a bullet as it leaves the barrel.
pub const BULLET_DAMAGE: i64 = 50;

/// A bullet in flight.
#[derive(Clone, Copy, Debug, PartialEq, Eq, Structural)]
pub struct Bullet {
    pub speed: u32,
    pub size: Size,
    pub damage: i64,
    /// When it was fired.
    pub instant: u64,
}

/// Speed of every live bullet while the base is at `level`.
pub open spec fn bullet_speed_at(level: i64) -> u32 {
    if level == 1 {
        300
    } else if level == 2 {
        350
    } else if level == 3 {
        400
    } else if level == 4 {
        450
    } else if level == 5 {
        500
    } else if level == 6 {
        550
    } else {
        600
    }
}

/// Damage of every live bullet while the base is at `level`.
pub open spec fn bullet_damage_at(level: i64) -> i64 {
    if level == 1 {
        50
    } else if level == 2 {
        60
    } else if level == 3 {
        70
    } else if level == 4 {
        80
    } else if level == 5 {
        90
    } else {
        100
    }
}

impl Bullet {
    /// The bullet that a shot at `now` puts in flight.
    pub open spec fn fired(now: u64) -> Bullet {
        Bullet { speed: BULLET_SPEED, size: Size::square(10), damage: BULLET_DAMAGE, instant: now }
    }

    /// Fires a bullet at `now`.
    pub fn new(now: u64) -> (bullet: Bullet)
        ensures
            bullet == Bullet::fired(now),
    {
        Bullet { speed: BULLET_SPEED, size: Size::new(10, 10), damage: BULLET_DAMAGE, instant: now }
    }

    /// Whether the bullet has reached the end of its lifetime at `now`.
    pub open spec fn spent(self, now: u64) -> bool {
        elapsed_since(now, self.instant) >= BULLET_LIFETIME
    }

    /// The bullet as the base's level rescales it.
    pub open spec fn scaled(self, base_level: Option<i64>) -> Bullet {
        match base_level {
            Some(level) => Bullet {
                speed: bullet_speed_at(level),
                damage: bullet_damage_at(level),
                ..self
            },
            None => self,
        }
    }
}

/// One frame of a bullet's life, after the engine has moved it to `place`.
///
/// The bullet is to be removed when it has come closer than
/// [`BULLET_MARGIN`] to an edge of the play area or has lived for
/// [`BULLET_LIFETIME`]; it is never removed earlier. Where a base stands, the
/// bullet takes the speed and damage of the base's current level.
pub fn update_bullets(
    bullet: &mut Bullet,
    now: u64,
    place: Point,
    field: &Field,
    base_level: Option<i64>,
) -> (despawn: bool)
    ensures
        despawn == removed(*old(bullet), now, place, *field),
        *final(bullet) == old(bullet).scaled(base_level),
{
    let outside = field.is_outside(place, BULLET_MARGIN);
    let despawn = elapsed(now, bullet.instant) >= BULLET_LIFETIME || outside;
    match base_level {
        Some(level) => {
            if level == 1 {
                bullet.speed = 300;
                bullet.damage = 50;
            } else if level == 2 {
                bullet.speed = 350;
                bullet.damage = 60;
            } else if level == 3 {
                bullet.speed = 400;
                bullet.damage = 70;
            } else if level == 4 {
                bullet.speed = 450;
                bullet.damage = 80;
            } else if level == 5 {
                bullet.speed = 500;
                bullet.damage = 90;
            } else if level == 6 {
                bullet.speed = 550;
                bullet.damage = 100;
            } else {
                bullet.speed = 600;
                bullet.damage = 100;
            }
        },
        None => {},
    }
    despawn
}

/// Whether a frame at `now` removes a bullet at `place`.
pub open spec fn removed(bullet: Bullet, now: u64, place: Point, field: Field) -> bool {
    bullet.spent(now) || field.leaves(place, BULLET_MARGIN)
}

/// A bullet that stays on the field is removed exactly when its age reaches
/// [`BULLET_LIFETIME`]: in no frame while it is younger, in the frame in which
/// it reaches that age, and in every frame after.
pub proof fn bullet_lifetime_is_exact(bullet: Bullet, now: u64, place: Point, field: Field)
    requires
        !field.leaves(place, BULLET_MARGIN),
    ensures
        removed(bullet, now, place, field) <==> elapsed_since(now, bullet.instant)
            >= BULLET_LIFETIME,
        now < bullet.instant + BULLET_LIFETIME ==> !removed(bullet, now, place, field),
        now == bullet.instant + BULLET_LIFETIME ==> removed(bullet, now, place, field),
{
}

} // verus!
