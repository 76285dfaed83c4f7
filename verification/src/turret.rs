//! Turrets: finding an enemy within reach and firing at it.

use vstd::prelude::*;
use crate::bullet::Bullet;
use crate::geometry::THOUSANDTHS;
use crate::timer::Timer;

verus! {

/// How far a turret sees, in world units.
pub const TURRET_RADAR: u64 = 200;

/// Period of the turrets' shared timer, in nanoseconds.
pub const TURRET_COOLDOWN: u64 = 500_000_000;

/// A turret beside the base.
#[derive(Clone, Copy, Debug, PartialEq, Eq, Structural)]
pub struct Turret {
    /// The enemy it has locked on to, by the identity the engine gave it. The
    /// enemy may have left the field since.
    pub target: Option<u64>,
}

/// A homing missile of a turret.
#[derive(Clone, Copy, Debug, PartialEq, Eq, Structural)]
pub struct TurretMissile {
    /// The enemy it follows, by the identity the engine gave it.
    pub target: Option<u64>,
}

/// Paces the turrets.
#[derive(Clone, Copy, Debug, PartialEq, Eq, Structural)]
pub struct TurretCooldownTimer {
    pub timer: Timer,
}

impl Default for TurretCooldownTimer {
    fn default() -> (it: TurretCooldownTimer)
        ensures
            it.timer == Timer::fresh(TURRET_COOLDOWN),
    {
        TurretCooldownTimer { timer: Timer::new(TURRET_COOLDOWN) }
    }
}

/// Advances the turret timer by one frame of `delta` nanoseconds.
pub fn turret_timer_ticker(turret_timer: &mut TurretCooldownTimer, delta: u64)
    requires
        old(turret_timer).timer.can_tick(delta),
    ensures
        final(turret_timer).timer == old(turret_timer).timer.after(delta),
        final(turret_timer).timer.wf(),
{
    turret_timer.timer.tick(delta);
}

/// What a turret's radar shows of one enemy.
#[derive(Clone, Copy, Debug, PartialEq, Eq, Structural)]
pub struct Blip {
    /// The enemy's identity.
    pub entity: u64,
    /// Distance from the turret, in thousandths of a world unit, rounded down.
    pub distance: u64,
}

/// A shot of a turret.
#[derive(Clone, Copy, Debug, PartialEq, Eq, Structural)]
pub struct Shot {
    /// The place, among the blips, of the enemy to aim at.
    pub at: usize,
    pub bullet: Bullet,
}

/// Whether an enemy is within reach of the radar.
pub open spec fn in_radar(blip: Blip) -> bool {
    blip.distance < TURRET_RADAR * THOUSANDTHS
}

/// Whether the blip at place `at` is the first within reach.
pub open spec fn first_in_radar(blips: Seq<Blip>, at: int) -> bool {
    &&& 0 <= at < blips.len()
    &&& in_radar(blips[at])
    &&& forall|earlier: int| 0 <= earlier < at ==> !in_radar(#[trigger] blips[earlier])
}

/// Whether no blip is within reach.
pub open spec fn radar_clear(blips: Seq<Blip>) -> bool {
    forall|at: int| 0 <= at < blips.len() ==> !in_radar(#[trigger] blips[at])
}

/// Decides what a turret does in a frame at `now`.
///
/// `blips` holds the enemies on the field in the engine's order, and
/// `just_finished` tells whether the turret timer has completed a period in
/// this frame. A turret without a target locks on to the first enemy within
/// [`TURRET_RADAR`]; a target once taken is kept. In a frame in which the
/// timer has completed a period the turret fires one bullet, at the first
/// enemy within reach, whichever its target is; with none in reach it holds
/// its fire.
pub fn turret_movement(turret: &mut Turret, blips: &Vec<Blip>, just_finished: bool, now: u64) -> (shot:
    Option<Shot>)
    ensures
        radar_clear(blips@) ==> shot is None && *final(turret) == *old(turret),
        forall|at: int| #[trigger]
            first_in_radar(blips@, at) ==> {
                &&& final(turret).target == if old(turret).target is Some {
                    old(turret).target
                } else {
                    Some(blips@[at].entity)
                }
                &&& shot == if just_finished {
                    Some(Shot { at: at as usize, bullet: Bullet::fired(now) })
                } else {
                    None
                }
            },
{
    let mut i: usize = 0;
    while i < blips.len()
        invariant
            i <= blips.len(),
            *turret == *old(turret),
            forall|earlier: int| 0 <= earlier < i ==> !in_radar(#[trigger] blips@[earlier]),
        decreases blips.len() - i,
    {
        if blips[i].distance < TURRET_RADAR * (THOUSANDTHS as u64) {
            assert(first_in_radar(blips@, i as int));
            if turret.target.is_none() {
                turret.target = Some(blips[i].entity);
            }
            if just_finished {
                return Some(Shot { at: i, bullet: Bullet::new(now) });
            } else {
                return None;
            }
        }
        i += 1;
    }
    None
}

} // verus!
