//! Core of a 2D space-combat simulation: ships carry turret mounts, turrets
//! carry guns, guns fire projectiles, projectiles damage ships, and ships are
//! removed when their health reaches zero.
//!
//! All geometry and kinematics use fixed-point integers in hundredths of a
//! metre (and hundredths of a metre per second for speeds), so that every
//! computation of the targeting and fire-control pipeline is exact and
//! verified.
use vstd::prelude::*;

pub mod cartridge_list;
pub mod gun;
pub mod gun_list;
pub mod interaction;
pub mod math;
pub mod physics;
pub mod projectile;
pub mod ship;
pub mod ship_list;
pub mod spawning;
pub mod targeting;
pub mod turret;
pub mod world;

verus! {

/// How an entity is drawn: only the rendered size is carried here; drawing
/// itself is outside the simulation core.
#[derive(Clone, Copy, Debug, PartialEq, Eq, Structural)]
pub struct Sprite {
    pub custom_size: Option<math::Vec2>,
}

impl Default for Sprite {
    fn default() -> (r: Self)
        ensures
            r == (Sprite { custom_size: None }),
    {
        Sprite { custom_size: None }
    }
}

/// Fatal configuration faults: the simulation cannot start from incomplete
/// or inconsistent definitions, so assembly reports these for the caller to
/// abort on.
#[derive(Clone, Copy, Debug, PartialEq, Eq, Structural)]
pub enum ConfigError {
    /// A ship name was not present in the ship definition list.
    ShipNotFound,
    /// A gun name was not present in the gun definition list.
    GunNotFound,
    /// A turret mount index was past the end of a ship's mount list.
    MountOutOfRange,
    /// A gun's size class did not match its mount's size class.
    GunSizeMismatch,
}

/// Size class shared by turret mounts, turrets and guns.
#[derive(Clone, Copy, Debug, PartialEq, Eq, Structural)]
pub enum ItemSize {
    Small,
    Medium,
    Large,
}

impl Default for ItemSize {
    fn default() -> (r: Self)
        ensures
            r == ItemSize::Small,
    {
        ItemSize::Small
    }
}

/// Repeating countdown that paces the periodic spawning of practice targets.
#[derive(Clone, Copy, Debug)]
pub struct SpawnTimer {
    /// Milliseconds until the next expiry.
    pub remaining_ms: u64,
    /// Full period in milliseconds; the timer rearms to this after expiring.
    pub period_ms: u64,
}

impl SpawnTimer {
    /// Advances the timer by `delta_ms`. Returns true when the period
    /// elapsed; the timer then rearms to the full period (surplus time in a
    /// long frame is dropped, the timer never fires twice in one frame).
    pub fn tick(&mut self, delta_ms: u64) -> (fired: bool)
        ensures
            fired == (delta_ms >= old(self).remaining_ms),
            fired ==> final(self).remaining_ms == old(self).period_ms,
            !fired ==> final(self).remaining_ms == old(self).remaining_ms - delta_ms,
            final(self).period_ms == old(self).period_ms,
    {
        if delta_ms >= self.remaining_ms {
            self.remaining_ms = self.period_ms;
            true
        } else {
            self.remaining_ms = self.remaining_ms - delta_ms;
            false
        }
    }
}

} // verus!
