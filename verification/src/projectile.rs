//! Projectile components: what a gun emits and what collision consumes.
use vstd::prelude::*;

use crate::interaction::Damage;
use crate::interaction::IFF;
use crate::math::Vec2;
use crate::math::MAX_VELOCITY;
use crate::physics::Acceleration;
use crate::physics::Transform;
use crate::physics::Velocity;
use crate::Sprite;
use vstd::string::StringExecFns;

verus! {

/// Marks an entity as a projectile.
#[derive(Clone, Copy, Debug, PartialEq, Eq, Structural)]
pub struct IsProjectile;

/// Steering law of a projectile after launch; only unguided flight is in
/// use, proportional navigation is reserved.
#[derive(Clone, Copy, Debug, PartialEq, Eq, Structural)]
pub enum ProjectileGuidance {
    Unguided,
    ProportionalNavigation,
}

impl Default for ProjectileGuidance {
    fn default() -> (r: Self)
        ensures
            r == ProjectileGuidance::Unguided,
    {
        ProjectileGuidance::Unguided
    }
}

/// Everything a newly spawned projectile carries.
#[derive(Clone, Debug)]
pub struct ProjectileBundle {
    pub is_projectile: IsProjectile,
    pub guidance: ProjectileGuidance,
    pub damage: Damage,
    pub iff: IFF,
    pub transform: Transform,
    pub velocity: Velocity,
    pub acceleration: Acceleration,
    pub sprite: Sprite,
    pub texture: String,
}

impl ProjectileBundle {
    /// Placement on the playfield, a bounded velocity, and non-negative
    /// damage.
    pub open spec fn wf(self) -> bool {
        &&& self.transform.wf()
        &&& self.velocity.0.in_box(MAX_VELOCITY as int)
        &&& self.damage.0 >= 0
    }
}

impl Default for ProjectileBundle {
    fn default() -> (r: Self)
        ensures
            r.is_projectile == IsProjectile,
            r.guidance == ProjectileGuidance::Unguided,
            r.damage == Damage(0),
            r.iff == IFF::Neutral,
            r.transform == (Transform {
                translation: Vec2 { x: 0, y: 0 },
                rotation: Vec2 { x: 0, y: 100 },
                scale: Vec2 { x: 100, y: 100 },
            }),
            r.velocity == Velocity(Vec2 { x: 0, y: 0 }),
            r.acceleration == Acceleration(Vec2 { x: 0, y: 0 }),
            r.sprite == (Sprite { custom_size: None }),
            r.texture@ == ""@,
            r.wf(),
    {
        ProjectileBundle {
            is_projectile: IsProjectile,
            guidance: ProjectileGuidance::Unguided,
            damage: Damage(0),
            iff: IFF::Neutral,
            transform: Transform::default(),
            velocity: Velocity(Vec2 { x: 0, y: 0 }),
            acceleration: Acceleration(Vec2 { x: 0, y: 0 }),
            sprite: Sprite { custom_size: None },
            texture: String::from_str(""),
        }
    }
}

} // verus!
