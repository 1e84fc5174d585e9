//! Ship components and assembly: hulls carry turret mounts, and turrets are
//! assembled onto mounts from gun definitions.
use vstd::prelude::*;
use vstd::string::StringExecFns;

use crate::gun::GunProperties;
use crate::gun_list::GunDefinition;
use crate::gun_list::GunDefinitionList;
use crate::gun_list::GunName;
use crate::interaction::IFF;
use crate::math::Vec2;
use crate::math::MAX_SHIP_SPEED;
use crate::math::MAX_VELOCITY;
use crate::physics::Acceleration;
use crate::physics::Transform;
use crate::physics::Velocity;
use crate::turret::gun_offsets;
use crate::turret::lookup_turret_texture;
use crate::turret::turret_texture_size;
use crate::turret::TurretBundle;
use crate::turret::TurretMountNumber;
use crate::turret::TurretNumBarrels;
use crate::turret::TurretProperties;
use crate::turret::TurretState;
use crate::ConfigError;
use crate::ItemSize;
use crate::Sprite;

verus! {

/// Marks the player's own ship.
#[derive(Clone, Copy, Debug, PartialEq, Eq, Structural)]
pub struct IsPlayerShip;

/// Remaining hull strength; the ship is destroyed when it reaches zero.
#[derive(Clone, Copy, Debug, PartialEq, Eq, Structural)]
pub struct Health(pub i64);

/// A fixed attachment point on a ship's hull where a turret may be
/// assembled.
#[derive(Clone, Copy, Debug)]
pub struct ShipTurretMount {
    pub mount_size: ItemSize,
    /// Placement of the mount relative to the ship.
    pub mount_transform: Transform,
    /// Traversal arc of the mount (carried, not yet enforced).
    pub mount_field_of_view_degrees: i64,
    /// The turret currently assembled on this mount, if any.
    pub mount_turret_entity: Option<u64>,
}

/// All turret mounts of a ship.
#[derive(Clone, Debug)]
pub struct ShipTurretMountList(pub Vec<ShipTurretMount>);

/// Turret bundles waiting to be spawned as children of the ship; consumed
/// by the turret spawn pass.
#[derive(Clone, Debug)]
pub struct ShipTurretAssignmentList(pub Option<Vec<TurretBundle>>);

impl ShipTurretAssignmentList {
    /// Resets the list to empty-but-present, ready to receive assignments.
    pub fn new(&mut self)
        ensures
            final(self).0 is Some,
            final(self).0.unwrap()@.len() == 0,
    {
        *self = ShipTurretAssignmentList(Some(Vec::new()));
    }

    /// Appends a turret bundle, materialising the list first if absent.
    pub fn push(&mut self, turret_bundle: TurretBundle)
        ensures
            final(self).0 is Some,
            final(self).0.unwrap()@ == (match old(self).0 {
                Option::None => Seq::<TurretBundle>::empty(),
                Option::Some(v) => v@,
            }).push(turret_bundle),
    {
        let cur = self.0.take();
        let mut v = match cur {
            Option::Some(v) => v,
            Option::None => Vec::new(),
        };
        v.push(turret_bundle);
        self.0 = Some(v);
    }
}

/// The turret state a freshly assembled turret of the given size class
/// starts with: larger turrets traverse more slowly.
pub open spec fn turret_properties_for_size(size: ItemSize) -> TurretProperties {
    TurretProperties {
        rotation_velocity: match size {
            ItemSize::Small => 10000,
            ItemSize::Medium => 5000,
            ItemSize::Large => 2500,
        },
        target_entity: None,
        turret_state: TurretState::NoTarget,
    }
}

/// Everything a newly spawned ship carries.
#[derive(Clone, Debug)]
pub struct ShipBundle {
    pub health: Health,
    pub iff: IFF,
    pub turret_mount_list: ShipTurretMountList,
    pub turret_assignment_list: ShipTurretAssignmentList,
    pub transform: Transform,
    pub velocity: Velocity,
    pub acceleration: Acceleration,
    pub sprite: Sprite,
    pub texture: String,
}

/// The first index in `defs` holding a definition named `name`.
pub open spec fn is_first_gun_match(defs: Seq<GunDefinition>, name: GunName, i: int) -> bool {
    &&& 0 <= i < defs.len()
    &&& defs[i].gun_name == name
    &&& forall|j: int| 0 <= j < i ==> (#[trigger] defs[j]).gun_name != name
}

/// The turret bundle that assembling `def` with `barrels` barrels onto
/// `mount` (mount index `mount_number`) must produce.
pub open spec fn turret_built_matches(
    b: TurretBundle,
    mount: ShipTurretMount,
    mount_number: int,
    def: GunDefinition,
    barrels: TurretNumBarrels,
) -> bool {
    &&& b.turret_size == mount.mount_size
    &&& b.turret_mount_number.0 == mount_number
    &&& b.turret_properties == turret_properties_for_size(mount.mount_size)
    &&& b.transform == mount.mount_transform
    &&& b.gun_properties.gun_type == def.gun_type
    &&& b.gun_properties.gun_size == def.gun_size
    &&& b.gun_properties.rate_of_fire == def.rate_of_fire
    &&& b.gun_properties.projectile_damage == def.projectile_damage
    &&& b.gun_properties.projectile_velocity_mps == def.projectile_velocity_mps
    &&& b.gun_properties.velocity_deviation_percent == def.velocity_deviation_percent
    &&& b.gun_properties.bullet_spread_degrees == def.bullet_spread_degrees
    &&& b.gun_properties.projectile_texture@ == "textures/projectiles/"@ + def.projectile_texture@
    &&& b.gun_properties.projectile_texture_render_size == def.projectile_texture_render_size
    &&& b.gun_properties.fire_sound@ == "audio/sounds/guns/"@ + def.fire_sound_path@
    &&& ({
        let offs = gun_offsets(mount.mount_size, barrels);
        &&& b.gun_assignment_list.0 is Some
        &&& b.gun_assignment_list.0.unwrap()@.len() == offs.len()
        &&& forall|i: int|
            0 <= i < offs.len() ==> (#[trigger] b.gun_assignment_list.0.unwrap()@[i]).transform
                == (Transform {
                translation: offs[i],
                rotation: Vec2 { x: 0, y: 100 },
                scale: Vec2 { x: 100, y: 100 },
            })
        &&& forall|i: int|
            0 <= i < offs.len() ==> (#[trigger] b.gun_assignment_list.0.unwrap()@[i]).texture@
                == "textures/guns/"@ + def.texture_path@
    })
    &&& b.sprite.custom_size == Some(turret_texture_size(mount.mount_size))
    &&& b.texture@ == "textures/turrets/temp_turret.png"@
}

impl ShipBundle {
    /// Placement, kinematics and every pending assignment within the
    /// verified ranges, with each assignment addressing a real mount.
    pub open spec fn wf(self) -> bool {
        &&& self.transform.wf()
        &&& self.velocity.0.in_box(MAX_SHIP_SPEED as int)
        &&& self.acceleration.0.in_box(MAX_VELOCITY as int)
        &&& forall|i: int|
            0 <= i < self.turret_mount_list.0@.len() ==> (#[trigger] self.turret_mount_list.0@[i]).mount_transform.wf()
        &&& match self.turret_assignment_list.0 {
            Option::None => true,
            Option::Some(v) => forall|i: int|
                0 <= i < v@.len() ==> ((#[trigger] v@[i]).wf() && v@[i].turret_mount_number.0
                    < self.turret_mount_list.0@.len()),
        }
    }

    /// Initial turret state for the turret on the given mount; larger
    /// mounts get slower traverse.
    pub fn generate_turret_properties(&self, mount_number: usize) -> (r: TurretProperties)
        requires
            mount_number < self.turret_mount_list.0@.len(),
        ensures
            r == turret_properties_for_size(
                self.turret_mount_list.0@[mount_number as int].mount_size,
            ),
    {
        let rotation_velocity: i64 = match self.turret_mount_list.0[mount_number].mount_size {
            ItemSize::Small => 10000,
            ItemSize::Medium => 5000,
            ItemSize::Large => 2500,
        };
        TurretProperties {
            rotation_velocity,
            target_entity: None,
            turret_state: TurretState::NoTarget,
        }
    }

    /// Assembles a turret carrying the named gun onto the given mount and
    /// queues it on the ship's turret assignment list. Fails fast on a
    /// missing mount, an unknown gun name, or a gun whose size class does
    /// not fit the mount.
    pub fn generate_turret(
        self,
        mount_number: usize,
        gun_name: GunName,
        turret_num_barrels: TurretNumBarrels,
        gun_definition_list: &GunDefinitionList,
    ) -> (r: Result<ShipBundle, ConfigError>)
        requires
            self.wf(),
            gun_definition_list.wf(),
        ensures
            r is Ok ==> r.unwrap().wf(),
            mount_number >= self.turret_mount_list.0@.len() ==> r == Result::<
                ShipBundle,
                ConfigError,
            >::Err(ConfigError::MountOutOfRange),
            (mount_number < self.turret_mount_list.0@.len() && (forall|i: int|
                0 <= i < gun_definition_list.0@.len()
                    ==> (#[trigger] gun_definition_list.0@[i]).gun_name != gun_name)) ==> r
                == Result::<ShipBundle, ConfigError>::Err(ConfigError::GunNotFound),
            forall|i: int|
                (mount_number < self.turret_mount_list.0@.len() && is_first_gun_match(
                    gun_definition_list.0@,
                    gun_name,
                    i,
                )) ==> {
                    let mount = self.turret_mount_list.0@[mount_number as int];
                    let def = #[trigger] gun_definition_list.0@[i];
                    if def.gun_size != mount.mount_size {
                        r == Result::<ShipBundle, ConfigError>::Err(ConfigError::GunSizeMismatch)
                    } else {
                        &&& r is Ok
                        &&& r.unwrap().health == self.health
                        &&& r.unwrap().iff == self.iff
                        &&& r.unwrap().turret_mount_list == self.turret_mount_list
                        &&& r.unwrap().transform == self.transform
                        &&& r.unwrap().velocity == self.velocity
                        &&& r.unwrap().acceleration == self.acceleration
                        &&& r.unwrap().sprite == self.sprite
                        &&& r.unwrap().texture == self.texture
                        &&& r.unwrap().turret_assignment_list.0 is Some
                        &&& ({
                            let new_seq = r.unwrap().turret_assignment_list.0.unwrap()@;
                            let old_seq = match self.turret_assignment_list.0 {
                                Option::None => Seq::<TurretBundle>::empty(),
                                Option::Some(v) => v@,
                            };
                            &&& new_seq.len() == old_seq.len() + 1
                            &&& new_seq.drop_last() =~= old_seq
                            &&& turret_built_matches(
                                new_seq.last(),
                                mount,
                                mount_number as int,
                                def,
                                turret_num_barrels,
                            )
                        })
                        &&& r.unwrap().wf()
                    }
                },
    {
        let mut ship = self;
        if mount_number >= ship.turret_mount_list.0.len() {
            return Err(ConfigError::MountOutOfRange);
        }
        let mount_size = ship.turret_mount_list.0[mount_number].mount_size;
        let defs = &gun_definition_list.0;
        let n = defs.len();
        let mut idx: usize = 0;
        while idx < n && defs[idx].gun_name != gun_name
            invariant
                idx <= n,
                n == defs@.len(),
                forall|j: int| 0 <= j < idx ==> (#[trigger] defs@[j]).gun_name != gun_name,
            decreases n - idx,
        {
            idx = idx + 1;
        }
        if idx == n {
            return Err(ConfigError::GunNotFound);
        }
        let gd = &defs[idx];
        if gd.gun_size != mount_size {
            return Err(ConfigError::GunSizeMismatch);
        }
        let turret_properties = ship.generate_turret_properties(mount_number);
        let (turret_texture, turret_texture_dims) = lookup_turret_texture(
            gun_name,
            mount_size,
            turret_num_barrels,
        );
        let gun_assignment_list = crate::turret::generate_turret_gun_list(
            mount_size,
            turret_num_barrels,
            gd.texture_path.as_str(),
        );
        let turret_bundle = TurretBundle {
            is_turret: crate::turret::IsTurret,
            turret_size: mount_size,
            turret_mount_number: TurretMountNumber(mount_number),
            turret_properties,
            transform: ship.turret_mount_list.0[mount_number].mount_transform,
            gun_properties: GunProperties {
                gun_type: gd.gun_type,
                gun_size: gd.gun_size,
                rate_of_fire: gd.rate_of_fire,
                projectile_damage: gd.projectile_damage,
                projectile_velocity_mps: gd.projectile_velocity_mps,
                velocity_deviation_percent: gd.velocity_deviation_percent,
                bullet_spread_degrees: gd.bullet_spread_degrees,
                projectile_texture: String::from_str("textures/projectiles/").concat(
                    gd.projectile_texture.as_str(),
                ),
                projectile_texture_render_size: gd.projectile_texture_render_size,
                fire_sound: String::from_str("audio/sounds/guns/").concat(
                    gd.fire_sound_path.as_str(),
                ),
            },
            gun_assignment_list,
            sprite: Sprite { custom_size: Some(turret_texture_dims) },
            texture: turret_texture,
        };
        ship.turret_assignment_list.push(turret_bundle);
        Ok(ship)
    }
}

impl Default for ShipBundle {
    fn default() -> (r: Self)
        ensures
            r.health == Health(1),
            r.iff == IFF::Neutral,
            r.turret_mount_list.0@.len() == 0,
            r.turret_assignment_list.0 is None,
            r.transform == (Transform {
                translation: Vec2 { x: 0, y: 0 },
                rotation: Vec2 { x: 0, y: 100 },
                scale: Vec2 { x: 100, y: 100 },
            }),
            r.velocity == Velocity(Vec2 { x: 0, y: 0 }),
            r.acceleration == Acceleration(Vec2 { x: 0, y: 0 }),
            r.sprite == (Sprite { custom_size: None }),
            r.texture@ == ""@,
            r.wf(),
    {
        ShipBundle {
            health: Health(1),
            iff: IFF::Neutral,
            turret_mount_list: ShipTurretMountList(Vec::new()),
            turret_assignment_list: ShipTurretAssignmentList(None),
            transform: Transform::default(),
            velocity: Velocity(Vec2 { x: 0, y: 0 }),
            acceleration: Acceleration(Vec2 { x: 0, y: 0 }),
            sprite: Sprite { custom_size: None },
            texture: String::from_str(""),
        }
    }
}

} // verus!
