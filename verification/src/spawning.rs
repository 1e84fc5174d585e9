//! Spawning: building ships from their definitions, assembling the player's
//! ship at startup, and the periodic practice-target spawner.
use vstd::prelude::*;
use vstd::string::StringExecFns;

use crate::gun_list::GunDefinitionList;
use crate::gun_list::GunName;
use crate::interaction::IFF;
use crate::math::Vec2;
use crate::physics::Acceleration;
use crate::physics::Transform;
use crate::physics::Velocity;
use crate::ship::is_first_gun_match;
use crate::ship::turret_built_matches;
use crate::ship::Health;
use crate::ship::ShipBundle;
use crate::ship::ShipTurretAssignmentList;
use crate::ship::ShipTurretMount;
use crate::ship::ShipTurretMountList;
use crate::ship_list::ShipDefinition;
use crate::ship_list::ShipDefinitionList;
use crate::ship_list::ShipName;
use crate::ship_list::TurretMountDefinition;
use crate::turret::TurretNumBarrels;
use crate::world::Ship;
use crate::world::World;
use crate::ConfigError;
use crate::Sprite;
use crate::SpawnTimer;

verus! {

broadcast use vstd::seq::group_seq_axioms;

/// The hull mount a turret mount definition assembles into: placed on the
/// hull, facing the hull's forward axis, with no turret yet.
pub open spec fn mount_from_def(m: TurretMountDefinition) -> ShipTurretMount {
    ShipTurretMount {
        mount_size: m.size,
        mount_transform: Transform {
            translation: m.translation,
            rotation: Vec2 { x: 0, y: 100 },
            scale: Vec2 { x: 100, y: 100 },
        },
        mount_field_of_view_degrees: m.field_of_view_degrees,
        mount_turret_entity: None,
    }
}

/// The last index in `defs` holding a definition named `name` (when a name
/// occurs twice, the later file wins).
pub open spec fn is_last_ship_match(defs: Seq<ShipDefinition>, name: ShipName, i: int) -> bool {
    &&& 0 <= i < defs.len()
    &&& defs[i].ship_name == name
    &&& forall|j: int| i < j < defs.len() ==> (#[trigger] defs[j]).ship_name != name
}

/// Bundle `b` carries definition `def` placed at `spawn_transform`, except
/// for its pending turret assignments.
pub open spec fn ship_bundle_base_from(
    b: ShipBundle,
    def: ShipDefinition,
    spawn_transform: Transform,
) -> bool {
    &&& b.health == def.health
    &&& b.iff == def.iff
    &&& b.transform == spawn_transform
    &&& b.texture@ == "textures/ships/"@ + def.texture_path@
    &&& b.sprite.custom_size == Some(def.texture_scale)
    &&& b.velocity == Velocity(Vec2 { x: 0, y: 0 })
    &&& b.acceleration == Acceleration(Vec2 { x: 0, y: 0 })
    &&& b.turret_mount_list.0@.len() == def.turret_mounts@.len()
    &&& forall|k: int|
        0 <= k < def.turret_mounts@.len() ==> b.turret_mount_list.0@[k] == mount_from_def(
            #[trigger] def.turret_mounts@[k],
        )
}

/// Bundle `b` is a fresh spawn of definition `def`: the base fields, and no
/// turret assignment queued yet.
pub open spec fn ship_bundle_from(
    b: ShipBundle,
    def: ShipDefinition,
    spawn_transform: Transform,
) -> bool {
    &&& ship_bundle_base_from(b, def, spawn_transform)
    &&& b.turret_assignment_list.0 is None
}

/// Builds a ship bundle from the named definition, placed at
/// `spawn_transform` and starting at rest. The last definition with the
/// name wins; an unknown name is a fatal configuration fault.
pub fn spawn_ship(
    ship_name: ShipName,
    spawn_transform: Transform,
    ship_definition_list: &ShipDefinitionList,
) -> (r: Result<ShipBundle, ConfigError>)
    requires
        spawn_transform.wf(),
        ship_definition_list.wf(),
    ensures
        (forall|i: int|
            0 <= i < ship_definition_list.0@.len()
                ==> (#[trigger] ship_definition_list.0@[i]).ship_name != ship_name) ==> r
            == Result::<ShipBundle, ConfigError>::Err(ConfigError::ShipNotFound),
        r is Ok ==> r.unwrap().wf(),
        r is Ok ==> exists|i: int|
            #[trigger] is_last_ship_match(ship_definition_list.0@, ship_name, i),
        forall|i: int|
            #[trigger] is_last_ship_match(ship_definition_list.0@, ship_name, i) ==> {
                &&& r is Ok
                &&& ship_bundle_from(r.unwrap(), ship_definition_list.0@[i], spawn_transform)
                &&& r.unwrap().wf()
            },
{
    let n = ship_definition_list.0.len();
    let mut k: usize = n;
    while k > 0
        invariant
            k <= n,
            n == ship_definition_list.0@.len(),
            spawn_transform.wf(),
            ship_definition_list.wf(),
            forall|m: int|
                k <= m < n ==> (#[trigger] ship_definition_list.0@[m]).ship_name != ship_name,
        decreases k,
    {
        if ship_definition_list.0[k - 1].ship_name == ship_name {
            let def = &ship_definition_list.0[k - 1];
            proof {
                assert(ship_definition_list.0@[k as int - 1].wf());
                assert(is_last_ship_match(ship_definition_list.0@, ship_name, k as int - 1));
            }
            let nm = def.turret_mounts.len();
            let mut mounts: Vec<ShipTurretMount> = Vec::new();
            let mut q: usize = 0;
            while q < nm
                invariant
                    q <= nm,
                    nm == def.turret_mounts@.len(),
                    def == ship_definition_list.0@[k as int - 1],
                    def.wf(),
                    0 < k <= n,
                    n == ship_definition_list.0@.len(),
                    ship_definition_list.wf(),
                    mounts@.len() == q,
                    forall|m: int|
                        0 <= m < q ==> mounts@[m] == mount_from_def(
                            #[trigger] def.turret_mounts@[m],
                        ),
                    forall|m: int| 0 <= m < q ==> (#[trigger] mounts@[m]).mount_transform.wf(),
                decreases nm - q,
            {
                let md = &def.turret_mounts[q];
                proof {
                    assert(def.turret_mounts@[q as int].translation.in_box(
                        crate::math::MAX_COORD as int,
                    ));
                }
                mounts.push(
                    ShipTurretMount {
                        mount_size: md.size,
                        mount_transform: Transform {
                            translation: md.translation,
                            rotation: Vec2 { x: 0, y: 100 },
                            scale: Vec2 { x: 100, y: 100 },
                        },
                        mount_field_of_view_degrees: md.field_of_view_degrees,
                        mount_turret_entity: None,
                    },
                );
                q = q + 1;
            }
            let bundle = ShipBundle {
                health: def.health,
                iff: def.iff,
                turret_mount_list: ShipTurretMountList(mounts),
                turret_assignment_list: ShipTurretAssignmentList(None),
                transform: spawn_transform,
                velocity: Velocity(Vec2 { x: 0, y: 0 }),
                acceleration: Acceleration(Vec2 { x: 0, y: 0 }),
                sprite: Sprite { custom_size: Some(def.texture_scale) },
                texture: String::from_str("textures/ships/").concat(def.texture_path.as_str()),
            };
            return Ok(bundle);
        }
        k = k - 1;
    }
    Err(ConfigError::ShipNotFound)
}

/// Where the player's ship spawns: half a kilometre below the origin,
/// facing forward, at rest.
pub open spec fn player_spawn_transform() -> Transform {
    Transform {
        translation: Vec2 { x: 0, y: -50000i64 },
        rotation: Vec2 { x: 0, y: 100 },
        scale: Vec2 { x: 100, y: 100 },
    }
}

/// Spawns the player's ship at game start: the player hull from the ship
/// definitions, with a double-barrelled small machine-gun turret queued on
/// its nose mount. Any missing or mismatched definition is a fatal
/// configuration fault, reported with the world untouched.
pub fn spawn_player_ship(
    world: &mut World,
    ship_definition_list: &ShipDefinitionList,
    gun_definition_list: &GunDefinitionList,
) -> (r: Result<(), ConfigError>)
    requires
        old(world).wf(),
        old(world).next_id < u64::MAX,
        ship_definition_list.wf(),
        gun_definition_list.wf(),
    ensures
        final(world).wf(),
        r is Err ==> *final(world) == *old(world),
        (forall|i: int|
            0 <= i < ship_definition_list.0@.len()
                ==> (#[trigger] ship_definition_list.0@[i]).ship_name != ShipName::PlayerTempShip)
            ==> r == Result::<(), ConfigError>::Err(ConfigError::ShipNotFound),
        forall|i: int|
            is_last_ship_match(ship_definition_list.0@, ShipName::PlayerTempShip, i) ==> {
                let sdef = #[trigger] ship_definition_list.0@[i];
                if sdef.turret_mounts@.len() == 0 {
                    r == Result::<(), ConfigError>::Err(ConfigError::MountOutOfRange)
                } else {
                    &&& (forall|j: int|
                        0 <= j < gun_definition_list.0@.len()
                            ==> (#[trigger] gun_definition_list.0@[j]).gun_name
                            != GunName::SmallMachinegun) ==> r == Result::<(), ConfigError>::Err(
                        ConfigError::GunNotFound,
                    )
                    &&& forall|j: int|
                        is_first_gun_match(
                            gun_definition_list.0@,
                            GunName::SmallMachinegun,
                            j,
                        ) ==> {
                            let gdef = #[trigger] gun_definition_list.0@[j];
                            if gdef.gun_size != sdef.turret_mounts@[0].size {
                                r == Result::<(), ConfigError>::Err(ConfigError::GunSizeMismatch)
                            } else {
                                &&& r is Ok
                                &&& final(world).next_id == old(world).next_id + 1
                                &&& final(world).projectiles == old(world).projectiles
                                &&& final(world).ships@.len() == old(world).ships@.len() + 1
                                &&& final(world).ships@.take(old(world).ships@.len() as int) == old(
                                    world,
                                ).ships@
                                &&& ({
                                    let ns = final(world).ships@.last();
                                    &&& ns.id == old(world).next_id
                                    &&& ns.is_player
                                    &&& ns.turrets@.len() == 0
                                    &&& ns.bundle.wf()
                                    &&& ship_bundle_base_from(
                                        ns.bundle,
                                        sdef,
                                        player_spawn_transform(),
                                    )
                                    &&& ns.bundle.turret_assignment_list.0 is Some
                                    &&& ns.bundle.turret_assignment_list.0.unwrap()@.len() == 1
                                    &&& turret_built_matches(
                                        ns.bundle.turret_assignment_list.0.unwrap()@[0],
                                        mount_from_def(sdef.turret_mounts@[0]),
                                        0,
                                        gdef,
                                        TurretNumBarrels::Double,
                                    )
                                })
                            }
                        }
                }
            },
{
    let spawn_transform = Transform::from_translation(Vec2 { x: 0, y: -50000 });
    let built = spawn_ship(ShipName::PlayerTempShip, spawn_transform, ship_definition_list);
    let bundle = match built {
        Ok(b) => b,
        Err(e) => {
            return Err(e);
        },
    };
    let armed = bundle.generate_turret(
        0,
        GunName::SmallMachinegun,
        TurretNumBarrels::Double,
        gun_definition_list,
    );
    let b2 = match armed {
        Ok(b) => b,
        Err(e) => {
            return Err(e);
        },
    };
    let id = world.next_id;
    world.next_id = world.next_id + 1;
    let ghost before = world.ships@;
    world.ships.push(Ship { id, is_player: true, bundle: b2, turrets: Vec::new() });
    proof {
        assert(world.ships@.take(before.len() as int) =~= before);
    }
    Ok(())
}

/// The periodic practice-target spawner: when the repeating timer expires,
/// one enemy target appears somewhere along the line five hundred metres up,
/// drifting down the playfield with a random sideways component, with ten
/// health and a four-metre collision box.
pub fn target_spawn_system(world: &mut World, timer: &mut SpawnTimer, delta_ms: u64)
    requires
        old(world).wf(),
        old(world).next_id < u64::MAX,
    ensures
        final(world).wf(),
        final(timer).period_ms == old(timer).period_ms,
        delta_ms >= old(timer).remaining_ms ==> final(timer).remaining_ms == old(timer).period_ms,
        delta_ms < old(timer).remaining_ms ==> final(timer).remaining_ms == old(timer).remaining_ms
            - delta_ms,
        delta_ms < old(timer).remaining_ms ==> *final(world) == *old(world),
        delta_ms >= old(timer).remaining_ms ==> {
            &&& final(world).next_id == old(world).next_id + 1
            &&& final(world).projectiles == old(world).projectiles
            &&& final(world).ships@.len() == old(world).ships@.len() + 1
            &&& final(world).ships@.take(old(world).ships@.len() as int) == old(world).ships@
            &&& ({
                let ns = final(world).ships@.last();
                &&& ns.id == old(world).next_id
                &&& !ns.is_player
                &&& ns.turrets@.len() == 0
                &&& ns.bundle.health == Health(10)
                &&& ns.bundle.iff == IFF::Enemy
                &&& ns.bundle.turret_mount_list.0@.len() == 0
                &&& ns.bundle.turret_assignment_list.0 is None
                &&& ns.bundle.transform.translation.y == 40000
                &&& ns.bundle.transform.scale == (Vec2 { x: 400, y: 400 })
                &&& ns.bundle.acceleration == Acceleration(Vec2 { x: 0, y: 0 })
                &&& exists|r1: int, r2: int, r3: int|
                    {
                        &&& 0 <= #[trigger] (r1 * 60000) && 0 <= r1 < 65536
                        &&& 0 <= r2 < 65536
                        &&& 0 <= r3 < 65536
                        &&& ns.bundle.transform.translation.x == r1 * 60000 / 65536 - 30000
                        &&& ns.bundle.velocity.0.x == #[trigger] (r2 * 8000) / 65536 - 1000
                        &&& ns.bundle.velocity.0.y == -(#[trigger] (r3 * 8000) / 65536) - 2000
                    }
            })
        },
{
    let fired = timer.tick(delta_ms);
    if fired {
        let r1 = crate::gun::draw_sample();
        let r2 = crate::gun::draw_sample();
        let r3 = crate::gun::draw_sample();
        let px: i64 = (r1 as i64) * 60000 / 65536 - 30000;
        let vx: i64 = (r2 as i64) * 8000 / 65536 - 1000;
        let vy: i64 = -((r3 as i64) * 8000 / 65536) - 2000;
        let id = world.next_id;
        world.next_id = world.next_id + 1;
        let ghost before = world.ships@;
        world.ships.push(
            Ship {
                id,
                is_player: false,
                bundle: ShipBundle {
                    health: Health(10),
                    iff: IFF::Enemy,
                    turret_mount_list: ShipTurretMountList(Vec::new()),
                    turret_assignment_list: ShipTurretAssignmentList(None),
                    transform: Transform {
                        translation: Vec2 { x: px, y: 40000 },
                        rotation: Vec2 { x: 0, y: 100 },
                        scale: Vec2 { x: 400, y: 400 },
                    },
                    velocity: Velocity(Vec2 { x: vx, y: vy }),
                    acceleration: Acceleration(Vec2 { x: 0, y: 0 }),
                    sprite: Sprite { custom_size: None },
                    texture: String::from_str(""),
                },
                turrets: Vec::new(),
            },
        );
        proof {
            assert(world.ships@.take(before.len() as int) =~= before);
        }
    }
}

} // verus!
