//! End-to-end engagement: the player's ship acquires an approaching enemy,
//! computes a firing solution, fires, and the projectile closes the
//! distance and destroys the target.
use space_combat::gun::gun_firing_system;
use space_combat::gun::GunType;
use space_combat::gun_list::turret_gun_spawn_system;
use space_combat::gun_list::GunDefinition;
use space_combat::gun_list::GunDefinitionList;
use space_combat::gun_list::GunName;
use space_combat::interaction::kill_system;
use space_combat::interaction::IFF;
use space_combat::math::Vec2;
use space_combat::physics::object_movement_system;
use space_combat::physics::projectile_collision_system;
use space_combat::physics::Velocity;
use space_combat::ship::Health;
use space_combat::ship::ShipBundle;
use space_combat::ship_list::ShipDefinition;
use space_combat::ship_list::ShipDefinitionList;
use space_combat::ship_list::ShipName;
use space_combat::ship_list::TurretMountDefinition;
use space_combat::spawning::spawn_player_ship;
use space_combat::targeting::turret_target_selection;
use space_combat::targeting::turret_targeting_system;
use space_combat::turret::ship_turret_spawn_system;
use space_combat::turret::TurretNumBarrels;
use space_combat::turret::TurretState;
use space_combat::world::Ship;
use space_combat::world::World;
use space_combat::ItemSize;

/// One simulation tick in the fixed system order: target selection, then
/// intercept solving, then firing, then movement, then collision, then the
/// lifecycle cleanup.
fn tick(world: &mut World, delta_ms: u64) {
    turret_target_selection(world);
    turret_targeting_system(world);
    gun_firing_system(world, delta_ms);
    object_movement_system(world, delta_ms);
    projectile_collision_system(world);
    kill_system(world);
}

#[test]
fn end_to_end_engagement() {
    // Ship A: Friendly, health 100, at the origin, stationary, one nose
    // mount carrying a double small machine-gun turret (projectile speed
    // 300 m/s, 10 shots/s, no spread, no jitter).
    let ships = ShipDefinitionList(vec![ShipDefinition {
        ship_name: ShipName::PlayerTempShip,
        health: Health(100),
        iff: IFF::Friendly,
        texture_path: "a.png".to_string(),
        texture_scale: Vec2 { x: 2000, y: 2000 },
        turret_mounts: vec![TurretMountDefinition {
            size: ItemSize::Small,
            translation: Vec2 { x: 0, y: 0 },
            rotation_degrees: 0,
            field_of_view_degrees: 360,
        }],
    }]);
    let guns = GunDefinitionList(vec![GunDefinition {
        gun_name: GunName::SmallMachinegun,
        gun_type: GunType::Kinetic,
        gun_size: ItemSize::Small,
        projectile_damage: 10,
        rate_of_fire: 10,
        projectile_velocity_mps: 30000,
        velocity_deviation_percent: 0,
        bullet_spread_degrees: 0,
        texture_path: "mg.png".to_string(),
        texture_render_size: Vec2 { x: 1000, y: 1000 },
        projectile_texture: "bullet.png".to_string(),
        projectile_texture_render_size: Vec2 { x: 100, y: 100 },
        fire_sound_path: "mg.ogg".to_string(),
    }]);

    let mut world = World::new();
    spawn_player_ship(&mut world, &ships, &guns).expect("player spawn expected");
    // place the player at the origin for this engagement
    world.ships[0].bundle.transform.translation = Vec2 { x: 0, y: 0 };
    ship_turret_spawn_system(&mut world);
    turret_gun_spawn_system(&mut world);

    // Ship B: Enemy, health 10, 200 m straight ahead, closing at 50 m/s.
    let b_id = world.next_id;
    world.next_id += 1;
    world.ships.push(Ship {
        id: b_id,
        is_player: false,
        bundle: ShipBundle {
            health: Health(10),
            iff: IFF::Enemy,
            transform: space_combat::physics::Transform {
                translation: Vec2 { x: 0, y: 20000 },
                rotation: Vec2 { x: 0, y: 100 },
                // the practice-target box: four metres across, wide enough
                // for the twin barrels' one-and-a-half-metre offset
                scale: Vec2 { x: 400, y: 400 },
            },
            velocity: Velocity(Vec2 { x: 0, y: -5000 }),
            ..Default::default()
        },
        turrets: Vec::new(),
    });

    // After selection the turret acquires ship B; the solver returns the
    // soonest positive intercept (t = 4/7 s) and swings onto a straight-up
    // aim of magnitude 300 m/s; the turret is firing.
    turret_target_selection(&mut world);
    turret_targeting_system(&mut world);
    {
        let turret = &world.ships[0].turrets[0];
        assert_eq!(turret.bundle.turret_properties.target_entity, Some(b_id));
        assert_eq!(turret.bundle.turret_properties.turret_state, TurretState::Firing);
        assert_eq!(turret.bundle.transform.rotation, Vec2 { x: 0, y: 30000 });
    }

    // The first gun cycle has already elapsed, so the first firing pass
    // spawns projectiles immediately (one per barrel), inheriting the
    // carrier's (zero) velocity: straight up at exactly 300 m/s.
    gun_firing_system(&mut world, 1);
    assert_eq!(world.projectiles.len(), 2);
    for p in &world.projectiles {
        assert_eq!(p.bundle.iff, IFF::Friendly);
        assert_eq!(p.bundle.damage, space_combat::interaction::Damage(10));
        assert_eq!(p.bundle.velocity, Velocity(Vec2 { x: 0, y: 30000 }));
    }

    // Run the engagement; the rounds close at 350 m/s and ship B dies on
    // the first hit (damage 10 against health 10).
    let mut destroyed_at: Option<u32> = None;
    for step in 0..2000u32 {
        tick(&mut world, 1);
        if world.ships.len() == 1 {
            destroyed_at = Some(step);
            break;
        }
    }
    let when = destroyed_at.expect("ship B should be destroyed");
    // contact at roughly 200 m / 350 m/s of closing speed
    assert!((400..700).contains(&when));
    assert!(world.ships[0].is_player);
    assert_eq!(world.ships[0].bundle.health, Health(100));
}
