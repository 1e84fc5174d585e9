//! Tests of definition records, template builders, and the assembly of
//! ship / turret / gun hierarchies.
use space_combat::cartridge_list::write_cartridge_definition_template;
use space_combat::cartridge_list::ProjectileName;
use space_combat::gun::cycle_period_ms;
use space_combat::gun::GunCycleTimer;
use space_combat::gun::GunType;
use space_combat::gun_list::turret_gun_spawn_system;
use space_combat::gun_list::write_gun_definition_template;
use space_combat::gun_list::GunDefinition;
use space_combat::gun_list::GunDefinitionList;
use space_combat::gun_list::GunName;
use space_combat::interaction::IFF;
use space_combat::math::Vec2;
use space_combat::physics::Acceleration;
use space_combat::physics::Velocity;
use space_combat::projectile::ProjectileGuidance;
use space_combat::ship::Health;
use space_combat::ship::ShipTurretAssignmentList;
use space_combat::ship_list::write_ship_definition_template;
use space_combat::ship_list::ShipDefinition;
use space_combat::ship_list::ShipDefinitionList;
use space_combat::ship_list::ShipName;
use space_combat::ship_list::TurretMountDefinition;
use space_combat::spawning::spawn_player_ship;
use space_combat::spawning::spawn_ship;
use space_combat::spawning::target_spawn_system;
use space_combat::turret::generate_turret_gun_list;
use space_combat::turret::lookup_turret_texture;
use space_combat::turret::ship_turret_spawn_system;
use space_combat::turret::TurretBundle;
use space_combat::turret::TurretNumBarrels;
use space_combat::turret::TurretState;
use space_combat::world::World;
use space_combat::ConfigError;
use space_combat::ItemSize;
use space_combat::SpawnTimer;
use space_combat::Sprite;

fn template_mounts() -> Vec<TurretMountDefinition> {
    vec![TurretMountDefinition {
        size: ItemSize::Small,
        translation: Vec2 { x: 0, y: 0 },
        rotation_degrees: 0,
        field_of_view_degrees: 360,
    }]
}

fn player_def(health: i64) -> ShipDefinition {
    ShipDefinition {
        ship_name: ShipName::PlayerTempShip,
        health: Health(health),
        iff: IFF::Friendly,
        texture_path: "player.png".to_string(),
        texture_scale: Vec2 { x: 2000, y: 2000 },
        turret_mounts: template_mounts(),
    }
}

fn small_machinegun_def() -> GunDefinition {
    GunDefinition {
        gun_name: GunName::SmallMachinegun,
        gun_type: GunType::Kinetic,
        gun_size: ItemSize::Small,
        projectile_damage: 10,
        rate_of_fire: 10,
        projectile_velocity_mps: 30000,
        velocity_deviation_percent: 0,
        bullet_spread_degrees: 0,
        texture_path: "mg.png".to_string(),
        texture_render_size: Vec2 { x: 1000, y: 1000 },
        projectile_texture: "bullet.png".to_string(),
        projectile_texture_render_size: Vec2 { x: 100, y: 100 },
        fire_sound_path: "mg.ogg".to_string(),
    }
}

#[test]
fn ship_template_fields() {
    let t = write_ship_definition_template();
    assert_eq!(t.ship_name, ShipName::TemplateShip);
    assert_eq!(t.health, Health(100));
    assert_eq!(t.iff, IFF::Friendly);
    assert_eq!(t.texture_path, "template_texture.png");
    assert_eq!(t.texture_scale, Vec2 { x: 20000, y: 20000 });
    assert_eq!(t.turret_mounts.len(), 3);
    assert_eq!(t.turret_mounts[0].size, ItemSize::Small);
    assert_eq!(t.turret_mounts[0].translation, Vec2 { x: -1230, y: 4560 });
    assert_eq!(t.turret_mounts[0].rotation_degrees, -45);
    assert_eq!(t.turret_mounts[0].field_of_view_degrees, 270);
    assert_eq!(t.turret_mounts[1].size, ItemSize::Medium);
    assert_eq!(t.turret_mounts[1].translation, Vec2 { x: 7890, y: 1000 });
    assert_eq!(t.turret_mounts[2].size, ItemSize::Large);
    assert_eq!(t.turret_mounts[2].field_of_view_degrees, 90);
    assert!(t.is_valid());
}

#[test]
fn gun_template_fields() {
    let t = write_gun_definition_template();
    assert_eq!(t.gun_name, GunName::TemplateGun);
    assert_eq!(t.gun_type, GunType::Kinetic);
    assert_eq!(t.gun_size, ItemSize::Small);
    assert_eq!(t.projectile_damage, 10);
    assert_eq!(t.rate_of_fire, 10);
    assert_eq!(t.projectile_velocity_mps, 40000);
    assert_eq!(t.velocity_deviation_percent, 1);
    assert_eq!(t.bullet_spread_degrees, 4);
    assert_eq!(t.texture_path, "template_texture.png");
    assert_eq!(t.projectile_texture, "template_proj_texture.png");
    assert_eq!(t.fire_sound_path, "template_audio.ogg");
    assert!(t.is_valid());
}

#[test]
fn cartridge_template_fields() {
    let t = write_cartridge_definition_template();
    assert_eq!(t.num_projectiles, 1);
    assert_eq!(t.projectile_name, ProjectileName::TemplateProjectile);
    assert_eq!(t.guidance, ProjectileGuidance::Unguided);
    assert_eq!(t.projectile_damage, 10);
    assert_eq!(t.projectile_velocity_mps, 10000);
    assert_eq!(t.velocity_deviation_percent, 1);
    assert_eq!(t.bullet_spread_degrees, 4);
    assert_eq!(t.texture_path, "template_proj_texture.png");
    assert_eq!(t.texture_render_size, Vec2 { x: 100, y: 100 });
}

#[test]
fn spawn_ship_last_definition_wins() {
    let list = ShipDefinitionList(vec![player_def(50), player_def(75)]);
    let t = space_combat::physics::Transform::default();
    let bundle = spawn_ship(ShipName::PlayerTempShip, t, &list).expect("spawn expected");
    assert_eq!(bundle.health, Health(75));
    assert_eq!(bundle.iff, IFF::Friendly);
    assert_eq!(bundle.texture, "textures/ships/player.png");
    assert_eq!(bundle.sprite, Sprite { custom_size: Some(Vec2 { x: 2000, y: 2000 }) });
    assert_eq!(bundle.velocity, Velocity(Vec2 { x: 0, y: 0 }));
    assert_eq!(bundle.acceleration, Acceleration(Vec2 { x: 0, y: 0 }));
    assert_eq!(bundle.turret_mount_list.0.len(), 1);
    assert_eq!(bundle.turret_mount_list.0[0].mount_size, ItemSize::Small);
    assert!(bundle.turret_mount_list.0[0].mount_turret_entity.is_none());
    assert!(bundle.turret_assignment_list.0.is_none());
}

#[test]
fn spawn_ship_unknown_name_fails() {
    let list = ShipDefinitionList(vec![player_def(50)]);
    let t = space_combat::physics::Transform::default();
    let r = spawn_ship(ShipName::TemplateShip, t, &list);
    assert_eq!(r.unwrap_err(), ConfigError::ShipNotFound);
}

#[test]
fn generate_turret_success_queues_bundle() {
    let ships = ShipDefinitionList(vec![player_def(100)]);
    let guns = GunDefinitionList(vec![small_machinegun_def()]);
    let t = space_combat::physics::Transform::default();
    let bundle = spawn_ship(ShipName::PlayerTempShip, t, &ships).unwrap();
    let armed = bundle
        .generate_turret(0, GunName::SmallMachinegun, TurretNumBarrels::Double, &guns)
        .expect("assembly expected");
    let queued = armed.turret_assignment_list.0.as_ref().expect("assignments expected");
    assert_eq!(queued.len(), 1);
    let tb = &queued[0];
    assert_eq!(tb.turret_size, ItemSize::Small);
    assert_eq!(tb.turret_mount_number.0, 0);
    assert_eq!(tb.turret_properties.rotation_velocity, 10000);
    assert_eq!(tb.turret_properties.turret_state, TurretState::NoTarget);
    assert_eq!(tb.gun_properties.rate_of_fire, 10);
    assert_eq!(tb.gun_properties.projectile_velocity_mps, 30000);
    assert_eq!(tb.gun_properties.projectile_texture, "textures/projectiles/bullet.png");
    assert_eq!(tb.gun_properties.fire_sound, "audio/sounds/guns/mg.ogg");
    assert_eq!(tb.texture, "textures/turrets/temp_turret.png");
    assert_eq!(tb.sprite.custom_size, Some(Vec2 { x: 2000, y: 2000 }));
    let gun_list = tb.gun_assignment_list.0.as_ref().expect("gun list expected");
    assert_eq!(gun_list.len(), 2);
    assert_eq!(gun_list[0].transform.translation, Vec2 { x: -150, y: 200 });
    assert_eq!(gun_list[1].transform.translation, Vec2 { x: 150, y: 200 });
    assert_eq!(gun_list[0].texture, "textures/guns/mg.png");
    assert_eq!(gun_list[0].texture_size, Vec2 { x: 1000, y: 1000 });
}

#[test]
fn generate_turret_unknown_gun_fails() {
    let ships = ShipDefinitionList(vec![player_def(100)]);
    let guns = GunDefinitionList(vec![]);
    let t = space_combat::physics::Transform::default();
    let bundle = spawn_ship(ShipName::PlayerTempShip, t, &ships).unwrap();
    let r = bundle.generate_turret(0, GunName::SmallMachinegun, TurretNumBarrels::Single, &guns);
    assert_eq!(r.unwrap_err(), ConfigError::GunNotFound);
}

#[test]
fn generate_turret_mount_out_of_range_fails() {
    let ships = ShipDefinitionList(vec![player_def(100)]);
    let guns = GunDefinitionList(vec![small_machinegun_def()]);
    let t = space_combat::physics::Transform::default();
    let bundle = spawn_ship(ShipName::PlayerTempShip, t, &ships).unwrap();
    let r = bundle.generate_turret(5, GunName::SmallMachinegun, TurretNumBarrels::Single, &guns);
    assert_eq!(r.unwrap_err(), ConfigError::MountOutOfRange);
}

#[test]
fn generate_turret_size_mismatch_fails() {
    let ships = ShipDefinitionList(vec![player_def(100)]);
    let mut oversized = small_machinegun_def();
    oversized.gun_size = ItemSize::Large;
    let guns = GunDefinitionList(vec![oversized]);
    let t = space_combat::physics::Transform::default();
    let bundle = spawn_ship(ShipName::PlayerTempShip, t, &ships).unwrap();
    let r = bundle.generate_turret(0, GunName::SmallMachinegun, TurretNumBarrels::Single, &guns);
    assert_eq!(r.unwrap_err(), ConfigError::GunSizeMismatch);
}

#[test]
fn lookup_turret_texture_sizes() {
    let (path, small) =
        lookup_turret_texture(GunName::SmallMachinegun, ItemSize::Small, TurretNumBarrels::Single);
    assert_eq!(path, "textures/turrets/temp_turret.png");
    assert_eq!(small, Vec2 { x: 2000, y: 2000 });
    let (_, medium) =
        lookup_turret_texture(GunName::SmallMachinegun, ItemSize::Medium, TurretNumBarrels::Double);
    assert_eq!(medium, Vec2 { x: 4000, y: 4000 });
    let (_, large) =
        lookup_turret_texture(GunName::SmallMachinegun, ItemSize::Large, TurretNumBarrels::Triple);
    assert_eq!(large, Vec2 { x: 8000, y: 8000 });
}

#[test]
fn gun_list_layouts() {
    let triple = generate_turret_gun_list(ItemSize::Medium, TurretNumBarrels::Triple, "g.png");
    let guns = triple.0.expect("list expected");
    assert_eq!(guns.len(), 3);
    assert_eq!(guns[0].transform.translation, Vec2 { x: -80, y: 200 });
    assert_eq!(guns[1].transform.translation, Vec2 { x: 0, y: 200 });
    assert_eq!(guns[2].transform.translation, Vec2 { x: 80, y: 200 });
    assert_eq!(guns[0].texture, "textures/guns/g.png");

    let single = generate_turret_gun_list(ItemSize::Large, TurretNumBarrels::Single, "g.png");
    assert_eq!(single.0.expect("list expected").len(), 1);
}

#[test]
fn assignment_list_new_and_push() {
    let mut list = ShipTurretAssignmentList(None);
    list.push(TurretBundle::default());
    assert_eq!(list.0.as_ref().expect("materialised").len(), 1);
    list.push(TurretBundle::default());
    assert_eq!(list.0.as_ref().expect("materialised").len(), 2);
    list.new();
    assert_eq!(list.0.as_ref().expect("reset").len(), 0);
}

#[test]
fn player_spawn_and_child_spawn_passes() {
    let ships = ShipDefinitionList(vec![player_def(100)]);
    let guns = GunDefinitionList(vec![small_machinegun_def()]);
    let mut world = World::new();
    spawn_player_ship(&mut world, &ships, &guns).expect("player spawn expected");
    assert_eq!(world.ships.len(), 1);
    assert!(world.ships[0].is_player);
    assert_eq!(world.ships[0].bundle.health, Health(100));
    assert_eq!(world.ships[0].bundle.transform.translation, Vec2 { x: 0, y: -50000 });
    assert_eq!(world.ships[0].turrets.len(), 0);

    ship_turret_spawn_system(&mut world);
    assert_eq!(world.ships[0].turrets.len(), 1);
    let turret_id = world.ships[0].turrets[0].id;
    assert_eq!(
        world.ships[0].bundle.turret_mount_list.0[0].mount_turret_entity,
        Some(turret_id)
    );
    assert_eq!(
        world.ships[0].bundle.turret_assignment_list.0.as_ref().expect("consumed").len(),
        0
    );
    assert_eq!(world.ships[0].turrets[0].guns.len(), 0);

    turret_gun_spawn_system(&mut world);
    let guns_spawned = &world.ships[0].turrets[0].guns;
    assert_eq!(guns_spawned.len(), 2);
    // assignments are consumed from the back of the list
    assert_eq!(guns_spawned[0].transform.translation, Vec2 { x: 150, y: 200 });
    assert_eq!(guns_spawned[1].transform.translation, Vec2 { x: -150, y: 200 });
    assert_eq!(guns_spawned[0].cycle_timer, GunCycleTimer(0));
}

#[test]
fn player_spawn_missing_definition_fails() {
    let ships = ShipDefinitionList(vec![]);
    let guns = GunDefinitionList(vec![small_machinegun_def()]);
    let mut world = World::new();
    let r = spawn_player_ship(&mut world, &ships, &guns);
    assert_eq!(r.unwrap_err(), ConfigError::ShipNotFound);
    assert_eq!(world.ships.len(), 0);
}

#[test]
fn turret_replacement_on_occupied_mount() {
    let ships = ShipDefinitionList(vec![player_def(100)]);
    let guns = GunDefinitionList(vec![small_machinegun_def()]);
    let mut world = World::new();
    spawn_player_ship(&mut world, &ships, &guns).unwrap();
    ship_turret_spawn_system(&mut world);
    let first_id = world.ships[0].turrets[0].id;

    // queue a fresh turret for the same mount
    let bundle = world.ships[0].bundle.clone();
    let rearmed = bundle
        .generate_turret(0, GunName::SmallMachinegun, TurretNumBarrels::Single, &guns)
        .unwrap();
    world.ships[0].bundle = rearmed;
    ship_turret_spawn_system(&mut world);

    assert_eq!(world.ships[0].turrets.len(), 1);
    let second_id = world.ships[0].turrets[0].id;
    assert_ne!(first_id, second_id);
    assert_eq!(
        world.ships[0].bundle.turret_mount_list.0[0].mount_turret_entity,
        Some(second_id)
    );
}

#[test]
fn spawn_timer_and_cycle_period() {
    assert_eq!(cycle_period_ms(10), 100);
    assert_eq!(cycle_period_ms(1), 1000);
    let mut timer = SpawnTimer { remaining_ms: 500, period_ms: 500 };
    assert!(!timer.tick(200));
    assert_eq!(timer.remaining_ms, 300);
    assert!(timer.tick(400));
    assert_eq!(timer.remaining_ms, 500);
}

#[test]
fn target_spawner_spawns_enemy_in_band() {
    let mut world = World::new();
    let mut timer = SpawnTimer { remaining_ms: 500, period_ms: 500 };
    target_spawn_system(&mut world, &mut timer, 100);
    assert_eq!(world.ships.len(), 0);
    target_spawn_system(&mut world, &mut timer, 400);
    assert_eq!(world.ships.len(), 1);
    let target = &world.ships[0];
    assert_eq!(target.bundle.health, Health(10));
    assert_eq!(target.bundle.iff, IFF::Enemy);
    assert_eq!(target.bundle.transform.translation.y, 40000);
    assert_eq!(target.bundle.transform.scale, Vec2 { x: 400, y: 400 });
    let x = target.bundle.transform.translation.x;
    assert!((-30000..30000).contains(&x));
    let v = target.bundle.velocity.0;
    assert!((-1000..7000).contains(&v.x));
    assert!((-10000..=-2000).contains(&v.y));
}

#[test]
fn definition_validation() {
    assert!(small_machinegun_def().is_valid());
    let mut bad = small_machinegun_def();
    bad.rate_of_fire = 0;
    assert!(!bad.is_valid());
    let mut too_fast = small_machinegun_def();
    too_fast.projectile_velocity_mps = 1 << 40;
    assert!(!too_fast.is_valid());
    assert!(player_def(100).is_valid());
    let mut far = player_def(100);
    far.turret_mounts[0].translation.x = i64::MAX;
    assert!(!far.is_valid());
}

#[test]
fn velocity_and_acceleration_difference() {
    let v = Velocity(Vec2 { x: 500, y: -200 }).sub(Velocity(Vec2 { x: 100, y: 300 }));
    assert_eq!(v.0, Vec2 { x: 400, y: -500 });
    let a = Acceleration(Vec2 { x: 10, y: 20 }).sub(Acceleration(Vec2 { x: 30, y: 5 }));
    assert_eq!(a.0, Vec2 { x: -20, y: 15 });
}

#[test]
fn component_defaults() {
    assert_eq!(ItemSize::default(), ItemSize::Small);
    assert_eq!(GunType::default(), GunType::Kinetic);
    assert_eq!(ProjectileGuidance::default(), ProjectileGuidance::Unguided);
    assert_eq!(ProjectileName::default(), ProjectileName::TemplateProjectile);
    let tp = space_combat::turret::TurretProperties::default();
    assert_eq!(tp.rotation_velocity, 10000);
    assert_eq!(tp.target_entity, None);
    assert_eq!(tp.turret_state, TurretState::NoTarget);
    let sb = space_combat::ship::ShipBundle::default();
    assert_eq!(sb.health, Health(1));
    assert_eq!(sb.iff, IFF::Neutral);
    let gb = space_combat::gun::GunBundle::default();
    assert_eq!(gb.gun_cycle_timer, GunCycleTimer(0));
}
