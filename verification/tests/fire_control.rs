//! Tests of the fire-control core: the intercept solver, projectile spawn
//! parameters, fire-rate gating, target selection, collision filtering, and
//! the lifecycle pass.
use space_combat::gun::compute_projectile_velocity;
use space_combat::gun::gun_firing_system;
use space_combat::gun::GunCycleTimer;
use space_combat::gun::GunProperties;
use space_combat::interaction::kill_system;
use space_combat::interaction::Damage;
use space_combat::interaction::IFF;
use space_combat::math::Vec2;
use space_combat::physics::collide;
use space_combat::physics::object_movement_system;
use space_combat::physics::projectile_collision_system;
use space_combat::physics::Velocity;
use space_combat::projectile::ProjectileBundle;
use space_combat::ship::Health;
use space_combat::ship::ShipBundle;
use space_combat::targeting::target_prediction_first_order;
use space_combat::targeting::turret_target_selection;
use space_combat::targeting::turret_targeting_system;
use space_combat::turret::TurretBundle;
use space_combat::turret::TurretProperties;
use space_combat::turret::TurretState;
use space_combat::world::Projectile;
use space_combat::world::Ship;
use space_combat::world::Turret;
use space_combat::world::World;

fn plain_ship(id: u64, iff: IFF, health: i64, pos: Vec2, vel: Vec2) -> Ship {
    Ship {
        id,
        is_player: false,
        bundle: ShipBundle {
            health: Health(health),
            iff,
            transform: space_combat::physics::Transform {
                translation: pos,
                rotation: Vec2 { x: 0, y: 100 },
                scale: Vec2 { x: 100, y: 100 },
            },
            velocity: Velocity(vel),
            ..Default::default()
        },
        turrets: Vec::new(),
    }
}

fn armed_ship(id: u64, iff: IFF, pos: Vec2, props: GunProperties) -> Ship {
    let mut ship = plain_ship(id, iff, 100, pos, Vec2 { x: 0, y: 0 });
    ship.turrets.push(Turret {
        id: id + 1000,
        bundle: TurretBundle { gun_properties: props, ..Default::default() },
        guns: vec![space_combat::world::Gun {
            id: id + 2000,
            transform: space_combat::physics::Transform::default(),
            cycle_timer: GunCycleTimer(0),
        }],
    });
    ship
}

fn machine_gun() -> GunProperties {
    GunProperties {
        rate_of_fire: 10,
        projectile_damage: 10,
        projectile_velocity_mps: 30000,
        velocity_deviation_percent: 0,
        bullet_spread_degrees: 0,
        ..Default::default()
    }
}

fn plain_projectile(id: u64, iff: IFF, damage: i64, pos: Vec2, vel: Vec2) -> Projectile {
    let mut bundle = ProjectileBundle::default();
    bundle.iff = iff;
    bundle.damage = Damage(damage);
    bundle.transform.translation = pos;
    bundle.velocity = Velocity(vel);
    Projectile { id, bundle }
}

/// A stationary target straight ahead at distance d is met after exactly
/// d / pv, aiming straight up the y axis with an aim vector of magnitude pv.
#[test]
fn intercept_stationary_target() {
    let d: i64 = 20000; // 200 m
    let pv: i64 = 30000; // 300 m/s
    let sol = target_prediction_first_order(Vec2 { x: 0, y: d }, Vec2 { x: 0, y: 0 }, pv)
        .expect("solution expected");
    assert_eq!(sol.time_num, d * pv);
    assert_eq!(sol.time_den, pv * pv);
    // time_num / time_den == d / pv as rationals
    assert_eq!(sol.time_num * pv, sol.time_den * d);
    assert_eq!(sol.aim.x, 0);
    assert_eq!(sol.aim.y, pv);
}

/// A fast crossing target that outruns the projectile (negative
/// discriminant) has no firing solution.
#[test]
fn intercept_no_solution() {
    let sol = target_prediction_first_order(
        Vec2 { x: 0, y: 1000 },
        Vec2 { x: 1000, y: 0 },
        500,
    );
    assert!(sol.is_none());
}

/// Mirroring the engagement across the y axis mirrors the solution: the
/// intercept time is unchanged and the aim's x component is negated.
#[test]
fn intercept_mirror_symmetry() {
    let p = Vec2 { x: 300, y: 4000 };
    let v = Vec2 { x: -50, y: -100 };
    let pv: i64 = 1000;
    let a = target_prediction_first_order(p, v, pv).expect("solution expected");
    let b = target_prediction_first_order(
        Vec2 { x: -p.x, y: p.y },
        Vec2 { x: -v.x, y: v.y },
        pv,
    )
    .expect("mirrored solution expected");
    assert_eq!(a.time_num, b.time_num);
    assert_eq!(a.time_den, b.time_den);
    assert_eq!(a.aim.x, -b.aim.x);
    assert_eq!(a.aim.y, b.aim.y);
}

/// The turret coincident with the target has no defined solution.
#[test]
fn intercept_degenerate_zero_distance() {
    let sol = target_prediction_first_order(
        Vec2 { x: 0, y: 0 },
        Vec2 { x: 10, y: 10 },
        1000,
    );
    assert!(sol.is_none());
}

/// With zero spread and zero deviation the projectile flies exactly along
/// the aim vector at muzzle speed, plus the carrier's velocity.
#[test]
fn projectile_velocity_no_spread() {
    let props = machine_gun();
    let vel = compute_projectile_velocity(
        Vec2 { x: 0, y: 30000 },
        &props,
        Vec2 { x: 700, y: -800 },
        12345,
        54321,
        999,
    );
    assert_eq!(vel.x, 700);
    assert_eq!(vel.y, 30000 - 800);
}

/// The spread formula is exact: maximal samples with a four-degree spread
/// rotate the aim by the documented fixed-point small angle.
#[test]
fn projectile_velocity_spread_exact() {
    let mut props = machine_gun();
    props.projectile_velocity_mps = 10000;
    props.bullet_spread_degrees = 4;
    let vel = compute_projectile_velocity(
        Vec2 { x: 0, y: 10000 },
        &props,
        Vec2 { x: 0, y: 0 },
        65535,
        65535,
        0,
    );
    // centred = 65535 + 65535 - 65536 = 65534
    // k = 65534 * 4 * 1144 / 131072 = 2287
    // x = 0 - 10000 * 2287 / 65536 = -348
    assert_eq!(vel.x, -348);
    assert_eq!(vel.y, 10000);
}

/// The speed jitter is exact: full deviation band and an extreme sample
/// shift the muzzle speed by half the band.
#[test]
fn projectile_velocity_jitter_exact() {
    let mut props = machine_gun();
    props.projectile_velocity_mps = 10000;
    props.velocity_deviation_percent = 10;
    let vel = compute_projectile_velocity(
        Vec2 { x: 0, y: 10000 },
        &props,
        Vec2 { x: 0, y: 0 },
        0,
        65535,
        0,
    );
    // spread stays zero (centred samples cancel): 0 + 65535 - 65536 = -1
    // k = -1 * 0 * 1144 / 131072 = 0 (spread degrees 0)
    // band = 10000 * 10 / 100 = 1000; jitter = (0 - 32768) * 1000 / 65536 = -500
    assert_eq!(vel.y, 10000 - 500);
    assert_eq!(vel.x, 0);
}

/// A gun with rate_of_fire 10 fires at most once per 100 ms of simulated
/// time; a whole second elapsing in one tick still fires exactly one shot,
/// and the countdown rearms to the fixed cycle (excess time is dropped).
#[test]
fn fire_rate_gating() {
    let mut world = World::new();
    let mut ship = armed_ship(1, IFF::Friendly, Vec2 { x: 0, y: 0 }, machine_gun());
    ship.turrets[0].bundle.turret_properties.turret_state = TurretState::Firing;
    world.ships.push(ship);

    gun_firing_system(&mut world, 1000);
    assert_eq!(world.projectiles.len(), 1);
    assert_eq!(world.ships[0].turrets[0].guns[0].cycle_timer, GunCycleTimer(100));

    gun_firing_system(&mut world, 50);
    assert_eq!(world.projectiles.len(), 1);
    assert_eq!(world.ships[0].turrets[0].guns[0].cycle_timer, GunCycleTimer(50));

    gun_firing_system(&mut world, 50);
    assert_eq!(world.projectiles.len(), 2);
    assert_eq!(world.ships[0].turrets[0].guns[0].cycle_timer, GunCycleTimer(100));
}

/// A gun whose turret holds no firing solution never fires, but its
/// countdown still runs and then waits at zero.
#[test]
fn no_fire_without_solution() {
    let mut world = World::new();
    let mut ship = armed_ship(1, IFF::Friendly, Vec2 { x: 0, y: 0 }, machine_gun());
    ship.turrets[0].bundle.turret_properties.turret_state = TurretState::NoTarget;
    ship.turrets[0].guns[0].cycle_timer = GunCycleTimer(70);
    world.ships.push(ship);

    gun_firing_system(&mut world, 1000);
    assert_eq!(world.projectiles.len(), 0);
    assert_eq!(world.ships[0].turrets[0].guns[0].cycle_timer, GunCycleTimer(0));
}

/// Selection picks the nearest candidate of a different faction: among
/// enemies at 10 m, 3 m and 7 m, the 3 m one wins.
#[test]
fn target_selection_picks_nearest() {
    let mut world = World::new();
    let mut shooter = armed_ship(1, IFF::Friendly, Vec2 { x: 0, y: 0 }, machine_gun());
    shooter.turrets[0].bundle.turret_properties.turret_state = TurretState::Firing;
    world.ships.push(shooter);
    world.ships.push(plain_ship(2, IFF::Enemy, 10, Vec2 { x: 0, y: 1000 }, Vec2 { x: 0, y: 0 }));
    world.ships.push(plain_ship(3, IFF::Enemy, 10, Vec2 { x: 0, y: 300 }, Vec2 { x: 0, y: 0 }));
    world.ships.push(plain_ship(4, IFF::Enemy, 10, Vec2 { x: 0, y: 700 }, Vec2 { x: 0, y: 0 }));

    turret_target_selection(&mut world);
    assert_eq!(world.ships[0].turrets[0].bundle.turret_properties.target_entity, Some(3));
}

/// With no candidate of a different faction the turret gets no target; its
/// firing state is left for the intercept pass, which the selection pass
/// does not run.
#[test]
fn target_selection_none_when_all_friendly() {
    let mut world = World::new();
    let mut shooter = armed_ship(1, IFF::Friendly, Vec2 { x: 0, y: 0 }, machine_gun());
    shooter.turrets[0].bundle.turret_properties.target_entity = Some(99);
    world.ships.push(shooter);

    turret_target_selection(&mut world);
    assert_eq!(world.ships[0].turrets[0].bundle.turret_properties.target_entity, None);
}

/// Projectiles bear a position and a faction tag, so they are target
/// candidates too: an incoming enemy round closer than any enemy ship is
/// what the turret tracks.
#[test]
fn target_selection_includes_projectiles() {
    let mut world = World::new();
    world.ships.push(armed_ship(1, IFF::Friendly, Vec2 { x: 0, y: 0 }, machine_gun()));
    world.ships.push(plain_ship(2, IFF::Enemy, 10, Vec2 { x: 0, y: 5000 }, Vec2 { x: 0, y: 0 }));
    world.projectiles.push(plain_projectile(7, IFF::Enemy, 5, Vec2 { x: 0, y: 800 }, Vec2 {
        x: 0,
        y: -1000,
    }));

    turret_target_selection(&mut world);
    assert_eq!(world.ships[0].turrets[0].bundle.turret_properties.target_entity, Some(7));
}

/// On an exact distance tie the first-found candidate wins.
#[test]
fn target_selection_tie_first_found_wins() {
    let mut world = World::new();
    world.ships.push(armed_ship(1, IFF::Friendly, Vec2 { x: 0, y: 0 }, machine_gun()));
    world.ships.push(plain_ship(2, IFF::Enemy, 10, Vec2 { x: 0, y: 500 }, Vec2 { x: 0, y: 0 }));
    world.ships.push(plain_ship(3, IFF::Enemy, 10, Vec2 { x: 500, y: 0 }, Vec2 { x: 0, y: 0 }));

    turret_target_selection(&mut world);
    assert_eq!(world.ships[0].turrets[0].bundle.turret_properties.target_entity, Some(2));
}

/// The intercept pass swings the turret onto the aim vector and sets it
/// firing; a turret whose stored target no longer exists is left untouched.
#[test]
fn targeting_sets_firing_state() {
    let mut world = World::new();
    world.ships.push(armed_ship(1, IFF::Friendly, Vec2 { x: 0, y: 0 }, machine_gun()));
    world.ships.push(plain_ship(2, IFF::Enemy, 10, Vec2 { x: 0, y: 20000 }, Vec2 {
        x: 0,
        y: -5000,
    }));

    turret_target_selection(&mut world);
    turret_targeting_system(&mut world);
    let props = &world.ships[0].turrets[0].bundle.turret_properties;
    assert_eq!(props.target_entity, Some(2));
    assert_eq!(props.turret_state, TurretState::Firing);
    assert_eq!(world.ships[0].turrets[0].bundle.transform.rotation, Vec2 { x: 0, y: 30000 });

    // the stored target disappears: the turret is left untouched this tick
    let mut stale = World::new();
    let mut shooter = armed_ship(1, IFF::Friendly, Vec2 { x: 0, y: 0 }, machine_gun());
    shooter.turrets[0].bundle.turret_properties.target_entity = Some(42);
    shooter.turrets[0].bundle.turret_properties.turret_state = TurretState::Firing;
    stale.ships.push(shooter);
    turret_targeting_system(&mut stale);
    assert_eq!(
        stale.ships[0].turrets[0].bundle.turret_properties.turret_state,
        TurretState::Firing
    );
}

/// A friendly projectile never reduces a friendly target's health, however
/// their boxes overlap; an enemy-struck target always loses the damage.
#[test]
fn iff_collision_filter() {
    let mut world = World::new();
    world.ships.push(plain_ship(1, IFF::Friendly, 100, Vec2 { x: 0, y: 0 }, Vec2 {
        x: 0,
        y: 0,
    }));
    world.projectiles.push(plain_projectile(10, IFF::Friendly, 10, Vec2 { x: 0, y: 0 }, Vec2 {
        x: 0,
        y: 0,
    }));
    projectile_collision_system(&mut world);
    assert_eq!(world.ships[0].bundle.health, Health(100));
    assert_eq!(world.projectiles.len(), 1);

    world.projectiles.push(plain_projectile(11, IFF::Enemy, 10, Vec2 { x: 0, y: 0 }, Vec2 {
        x: 0,
        y: 0,
    }));
    projectile_collision_system(&mut world);
    assert_eq!(world.ships[0].bundle.health, Health(90));
    assert_eq!(world.projectiles.len(), 1); // the enemy round is consumed
}

/// The box overlap test is strict: boxes that merely touch do not collide.
#[test]
fn collide_strict_overlap() {
    let a = Vec2 { x: 0, y: 0 };
    let size = Vec2 { x: 100, y: 100 };
    assert!(!collide(a, size, Vec2 { x: 100, y: 0 }, size)); // touching edges
    assert!(collide(a, size, Vec2 { x: 99, y: 0 }, size));
    assert!(!collide(a, size, Vec2 { x: 0, y: 101 }, size));
}

/// A ship driven to zero or below is removed before the next tick, its
/// turrets and guns (owned by it) going with it; health is never
/// resurrected.
#[test]
fn lifecycle_removes_destroyed_ships() {
    let mut world = World::new();
    let mut doomed = armed_ship(1, IFF::Enemy, Vec2 { x: 0, y: 0 }, machine_gun());
    doomed.bundle.health = Health(0);
    world.ships.push(doomed);
    world.ships.push(plain_ship(2, IFF::Friendly, 1, Vec2 { x: 0, y: 500 }, Vec2 { x: 0, y: 0 }));
    world.ships.push(plain_ship(3, IFF::Enemy, -5, Vec2 { x: 0, y: 900 }, Vec2 { x: 0, y: 0 }));

    kill_system(&mut world);
    assert_eq!(world.ships.len(), 1);
    assert_eq!(world.ships[0].id, 2);
}

/// Movement integrates position from velocity exactly, for ships and
/// projectiles alike.
#[test]
fn movement_integrates_exactly() {
    let mut world = World::new();
    world.ships.push(plain_ship(1, IFF::Friendly, 100, Vec2 { x: 1000, y: 2000 }, Vec2 {
        x: 500,
        y: -300,
    }));
    world.projectiles.push(plain_projectile(2, IFF::Friendly, 0, Vec2 { x: -100, y: 0 }, Vec2 {
        x: 30000,
        y: 0,
    }));
    object_movement_system(&mut world, 100);
    assert_eq!(world.ships[0].bundle.transform.translation, Vec2 { x: 1050, y: 1970 });
    assert_eq!(world.projectiles[0].bundle.transform.translation, Vec2 { x: 2900, y: 0 });
}
