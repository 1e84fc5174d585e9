//! Gun components and the exact computation of a spawned projectile's
//! velocity from the turret's aim vector, the gun's spread and jitter
//! parameters, and three uniform random samples.
use vstd::prelude::*;
use vstd::string::StringExecFns;

use crate::math::div_trunc;
use crate::math::div_trunc_i128;
use crate::math::lemma_div_trunc_bound;
use crate::math::lemma_mul_bound;
use crate::math::Vec2;
use crate::math::MAX_AIM;
use crate::math::MAX_PROJECTILE_SPEED;
use crate::math::MAX_SHIP_SPEED;
use crate::math::MAX_VELOCITY;
use crate::interaction::Damage;
use crate::math::MAX_COORD;
use crate::physics::clamp_coord;
use crate::physics::Transform;
use crate::physics::Velocity;
use crate::physics::MAX_SCALE;
use crate::projectile::IsProjectile;
use crate::projectile::ProjectileBundle;
use crate::projectile::ProjectileGuidance;
use crate::turret::TurretState;
use crate::world::Gun;
use crate::world::Projectile;
use crate::world::Ship;
use crate::world::Turret;
use crate::world::World;
use crate::ItemSize;
use crate::Sprite;

verus! {

broadcast use vstd::seq::group_seq_axioms;

/// Relies on rand::random: draws a value of the requested type from the
/// thread-local generator. Nothing can be promised of a random value.
pub assume_specification<T>[ rand::random::<T> ]() -> (r: T)
    where
        rand::distributions::Standard: rand::distributions::Distribution<T>,
;

/// One uniform sample in `[0, 65536)` from the process random source.
pub(crate) fn draw_sample() -> u16 {
    rand::random::<u16>()
}

/// The working principle of a gun; only kinetic guns exist so far.
#[derive(Clone, Copy, Debug, PartialEq, Eq, Structural)]
pub enum GunType {
    Kinetic,
}

impl Default for GunType {
    fn default() -> (r: Self)
        ensures
            r == GunType::Kinetic,
    {
        GunType::Kinetic
    }
}

/// Marks an entity as a gun.
#[derive(Clone, Copy, Debug, PartialEq, Eq, Structural)]
pub struct IsGun;

/// Countdown in milliseconds until the gun may fire again; zero means ready.
/// After each shot it rearms to the gun's full cycle, `1000 / rate_of_fire`.
/// While the parent turret is not firing the countdown still runs and then
/// waits at zero, so the first shot after re-acquiring a target leaves
/// immediately.
#[derive(Clone, Copy, Debug, PartialEq, Eq, Structural)]
pub struct GunCycleTimer(pub u64);

/// Weapon parameters of a gun: its rate of fire, and what its projectiles
/// carry. Speeds are in hundredths of a metre per second.
#[derive(Clone, Debug)]
pub struct GunProperties {
    pub gun_type: GunType,
    pub gun_size: ItemSize,
    /// Shots per second.
    pub rate_of_fire: u64,
    /// Damage each projectile deals on impact.
    pub projectile_damage: i64,
    /// Muzzle speed of a projectile.
    pub projectile_velocity_mps: i64,
    /// Half-width of the uniform speed jitter, as a percentage of the muzzle
    /// speed.
    pub velocity_deviation_percent: i64,
    /// Full width of the random angular spread, in degrees.
    pub bullet_spread_degrees: i64,
    pub projectile_texture: String,
    pub projectile_texture_render_size: Vec2,
    pub fire_sound: String,
}

impl GunProperties {
    /// The ranges the fire-control arithmetic is proved exact over.
    pub open spec fn wf(self) -> bool {
        &&& 1 <= self.rate_of_fire <= 1000
        &&& 0 < self.projectile_velocity_mps <= MAX_PROJECTILE_SPEED
        &&& 0 <= self.velocity_deviation_percent <= 100
        &&& 0 <= self.bullet_spread_degrees <= 360
        &&& 0 <= self.projectile_damage <= 0x100_0000_0000
        &&& 0 <= self.projectile_texture_render_size.x <= MAX_SCALE
        &&& 0 <= self.projectile_texture_render_size.y <= MAX_SCALE
    }

    /// Checks `wf` at run time, for callers handing in unchecked
    /// definitions.
    pub fn is_valid(&self) -> (r: bool)
        ensures
            r == self.wf(),
    {
        1 <= self.rate_of_fire && self.rate_of_fire <= 1000 && 0 < self.projectile_velocity_mps
            && self.projectile_velocity_mps <= MAX_PROJECTILE_SPEED && 0
            <= self.velocity_deviation_percent && self.velocity_deviation_percent <= 100 && 0
            <= self.bullet_spread_degrees && self.bullet_spread_degrees <= 360 && 0
            <= self.projectile_damage && self.projectile_damage <= 0x100_0000_0000 && 0
            <= self.projectile_texture_render_size.x && self.projectile_texture_render_size.x
            <= MAX_SCALE && 0 <= self.projectile_texture_render_size.y
            && self.projectile_texture_render_size.y <= MAX_SCALE
    }
}

impl Default for GunProperties {
    fn default() -> (r: Self)
        ensures
            r.gun_type == GunType::Kinetic,
            r.gun_size == ItemSize::Small,
            r.rate_of_fire == 1,
            r.projectile_damage == 0,
            r.projectile_velocity_mps == 1,
            r.velocity_deviation_percent == 0,
            r.bullet_spread_degrees == 0,
            r.projectile_texture@ == ""@,
            r.projectile_texture_render_size == (Vec2 { x: 100, y: 100 }),
            r.fire_sound@ == ""@,
            r.wf(),
    {
        GunProperties {
            gun_type: GunType::Kinetic,
            gun_size: ItemSize::Small,
            rate_of_fire: 1,
            projectile_damage: 0,
            projectile_velocity_mps: 1,
            velocity_deviation_percent: 0,
            bullet_spread_degrees: 0,
            projectile_texture: String::from_str(""),
            projectile_texture_render_size: Vec2 { x: 100, y: 100 },
            fire_sound: String::from_str(""),
        }
    }
}

/// Everything a newly spawned gun entity carries.
#[derive(Clone, Debug)]
pub struct GunBundle {
    pub is_gun: IsGun,
    pub transform: Transform,
    pub gun_cycle_timer: GunCycleTimer,
    pub texture: String,
    pub sprite: Sprite,
}

impl Default for GunBundle {
    /// A fresh gun's countdown starts at zero, so it is ready to fire the
    /// moment its turret first acquires a firing solution.
    fn default() -> (r: Self)
        ensures
            r.is_gun == IsGun,
            r.transform == (Transform {
                translation: Vec2 { x: 0, y: 0 },
                rotation: Vec2 { x: 0, y: 100 },
                scale: Vec2 { x: 100, y: 100 },
            }),
            r.gun_cycle_timer == GunCycleTimer(0),
            r.texture@ == ""@,
            r.sprite == (Sprite { custom_size: None }),
    {
        GunBundle {
            is_gun: IsGun,
            transform: Transform::default(),
            gun_cycle_timer: GunCycleTimer(0),
            texture: String::from_str(""),
            sprite: Sprite { custom_size: None },
        }
    }
}

/// Full cycle of a gun in milliseconds: one second divided by the rate of
/// fire, rounded down.
pub fn cycle_period_ms(rate_of_fire: u64) -> (r: u64)
    requires
        1 <= rate_of_fire,
    ensures
        r as int == 1000int / rate_of_fire as int,
{
    1000 / rate_of_fire
}

/// Angular spread drawn for one shot, in radians scaled by 65536: two
/// uniform samples in `[0, 65536)` are averaged and centred (a triangular
/// distribution), scaled by the gun's spread in degrees, and converted to
/// radians via the fixed-point factor `1144 / 65536` per degree.
pub open spec fn spread_q16(spread_deg: int, r1: int, r2: int) -> int {
    div_trunc((r1 + r2 - 65536) * spread_deg * 1144, 131072)
}

/// Speed jitter for one shot: a centred uniform sample in `[-32768, 32768)`
/// scaled by the gun's deviation band, `projectile_velocity * percent / 100`.
pub open spec fn speed_jitter(pv: int, dev_pct: int, r3: int) -> int {
    div_trunc((r3 - 32768) * div_trunc(pv * dev_pct, 100), 65536)
}

/// x component of the muzzle velocity: the aim vector rotated by the drawn
/// spread angle (small-angle rotation, exact in fixed point) and rescaled
/// from the nominal muzzle speed `pv` to the jittered speed.
pub open spec fn muzzle_x(
    aim: Vec2,
    pv: int,
    spread_deg: int,
    dev_pct: int,
    r1: int,
    r2: int,
    r3: int,
) -> int {
    let k = spread_q16(spread_deg, r1, r2);
    let rx = aim.x - div_trunc(aim.y * k, 65536);
    div_trunc(rx * (pv + speed_jitter(pv, dev_pct, r3)), pv)
}

/// y component of the muzzle velocity; see `muzzle_x`.
pub open spec fn muzzle_y(
    aim: Vec2,
    pv: int,
    spread_deg: int,
    dev_pct: int,
    r1: int,
    r2: int,
    r3: int,
) -> int {
    let k = spread_q16(spread_deg, r1, r2);
    let ry = aim.y + div_trunc(aim.x * k, 65536);
    div_trunc(ry * (pv + speed_jitter(pv, dev_pct, r3)), pv)
}

/// Velocity of a projectile leaving a gun: the turret's aim vector rotated
/// by the random spread, rescaled to the jittered speed, plus the firing
/// ship's own velocity (projectiles inherit carrier motion).
pub fn compute_projectile_velocity(
    aim: Vec2,
    props: &GunProperties,
    ship_velocity: Vec2,
    r1: u16,
    r2: u16,
    r3: u16,
) -> (r: Vec2)
    requires
        aim.in_box(MAX_AIM as int),
        props.wf(),
        ship_velocity.in_box(MAX_SHIP_SPEED as int),
    ensures
        r.x as int == muzzle_x(
            aim,
            props.projectile_velocity_mps as int,
            props.bullet_spread_degrees as int,
            props.velocity_deviation_percent as int,
            r1 as int,
            r2 as int,
            r3 as int,
        ) + ship_velocity.x,
        r.y as int == muzzle_y(
            aim,
            props.projectile_velocity_mps as int,
            props.bullet_spread_degrees as int,
            props.velocity_deviation_percent as int,
            r1 as int,
            r2 as int,
            r3 as int,
        ) + ship_velocity.y,
        r.in_box(MAX_VELOCITY as int),
{
    let pv: i128 = props.projectile_velocity_mps as i128;
    let spread: i128 = props.bullet_spread_degrees as i128;
    let devp: i128 = props.velocity_deviation_percent as i128;
    let c12: i128 = (r1 as i128) + (r2 as i128) - 65536;
    proof {
        lemma_mul_bound(c12 as int, spread as int, 65536, 360);
        lemma_mul_bound((c12 as int) * (spread as int), 1144, 23592960, 1144);
    }
    let kn: i128 = c12 * spread * 1144;
    let k: i128 = div_trunc_i128(kn, 131072);
    proof {
        lemma_div_trunc_bound(kn as int, 131072, 205920);
    }
    let ax: i128 = aim.x as i128;
    let ay: i128 = aim.y as i128;
    proof {
        lemma_mul_bound(ay as int, k as int, 1048576, 205920);
        lemma_mul_bound(ax as int, k as int, 1048576, 205920);
    }
    let tx: i128 = div_trunc_i128(ay * k, 65536);
    let ty: i128 = div_trunc_i128(ax * k, 65536);
    proof {
        lemma_div_trunc_bound((ay as int) * (k as int), 65536, 3294720);
        lemma_div_trunc_bound((ax as int) * (k as int), 65536, 3294720);
    }
    let rx: i128 = ax - tx;
    let ry: i128 = ay + ty;
    proof {
        lemma_mul_bound(pv as int, devp as int, pv as int, 100);
        lemma_div_trunc_bound((pv as int) * (devp as int), 100, pv as int);
    }
    let vd: i128 = div_trunc_i128(pv * devp, 100);
    let c3: i128 = (r3 as i128) - 32768;
    proof {
        lemma_mul_bound(c3 as int, vd as int, 32768, pv as int);
        lemma_div_trunc_bound((c3 as int) * (vd as int), 65536, pv as int);
    }
    let jit: i128 = div_trunc_i128(c3 * vd, 65536);
    let sp: i128 = pv + jit;
    proof {
        lemma_mul_bound(rx as int, sp as int, 4343296, 2 * (pv as int));
        lemma_mul_bound(ry as int, sp as int, 4343296, 2 * (pv as int));
        lemma_div_trunc_bound((rx as int) * (sp as int), pv as int, 8686592);
        lemma_div_trunc_bound((ry as int) * (sp as int), pv as int, 8686592);
    }
    let sx: i128 = div_trunc_i128(rx * sp, pv);
    let sy: i128 = div_trunc_i128(ry * sp, pv);
    let outx: i128 = sx + (ship_velocity.x as i128);
    let outy: i128 = sy + (ship_velocity.y as i128);
    Vec2 { x: outx as i64, y: outy as i64 }
}

/// Fire-rate gating law: a gun that fires this tick rearms to its full
/// cycle `1000 / rate_of_fire`, so it cannot fire again until that much
/// simulated time has passed, whatever the turret does meanwhile — at most
/// one shot per cycle, and surplus time in a long frame is dropped, not
/// banked.
pub proof fn lemma_fire_rate_gating(
    g: Gun,
    firing1: bool,
    firing2: bool,
    delta1: int,
    delta2: int,
    rate_of_fire: int,
)
    requires
        1 <= rate_of_fire <= 1000,
        0 <= delta2 < 1000int / rate_of_fire,
        gun_fires(g, firing1, delta1),
    ensures
        !gun_fires(gun_after(g, firing1, delta1, rate_of_fire), firing2, delta2),
{
}

/// A countdown floored at zero.
pub open spec fn sat0(x: int) -> int {
    if x < 0 {
        0
    } else {
        x
    }
}

/// A gun fires this tick: its turret holds a firing solution and its
/// countdown, advanced by the frame time, has reached zero.
pub open spec fn gun_fires(g: Gun, turret_firing: bool, delta_ms: int) -> bool {
    turret_firing && sat0(g.cycle_timer.0 - delta_ms) == 0
}

/// A gun after the firing pass: its countdown advances by the frame time
/// (flooring at zero, where it waits for the next firing window), and
/// rearms to the full cycle `1000 / rate_of_fire` after a shot — surplus
/// frame time is dropped, never banked, so a long frame still fires at most
/// one shot.
pub open spec fn gun_after(g: Gun, turret_firing: bool, delta_ms: int, rate_of_fire: int) -> Gun {
    if gun_fires(g, turret_firing, delta_ms) {
        Gun { cycle_timer: GunCycleTimer((1000int / rate_of_fire) as u64), ..g }
    } else {
        Gun { cycle_timer: GunCycleTimer(sat0(g.cycle_timer.0 - delta_ms) as u64), ..g }
    }
}

/// Turret `nt` is turret `ot` with every gun's countdown advanced by the
/// firing pass.
pub open spec fn turret_guns_ticked(ot: Turret, nt: Turret, delta_ms: int) -> bool {
    &&& nt.id == ot.id
    &&& nt.bundle == ot.bundle
    &&& nt.guns@.len() == ot.guns@.len()
    &&& forall|g: int|
        0 <= g < ot.guns@.len() ==> #[trigger] nt.guns@[g] == gun_after(
            ot.guns@[g],
            ot.bundle.turret_properties.turret_state == TurretState::Firing,
            delta_ms,
            ot.bundle.gun_properties.rate_of_fire as int,
        )
}

/// Ship `ns` is ship `os` after the firing pass.
pub open spec fn firing_applied(os: Ship, ns: Ship, delta_ms: int) -> bool {
    &&& ns.id == os.id
    &&& ns.is_player == os.is_player
    &&& ns.bundle == os.bundle
    &&& ns.turrets@.len() == os.turrets@.len()
    &&& forall|j: int|
        0 <= j < os.turrets@.len() ==> turret_guns_ticked(
            os.turrets@[j],
            #[trigger] ns.turrets@[j],
            delta_ms,
        )
}

/// How many guns of this list fire this tick.
pub open spec fn count_fired_guns(guns: Seq<Gun>, turret_firing: bool, delta_ms: int) -> int
    decreases guns.len(),
{
    if guns.len() == 0 {
        0
    } else {
        count_fired_guns(guns.drop_last(), turret_firing, delta_ms) + if gun_fires(
            guns.last(),
            turret_firing,
            delta_ms,
        ) {
            1int
        } else {
            0int
        }
    }
}

/// How many guns of these turrets fire this tick.
pub open spec fn count_fired_turrets(ts: Seq<Turret>, delta_ms: int) -> int
    decreases ts.len(),
{
    if ts.len() == 0 {
        0
    } else {
        count_fired_turrets(ts.drop_last(), delta_ms) + count_fired_guns(
            ts.last().guns@,
            ts.last().bundle.turret_properties.turret_state == TurretState::Firing,
            delta_ms,
        )
    }
}

/// How many guns of these ships fire this tick.
pub open spec fn count_fired_ships(ss: Seq<Ship>, delta_ms: int) -> int
    decreases ss.len(),
{
    if ss.len() == 0 {
        0
    } else {
        count_fired_ships(ss.drop_last(), delta_ms) + count_fired_turrets(
            ss.last().turrets@,
            delta_ms,
        )
    }
}

/// Muzzle of a gun in world space: ship position plus turret offset plus
/// gun offset, clamped onto the playfield.
pub open spec fn gun_world_pos(s: Ship, t: Turret, g: Gun) -> Vec2 {
    Vec2 {
        x: clamp_coord(
            s.bundle.transform.translation.x + t.bundle.transform.translation.x
                + g.transform.translation.x,
        ) as i64,
        y: clamp_coord(
            s.bundle.transform.translation.y + t.bundle.transform.translation.y
                + g.transform.translation.y,
        ) as i64,
    }
}

/// Projectile `p` is what firing gun `g` of turret `t` on ship `s` spawns:
/// it carries the gun's damage, the ship's faction tag, the gun's muzzle
/// position and the turret's heading, and its velocity follows the
/// spread-and-jitter formula for some triple of uniform samples.
pub open spec fn projectile_from(p: Projectile, s: Ship, t: Turret, g: Gun) -> bool {
    &&& p.bundle.is_projectile == IsProjectile
    &&& p.bundle.guidance == ProjectileGuidance::Unguided
    &&& p.bundle.damage.0 == t.bundle.gun_properties.projectile_damage
    &&& p.bundle.iff == s.bundle.iff
    &&& p.bundle.transform.translation == gun_world_pos(s, t, g)
    &&& p.bundle.transform.rotation == t.bundle.transform.rotation
    &&& p.bundle.transform.scale == (Vec2 { x: 100, y: 100 })
    &&& p.bundle.sprite.custom_size == Some(t.bundle.gun_properties.projectile_texture_render_size)
    &&& p.bundle.texture@ == t.bundle.gun_properties.projectile_texture@
    &&& exists|r1: int, r2: int, r3: int|
        {
            &&& 0 <= r1 < 65536
            &&& 0 <= r2 < 65536
            &&& 0 <= r3 < 65536
            &&& p.bundle.velocity.0.x as int == muzzle_x(
                t.bundle.transform.rotation,
                t.bundle.gun_properties.projectile_velocity_mps as int,
                t.bundle.gun_properties.bullet_spread_degrees as int,
                t.bundle.gun_properties.velocity_deviation_percent as int,
                r1,
                r2,
                r3,
            ) + s.bundle.velocity.0.x
            &&& p.bundle.velocity.0.y as int == muzzle_y(
                t.bundle.transform.rotation,
                t.bundle.gun_properties.projectile_velocity_mps as int,
                t.bundle.gun_properties.bullet_spread_degrees as int,
                t.bundle.gun_properties.velocity_deviation_percent as int,
                r1,
                r2,
                r3,
            ) + s.bundle.velocity.0.y
        }
}

/// Projectile `p` was spawned by some gun that fires this tick in world
/// `w`.
pub open spec fn spawned_matches(p: Projectile, w: World, delta_ms: int) -> bool {
    exists|i: int, j: int, g: int|
        {
            &&& 0 <= i < w.ships@.len()
            &&& 0 <= j < w.ships@[i].turrets@.len()
            &&& 0 <= g < w.ships@[i].turrets@[j].guns@.len()
            &&& gun_fires(
                w.ships@[i].turrets@[j].guns@[g],
                w.ships@[i].turrets@[j].bundle.turret_properties.turret_state
                    == TurretState::Firing,
                delta_ms,
            )
            &&& projectile_from(
                p,
                w.ships@[i],
                w.ships@[i].turrets@[j],
                w.ships@[i].turrets@[j].guns@[g],
            )
        }
}

/// The firing pass: every gun's cycle countdown advances by the frame time;
/// each gun whose turret holds a firing solution and whose countdown has
/// elapsed spawns one projectile — with the gun's damage, the firing ship's
/// faction tag, and a velocity built from the turret's aim by the random
/// spread-and-jitter formula — and rearms to its full cycle. Exactly
/// `count_fired_ships` projectiles are appended after the existing ones.
pub fn gun_firing_system(world: &mut World, delta_ms: u64)
    requires
        old(world).wf(),
    ensures
        final(world).wf(),
        final(world).ships@.len() == old(world).ships@.len(),
        forall|i: int|
            0 <= i < old(world).ships@.len() ==> firing_applied(
                old(world).ships@[i],
                #[trigger] final(world).ships@[i],
                delta_ms as int,
            ),
        final(world).projectiles@.len() == old(world).projectiles@.len() + count_fired_ships(
            old(world).ships@,
            delta_ms as int,
        ),
        final(world).projectiles@.take(old(world).projectiles@.len() as int) == old(
            world,
        ).projectiles@,
        forall|m: int|
            old(world).projectiles@.len() <= m < final(world).projectiles@.len()
                ==> spawned_matches(
                #[trigger] final(world).projectiles@[m],
                *old(world),
                delta_ms as int,
            ),
{
    let nships = world.ships.len();
    let nproj0 = world.projectiles.len();
    let mut i: usize = 0;
    while i < nships
        invariant
            world.wf(),
            old(world).wf(),
            nships == world.ships@.len(),
            world.ships@.len() == old(world).ships@.len(),
            world.next_id >= old(world).next_id,
            nproj0 == old(world).projectiles@.len(),
            nproj0 <= world.projectiles@.len(),
            i <= nships,
            forall|k: int| i <= k < nships ==> world.ships@[k] == old(world).ships@[k],
            forall|k: int|
                0 <= k < i ==> firing_applied(
                    old(world).ships@[k],
                    #[trigger] world.ships@[k],
                    delta_ms as int,
                ),
            world.projectiles@.len() == nproj0 + count_fired_ships(
                old(world).ships@.take(i as int),
                delta_ms as int,
            ),
            world.projectiles@.take(nproj0 as int) == old(world).projectiles@,
            forall|m: int|
                nproj0 <= m < world.projectiles@.len() ==> spawned_matches(
                    #[trigger] world.projectiles@[m],
                    *old(world),
                    delta_ms as int,
                ),
        decreases nships - i,
    {
        proof {
            assert(old(world).ships@.take(i as int + 1).drop_last() =~= old(world).ships@.take(
                i as int,
            ));
            assert(old(world).ships@.take(i as int + 1).last() == old(world).ships@[i as int]);
        }
        let nturrets = world.ships[i].turrets.len();
        let ship_iff = world.ships[i].bundle.iff;
        let ship_vel = world.ships[i].bundle.velocity.0;
        let spx = world.ships[i].bundle.transform.translation.x;
        let spy = world.ships[i].bundle.transform.translation.y;
        let mut j: usize = 0;
        while j < nturrets
            invariant
                world.wf(),
                old(world).wf(),
                i < nships,
                nships == world.ships@.len(),
                world.ships@.len() == old(world).ships@.len(),
                world.next_id >= old(world).next_id,
                nproj0 == old(world).projectiles@.len(),
                nproj0 <= world.projectiles@.len(),
                j <= nturrets,
                forall|k: int| i < k < nships ==> world.ships@[k] == old(world).ships@[k],
                forall|k: int|
                    0 <= k < i ==> firing_applied(
                        old(world).ships@[k],
                        #[trigger] world.ships@[k],
                        delta_ms as int,
                    ),
                nturrets == world.ships@[i as int].turrets@.len(),
                nturrets == old(world).ships@[i as int].turrets@.len(),
                world.ships@[i as int].id == old(world).ships@[i as int].id,
                world.ships@[i as int].is_player == old(world).ships@[i as int].is_player,
                world.ships@[i as int].bundle == old(world).ships@[i as int].bundle,
                ship_iff == old(world).ships@[i as int].bundle.iff,
                ship_vel == old(world).ships@[i as int].bundle.velocity.0,
                spx == old(world).ships@[i as int].bundle.transform.translation.x,
                spy == old(world).ships@[i as int].bundle.transform.translation.y,
                forall|l: int|
                    j <= l < nturrets ==> world.ships@[i as int].turrets@[l] == old(
                        world,
                    ).ships@[i as int].turrets@[l],
                forall|l: int|
                    0 <= l < j ==> turret_guns_ticked(
                        old(world).ships@[i as int].turrets@[l],
                        #[trigger] world.ships@[i as int].turrets@[l],
                        delta_ms as int,
                    ),
                world.projectiles@.len() == nproj0 + count_fired_ships(
                    old(world).ships@.take(i as int),
                    delta_ms as int,
                ) + count_fired_turrets(
                    old(world).ships@[i as int].turrets@.take(j as int),
                    delta_ms as int,
                ),
                world.projectiles@.take(nproj0 as int) == old(world).projectiles@,
                forall|m: int|
                    nproj0 <= m < world.projectiles@.len() ==> spawned_matches(
                        #[trigger] world.projectiles@[m],
                        *old(world),
                        delta_ms as int,
                    ),
            decreases nturrets - j,
        {
            proof {
                let ts = old(world).ships@[i as int].turrets@;
                assert(ts.take(j as int + 1).drop_last() =~= ts.take(j as int));
                assert(ts.take(j as int + 1).last() == ts[j as int]);
            }
            let nguns = world.ships[i].turrets[j].guns.len();
            let turret_firing = match world.ships[i].turrets[j].bundle.turret_properties
                .turret_state {
                TurretState::Firing => true,
                TurretState::NoTarget => false,
            };
            let rof = world.ships[i].turrets[j].bundle.gun_properties.rate_of_fire;
            let aim = world.ships[i].turrets[j].bundle.transform.rotation;
            let ttx = world.ships[i].turrets[j].bundle.transform.translation.x;
            let tty = world.ships[i].turrets[j].bundle.transform.translation.y;
            let mut g: usize = 0;
            while g < nguns
                invariant
                    world.wf(),
                    old(world).wf(),
                    i < nships,
                    j < nturrets,
                    nships == world.ships@.len(),
                    world.ships@.len() == old(world).ships@.len(),
                    world.next_id >= old(world).next_id,
                    nproj0 == old(world).projectiles@.len(),
                    nproj0 <= world.projectiles@.len(),
                    g <= nguns,
                    forall|k: int| i < k < nships ==> world.ships@[k] == old(world).ships@[k],
                    forall|k: int|
                        0 <= k < i ==> firing_applied(
                            old(world).ships@[k],
                            #[trigger] world.ships@[k],
                            delta_ms as int,
                        ),
                    nturrets == world.ships@[i as int].turrets@.len(),
                    nturrets == old(world).ships@[i as int].turrets@.len(),
                    world.ships@[i as int].id == old(world).ships@[i as int].id,
                    world.ships@[i as int].is_player == old(world).ships@[i as int].is_player,
                    world.ships@[i as int].bundle == old(world).ships@[i as int].bundle,
                    ship_iff == old(world).ships@[i as int].bundle.iff,
                    ship_vel == old(world).ships@[i as int].bundle.velocity.0,
                    spx == old(world).ships@[i as int].bundle.transform.translation.x,
                    spy == old(world).ships@[i as int].bundle.transform.translation.y,
                    forall|l: int|
                        j < l < nturrets ==> world.ships@[i as int].turrets@[l] == old(
                            world,
                        ).ships@[i as int].turrets@[l],
                    forall|l: int|
                        0 <= l < j ==> turret_guns_ticked(
                            old(world).ships@[i as int].turrets@[l],
                            #[trigger] world.ships@[i as int].turrets@[l],
                            delta_ms as int,
                        ),
                    nguns == world.ships@[i as int].turrets@[j as int].guns@.len(),
                    nguns == old(world).ships@[i as int].turrets@[j as int].guns@.len(),
                    world.ships@[i as int].turrets@[j as int].id == old(
                        world,
                    ).ships@[i as int].turrets@[j as int].id,
                    world.ships@[i as int].turrets@[j as int].bundle == old(
                        world,
                    ).ships@[i as int].turrets@[j as int].bundle,
                    turret_firing == (old(
                        world,
                    ).ships@[i as int].turrets@[j as int].bundle.turret_properties.turret_state
                        == TurretState::Firing),
                    rof == old(
                        world,
                    ).ships@[i as int].turrets@[j as int].bundle.gun_properties.rate_of_fire,
                    aim == old(world).ships@[i as int].turrets@[j as int].bundle.transform.rotation,
                    ttx == old(
                        world,
                    ).ships@[i as int].turrets@[j as int].bundle.transform.translation.x,
                    tty == old(
                        world,
                    ).ships@[i as int].turrets@[j as int].bundle.transform.translation.y,
                    forall|n: int|
                        g <= n < nguns ==> world.ships@[i as int].turrets@[j as int].guns@[n] == old(
                            world,
                        ).ships@[i as int].turrets@[j as int].guns@[n],
                    forall|n: int|
                        0 <= n < g ==> #[trigger] world.ships@[i as int].turrets@[j as int].guns@[n]
                            == gun_after(
                            old(world).ships@[i as int].turrets@[j as int].guns@[n],
                            turret_firing,
                            delta_ms as int,
                            rof as int,
                        ),
                    world.projectiles@.len() == nproj0 + count_fired_ships(
                        old(world).ships@.take(i as int),
                        delta_ms as int,
                    ) + count_fired_turrets(
                        old(world).ships@[i as int].turrets@.take(j as int),
                        delta_ms as int,
                    ) + count_fired_guns(
                        old(world).ships@[i as int].turrets@[j as int].guns@.take(g as int),
                        turret_firing,
                        delta_ms as int,
                    ),
                    world.projectiles@.take(nproj0 as int) == old(world).projectiles@,
                    forall|m: int|
                        nproj0 <= m < world.projectiles@.len() ==> spawned_matches(
                            #[trigger] world.projectiles@[m],
                            *old(world),
                            delta_ms as int,
                        ),
                decreases nguns - g,
            {
                proof {
                    let gs = old(world).ships@[i as int].turrets@[j as int].guns@;
                    assert(gs.take(g as int + 1).drop_last() =~= gs.take(g as int));
                    assert(gs.take(g as int + 1).last() == gs[g as int]);
                    assert(world.ships@[i as int].wf());
                    assert(world.ships@[i as int].turrets@[j as int].wf());
                    assert(world.ships@[i as int].turrets@[j as int].guns@[g as int].wf());
                    assert(world.ships@[i as int].turrets@[j as int].bundle.gun_properties.wf());
                    assert(world.ships@[i as int].bundle.wf());
                }
                let remaining = world.ships[i].turrets[j].guns[g].cycle_timer.0;
                let ticked: u64 = if delta_ms >= remaining {
                    0
                } else {
                    remaining - delta_ms
                };
                if turret_firing && ticked == 0 {
                    let gtx = world.ships[i].turrets[j].guns[g].transform.translation.x;
                    let gty = world.ships[i].turrets[j].guns[g].transform.translation.y;
                    let r1 = draw_sample();
                    let r2 = draw_sample();
                    let r3 = draw_sample();
                    let props = &world.ships[i].turrets[j].bundle.gun_properties;
                    let vel = compute_projectile_velocity(aim, props, ship_vel, r1, r2, r3);
                    let damage = props.projectile_damage;
                    let render_size = props.projectile_texture_render_size;
                    let texture = String::from_str(props.projectile_texture.as_str());
                    let mut wx: i128 = (spx as i128) + (ttx as i128) + (gtx as i128);
                    let mut wy: i128 = (spy as i128) + (tty as i128) + (gty as i128);
                    let lim: i128 = MAX_COORD as i128;
                    if wx < -lim {
                        wx = -lim;
                    }
                    if wx > lim {
                        wx = lim;
                    }
                    if wy < -lim {
                        wy = -lim;
                    }
                    if wy > lim {
                        wy = lim;
                    }
                    let bundle = ProjectileBundle {
                        is_projectile: IsProjectile,
                        guidance: ProjectileGuidance::Unguided,
                        damage: Damage(damage),
                        iff: ship_iff,
                        transform: Transform {
                            translation: Vec2 { x: wx as i64, y: wy as i64 },
                            rotation: aim,
                            scale: Vec2 { x: 100, y: 100 },
                        },
                        velocity: Velocity(vel),
                        acceleration: crate::physics::Acceleration(Vec2 { x: 0, y: 0 }),
                        sprite: Sprite { custom_size: Some(render_size) },
                        texture,
                    };
                    let id = world.next_id;
                    if world.next_id < u64::MAX {
                        world.next_id = world.next_id + 1;
                    }
                    let ghost projs_before = world.projectiles@;
                    world.projectiles.push(Projectile { id, bundle });
                    proof {
                        let p = world.projectiles@.last();
                        let os = old(world).ships@[i as int];
                        let ot = os.turrets@[j as int];
                        let og = ot.guns@[g as int];
                        assert(gun_fires(og, turret_firing, delta_ms as int));
                        assert(p.bundle.velocity.0 == vel);
                        assert(projectile_from(p, os, ot, og)) by {
                            assert((r1 as int) < 65536 && (r2 as int) < 65536 && (r3 as int)
                                < 65536);
                        }
                        assert(spawned_matches(p, *old(world), delta_ms as int));
                        assert(world.projectiles@.take(nproj0 as int) =~= projs_before.take(
                            nproj0 as int,
                        ));
                    }
                }
                world.ships[i].turrets[j].guns[g].cycle_timer = GunCycleTimer(
                    if turret_firing && ticked == 0 {
                        cycle_period_ms(rof)
                    } else {
                        ticked
                    },
                );
                g = g + 1;
            }
            proof {
                let gs = old(world).ships@[i as int].turrets@[j as int].guns@;
                assert(gs.take(nguns as int) =~= gs);
            }
            j = j + 1;
        }
        proof {
            let ts = old(world).ships@[i as int].turrets@;
            assert(ts.take(nturrets as int) =~= ts);
        }
        i = i + 1;
    }
    proof {
        assert(old(world).ships@.take(nships as int) =~= old(world).ships@);
    }
}

} // verus!
