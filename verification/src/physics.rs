//! Kinematic components, placement, and the axis-aligned overlap test used
//! by projectile collision.
use vstd::prelude::*;

use crate::math::div_trunc;
use crate::math::div_trunc_i128;
use crate::math::Vec2;
use crate::math::MAX_AIM;
use crate::math::MAX_COORD;
use crate::math::MAX_DELTA_MS;
use crate::math::MAX_VELOCITY;
use crate::projectile::ProjectileBundle;
use crate::ship::ShipBundle;
use crate::world::Projectile;
use crate::world::Ship;
use crate::world::World;

verus! {

broadcast use vstd::seq::group_seq_axioms;

/// Largest accepted collision-box extent for an entity.
pub const MAX_SCALE: i64 = 0x10_0000;

/// Linear velocity of an entity, in hundredths of a metre per second.
#[derive(Clone, Copy, Debug, PartialEq, Eq, Structural)]
pub struct Velocity(pub Vec2);

impl Velocity {
    /// Componentwise difference of two velocities.
    pub fn sub(self, rhs: Velocity) -> (r: Velocity)
        requires
            self.0.in_box(MAX_VELOCITY as int),
            rhs.0.in_box(MAX_VELOCITY as int),
        ensures
            r.0.x as int == self.0.x - rhs.0.x,
            r.0.y as int == self.0.y - rhs.0.y,
    {
        Velocity(Vec2 { x: self.0.x - rhs.0.x, y: self.0.y - rhs.0.y })
    }
}

impl Default for Velocity {
    fn default() -> (r: Self)
        ensures
            r == Velocity(Vec2 { x: 0, y: 0 }),
    {
        Velocity(Vec2 { x: 0, y: 0 })
    }
}

/// Linear acceleration; carried by ships but not yet integrated by the core
/// (reserved for a future drive model).
#[derive(Clone, Copy, Debug, PartialEq, Eq, Structural)]
pub struct Acceleration(pub Vec2);

impl Acceleration {
    /// Componentwise difference of two accelerations.
    pub fn sub(self, rhs: Acceleration) -> (r: Acceleration)
        requires
            self.0.in_box(MAX_VELOCITY as int),
            rhs.0.in_box(MAX_VELOCITY as int),
        ensures
            r.0.x as int == self.0.x - rhs.0.x,
            r.0.y as int == self.0.y - rhs.0.y,
    {
        Acceleration(Vec2 { x: self.0.x - rhs.0.x, y: self.0.y - rhs.0.y })
    }
}

impl Default for Acceleration {
    fn default() -> (r: Self)
        ensures
            r == Acceleration(Vec2 { x: 0, y: 0 }),
    {
        Acceleration(Vec2 { x: 0, y: 0 })
    }
}

/// Angular rate of an entity, in thousandths of a degree per second;
/// carried but, like `Acceleration`, not integrated by the core.
#[derive(Clone, Copy, Debug, PartialEq, Eq, Structural)]
pub struct VelocityRotational(pub i64);

/// Placement of an entity: a position, a heading, and the extents of its
/// collision box. The heading is a direction vector rather than an angle, so
/// that the intercept solver's exact aim vector can be stored unchanged; its
/// magnitude carries no meaning. Child entities (turrets on ships, guns on
/// turrets) hold their placement relative to the parent, and their world
/// position is the sum of the translations along the chain.
#[derive(Clone, Copy, Debug, PartialEq, Eq, Structural)]
pub struct Transform {
    pub translation: Vec2,
    pub rotation: Vec2,
    pub scale: Vec2,
}

impl Transform {
    /// Positions on the playfield, heading within the aim box, extents
    /// non-negative and bounded.
    pub open spec fn wf(self) -> bool {
        &&& self.translation.in_box(MAX_COORD as int)
        &&& self.rotation.in_box(MAX_AIM as int)
        &&& 0 <= self.scale.x <= MAX_SCALE
        &&& 0 <= self.scale.y <= MAX_SCALE
    }

    pub fn from_translation(translation: Vec2) -> (r: Transform)
        ensures
            r.translation == translation,
            r.rotation == (Vec2 { x: 0, y: 100 }),
            r.scale == (Vec2 { x: 100, y: 100 }),
    {
        Transform { translation, rotation: Vec2 { x: 0, y: 100 }, scale: Vec2 { x: 100, y: 100 } }
    }
}

impl Default for Transform {
    /// At the origin, facing up the y axis, with a one-metre collision box.
    fn default() -> (r: Self)
        ensures
            r == (Transform {
                translation: Vec2 { x: 0, y: 0 },
                rotation: Vec2 { x: 0, y: 100 },
                scale: Vec2 { x: 100, y: 100 },
            }),
            r.wf(),
    {
        Transform {
            translation: Vec2 { x: 0, y: 0 },
            rotation: Vec2 { x: 0, y: 100 },
            scale: Vec2 { x: 100, y: 100 },
        }
    }
}

/// A coordinate clamped onto the playfield.
pub open spec fn clamp_coord(x: int) -> int {
    if x < -MAX_COORD {
        -MAX_COORD as int
    } else if x > MAX_COORD {
        MAX_COORD as int
    } else {
        x
    }
}

/// A position advanced by a velocity over `delta_ms` milliseconds: each
/// component gains `velocity * delta_ms / 1000` (truncating division) and is
/// clamped onto the playfield.
pub open spec fn integrate(pos: Vec2, vel: Vec2, delta_ms: int) -> Vec2 {
    Vec2 {
        x: clamp_coord(pos.x + div_trunc(vel.x * delta_ms, 1000)) as i64,
        y: clamp_coord(pos.y + div_trunc(vel.y * delta_ms, 1000)) as i64,
    }
}

/// Advances a position by a velocity over `delta_ms`, per `integrate`.
pub fn integrate_exec(pos: Vec2, vel: Vec2, delta_ms: u64) -> (r: Vec2)
    requires
        pos.in_box(MAX_COORD as int),
        vel.in_box(MAX_VELOCITY as int),
        delta_ms <= MAX_DELTA_MS,
    ensures
        r == integrate(pos, vel, delta_ms as int),
        r.in_box(MAX_COORD as int),
{
    proof {
        assert((MAX_VELOCITY as int) * (MAX_DELTA_MS as int) == 0x14_9970_0000_0000)
            by (nonlinear_arith);
        crate::math::lemma_mul_bound(
            vel.x as int,
            delta_ms as int,
            MAX_VELOCITY as int,
            MAX_DELTA_MS as int,
        );
        crate::math::lemma_mul_bound(
            vel.y as int,
            delta_ms as int,
            MAX_VELOCITY as int,
            MAX_DELTA_MS as int,
        );
    }
    let dx: i128 = div_trunc_i128((vel.x as i128) * (delta_ms as i128), 1000);
    let dy: i128 = div_trunc_i128((vel.y as i128) * (delta_ms as i128), 1000);
    let mut nx: i128 = (pos.x as i128) + dx;
    let mut ny: i128 = (pos.y as i128) + dy;
    let lim: i128 = MAX_COORD as i128;
    if nx < -lim {
        nx = -lim;
    }
    if nx > lim {
        nx = lim;
    }
    if ny < -lim {
        ny = -lim;
    }
    if ny > lim {
        ny = lim;
    }
    Vec2 { x: nx as i64, y: ny as i64 }
}

/// Ship `s` moved to `pos`, all else unchanged.
pub open spec fn ship_at(s: Ship, pos: Vec2) -> Ship {
    Ship {
        bundle: ShipBundle {
            transform: Transform { translation: pos, ..s.bundle.transform },
            ..s.bundle
        },
        ..s
    }
}

/// Projectile `p` moved to `pos`, all else unchanged.
pub open spec fn projectile_at(p: Projectile, pos: Vec2) -> Projectile {
    Projectile {
        bundle: ProjectileBundle {
            transform: Transform { translation: pos, ..p.bundle.transform },
            ..p.bundle
        },
        ..p
    }
}

/// Movement integration: every entity carrying a velocity (ships and
/// projectiles; turrets and guns ride their parents) advances by
/// `velocity * delta_ms / 1000`, clamped onto the playfield.
pub fn object_movement_system(world: &mut World, delta_ms: u64)
    requires
        old(world).wf(),
        delta_ms <= MAX_DELTA_MS,
    ensures
        final(world).wf(),
        final(world).next_id == old(world).next_id,
        final(world).ships@.len() == old(world).ships@.len(),
        final(world).projectiles@.len() == old(world).projectiles@.len(),
        forall|i: int|
            0 <= i < old(world).ships@.len() ==> #[trigger] final(world).ships@[i] == ship_at(
                old(world).ships@[i],
                integrate(
                    old(world).ships@[i].bundle.transform.translation,
                    old(world).ships@[i].bundle.velocity.0,
                    delta_ms as int,
                ),
            ),
        forall|i: int|
            0 <= i < old(world).projectiles@.len() ==> #[trigger] final(world).projectiles@[i]
                == projectile_at(
                old(world).projectiles@[i],
                integrate(
                    old(world).projectiles@[i].bundle.transform.translation,
                    old(world).projectiles@[i].bundle.velocity.0,
                    delta_ms as int,
                ),
            ),
{
    let nships = world.ships.len();
    let mut i: usize = 0;
    while i < nships
        invariant
            world.wf(),
            delta_ms <= MAX_DELTA_MS,
            nships == world.ships@.len(),
            world.ships@.len() == old(world).ships@.len(),
            world.next_id == old(world).next_id,
            world.projectiles == old(world).projectiles,
            forall|k: int| i <= k < nships ==> world.ships@[k] == old(world).ships@[k],
            forall|k: int|
                0 <= k < i ==> #[trigger] world.ships@[k] == ship_at(
                    old(world).ships@[k],
                    integrate(
                        old(world).ships@[k].bundle.transform.translation,
                        old(world).ships@[k].bundle.velocity.0,
                        delta_ms as int,
                    ),
                ),
        decreases nships - i,
    {
        proof {
            assert(world.ships@[i as int].wf());
        }
        let pos = world.ships[i].bundle.transform.translation;
        let vel = world.ships[i].bundle.velocity.0;
        proof {
            assert(vel.in_box(MAX_VELOCITY as int)) by {
                assert(vel.in_box(crate::math::MAX_SHIP_SPEED as int));
            }
        }
        let npos = integrate_exec(pos, vel, delta_ms);
        world.ships[i].bundle.transform.translation = npos;
        i = i + 1;
    }
    let nproj = world.projectiles.len();
    let mut j: usize = 0;
    while j < nproj
        invariant
            world.wf(),
            delta_ms <= MAX_DELTA_MS,
            nproj == world.projectiles@.len(),
            world.projectiles@.len() == old(world).projectiles@.len(),
            world.ships@.len() == old(world).ships@.len(),
            world.next_id == old(world).next_id,
            forall|k: int|
                0 <= k < world.ships@.len() ==> #[trigger] world.ships@[k] == ship_at(
                    old(world).ships@[k],
                    integrate(
                        old(world).ships@[k].bundle.transform.translation,
                        old(world).ships@[k].bundle.velocity.0,
                        delta_ms as int,
                    ),
                ),
            forall|k: int| j <= k < nproj ==> world.projectiles@[k] == old(world).projectiles@[k],
            forall|k: int|
                0 <= k < j ==> #[trigger] world.projectiles@[k] == projectile_at(
                    old(world).projectiles@[k],
                    integrate(
                        old(world).projectiles@[k].bundle.transform.translation,
                        old(world).projectiles@[k].bundle.velocity.0,
                        delta_ms as int,
                    ),
                ),
        decreases nproj - j,
    {
        proof {
            assert(world.projectiles@[j as int].wf());
        }
        let pos = world.projectiles[j].bundle.transform.translation;
        let vel = world.projectiles[j].bundle.velocity.0;
        let npos = integrate_exec(pos, vel, delta_ms);
        world.projectiles[j].bundle.transform.translation = npos;
        j = j + 1;
    }
}

/// Two axis-aligned boxes, centred on `a_pos` and `b_pos` with full extents
/// `a_size` and `b_size`, overlap with positive area: on each axis the
/// distance of the centres, doubled, is less than the sum of the extents.
pub open spec fn overlaps(a_pos: Vec2, a_size: Vec2, b_pos: Vec2, b_size: Vec2) -> bool {
    &&& 2 * (a_pos.x - b_pos.x) < a_size.x + b_size.x
    &&& 2 * (b_pos.x - a_pos.x) < a_size.x + b_size.x
    &&& 2 * (a_pos.y - b_pos.y) < a_size.y + b_size.y
    &&& 2 * (b_pos.y - a_pos.y) < a_size.y + b_size.y
}

/// Axis-aligned box overlap test between two placed entities.
pub fn collide(a_pos: Vec2, a_size: Vec2, b_pos: Vec2, b_size: Vec2) -> (r: bool)
    requires
        a_pos.in_box(MAX_COORD as int),
        b_pos.in_box(MAX_COORD as int),
        a_size.in_box(MAX_SCALE as int),
        b_size.in_box(MAX_SCALE as int),
    ensures
        r == overlaps(a_pos, a_size, b_pos, b_size),
{
    2 * (a_pos.x - b_pos.x) < a_size.x + b_size.x && 2 * (b_pos.x - a_pos.x) < a_size.x
        + b_size.x && 2 * (a_pos.y - b_pos.y) < a_size.y + b_size.y && 2 * (b_pos.y - a_pos.y)
        < a_size.y + b_size.y
}

/// Projectile `p` strikes ship `s`: their boxes overlap and their faction
/// tags differ (friendly fire is filtered out).
pub open spec fn hits(p: Projectile, s: Ship) -> bool {
    &&& p.bundle.iff != s.bundle.iff
    &&& overlaps(
        s.bundle.transform.translation,
        s.bundle.transform.scale,
        p.bundle.transform.translation,
        p.bundle.transform.scale,
    )
}

/// Subtraction that bottoms out at the representable minimum.
pub open spec fn sat_sub(h: int, d: int) -> int {
    if h - d < i64::MIN {
        i64::MIN as int
    } else {
        h - d
    }
}

/// Health after one projectile is resolved against a ship: reduced by the
/// projectile's damage on a hit, untouched otherwise.
pub open spec fn damage_step(h: int, p: Projectile, s: Ship) -> int {
    if hits(p, s) {
        sat_sub(h, p.bundle.damage.0 as int)
    } else {
        h
    }
}

/// Health after every projectile in `projs` is resolved against ship `s`,
/// in order.
pub open spec fn health_after(h: int, projs: Seq<Projectile>, s: Ship) -> int
    decreases projs.len(),
{
    if projs.len() == 0 {
        h
    } else {
        damage_step(health_after(h, projs.drop_last(), s), projs.last(), s)
    }
}

/// Projectile `p` flies on: it strikes no ship this tick.
pub open spec fn survives(p: Projectile, ships: Seq<Ship>) -> bool {
    forall|i: int| 0 <= i < ships.len() ==> !hits(p, #[trigger] ships[i])
}

/// `survives`, packaged as the predicate that keeps a projectile.
pub open spec fn survivor_pred(ships: Seq<Ship>) -> spec_fn(Projectile) -> bool {
    |p: Projectile| survives(p, ships)
}

/// Ship `s` with its health replaced, all else unchanged.
pub open spec fn ship_with_health(s: Ship, h: int) -> Ship {
    Ship { bundle: ShipBundle { health: crate::ship::Health(h as i64), ..s.bundle }, ..s }
}

/// Resolving projectiles of non-negative damage never raises health and
/// never leaves the representable range.
pub proof fn lemma_health_after_bounds(h: int, projs: Seq<Projectile>, s: Ship)
    requires
        i64::MIN <= h <= i64::MAX,
        forall|i: int| 0 <= i < projs.len() ==> (#[trigger] projs[i]).bundle.damage.0 >= 0,
    ensures
        i64::MIN <= health_after(h, projs, s) <= h,
    decreases projs.len(),
{
    if projs.len() > 0 {
        assert(forall|i: int|
            0 <= i < projs.drop_last().len() ==> (#[trigger] projs.drop_last()[i]).bundle.damage.0
                >= 0);
        lemma_health_after_bounds(h, projs.drop_last(), s);
    }
}

/// A projectile never strikes a ship of its own faction: resolving it
/// against such a ship leaves the health exactly as it was, whatever the
/// boxes do.
pub proof fn lemma_friendly_fire_filtered(h: int, p: Projectile, s: Ship)
    requires
        p.bundle.iff == s.bundle.iff,
    ensures
        damage_step(h, p, s) == h,
{
}

/// A projectile of a different faction whose box overlaps always damages:
/// resolving it reduces the health by exactly its (positive) damage.
pub proof fn lemma_opposed_hit_damages(h: int, p: Projectile, s: Ship)
    requires
        p.bundle.iff != s.bundle.iff,
        overlaps(
            s.bundle.transform.translation,
            s.bundle.transform.scale,
            p.bundle.transform.translation,
            p.bundle.transform.scale,
        ),
        p.bundle.damage.0 > 0,
        h - p.bundle.damage.0 >= i64::MIN,
    ensures
        damage_step(h, p, s) == h - p.bundle.damage.0,
        damage_step(h, p, s) < h,
{
}

/// A volley of a ship's own faction leaves its health untouched, however
/// many of the projectiles overlap it.
pub proof fn lemma_friendly_volley_harmless(h: int, projs: Seq<Projectile>, s: Ship)
    requires
        forall|i: int| 0 <= i < projs.len() ==> (#[trigger] projs[i]).bundle.iff == s.bundle.iff,
    ensures
        health_after(h, projs, s) == h,
    decreases projs.len(),
{
    if projs.len() > 0 {
        lemma_friendly_volley_harmless(h, projs.drop_last(), s);
    }
}

/// Collision resolution: every projectile is tested against every ship;
/// each overlapping pair of differing faction costs the ship the
/// projectile's damage, and a projectile that struck anything is removed
/// (one that struck nothing flies on). Positions are those already advanced
/// by movement this tick.
pub fn projectile_collision_system(world: &mut World)
    requires
        old(world).wf(),
    ensures
        final(world).wf(),
        final(world).next_id == old(world).next_id,
        final(world).ships@.len() == old(world).ships@.len(),
        forall|i: int|
            0 <= i < old(world).ships@.len() ==> #[trigger] final(world).ships@[i]
                == ship_with_health(
                old(world).ships@[i],
                health_after(
                    old(world).ships@[i].bundle.health.0 as int,
                    old(world).projectiles@,
                    old(world).ships@[i],
                ),
            ),
        final(world).projectiles@ == old(world).projectiles@.filter(
            survivor_pred(old(world).ships@),
        ),
{
    let nships = world.ships.len();
    let nproj = world.projectiles.len();
    let mut flags: Vec<bool> = Vec::new();
    let mut pi: usize = 0;
    while pi < nproj
        invariant
            world.wf(),
            nships == world.ships@.len(),
            nproj == world.projectiles@.len(),
            world.ships@.len() == old(world).ships@.len(),
            world.next_id == old(world).next_id,
            world.projectiles == old(world).projectiles,
            pi <= nproj,
            flags@.len() == pi,
            forall|k: int|
                0 <= k < pi ==> flags@[k] == !survives(
                    #[trigger] old(world).projectiles@[k],
                    old(world).ships@,
                ),
            forall|k: int|
                0 <= k < nships ==> #[trigger] world.ships@[k] == ship_with_health(
                    old(world).ships@[k],
                    health_after(
                        old(world).ships@[k].bundle.health.0 as int,
                        old(world).projectiles@.take(pi as int),
                        old(world).ships@[k],
                    ),
                ),
        decreases nproj - pi,
    {
        let p_iff = world.projectiles[pi].bundle.iff;
        let p_pos = world.projectiles[pi].bundle.transform.translation;
        let p_scale = world.projectiles[pi].bundle.transform.scale;
        let p_damage = world.projectiles[pi].bundle.damage.0;
        proof {
            assert(world.projectiles@[pi as int].wf());
        }
        let mut hit: bool = false;
        let mut si: usize = 0;
        while si < nships
            invariant
                world.wf(),
                nships == world.ships@.len(),
                nproj == world.projectiles@.len(),
                world.ships@.len() == old(world).ships@.len(),
                world.next_id == old(world).next_id,
                world.projectiles == old(world).projectiles,
                pi < nproj,
                si <= nships,
                p_iff == old(world).projectiles@[pi as int].bundle.iff,
                p_pos == old(world).projectiles@[pi as int].bundle.transform.translation,
                p_scale == old(world).projectiles@[pi as int].bundle.transform.scale,
                p_damage == old(world).projectiles@[pi as int].bundle.damage.0,
                hit == !(forall|m: int|
                    0 <= m < si ==> !hits(
                        old(world).projectiles@[pi as int],
                        #[trigger] old(world).ships@[m],
                    )),
                forall|k: int|
                    si <= k < nships ==> #[trigger] world.ships@[k] == ship_with_health(
                        old(world).ships@[k],
                        health_after(
                            old(world).ships@[k].bundle.health.0 as int,
                            old(world).projectiles@.take(pi as int),
                            old(world).ships@[k],
                        ),
                    ),
                forall|k: int|
                    0 <= k < si ==> #[trigger] world.ships@[k] == ship_with_health(
                        old(world).ships@[k],
                        health_after(
                            old(world).ships@[k].bundle.health.0 as int,
                            old(world).projectiles@.take(pi as int + 1),
                            old(world).ships@[k],
                        ),
                    ),
            decreases nships - si,
        {
            proof {
                assert(world.ships@[si as int].wf());
                assert(old(world).projectiles@.take(pi as int + 1).drop_last() =~= old(
                    world,
                ).projectiles@.take(pi as int));
                assert(old(world).projectiles@.take(pi as int + 1).last() == old(
                    world,
                ).projectiles@[pi as int]);
            }
            proof {
                let done = old(world).projectiles@.take(pi as int);
                assert forall|m: int| 0 <= m < done.len() implies (#[trigger] done[m]).bundle.damage.0
                    >= 0 by {
                    assert(old(world).projectiles@[m].wf());
                }
                lemma_health_after_bounds(
                    old(world).ships@[si as int].bundle.health.0 as int,
                    done,
                    old(world).ships@[si as int],
                );
            }
            let s_iff = world.ships[si].bundle.iff;
            let s_pos = world.ships[si].bundle.transform.translation;
            let s_scale = world.ships[si].bundle.transform.scale;
            if p_iff != s_iff && collide(s_pos, s_scale, p_pos, p_scale) {
                let h = world.ships[si].bundle.health.0;
                let nh: i128 = (h as i128) - (p_damage as i128);
                let min: i128 = i64::MIN as i128;
                let clamped: i64 = if nh < min {
                    i64::MIN
                } else {
                    nh as i64
                };
                world.ships[si].bundle.health.0 = clamped;
                hit = true;
            }
            si = si + 1;
        }
        flags.push(hit);
        pi = pi + 1;
    }
    proof {
        assert(old(world).projectiles@.take(nproj as int) =~= old(world).projectiles@);
    }
    let mut projs: Vec<Projectile> = Vec::new();
    core::mem::swap(&mut world.projectiles, &mut projs);
    let mut out: Vec<Projectile> = Vec::new();
    let mut k: usize = 0;
    while k < nproj
        invariant
            old(world).wf(),
            nproj == flags@.len(),
            nproj == old(world).projectiles@.len(),
            k <= nproj,
            forall|m: int| 0 <= m < out@.len() ==> (#[trigger] out@[m]).wf(),
            projs@ =~= old(world).projectiles@.skip(k as int),
            out@ =~= old(world).projectiles@.take(k as int).filter(
                survivor_pred(old(world).ships@),
            ),
            forall|m: int|
                0 <= m < nproj ==> flags@[m] == !survives(
                    #[trigger] old(world).projectiles@[m],
                    old(world).ships@,
                ),
        decreases nproj - k,
    {
        proof {
            assert(projs@[0] == old(world).projectiles@.skip(k as int)[0]);
            assert(old(world).projectiles@.skip(k as int)[0] == old(world).projectiles@[k as int]);
        }
        let ghost prev = projs@;
        let p = projs.remove(0);
        if !flags[k] {
            out.push(p);
        }
        proof {
            assert(projs@ =~= prev.skip(1));
            assert(projs@ =~= old(world).projectiles@.skip(k as int + 1));
            let pr = survivor_pred(old(world).ships@);
            let t1 = old(world).projectiles@.take(k as int + 1);
            assert(t1.drop_last() =~= old(world).projectiles@.take(k as int));
            assert(t1.last() == old(world).projectiles@[k as int]);
            assert(pr(p) == survives(p, old(world).ships@));
            reveal_with_fuel(Seq::<Projectile>::filter, 2);
            assert(t1.filter(pr) == if pr(t1.last()) {
                t1.drop_last().filter(pr).push(t1.last())
            } else {
                t1.drop_last().filter(pr)
            });
            assert(out@ =~= t1.filter(pr));
        }
        k = k + 1;
    }
    world.projectiles = out;
    proof {
        assert(old(world).projectiles@.take(nproj as int) =~= old(world).projectiles@);
    }
}

} // verus!
