//! Target selection and the first-order intercept solver.
//!
//! The solver answers: from a turret at the origin, firing a projectile of
//! constant speed `projectile_velocity` at a target at `relative_position`
//! moving with constant `relative_velocity`, at what future time and in what
//! direction does a straight shot meet the target?  Squaring the meeting
//! condition `|p + t*v| == pv * t` gives the quadratic
//! `(|v|^2 - pv^2)*t^2 + 2*(p . v)*t + |p|^2 == 0`; the solver takes the
//! smallest positive root (the soonest future intercept) and aims at the
//! predicted meeting point `p + t*v`.
use vstd::prelude::*;

use crate::math::div_trunc;
use crate::math::dot;
use crate::math::iabs;
use crate::math::is_sqrt_floor;
use crate::math::isqrt;
use crate::math::lemma_div_trunc_neg;
use crate::math::lemma_mul_bound;
use crate::math::lemma_sq_bound;
use crate::math::lemma_sqrt_floor_unique;
use crate::math::norm2;
use crate::math::sqrt_floor;
use crate::math::Vec2;
use crate::math::ENGAGE_RANGE;
use crate::math::MAX_AIM;
use crate::math::MAX_COORD;
use crate::math::MAX_PROJECTILE_SPEED;
use crate::physics::Transform;
use crate::turret::TurretBundle;
use crate::turret::TurretProperties;
use crate::turret::TurretState;
use crate::world::candidates;
use crate::world::collect_candidates;
use crate::world::collect_kinematics;
use crate::world::find_kinematics;
use crate::world::find_kinematics_exec;
use crate::world::kinematics;
use crate::world::select_target;
use crate::world::select_target_exec;
use crate::world::turret_with_props;
use crate::world::turret_world_pos;
use crate::world::Ship;
use crate::world::Turret;
use crate::world::World;
use crate::interaction::IFF;

verus! {

/// An intercept returned by the solver.  The time to intercept is the exact
/// rational `time_num / time_den` (both positive); `aim` points at the
/// predicted meeting point and is scaled to the projectile speed: it is
/// `(time_den * p + time_num * v) / time_num`, each component by truncating
/// division, which is `(p + t*v) / t`, the relative velocity a straight
/// projectile must fly at to meet the target.
#[derive(Clone, Copy, Debug)]
pub struct InterceptSolution {
    pub time_num: i64,
    pub time_den: i64,
    pub aim: Vec2,
}

/// Mathematical mirror of `InterceptSolution`.
pub struct InterceptModel {
    pub num: int,
    pub den: int,
    pub aim_x: int,
    pub aim_y: int,
}

/// Aim vector for intercept time `num / den`: the predicted meeting point
/// `p + t*v` divided by `t`, computed exactly as truncating integer
/// divisions.
pub open spec fn aim_x_of(p: Vec2, v: Vec2, num: int, den: int) -> int {
    div_trunc(den * p.x + num * v.x, num)
}

/// The y component of the aim vector; see `aim_x_of`.
pub open spec fn aim_y_of(p: Vec2, v: Vec2, num: int, den: int) -> int {
    div_trunc(den * p.y + num * v.y, num)
}

/// Packages a positive root `num / den` as a solution, unless its aim vector
/// falls outside the representable aim box (a kinematically absurd solution,
/// reported as no solution).
pub open spec fn finish_model(p: Vec2, v: Vec2, num: int, den: int) -> Option<InterceptModel> {
    let ax = aim_x_of(p, v, num, den);
    let ay = aim_y_of(p, v, num, den);
    if iabs(ax) <= MAX_AIM as int && iabs(ay) <= MAX_AIM as int {
        Some(InterceptModel { num, den, aim_x: ax, aim_y: ay })
    } else {
        None
    }
}

/// The discriminant of the intercept quadratic.
pub open spec fn disc_of(p: Vec2, v: Vec2, pv: int) -> int {
    dot(p, v) * dot(p, v) - norm2(p) * (norm2(v) - pv * pv)
}

/// Exact mathematical model of the intercept solver: `None` when the turret
/// sits on the target, when the discriminant is negative, or when no root is
/// positive; otherwise the smallest positive root with its aim vector.
pub open spec fn intercept_model(p: Vec2, v: Vec2, pv: int) -> Option<InterceptModel> {
    let dist2 = norm2(p);
    let dd = dot(p, v);
    let a = norm2(v) - pv * pv;
    if dist2 == 0 {
        None
    } else if a == 0 {
        // The quadratic degenerates to `2*dd*t + dist2 == 0`.
        if dd < 0 {
            finish_model(p, v, dist2, -2 * dd)
        } else {
            None
        }
    } else {
        let disc = disc_of(p, v, pv);
        if disc < 0 {
            None
        } else {
            let s = sqrt_floor(disc);
            // Both roots over a positive denominator, in increasing order.
            let den = if a > 0 { a } else { -a };
            let lo = if a > 0 { -dd - s } else { dd - s };
            let hi = if a > 0 { -dd + s } else { dd + s };
            if lo > 0 {
                finish_model(p, v, lo, den)
            } else if hi > 0 {
                finish_model(p, v, hi, den)
            } else {
                None
            }
        }
    }
}

/// The executable result agrees with the model field by field.
pub open spec fn solution_matches(r: Option<InterceptSolution>, m: Option<InterceptModel>) -> bool {
    match m {
        None => r is None,
        Some(mm) => {
            &&& r is Some
            &&& r.unwrap().time_num as int == mm.num
            &&& r.unwrap().time_den as int == mm.den
            &&& r.unwrap().aim.x as int == mm.aim_x
            &&& r.unwrap().aim.y as int == mm.aim_y
        },
    }
}

/// Divides the aim numerator by the root numerator and checks the aim box,
/// mirroring `finish_model`.
fn finish(p: Vec2, v: Vec2, num: i128, den: i128) -> (r: Option<InterceptSolution>)
    requires
        p.in_box(ENGAGE_RANGE as int),
        v.in_box(ENGAGE_RANGE as int),
        0 < num <= 0x1_0000_0000_0000,
        0 < den <= 0x1_0000_0000_0000,
    ensures
        solution_matches(r, finish_model(p, v, num as int, den as int)),
{
    proof {
        lemma_mul_bound(den as int, p.x as int, 0x1_0000_0000_0000, ENGAGE_RANGE as int);
        lemma_mul_bound(den as int, p.y as int, 0x1_0000_0000_0000, ENGAGE_RANGE as int);
        lemma_mul_bound(num as int, v.x as int, 0x1_0000_0000_0000, ENGAGE_RANGE as int);
        lemma_mul_bound(num as int, v.y as int, 0x1_0000_0000_0000, ENGAGE_RANGE as int);
    }
    let nx: i128 = den * (p.x as i128) + num * (v.x as i128);
    let ny: i128 = den * (p.y as i128) + num * (v.y as i128);
    let ax: i128 = crate::math::div_trunc_i128(nx, num);
    let ay: i128 = crate::math::div_trunc_i128(ny, num);
    let lim: i128 = MAX_AIM as i128;
    if -lim <= ax && ax <= lim && -lim <= ay && ay <= lim {
        Some(
            InterceptSolution {
                time_num: num as i64,
                time_den: den as i64,
                aim: Vec2 { x: ax as i64, y: ay as i64 },
            },
        )
    } else {
        None
    }
}

/// Computes the first-order firing solution for a target at
/// `relative_position` moving at `relative_velocity`, against a projectile
/// of speed `projectile_velocity`; exact integer arithmetic throughout, per
/// `intercept_model`.
pub fn target_prediction_first_order(
    relative_position: Vec2,
    relative_velocity: Vec2,
    projectile_velocity: i64,
) -> (r: Option<InterceptSolution>)
    requires
        relative_position.in_box(ENGAGE_RANGE as int),
        relative_velocity.in_box(ENGAGE_RANGE as int),
        0 < projectile_velocity <= MAX_PROJECTILE_SPEED,
    ensures
        solution_matches(
            r,
            intercept_model(relative_position, relative_velocity, projectile_velocity as int),
        ),
{
    let p = relative_position;
    let v = relative_velocity;
    let px: i128 = p.x as i128;
    let py: i128 = p.y as i128;
    let vx: i128 = v.x as i128;
    let vy: i128 = v.y as i128;
    let pvw: i128 = projectile_velocity as i128;
    proof {
        assert((ENGAGE_RANGE as int) * (ENGAGE_RANGE as int) == 0x100_0000_0000)
            by (nonlinear_arith);
        lemma_sq_bound(px as int, ENGAGE_RANGE as int);
        lemma_sq_bound(py as int, ENGAGE_RANGE as int);
        lemma_mul_bound(px as int, vx as int, ENGAGE_RANGE as int, ENGAGE_RANGE as int);
        lemma_mul_bound(py as int, vy as int, ENGAGE_RANGE as int, ENGAGE_RANGE as int);
        lemma_sq_bound(vx as int, ENGAGE_RANGE as int);
        lemma_sq_bound(vy as int, ENGAGE_RANGE as int);
        lemma_sq_bound(pvw as int, ENGAGE_RANGE as int);
    }
    let dist2: i128 = px * px + py * py;
    let dd: i128 = px * vx + py * vy;
    let speed2: i128 = vx * vx + vy * vy;
    let a: i128 = speed2 - pvw * pvw;
    proof {
        assert(iabs((px as int) * (vx as int)) <= 0x100_0000_0000);
        assert(iabs((py as int) * (vy as int)) <= 0x100_0000_0000);
        assert(-0x200_0000_0000 <= dd as int <= 0x200_0000_0000);
        assert(0 <= dist2 as int <= 0x200_0000_0000);
        assert(-0x200_0000_0000 <= a as int <= 0x200_0000_0000);
    }
    if dist2 == 0 {
        None
    } else if a == 0 {
        if dd < 0 {
            proof {
                assert(0 < dist2 as int <= 0x1_0000_0000_0000);
                assert(0 < -2 * (dd as int));
                assert(-2 * (dd as int) <= 0x1_0000_0000_0000);
            }
            finish(p, v, dist2, -2 * dd)
        } else {
            None
        }
    } else {
        proof {
            lemma_mul_bound(dd as int, dd as int, 0x400_0000_0000, 0x400_0000_0000);
            lemma_mul_bound(dist2 as int, a as int, 0x400_0000_0000, 0x400_0000_0000);
        }
        let disc: i128 = dd * dd - dist2 * a;
        if disc < 0 {
            None
        } else {
            let s128: u128 = isqrt(disc as u128);
            proof {
                assert(is_sqrt_floor(disc as int, s128 as int));
                assert(s128 as int <= 0x1000_0000_0000) by (nonlinear_arith)
                    requires
                        is_sqrt_floor(disc as int, s128 as int),
                        disc as int <= 0x100_0000_0000_0000_0000_0000,
                ;
            }
            let s: i128 = s128 as i128;
            let den: i128 = if a > 0 { a } else { -a };
            let lo: i128 = if a > 0 { -dd - s } else { dd - s };
            let hi: i128 = if a > 0 { -dd + s } else { dd + s };
            if lo > 0 {
                finish(p, v, lo, den)
            } else if hi > 0 {
                finish(p, v, hi, den)
            } else {
                None
            }
        }
    }
}

/// The engagement state a turret holds after the selection pass: with no
/// candidates at all the turret drops both its target and its firing state;
/// otherwise its target becomes the nearest entity of a different faction
/// (or none when every candidate shares the tag), and its firing state is
/// left for the intercept pass to settle.
pub open spec fn selected_props(s: Ship, t: Turret, cands: Seq<(u64, Vec2, IFF)>) -> TurretProperties {
    if cands.len() == 0 {
        TurretProperties {
            target_entity: None,
            turret_state: TurretState::NoTarget,
            ..t.bundle.turret_properties
        }
    } else {
        TurretProperties {
            target_entity: select_target(cands, turret_world_pos(s, t), s.bundle.iff),
            ..t.bundle.turret_properties
        }
    }
}

/// Ship `ns` is ship `os` after the selection pass over candidates `cands`.
pub open spec fn selection_applied(os: Ship, ns: Ship, cands: Seq<(u64, Vec2, IFF)>) -> bool {
    &&& ns.id == os.id
    &&& ns.is_player == os.is_player
    &&& ns.bundle == os.bundle
    &&& ns.turrets@.len() == os.turrets@.len()
    &&& forall|j: int|
        0 <= j < os.turrets@.len() ==> #[trigger] ns.turrets@[j] == turret_with_props(
            os.turrets@[j],
            selected_props(os, os.turrets@[j], cands),
        )
}

/// Nearest-target selection: every turret of every ship is assigned the
/// closest entity bearing a different faction tag (ships and projectiles
/// alike), or no target when none differs; with an empty candidate list a
/// turret also drops out of its firing state.
pub fn turret_target_selection(world: &mut World)
    requires
        old(world).wf(),
    ensures
        final(world).wf(),
        final(world).next_id == old(world).next_id,
        final(world).projectiles == old(world).projectiles,
        final(world).ships@.len() == old(world).ships@.len(),
        forall|i: int|
            0 <= i < old(world).ships@.len() ==> selection_applied(
                old(world).ships@[i],
                #[trigger] final(world).ships@[i],
                candidates(*old(world)),
            ),
{
    let cands = collect_candidates(world);
    let nships = world.ships.len();
    let mut i: usize = 0;
    while i < nships
        invariant
            world.wf(),
            nships == world.ships@.len(),
            world.ships@.len() == old(world).ships@.len(),
            world.next_id == old(world).next_id,
            world.projectiles == old(world).projectiles,
            cands@ == candidates(*old(world)),
            forall|k: int|
                0 <= k < cands@.len() ==> (#[trigger] cands@[k]).1.in_box(MAX_COORD as int),
            forall|k: int| i <= k < nships ==> world.ships@[k] == old(world).ships@[k],
            forall|k: int|
                0 <= k < i ==> selection_applied(
                    old(world).ships@[k],
                    #[trigger] world.ships@[k],
                    cands@,
                ),
        decreases nships - i,
    {
        let nturrets = world.ships[i].turrets.len();
        let own_iff = world.ships[i].bundle.iff;
        let sx = world.ships[i].bundle.transform.translation.x;
        let sy = world.ships[i].bundle.transform.translation.y;
        let mut j: usize = 0;
        while j < nturrets
            invariant
                world.wf(),
                i < nships,
                nships == world.ships@.len(),
                world.ships@.len() == old(world).ships@.len(),
                world.next_id == old(world).next_id,
                world.projectiles == old(world).projectiles,
                cands@ == candidates(*old(world)),
                forall|k: int|
                    0 <= k < cands@.len() ==> (#[trigger] cands@[k]).1.in_box(MAX_COORD as int),
                forall|k: int| i < k < nships ==> world.ships@[k] == old(world).ships@[k],
                forall|k: int|
                    0 <= k < i ==> selection_applied(
                        old(world).ships@[k],
                        #[trigger] world.ships@[k],
                        cands@,
                    ),
                j <= nturrets,
                nturrets == world.ships@[i as int].turrets@.len(),
                nturrets == old(world).ships@[i as int].turrets@.len(),
                world.ships@[i as int].id == old(world).ships@[i as int].id,
                world.ships@[i as int].is_player == old(world).ships@[i as int].is_player,
                world.ships@[i as int].bundle == old(world).ships@[i as int].bundle,
                own_iff == old(world).ships@[i as int].bundle.iff,
                sx == old(world).ships@[i as int].bundle.transform.translation.x,
                sy == old(world).ships@[i as int].bundle.transform.translation.y,
                forall|l: int|
                    j <= l < nturrets ==> world.ships@[i as int].turrets@[l] == old(
                        world,
                    ).ships@[i as int].turrets@[l],
                forall|l: int|
                    0 <= l < j ==> #[trigger] world.ships@[i as int].turrets@[l]
                        == turret_with_props(
                        old(world).ships@[i as int].turrets@[l],
                        selected_props(
                            old(world).ships@[i as int],
                            old(world).ships@[i as int].turrets@[l],
                            cands@,
                        ),
                    ),
            decreases nturrets - j,
        {
            let tx = world.ships[i].turrets[j].bundle.transform.translation.x;
            let ty = world.ships[i].turrets[j].bundle.transform.translation.y;
            let old_props = world.ships[i].turrets[j].bundle.turret_properties;
            let new_props: TurretProperties;
            if cands.len() == 0 {
                new_props = TurretProperties {
                    target_entity: None,
                    turret_state: TurretState::NoTarget,
                    ..old_props
                };
            } else {
                let wpos = Vec2 { x: sx + tx, y: sy + ty };
                let tgt = select_target_exec(&cands, wpos, own_iff);
                new_props = TurretProperties { target_entity: tgt, ..old_props };
            }
            world.ships[i].turrets[j].bundle.turret_properties = new_props;
            j = j + 1;
        }
        i = i + 1;
    }
}

/// The turret `t` with its engagement state replaced by `st`, all else
/// unchanged.
pub open spec fn turret_state_set(t: Turret, st: TurretState) -> Turret {
    Turret {
        bundle: TurretBundle {
            turret_properties: TurretProperties { turret_state: st, ..t.bundle.turret_properties },
            ..t.bundle
        },
        ..t
    }
}

/// The turret `t` swung onto the aim vector `aim` and set firing.
pub open spec fn turret_aimed(t: Turret, aim: Vec2) -> Turret {
    Turret {
        bundle: TurretBundle {
            transform: Transform { rotation: aim, ..t.bundle.transform },
            turret_properties: TurretProperties {
                turret_state: TurretState::Firing,
                ..t.bundle.turret_properties
            },
            ..t.bundle
        },
        ..t
    }
}

/// One turret after the intercept pass. A turret without a target, or whose
/// stored target no longer exists, is left untouched. Otherwise the solver
/// runs on the target's position and velocity relative to the turret; a
/// solution swings the turret onto the aim vector and sets it firing, and no
/// solution (including a target outside the engagement envelope) drops it
/// out of the firing state while keeping the target for the next selection
/// pass.
pub open spec fn targeted_turret(os: Ship, ot: Turret, w: World) -> Turret {
    match ot.bundle.turret_properties.target_entity {
        Option::None => ot,
        Option::Some(id) => match find_kinematics(w, id) {
            Option::None => ot,
            Option::Some(k) => {
                let wpos = turret_world_pos(os, ot);
                let rp = Vec2 { x: (k.0.x - wpos.x) as i64, y: (k.0.y - wpos.y) as i64 };
                let rv = Vec2 {
                    x: (k.1.x - os.bundle.velocity.0.x) as i64,
                    y: (k.1.y - os.bundle.velocity.0.y) as i64,
                };
                let pv = ot.bundle.gun_properties.projectile_velocity_mps;
                if rp.in_box(ENGAGE_RANGE as int) && rv.in_box(ENGAGE_RANGE as int) {
                    match intercept_model(rp, rv, pv as int) {
                        Option::Some(m) => turret_aimed(
                            ot,
                            Vec2 { x: m.aim_x as i64, y: m.aim_y as i64 },
                        ),
                        Option::None => turret_state_set(ot, TurretState::NoTarget),
                    }
                } else {
                    turret_state_set(ot, TurretState::NoTarget)
                }
            },
        },
    }
}

/// Ship `ns` is ship `os` after the intercept pass over world `w`.
pub open spec fn targeting_applied(os: Ship, ns: Ship, w: World) -> bool {
    &&& ns.id == os.id
    &&& ns.is_player == os.is_player
    &&& ns.bundle == os.bundle
    &&& ns.turrets@.len() == os.turrets@.len()
    &&& forall|j: int|
        0 <= j < os.turrets@.len() ==> #[trigger] ns.turrets@[j] == targeted_turret(
            os,
            os.turrets@[j],
            w,
        )
}

/// The intercept pass: every turret with a live target gets a firing
/// solution computed for it and is swung onto the aim vector, entering or
/// leaving the firing state as the solver allows; see `targeted_turret`.
pub fn turret_targeting_system(world: &mut World)
    requires
        old(world).wf(),
    ensures
        final(world).wf(),
        final(world).next_id == old(world).next_id,
        final(world).projectiles == old(world).projectiles,
        final(world).ships@.len() == old(world).ships@.len(),
        forall|i: int|
            0 <= i < old(world).ships@.len() ==> targeting_applied(
                old(world).ships@[i],
                #[trigger] final(world).ships@[i],
                *old(world),
            ),
{
    let kin = collect_kinematics(world);
    let nships = world.ships.len();
    let mut i: usize = 0;
    while i < nships
        invariant
            world.wf(),
            nships == world.ships@.len(),
            world.ships@.len() == old(world).ships@.len(),
            world.next_id == old(world).next_id,
            world.projectiles == old(world).projectiles,
            kin@ == kinematics(*old(world)),
            forall|k: int| 0 <= k < kin@.len() ==> (#[trigger] kin@[k]).1.in_box(MAX_COORD as int),
            forall|k: int|
                0 <= k < kin@.len() ==> (#[trigger] kin@[k]).2.in_box(
                    crate::math::MAX_VELOCITY as int,
                ),
            forall|k: int| i <= k < nships ==> world.ships@[k] == old(world).ships@[k],
            forall|k: int|
                0 <= k < i ==> targeting_applied(
                    old(world).ships@[k],
                    #[trigger] world.ships@[k],
                    *old(world),
                ),
        decreases nships - i,
    {
        let nturrets = world.ships[i].turrets.len();
        let sx = world.ships[i].bundle.transform.translation.x;
        let sy = world.ships[i].bundle.transform.translation.y;
        let svx = world.ships[i].bundle.velocity.0.x;
        let svy = world.ships[i].bundle.velocity.0.y;
        let mut j: usize = 0;
        while j < nturrets
            invariant
                world.wf(),
                i < nships,
                nships == world.ships@.len(),
                world.ships@.len() == old(world).ships@.len(),
                world.next_id == old(world).next_id,
                world.projectiles == old(world).projectiles,
                kin@ == kinematics(*old(world)),
                forall|k: int|
                    0 <= k < kin@.len() ==> (#[trigger] kin@[k]).1.in_box(MAX_COORD as int),
                forall|k: int|
                    0 <= k < kin@.len() ==> (#[trigger] kin@[k]).2.in_box(
                        crate::math::MAX_VELOCITY as int,
                    ),
                forall|k: int| i < k < nships ==> world.ships@[k] == old(world).ships@[k],
                forall|k: int|
                    0 <= k < i ==> targeting_applied(
                        old(world).ships@[k],
                        #[trigger] world.ships@[k],
                        *old(world),
                    ),
                j <= nturrets,
                nturrets == world.ships@[i as int].turrets@.len(),
                nturrets == old(world).ships@[i as int].turrets@.len(),
                world.ships@[i as int].id == old(world).ships@[i as int].id,
                world.ships@[i as int].is_player == old(world).ships@[i as int].is_player,
                world.ships@[i as int].bundle == old(world).ships@[i as int].bundle,
                sx == old(world).ships@[i as int].bundle.transform.translation.x,
                sy == old(world).ships@[i as int].bundle.transform.translation.y,
                svx == old(world).ships@[i as int].bundle.velocity.0.x,
                svy == old(world).ships@[i as int].bundle.velocity.0.y,
                forall|l: int|
                    j <= l < nturrets ==> world.ships@[i as int].turrets@[l] == old(
                        world,
                    ).ships@[i as int].turrets@[l],
                forall|l: int|
                    0 <= l < j ==> #[trigger] world.ships@[i as int].turrets@[l]
                        == targeted_turret(
                        old(world).ships@[i as int],
                        old(world).ships@[i as int].turrets@[l],
                        *old(world),
                    ),
            decreases nturrets - j,
        {
            let tgt_opt = world.ships[i].turrets[j].bundle.turret_properties.target_entity;
            if let Some(tid) = tgt_opt {
                let found = find_kinematics_exec(&kin, tid);
                if let Some(k) = found {
                    proof {
                        assert(world.ships@[i as int].wf());
                        assert(world.ships@[i as int].turrets@[j as int].wf());
                        assert(k.0.in_box(MAX_COORD as int) && k.1.in_box(
                            crate::math::MAX_VELOCITY as int,
                        )) by {
                            let m = choose|m: int|
                                0 <= m < kin@.len() && (#[trigger] kin@[m]).0 == tid && found.unwrap()
                                    == (kin@[m].1, kin@[m].2);
                            assert(kin@[m].1.in_box(MAX_COORD as int));
                            assert(kin@[m].2.in_box(crate::math::MAX_VELOCITY as int));
                        }
                    }
                    let tx = world.ships[i].turrets[j].bundle.transform.translation.x;
                    let ty = world.ships[i].turrets[j].bundle.transform.translation.y;
                    let rpx: i64 = k.0.x - (sx + tx);
                    let rpy: i64 = k.0.y - (sy + ty);
                    let rvx: i64 = k.1.x - svx;
                    let rvy: i64 = k.1.y - svy;
                    let in_envelope: bool = -ENGAGE_RANGE <= rpx && rpx <= ENGAGE_RANGE
                        && -ENGAGE_RANGE <= rpy && rpy <= ENGAGE_RANGE && -ENGAGE_RANGE <= rvx
                        && rvx <= ENGAGE_RANGE && -ENGAGE_RANGE <= rvy && rvy <= ENGAGE_RANGE;
                    if in_envelope {
                        let pv = world.ships[i].turrets[j].bundle.gun_properties
                            .projectile_velocity_mps;
                        proof {
                            assert(world.ships@[i as int].wf());
                            assert(world.ships@[i as int].turrets@[j as int].bundle.gun_properties.wf());
                        }
                        let sol = target_prediction_first_order(
                            Vec2 { x: rpx, y: rpy },
                            Vec2 { x: rvx, y: rvy },
                            pv,
                        );
                        match sol {
                            Some(s) => {
                                world.ships[i].turrets[j].bundle.transform.rotation = s.aim;
                                world.ships[i].turrets[j].bundle.turret_properties.turret_state =
                                    TurretState::Firing;
                            },
                            None => {
                                world.ships[i].turrets[j].bundle.turret_properties.turret_state =
                                    TurretState::NoTarget;
                            },
                        }
                    } else {
                        world.ships[i].turrets[j].bundle.turret_properties.turret_state =
                            TurretState::NoTarget;
                    }
                }
            }
            j = j + 1;
        }
        i = i + 1;
    }
}

/// Soonest-intercept law for a stationary target straight ahead: aiming at a
/// motionless target at `(0, d)` yields the intercept time `d / pv` (as the
/// exact rational `time_num / time_den`) and an aim vector pointing straight
/// up the y axis with magnitude `pv`.
pub proof fn lemma_intercept_stationary(d: i64, pv: i64)
    requires
        0 < d <= ENGAGE_RANGE,
        0 < pv <= MAX_PROJECTILE_SPEED,
    ensures
        ({
            let m = intercept_model(Vec2 { x: 0, y: d }, Vec2 { x: 0, y: 0 }, pv as int);
            &&& m is Some
            &&& m.unwrap().num == d * pv
            &&& m.unwrap().den == pv * pv
            // time_num / time_den == d / pv, as rationals
            &&& m.unwrap().num * pv == m.unwrap().den * d
            &&& m.unwrap().aim_x == 0
            &&& m.unwrap().aim_y == pv
        }),
{
    let p = Vec2 { x: 0, y: d };
    let v = Vec2 { x: 0, y: 0 };
    let dist2 = norm2(p);
    let dd = dot(p, v);
    let a = norm2(v) - (pv as int) * (pv as int);
    let disc = disc_of(p, v, pv as int);
    assert(dd == 0);
    assert(dist2 == (d as int) * (d as int));
    assert(a == -((pv as int) * (pv as int)));
    assert(dist2 > 0) by (nonlinear_arith)
        requires
            d as int > 0,
            dist2 == (d as int) * (d as int),
    ;
    assert(a < 0) by (nonlinear_arith)
        requires
            pv as int > 0,
            a == -((pv as int) * (pv as int)),
    ;
    assert(disc == (d as int) * (pv as int) * ((d as int) * (pv as int))) by (nonlinear_arith)
        requires
            disc == 0 - ((d as int) * (d as int)) * (0 - (pv as int) * (pv as int)),
    ;
    let w = (d as int) * (pv as int);
    assert(w > 0) by (nonlinear_arith)
        requires
            d as int > 0,
            pv as int > 0,
            w == (d as int) * (pv as int),
    ;
    assert(is_sqrt_floor(disc, w)) by (nonlinear_arith)
        requires
            disc == w * w,
            w > 0,
    ;
    lemma_sqrt_floor_unique(disc, w);
    // a < 0: lo = dd - s = -w <= 0, hi = dd + s = w > 0.
    let num = w;
    let den = -a;
    assert(intercept_model(p, v, pv as int) == finish_model(p, v, num, den));
    // aim_x = div_trunc(den*0 + num*0, num) == 0
    assert(aim_x_of(p, v, num, den) == 0) by {
        assert(den * (p.x as int) + num * (v.x as int) == 0) by (nonlinear_arith)
            requires
                p.x as int == 0,
                v.x as int == 0,
        ;
    }
    // aim_y = div_trunc(den*d, num) == pv since den*d == num*pv
    assert(den * (p.y as int) + num * (v.y as int) == num * (pv as int)) by (nonlinear_arith)
        requires
            p.y as int == d as int,
            v.y as int == 0,
            den == (pv as int) * (pv as int),
            num == (d as int) * (pv as int),
    ;
    assert(aim_y_of(p, v, num, den) == pv as int) by {
        assert(div_trunc(num * (pv as int), num) == pv as int) by (nonlinear_arith)
            requires
                num > 0,
                pv as int > 0,
        ;
    }
    assert(iabs(pv as int) <= MAX_AIM as int);
    assert(num * pv == den * d) by (nonlinear_arith)
        requires
            num == (d as int) * (pv as int),
            den == (pv as int) * (pv as int),
    ;
}

/// No-solution law: a negative discriminant (the target outruns every
/// straight shot) yields no firing solution.
pub proof fn lemma_intercept_no_solution(p: Vec2, v: Vec2, pv: i64)
    requires
        0 < pv,
        norm2(p) != 0,
        disc_of(p, v, pv as int) < 0,
    ensures
        intercept_model(p, v, pv as int) is None,
{
    let dist2 = norm2(p);
    let dd = dot(p, v);
    let a = norm2(v) - (pv as int) * (pv as int);
    assert(dist2 > 0) by (nonlinear_arith)
        requires
            dist2 == (p.x as int) * (p.x as int) + (p.y as int) * (p.y as int),
            dist2 != 0,
    ;
    // disc < 0 forces dist2 * a > dd^2 >= 0, hence a > 0.
    assert(a != 0) by (nonlinear_arith)
        requires
            dd * dd - dist2 * a < 0,
            dd == dot(p, v),
    ;
}

/// Corollary of the symmetry law for a target with no sideways motion:
/// negating the relative position's x component alone negates the aim
/// vector's x component and leaves the intercept time unchanged. (With a
/// sideways-moving target the position cannot be mirrored alone — the
/// relative velocity must mirror with it, as in `lemma_intercept_mirror`.)
pub proof fn lemma_intercept_mirror_lateral_rest(p: Vec2, v: Vec2, pv: i64)
    requires
        p.in_box(ENGAGE_RANGE as int),
        v.in_box(ENGAGE_RANGE as int),
        v.x == 0,
        0 < pv <= MAX_PROJECTILE_SPEED,
    ensures
        ({
            let m = intercept_model(p, v, pv as int);
            let mm = intercept_model(mirror_x(p), v, pv as int);
            match m {
                None => mm is None,
                Some(sol) => {
                    &&& mm is Some
                    &&& mm.unwrap().num == sol.num
                    &&& mm.unwrap().den == sol.den
                    &&& mm.unwrap().aim_x == -sol.aim_x
                    &&& mm.unwrap().aim_y == sol.aim_y
                },
            }
        }),
{
    assert(mirror_x(v) == v);
    lemma_intercept_mirror(p, v, pv);
}

/// Mirrors a vector across the y axis.
pub open spec fn mirror_x(p: Vec2) -> Vec2 {
    Vec2 { x: (-(p.x as int)) as i64, y: p.y }
}

/// Left/right symmetry law: mirroring the engagement across the y axis
/// (negating the x components of the relative position and relative
/// velocity) mirrors the firing solution: the intercept time is unchanged
/// and the aim vector's x component is negated.
pub proof fn lemma_intercept_mirror(p: Vec2, v: Vec2, pv: i64)
    requires
        p.in_box(ENGAGE_RANGE as int),
        v.in_box(ENGAGE_RANGE as int),
        0 < pv <= MAX_PROJECTILE_SPEED,
    ensures
        ({
            let m = intercept_model(p, v, pv as int);
            let mm = intercept_model(mirror_x(p), mirror_x(v), pv as int);
            match m {
                None => mm is None,
                Some(sol) => {
                    &&& mm is Some
                    &&& mm.unwrap().num == sol.num
                    &&& mm.unwrap().den == sol.den
                    &&& mm.unwrap().aim_x == -sol.aim_x
                    &&& mm.unwrap().aim_y == sol.aim_y
                },
            }
        }),
{
    let q = mirror_x(p);
    let w = mirror_x(v);
    assert(q.x as int == -(p.x as int));
    assert(w.x as int == -(v.x as int));
    assert(dot(q, w) == dot(p, v)) by (nonlinear_arith)
        requires
            q.x as int == -(p.x as int),
            w.x as int == -(v.x as int),
            q.y == p.y,
            w.y == v.y,
    ;
    assert(norm2(q) == norm2(p)) by (nonlinear_arith)
        requires
            q.x as int == -(p.x as int),
            q.y == p.y,
    ;
    assert(norm2(w) == norm2(v)) by (nonlinear_arith)
        requires
            w.x as int == -(v.x as int),
            w.y == v.y,
    ;
    assert(disc_of(q, w, pv as int) == disc_of(p, v, pv as int));
    let dist2 = norm2(p);
    let dd = dot(p, v);
    let a = norm2(v) - (pv as int) * (pv as int);
    assert(dist2 >= 0) by {
        lemma_sq_bound(p.x as int, ENGAGE_RANGE as int);
        lemma_sq_bound(p.y as int, ENGAGE_RANGE as int);
    }
    if dist2 != 0 {
        if a == 0 {
            if dd < 0 {
                lemma_finish_mirror(p, v, dist2, -2 * dd);
            }
        } else if disc_of(p, v, pv as int) >= 0 {
            let s = sqrt_floor(disc_of(p, v, pv as int));
            let den = if a > 0 { a } else { -a };
            let lo = if a > 0 { -dd - s } else { dd - s };
            let hi = if a > 0 { -dd + s } else { dd + s };
            if lo > 0 {
                lemma_finish_mirror(p, v, lo, den);
            } else if hi > 0 {
                lemma_finish_mirror(p, v, hi, den);
            }
        }
    }
}

/// Mirroring the inputs mirrors `finish_model`: same root, negated aim x.
proof fn lemma_finish_mirror(p: Vec2, v: Vec2, num: int, den: int)
    requires
        num > 0,
        p.in_box(ENGAGE_RANGE as int),
        v.in_box(ENGAGE_RANGE as int),
    ensures
        ({
            let f = finish_model(p, v, num, den);
            let g = finish_model(mirror_x(p), mirror_x(v), num, den);
            match f {
                None => g is None,
                Some(sol) => {
                    &&& g is Some
                    &&& g.unwrap().num == sol.num
                    &&& g.unwrap().den == sol.den
                    &&& g.unwrap().aim_x == -sol.aim_x
                    &&& g.unwrap().aim_y == sol.aim_y
                },
            }
        }),
{
    let q = mirror_x(p);
    let w = mirror_x(v);
    assert(den * (q.x as int) + num * (w.x as int) == -(den * (p.x as int) + num * (v.x as int)))
        by (nonlinear_arith)
        requires
            q.x as int == -(p.x as int),
            w.x as int == -(v.x as int),
    ;
    lemma_div_trunc_neg(den * (p.x as int) + num * (v.x as int), num);
    assert(aim_x_of(q, w, num, den) == -aim_x_of(p, v, num, den));
    assert(aim_y_of(q, w, num, den) == aim_y_of(p, v, num, den));
}

} // verus!
