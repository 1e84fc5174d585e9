//! The entity store the per-tick systems run over: ships own their turrets,
//! turrets own their guns, and projectiles fly free. Entities carry opaque
//! numeric ids drawn from a single counter.
use vstd::prelude::*;

use crate::gun::GunCycleTimer;
use crate::interaction::IFF;
use crate::math::dist2;
use crate::math::dist2_i128;
use crate::math::Vec2;
use crate::math::MAX_COORD;
use crate::math::MAX_VELOCITY;
use crate::physics::Transform;
use crate::projectile::ProjectileBundle;
use crate::ship::ShipBundle;
use crate::turret::TurretBundle;
use crate::turret::TurretProperties;

verus! {

/// A gun entity: a child of exactly one turret.
#[derive(Clone, Debug)]
pub struct Gun {
    pub id: u64,
    /// Placement relative to the owning turret.
    pub transform: Transform,
    pub cycle_timer: GunCycleTimer,
}

impl Gun {
    pub open spec fn wf(self) -> bool {
        self.transform.wf()
    }
}

/// A turret entity: a child of exactly one ship, owning its guns.
#[derive(Clone, Debug)]
pub struct Turret {
    pub id: u64,
    pub bundle: TurretBundle,
    pub guns: Vec<Gun>,
}

impl Turret {
    pub open spec fn wf(self) -> bool {
        &&& self.bundle.wf()
        &&& forall|i: int| 0 <= i < self.guns@.len() ==> (#[trigger] self.guns@[i]).wf()
    }
}

/// A ship entity, owning its turrets for its lifetime.
#[derive(Clone, Debug)]
pub struct Ship {
    pub id: u64,
    pub is_player: bool,
    pub bundle: ShipBundle,
    pub turrets: Vec<Turret>,
}

impl Ship {
    pub open spec fn wf(self) -> bool {
        &&& self.bundle.wf()
        &&& forall|i: int| 0 <= i < self.turrets@.len() ==> (#[trigger] self.turrets@[i]).wf()
    }
}

/// A projectile entity.
#[derive(Clone, Debug)]
pub struct Projectile {
    pub id: u64,
    pub bundle: ProjectileBundle,
}

impl Projectile {
    pub open spec fn wf(self) -> bool {
        self.bundle.wf()
    }
}

/// The whole simulation state for one tick.
#[derive(Clone, Debug)]
pub struct World {
    /// The next unused entity id.
    pub next_id: u64,
    pub ships: Vec<Ship>,
    pub projectiles: Vec<Projectile>,
}

impl World {
    pub open spec fn wf(self) -> bool {
        &&& forall|i: int| 0 <= i < self.ships@.len() ==> (#[trigger] self.ships@[i]).wf()
        &&& forall|i: int|
            0 <= i < self.projectiles@.len() ==> (#[trigger] self.projectiles@[i]).wf()
    }

    pub fn new() -> (r: World)
        ensures
            r.next_id == 0,
            r.ships@.len() == 0,
            r.projectiles@.len() == 0,
            r.wf(),
    {
        World { next_id: 0, ships: Vec::new(), projectiles: Vec::new() }
    }
}

/// Everything a turret may engage: each entity bearing a position and a
/// faction tag, as `(id, world position, tag)` — ships first, then
/// projectiles, in store order.
pub open spec fn candidates(w: World) -> Seq<(u64, Vec2, IFF)> {
    w.ships@.map(|i: int, s: Ship| (s.id, s.bundle.transform.translation, s.bundle.iff))
        + w.projectiles@.map(
        |i: int, p: Projectile| (p.id, p.bundle.transform.translation, p.bundle.iff),
    )
}

/// World position of a turret: its ship's position plus its mount offset.
pub open spec fn turret_world_pos(s: Ship, t: Turret) -> Vec2 {
    Vec2 {
        x: (s.bundle.transform.translation.x + t.bundle.transform.translation.x) as i64,
        y: (s.bundle.transform.translation.y + t.bundle.transform.translation.y) as i64,
    }
}

/// The turret `t` with its engagement state replaced.
pub open spec fn turret_with_props(t: Turret, props: TurretProperties) -> Turret {
    Turret { bundle: TurretBundle { turret_properties: props, ..t.bundle }, ..t }
}

/// One step of nearest-target selection: walks the candidates from index
/// `i`, keeping the best (id, squared distance) seen so far; candidates
/// sharing the turret's own faction tag are skipped, and on an exact
/// distance tie the earlier candidate wins.
pub open spec fn select_target_from(
    cands: Seq<(u64, Vec2, IFF)>,
    i: int,
    own_pos: Vec2,
    own_iff: IFF,
    best: Option<(u64, int)>,
) -> Option<u64>
    decreases cands.len() - i,
{
    if i < 0 || i >= cands.len() {
        match best {
            Option::None => None,
            Option::Some(b) => Some(b.0),
        }
    } else {
        let c = cands[i];
        let d = dist2(c.1, own_pos);
        let better = c.2 != own_iff && (best is None || d < best.unwrap().1);
        select_target_from(
            cands,
            i + 1,
            own_pos,
            own_iff,
            if better {
                Some((c.0, d))
            } else {
                best
            },
        )
    }
}

/// Nearest valid target among the candidates: the first-found candidate of
/// a different faction at minimal squared distance (minimising the squared
/// distance minimises the distance), or `None` when no candidate differs in
/// faction.
pub open spec fn select_target(
    cands: Seq<(u64, Vec2, IFF)>,
    own_pos: Vec2,
    own_iff: IFF,
) -> Option<u64> {
    select_target_from(cands, 0, own_pos, own_iff, None)
}

/// Fold invariant behind the nearest-target law: walking the tail from `i`
/// with a best-so-far that is a true minimum over the prefix yields a true
/// minimum over the whole list.
proof fn lemma_select_from_argmin(
    cands: Seq<(u64, Vec2, IFF)>,
    i: int,
    own_pos: Vec2,
    own_iff: IFF,
    best: Option<(u64, int)>,
)
    requires
        0 <= i <= cands.len(),
        match best {
            Option::None => forall|j: int| 0 <= j < i ==> (#[trigger] cands[j]).2 == own_iff,
            Option::Some(b) => {
                &&& exists|k: int|
                    0 <= k < i && (#[trigger] cands[k]).0 == b.0 && cands[k].2 != own_iff && dist2(
                        cands[k].1,
                        own_pos,
                    ) == b.1
                &&& forall|j: int|
                    0 <= j < i && (#[trigger] cands[j]).2 != own_iff ==> b.1 <= dist2(
                        cands[j].1,
                        own_pos,
                    )
            },
        },
    ensures
        match select_target_from(cands, i, own_pos, own_iff, best) {
            Option::None => forall|j: int|
                0 <= j < cands.len() ==> (#[trigger] cands[j]).2 == own_iff,
            Option::Some(id) => exists|k: int|
                0 <= k < cands.len() && (#[trigger] cands[k]).0 == id && cands[k].2 != own_iff && (
                forall|j: int|
                    0 <= j < cands.len() && (#[trigger] cands[j]).2 != own_iff ==> dist2(
                        cands[k].1,
                        own_pos,
                    ) <= dist2(cands[j].1, own_pos)),
        },
    decreases cands.len() - i,
{
    if i < cands.len() {
        let c = cands[i];
        let d = dist2(c.1, own_pos);
        let better = c.2 != own_iff && (best is None || d < best.unwrap().1);
        let nb = if better {
            Some((c.0, d))
        } else {
            best
        };
        if better {
            assert(cands[i].0 == c.0 && cands[i].2 != own_iff && dist2(cands[i].1, own_pos) == d);
        }
        lemma_select_from_argmin(cands, i + 1, own_pos, own_iff, nb);
    }
}

/// Nearest-target law: selection is the argmin of distance over the
/// candidates of a different faction — it returns no target exactly when
/// every candidate shares the turret's own faction tag (in particular on an
/// empty candidate list), and otherwise an entity of a different faction no
/// farther than any other such candidate.
pub proof fn lemma_select_target_argmin(cands: Seq<(u64, Vec2, IFF)>, own_pos: Vec2, own_iff: IFF)
    ensures
        (select_target(cands, own_pos, own_iff) is None) <==> (forall|j: int|
            0 <= j < cands.len() ==> (#[trigger] cands[j]).2 == own_iff),
        select_target(cands, own_pos, own_iff) matches Some(id) ==> exists|k: int|
            0 <= k < cands.len() && (#[trigger] cands[k]).0 == id && cands[k].2 != own_iff && (
            forall|j: int|
                0 <= j < cands.len() && (#[trigger] cands[j]).2 != own_iff ==> dist2(
                    cands[k].1,
                    own_pos,
                ) <= dist2(cands[j].1, own_pos)),
{
    lemma_select_from_argmin(cands, 0, own_pos, own_iff, None);
}

/// Snapshots the candidate list of the world into a vector.
pub fn collect_candidates(w: &World) -> (r: Vec<(u64, Vec2, IFF)>)
    requires
        w.wf(),
    ensures
        r@ == candidates(*w),
        forall|i: int| 0 <= i < r@.len() ==> (#[trigger] r@[i]).1.in_box(MAX_COORD as int),
{
    let mut r: Vec<(u64, Vec2, IFF)> = Vec::new();
    let mut i: usize = 0;
    while i < w.ships.len()
        invariant
            w.wf(),
            i <= w.ships@.len(),
            r@ =~= w.ships@.take(i as int).map(
                |k: int, s: Ship| (s.id, s.bundle.transform.translation, s.bundle.iff),
            ),
            forall|k: int| 0 <= k < r@.len() ==> (#[trigger] r@[k]).1.in_box(MAX_COORD as int),
        decreases w.ships@.len() - i,
    {
        let s = &w.ships[i];
        r.push((s.id, s.bundle.transform.translation, s.bundle.iff));
        proof {
            assert(w.ships@.take(i + 1 as int) =~= w.ships@.take(i as int).push(w.ships@[i as int]));
        }
        i = i + 1;
    }
    proof {
        assert(w.ships@.take(w.ships@.len() as int) =~= w.ships@);
    }
    let mut j: usize = 0;
    while j < w.projectiles.len()
        invariant
            w.wf(),
            j <= w.projectiles@.len(),
            r@ =~= w.ships@.map(
                |k: int, s: Ship| (s.id, s.bundle.transform.translation, s.bundle.iff),
            ) + w.projectiles@.take(j as int).map(
                |k: int, p: Projectile| (p.id, p.bundle.transform.translation, p.bundle.iff),
            ),
            forall|k: int| 0 <= k < r@.len() ==> (#[trigger] r@[k]).1.in_box(MAX_COORD as int),
        decreases w.projectiles@.len() - j,
    {
        let p = &w.projectiles[j];
        r.push((p.id, p.bundle.transform.translation, p.bundle.iff));
        proof {
            assert(w.projectiles@.take(j + 1 as int) =~= w.projectiles@.take(j as int).push(
                w.projectiles@[j as int],
            ));
        }
        j = j + 1;
    }
    proof {
        assert(w.projectiles@.take(w.projectiles@.len() as int) =~= w.projectiles@);
    }
    r
}

/// Everything a turret can track: each entity bearing a position and a
/// velocity, as `(id, world position, velocity)` — ships first, then
/// projectiles, in store order.
pub open spec fn kinematics(w: World) -> Seq<(u64, Vec2, Vec2)> {
    w.ships@.map(
        |i: int, s: Ship| (s.id, s.bundle.transform.translation, s.bundle.velocity.0),
    ) + w.projectiles@.map(
        |i: int, p: Projectile| (p.id, p.bundle.transform.translation, p.bundle.velocity.0),
    )
}

/// The position and velocity of the first entry carrying `id`, scanning
/// from index `i`.
pub open spec fn find_kin_from(s: Seq<(u64, Vec2, Vec2)>, id: u64, i: int) -> Option<(Vec2, Vec2)>
    decreases s.len() - i,
{
    if i < 0 || i >= s.len() {
        None
    } else if s[i].0 == id {
        Some((s[i].1, s[i].2))
    } else {
        find_kin_from(s, id, i + 1)
    }
}

/// The position and velocity of the entity `id`, or `None` when it no
/// longer exists (a stale target reference, reacquired next tick).
pub open spec fn find_kinematics(w: World, id: u64) -> Option<(Vec2, Vec2)> {
    find_kin_from(kinematics(w), id, 0)
}

/// Snapshots the positions and velocities of every trackable entity.
pub fn collect_kinematics(w: &World) -> (r: Vec<(u64, Vec2, Vec2)>)
    requires
        w.wf(),
    ensures
        r@ == kinematics(*w),
        forall|i: int| 0 <= i < r@.len() ==> (#[trigger] r@[i]).1.in_box(MAX_COORD as int),
        forall|i: int| 0 <= i < r@.len() ==> (#[trigger] r@[i]).2.in_box(MAX_VELOCITY as int),
{
    let mut r: Vec<(u64, Vec2, Vec2)> = Vec::new();
    let mut i: usize = 0;
    while i < w.ships.len()
        invariant
            w.wf(),
            i <= w.ships@.len(),
            r@ =~= w.ships@.take(i as int).map(
                |k: int, s: Ship| (s.id, s.bundle.transform.translation, s.bundle.velocity.0),
            ),
            forall|k: int| 0 <= k < r@.len() ==> (#[trigger] r@[k]).1.in_box(MAX_COORD as int),
            forall|k: int| 0 <= k < r@.len() ==> (#[trigger] r@[k]).2.in_box(MAX_VELOCITY as int),
        decreases w.ships@.len() - i,
    {
        let s = &w.ships[i];
        proof {
            assert(s.bundle.velocity.0.in_box(crate::math::MAX_SHIP_SPEED as int));
        }
        r.push((s.id, s.bundle.transform.translation, s.bundle.velocity.0));
        proof {
            assert(w.ships@.take(i + 1 as int) =~= w.ships@.take(i as int).push(w.ships@[i as int]));
        }
        i = i + 1;
    }
    proof {
        assert(w.ships@.take(w.ships@.len() as int) =~= w.ships@);
    }
    let mut j: usize = 0;
    while j < w.projectiles.len()
        invariant
            w.wf(),
            j <= w.projectiles@.len(),
            r@ =~= w.ships@.map(
                |k: int, s: Ship| (s.id, s.bundle.transform.translation, s.bundle.velocity.0),
            ) + w.projectiles@.take(j as int).map(
                |k: int, p: Projectile| (p.id, p.bundle.transform.translation, p.bundle.velocity.0),
            ),
            forall|k: int| 0 <= k < r@.len() ==> (#[trigger] r@[k]).1.in_box(MAX_COORD as int),
            forall|k: int| 0 <= k < r@.len() ==> (#[trigger] r@[k]).2.in_box(MAX_VELOCITY as int),
        decreases w.projectiles@.len() - j,
    {
        let p = &w.projectiles[j];
        r.push((p.id, p.bundle.transform.translation, p.bundle.velocity.0));
        proof {
            assert(w.projectiles@.take(j + 1 as int) =~= w.projectiles@.take(j as int).push(
                w.projectiles@[j as int],
            ));
        }
        j = j + 1;
    }
    proof {
        assert(w.projectiles@.take(w.projectiles@.len() as int) =~= w.projectiles@);
    }
    r
}

/// Finds the first snapshot entry carrying `id`, per `find_kin_from`.
pub fn find_kinematics_exec(kin: &Vec<(u64, Vec2, Vec2)>, id: u64) -> (r: Option<(Vec2, Vec2)>)
    ensures
        r == find_kin_from(kin@, id, 0),
        r is Some ==> exists|m: int|
            0 <= m < kin@.len() && (#[trigger] kin@[m]).0 == id && r.unwrap() == (
                kin@[m].1,
                kin@[m].2,
            ),
{
    let mut k: usize = 0;
    while k < kin.len()
        invariant
            k <= kin@.len(),
            find_kin_from(kin@, id, k as int) == find_kin_from(kin@, id, 0),
        decreases kin@.len() - k,
    {
        if kin[k].0 == id {
            return Some((kin[k].1, kin[k].2));
        }
        k = k + 1;
    }
    None
}

/// Walks the candidate list picking the nearest entity of a different
/// faction, per `select_target`.
pub fn select_target_exec(
    cands: &Vec<(u64, Vec2, IFF)>,
    own_pos: Vec2,
    own_iff: IFF,
) -> (r: Option<u64>)
    requires
        forall|i: int| 0 <= i < cands@.len() ==> (#[trigger] cands@[i]).1.in_box(MAX_COORD as int),
        own_pos.in_box(2 * MAX_COORD as int),
    ensures
        r == select_target(cands@, own_pos, own_iff),
{
    let mut best: Option<(u64, i128)> = None;
    let mut k: usize = 0;
    while k < cands.len()
        invariant
            k <= cands@.len(),
            forall|i: int|
                0 <= i < cands@.len() ==> (#[trigger] cands@[i]).1.in_box(MAX_COORD as int),
            own_pos.in_box(2 * MAX_COORD as int),
            select_target_from(
                cands@,
                k as int,
                own_pos,
                own_iff,
                match best {
                    Option::None => None,
                    Option::Some(b) => Some((b.0, b.1 as int)),
                },
            ) == select_target(cands@, own_pos, own_iff),
        decreases cands@.len() - k,
    {
        let c = cands[k];
        let d: i128 = dist2_i128(c.1, own_pos);
        let better: bool = c.2 != own_iff && (match best {
            Option::None => true,
            Option::Some(b) => d < b.1,
        });
        if better {
            best = Some((c.0, d));
        }
        k = k + 1;
    }
    match best {
        Option::None => None,
        Option::Some(b) => Some(b.0),
    }
}

} // verus!
