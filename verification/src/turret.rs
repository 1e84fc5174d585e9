//! Turret components, and assembly of a turret's gun layout from its size
//! class and barrel count.
use vstd::prelude::*;
use vstd::string::StringExecFns;

use crate::gun::GunProperties;
use crate::gun_list::GunName;
use crate::math::Vec2;
use crate::physics::Transform;
use crate::ship::ShipTurretMount;
use crate::world::Gun;
use crate::world::Ship;
use crate::world::Turret;
use crate::world::World;
use crate::ItemSize;
use crate::Sprite;

verus! {

broadcast use vstd::seq::group_seq_axioms;


/// The number of gun barrels on the turret.
#[derive(Clone, Copy, Debug, PartialEq, Eq, Structural)]
pub enum TurretNumBarrels {
    Single,
    Double,
    Triple,
}

/// Marks an entity as a turret.
#[derive(Clone, Copy, Debug, PartialEq, Eq, Structural)]
pub struct IsTurret;

/// Current engagement state of a turret.
#[derive(Clone, Copy, Debug, PartialEq, Eq, Structural)]
pub enum TurretState {
    NoTarget,
    Firing,
}

/// The turret mount index this turret is assigned to on its ship.
#[derive(Clone, Copy, Debug, PartialEq, Eq, Structural)]
pub struct TurretMountNumber(pub usize);

/// Engagement state of a turret: its traverse rate (carried, not yet
/// enforced by the solver), its current target if any, and whether it holds
/// a firing solution.
#[derive(Clone, Copy, Debug, PartialEq, Eq, Structural)]
pub struct TurretProperties {
    /// Traverse rate in thousandths of a degree per second.
    pub rotation_velocity: i64,
    /// The entity this turret is tracking, if any.
    pub target_entity: Option<u64>,
    pub turret_state: TurretState,
}

impl Default for TurretProperties {
    fn default() -> (r: Self)
        ensures
            r == (TurretProperties {
                rotation_velocity: 10000,
                target_entity: None,
                turret_state: TurretState::NoTarget,
            }),
    {
        TurretProperties {
            rotation_velocity: 10000,
            target_entity: None,
            turret_state: TurretState::NoTarget,
        }
    }
}

/// One gun to be spawned as a child of a turret: where it sits on the
/// turret, and how it is drawn.
#[derive(Clone, Debug)]
pub struct TurretGunAssignment {
    pub transform: Transform,
    pub texture: String,
    /// Rendered size of the gun, in hundredths of a metre.
    pub texture_size: Vec2,
}

/// The guns waiting to be spawned for a turret; consumed by the gun spawn
/// pass.
#[derive(Clone, Debug)]
pub struct TurretGunAssignmentList(pub Option<Vec<TurretGunAssignment>>);

/// Everything a newly assembled turret carries.
#[derive(Clone, Debug)]
pub struct TurretBundle {
    pub is_turret: IsTurret,
    pub turret_size: ItemSize,
    pub turret_mount_number: TurretMountNumber,
    pub turret_properties: TurretProperties,
    /// Placement relative to the owning ship.
    pub transform: Transform,
    pub gun_properties: GunProperties,
    pub gun_assignment_list: TurretGunAssignmentList,
    pub sprite: Sprite,
    pub texture: String,
}

impl TurretBundle {
    /// Placement and gun parameters within the verified ranges.
    pub open spec fn wf(self) -> bool {
        &&& self.transform.wf()
        &&& self.gun_properties.wf()
        &&& match self.gun_assignment_list.0 {
            None => true,
            Some(v) => forall|i: int| 0 <= i < v@.len() ==> (#[trigger] v@[i]).transform.wf(),
        }
    }
}

impl Default for TurretBundle {
    fn default() -> (r: Self)
        ensures
            r.is_turret == IsTurret,
            r.turret_size == ItemSize::Small,
            r.turret_mount_number == TurretMountNumber(0),
            r.turret_properties == (TurretProperties {
                rotation_velocity: 10000,
                target_entity: None,
                turret_state: TurretState::NoTarget,
            }),
            r.transform == (Transform {
                translation: Vec2 { x: 0, y: 0 },
                rotation: Vec2 { x: 0, y: 100 },
                scale: Vec2 { x: 100, y: 100 },
            }),
            r.gun_properties.wf(),
            r.gun_assignment_list.0 is None,
            r.sprite == (Sprite { custom_size: None }),
            r.texture@ == ""@,
            r.wf(),
    {
        TurretBundle {
            is_turret: IsTurret,
            turret_size: ItemSize::Small,
            turret_mount_number: TurretMountNumber(0),
            turret_properties: TurretProperties::default(),
            transform: Transform::default(),
            gun_properties: GunProperties::default(),
            gun_assignment_list: TurretGunAssignmentList(None),
            sprite: Sprite { custom_size: None },
            texture: String::from_str(""),
        }
    }
}

/// Rendered size of a turret of the given size class, in hundredths of a
/// metre.
pub open spec fn turret_texture_size(turret_mount_size: ItemSize) -> Vec2 {
    match turret_mount_size {
        ItemSize::Small => Vec2 { x: 2000, y: 2000 },
        ItemSize::Medium => Vec2 { x: 4000, y: 4000 },
        ItemSize::Large => Vec2 { x: 8000, y: 8000 },
    }
}

/// Returns a turret's texture path and rendered size from its gun, size
/// class and barrel count. Only placeholder art exists, so the path does not
/// yet depend on the gun or the barrel count.
pub fn lookup_turret_texture(
    gun_name: GunName,
    turret_mount_size: ItemSize,
    number_barrels: TurretNumBarrels,
) -> (r: (String, Vec2))
    ensures
        r.0@ == "textures/turrets/temp_turret.png"@,
        r.1 == turret_texture_size(turret_mount_size),
{
    let size = match turret_mount_size {
        ItemSize::Small => match number_barrels {
            TurretNumBarrels::Single => Vec2 { x: 2000, y: 2000 },
            TurretNumBarrels::Double => Vec2 { x: 2000, y: 2000 },
            TurretNumBarrels::Triple => Vec2 { x: 2000, y: 2000 },
        },
        ItemSize::Medium => match number_barrels {
            TurretNumBarrels::Single => Vec2 { x: 4000, y: 4000 },
            TurretNumBarrels::Double => Vec2 { x: 4000, y: 4000 },
            TurretNumBarrels::Triple => Vec2 { x: 4000, y: 4000 },
        },
        ItemSize::Large => match number_barrels {
            TurretNumBarrels::Single => Vec2 { x: 8000, y: 8000 },
            TurretNumBarrels::Double => Vec2 { x: 8000, y: 8000 },
            TurretNumBarrels::Triple => Vec2 { x: 8000, y: 8000 },
        },
    };
    (String::from_str("textures/turrets/temp_turret.png"), size)
}

/// Where the guns sit on a turret, by size class and barrel count, in
/// hundredths of a metre relative to the turret's centre.
pub open spec fn gun_offsets(turret_size: ItemSize, turret_num_barrels: TurretNumBarrels) -> Seq<
    Vec2,
> {
    match (turret_size, turret_num_barrels) {
        (ItemSize::Small, TurretNumBarrels::Single) => seq![Vec2 { x: 0, y: 200 }],
        (ItemSize::Small, TurretNumBarrels::Double) => seq![
            Vec2 { x: -150i64, y: 200 },
            Vec2 { x: 150, y: 200 },
        ],
        (ItemSize::Small, TurretNumBarrels::Triple) => seq![
            Vec2 { x: -200i64, y: 200 },
            Vec2 { x: 0, y: 200 },
            Vec2 { x: 200, y: 200 },
        ],
        (ItemSize::Medium, TurretNumBarrels::Single) => seq![Vec2 { x: 0, y: 200 }],
        (ItemSize::Medium, TurretNumBarrels::Double) => seq![
            Vec2 { x: -50i64, y: 200 },
            Vec2 { x: 50, y: 200 },
        ],
        (ItemSize::Medium, TurretNumBarrels::Triple) => seq![
            Vec2 { x: -80i64, y: 200 },
            Vec2 { x: 0, y: 200 },
            Vec2 { x: 80, y: 200 },
        ],
        (ItemSize::Large, TurretNumBarrels::Single) => seq![Vec2 { x: 0, y: 200 }],
        (ItemSize::Large, TurretNumBarrels::Double) => seq![
            Vec2 { x: -50i64, y: 200 },
            Vec2 { x: 50, y: 200 },
        ],
        (ItemSize::Large, TurretNumBarrels::Triple) => seq![
            Vec2 { x: -80i64, y: 200 },
            Vec2 { x: 0, y: 200 },
            Vec2 { x: 80, y: 200 },
        ],
    }
}

/// One gun assignment sitting at the given offset, drawn with the given
/// texture under the gun texture directory.
fn make_gun_assignment(offset: Vec2, gun_texture_path: &str) -> (a: TurretGunAssignment)
    ensures
        a.transform == (Transform {
            translation: offset,
            rotation: Vec2 { x: 0, y: 100 },
            scale: Vec2 { x: 100, y: 100 },
        }),
        a.texture@ == "textures/guns/"@ + gun_texture_path@,
        a.texture_size == (Vec2 { x: 1000, y: 1000 }),
{
    TurretGunAssignment {
        transform: Transform {
            translation: offset,
            rotation: Vec2 { x: 0, y: 100 },
            scale: Vec2 { x: 100, y: 100 },
        },
        texture: String::from_str("textures/guns/").concat(gun_texture_path),
        texture_size: Vec2 { x: 1000, y: 1000 },
    }
}

/// Generates a turret's gun list, placing each gun relative to the turret
/// per `gun_offsets`.
pub fn generate_turret_gun_list(
    turret_size: ItemSize,
    turret_num_barrels: TurretNumBarrels,
    gun_texture_path: &str,
) -> (r: TurretGunAssignmentList)
    ensures
        r.0 is Some,
        ({
            let guns = r.0.unwrap()@;
            let offs = gun_offsets(turret_size, turret_num_barrels);
            &&& guns.len() == offs.len()
            &&& forall|i: int|
                0 <= i < guns.len() ==> (#[trigger] guns[i]).transform == (Transform {
                    translation: offs[i],
                    rotation: Vec2 { x: 0, y: 100 },
                    scale: Vec2 { x: 100, y: 100 },
                })
            &&& forall|i: int|
                0 <= i < guns.len() ==> (#[trigger] guns[i]).texture@ == "textures/guns/"@
                    + gun_texture_path@
            &&& forall|i: int|
                0 <= i < guns.len() ==> (#[trigger] guns[i]).texture_size == (Vec2 {
                    x: 1000,
                    y: 1000,
                })
            &&& forall|i: int| 0 <= i < guns.len() ==> (#[trigger] guns[i]).transform.wf()
        }),
{
    let mut gun_list: Vec<TurretGunAssignment> = Vec::new();
    match (turret_size, turret_num_barrels) {
        (ItemSize::Small, TurretNumBarrels::Single) => {
            gun_list.push(make_gun_assignment(Vec2 { x: 0, y: 200 }, gun_texture_path));
        },
        (ItemSize::Small, TurretNumBarrels::Double) => {
            gun_list.push(make_gun_assignment(Vec2 { x: -150i64, y: 200 }, gun_texture_path));
            gun_list.push(make_gun_assignment(Vec2 { x: 150, y: 200 }, gun_texture_path));
        },
        (ItemSize::Small, TurretNumBarrels::Triple) => {
            gun_list.push(make_gun_assignment(Vec2 { x: -200i64, y: 200 }, gun_texture_path));
            gun_list.push(make_gun_assignment(Vec2 { x: 0, y: 200 }, gun_texture_path));
            gun_list.push(make_gun_assignment(Vec2 { x: 200, y: 200 }, gun_texture_path));
        },
        (ItemSize::Medium, TurretNumBarrels::Single) => {
            gun_list.push(make_gun_assignment(Vec2 { x: 0, y: 200 }, gun_texture_path));
        },
        (ItemSize::Medium, TurretNumBarrels::Double) => {
            gun_list.push(make_gun_assignment(Vec2 { x: -50i64, y: 200 }, gun_texture_path));
            gun_list.push(make_gun_assignment(Vec2 { x: 50, y: 200 }, gun_texture_path));
        },
        (ItemSize::Medium, TurretNumBarrels::Triple) => {
            gun_list.push(make_gun_assignment(Vec2 { x: -80i64, y: 200 }, gun_texture_path));
            gun_list.push(make_gun_assignment(Vec2 { x: 0, y: 200 }, gun_texture_path));
            gun_list.push(make_gun_assignment(Vec2 { x: 80, y: 200 }, gun_texture_path));
        },
        (ItemSize::Large, TurretNumBarrels::Single) => {
            gun_list.push(make_gun_assignment(Vec2 { x: 0, y: 200 }, gun_texture_path));
        },
        (ItemSize::Large, TurretNumBarrels::Double) => {
            gun_list.push(make_gun_assignment(Vec2 { x: -50i64, y: 200 }, gun_texture_path));
            gun_list.push(make_gun_assignment(Vec2 { x: 50, y: 200 }, gun_texture_path));
        },
        (ItemSize::Large, TurretNumBarrels::Triple) => {
            gun_list.push(make_gun_assignment(Vec2 { x: -80i64, y: 200 }, gun_texture_path));
            gun_list.push(make_gun_assignment(Vec2 { x: 0, y: 200 }, gun_texture_path));
            gun_list.push(make_gun_assignment(Vec2 { x: 80, y: 200 }, gun_texture_path));
        },
    }
    TurretGunAssignmentList(Some(gun_list))
}

/// The id counter after `k` fresh ids were drawn: it advances by one per id
/// and saturates at the largest representable value.
pub open spec fn bump_k(n0: int, k: int) -> int {
    if n0 + k < u64::MAX {
        n0 + k
    } else {
        u64::MAX as int
    }
}

/// Mount `m` pointing at the turret entity `id`.
pub open spec fn mount_with_entity(m: ShipTurretMount, id: int) -> ShipTurretMount {
    ShipTurretMount { mount_turret_entity: Some(id as u64), ..m }
}

/// The predicate that keeps every turret but the one with id `oid`.
pub open spec fn keep_turret(oid: u64) -> spec_fn(Turret) -> bool {
    |t: Turret| t.id != oid
}

/// Ship `b` is ship `a` after one turret bundle `tb` was installed under
/// the fresh id `id`: the bundle's mount now points at the new turret, a
/// turret previously on that mount is despawned (its guns with it, by
/// ownership), and the new turret sits at the end of the ship's turret list
/// with no guns yet. The pending assignment list is not constrained here;
/// the spawn pass empties it as a whole.
pub open spec fn install_step_rel(a: Ship, b: Ship, tb: TurretBundle, id: int) -> bool {
    let n = tb.turret_mount_number.0 as int;
    let mounts = a.bundle.turret_mount_list.0@;
    let kept = match mounts[n].mount_turret_entity {
        Option::None => a.turrets@,
        Option::Some(oid) => a.turrets@.filter(keep_turret(oid)),
    };
    &&& 0 <= n < mounts.len()
    &&& b.id == a.id
    &&& b.is_player == a.is_player
    &&& b.bundle.health == a.bundle.health
    &&& b.bundle.iff == a.bundle.iff
    &&& b.bundle.transform == a.bundle.transform
    &&& b.bundle.velocity == a.bundle.velocity
    &&& b.bundle.acceleration == a.bundle.acceleration
    &&& b.bundle.sprite == a.bundle.sprite
    &&& b.bundle.texture == a.bundle.texture
    &&& b.bundle.turret_mount_list.0@ == mounts.update(n, mount_with_entity(mounts[n], id))
    &&& b.turrets@.len() == kept.len() + 1
    &&& b.turrets@.take(kept.len() as int) == kept
    &&& b.turrets@.last().id == id as u64
    &&& b.turrets@.last().bundle == tb
    &&& b.turrets@.last().guns@ == Seq::<Gun>::empty()
}

/// Ship `post` is ship `pre` after the bundles of `list` were installed,
/// drawing ids from `n0` on: the bundles are consumed from the back of the
/// list, so `list.first()` is installed last, under the highest id.
pub open spec fn turrets_installed_rel(pre: Ship, post: Ship, list: Seq<TurretBundle>, n0: int) -> bool
    decreases list.len(),
{
    if list.len() == 0 {
        post == pre
    } else {
        exists|mid: Ship|
            turrets_installed_rel(pre, mid, list.drop_first(), n0) && #[trigger] install_step_rel(
                mid,
                post,
                list.first(),
                bump_k(n0, list.len() - 1),
            )
    }
}

/// One more installation extends the chain: if `mid` is `pre` after the
/// tail of the list and one step takes `mid` to `post` installing the head
/// under the highest id, then `post` is `pre` after the whole list.
pub proof fn lemma_turrets_installed_extend(
    pre: Ship,
    mid: Ship,
    post: Ship,
    list: Seq<TurretBundle>,
    n0: int,
)
    requires
        list.len() > 0,
        turrets_installed_rel(pre, mid, list.drop_first(), n0),
        install_step_rel(mid, post, list.first(), bump_k(n0, list.len() - 1)),
    ensures
        turrets_installed_rel(pre, post, list, n0),
{
    assert(exists|m: Ship|
        turrets_installed_rel(pre, m, list.drop_first(), n0) && #[trigger] install_step_rel(
            m,
            post,
            list.first(),
            bump_k(n0, list.len() - 1),
        ));
}

/// Ship `post` is ship `mid` with its pending turret assignments consumed:
/// the list is present and empty, all else unchanged.
pub open spec fn assignment_consumed(mid: Ship, post: Ship) -> bool {
    &&& post.id == mid.id
    &&& post.is_player == mid.is_player
    &&& post.bundle.health == mid.bundle.health
    &&& post.bundle.iff == mid.bundle.iff
    &&& post.bundle.transform == mid.bundle.transform
    &&& post.bundle.velocity == mid.bundle.velocity
    &&& post.bundle.acceleration == mid.bundle.acceleration
    &&& post.bundle.sprite == mid.bundle.sprite
    &&& post.bundle.texture == mid.bundle.texture
    &&& post.bundle.turret_mount_list == mid.bundle.turret_mount_list
    &&& post.turrets == mid.turrets
    &&& post.bundle.turret_assignment_list.0 is Some
    &&& post.bundle.turret_assignment_list.0.unwrap()@.len() == 0
}

/// Ship `post` is ship `pre` after the turret spawn pass, drawing ids from
/// `n0` on: a ship with no pending list is untouched; otherwise every
/// pending bundle is installed and the list is left present and empty.
pub open spec fn ship_turrets_spawned(pre: Ship, post: Ship, n0: int) -> bool {
    match pre.bundle.turret_assignment_list.0 {
        Option::None => post == pre,
        Option::Some(v) => exists|mid: Ship|
            #![auto]
            turrets_installed_rel(pre, mid, v@, n0) && assignment_consumed(mid, post),
    }
}

/// How many turret assignments ship `s` has pending.
pub open spec fn assignment_count(s: Ship) -> int {
    match s.bundle.turret_assignment_list.0 {
        Option::None => 0,
        Option::Some(v) => v@.len() as int,
    }
}

/// How many turret assignments these ships have pending in all.
pub open spec fn total_assignment_count(ss: Seq<Ship>) -> int
    decreases ss.len(),
{
    if ss.len() == 0 {
        0
    } else {
        total_assignment_count(ss.drop_last()) + assignment_count(ss.last())
    }
}

/// The turret spawn pass: each ship's pending turret assignment list is
/// consumed from the back; each bundle becomes a child turret entity under a
/// fresh id, installed on its mount, replacing (and despawning, guns and
/// all) any turret previously on that mount.
pub fn ship_turret_spawn_system(world: &mut World)
    requires
        old(world).wf(),
    ensures
        final(world).wf(),
        final(world).projectiles == old(world).projectiles,
        final(world).ships@.len() == old(world).ships@.len(),
        forall|i: int|
            0 <= i < old(world).ships@.len() ==> ship_turrets_spawned(
                old(world).ships@[i],
                #[trigger] final(world).ships@[i],
                bump_k(
                    old(world).next_id as int,
                    total_assignment_count(old(world).ships@.take(i)),
                ),
            ),
        final(world).next_id as int == bump_k(
            old(world).next_id as int,
            total_assignment_count(old(world).ships@),
        ),
{
    let nships = world.ships.len();
    let mut i: usize = 0;
    while i < nships
        invariant
            world.wf(),
            old(world).wf(),
            nships == world.ships@.len(),
            world.ships@.len() == old(world).ships@.len(),
            world.projectiles == old(world).projectiles,
            i <= nships,
            forall|k: int| i <= k < nships ==> world.ships@[k] == old(world).ships@[k],
            forall|k: int|
                0 <= k < i ==> ship_turrets_spawned(
                    old(world).ships@[k],
                    #[trigger] world.ships@[k],
                    bump_k(
                        old(world).next_id as int,
                        total_assignment_count(old(world).ships@.take(k)),
                    ),
                ),
            world.next_id as int == bump_k(
                old(world).next_id as int,
                total_assignment_count(old(world).ships@.take(i as int)),
            ),
        decreases nships - i,
    {
        proof {
            assert(old(world).ships@.take(i as int + 1).drop_last() =~= old(world).ships@.take(
                i as int,
            ));
            assert(old(world).ships@.take(i as int + 1).last() == old(world).ships@[i as int]);
            assert(world.ships@[i as int].wf());
        }
        let ghost pre = world.ships@[i as int];
        let ghost n0: int = world.next_id as int;
        let taken = world.ships[i].bundle.turret_assignment_list.0.take();
        match taken {
            Option::None => {
                proof {
                    assert(world.ships@[i as int] == pre);
                }
            },
            Option::Some(mut pending) => {
                let ghost all = pending@;
                proof {
                    assert(all.take(all.len() as int) =~= all);
                }
                while pending.len() > 0
                    invariant
                        world.wf(),
                        old(world).wf(),
                        i < nships,
                        nships == world.ships@.len(),
                        world.ships@.len() == old(world).ships@.len(),
                        world.projectiles == old(world).projectiles,
                        forall|k: int| i < k < nships ==> world.ships@[k] == old(world).ships@[k],
                        forall|k: int|
                            0 <= k < i ==> ship_turrets_spawned(
                                old(world).ships@[k],
                                #[trigger] world.ships@[k],
                                bump_k(
                                    old(world).next_id as int,
                                    total_assignment_count(old(world).ships@.take(k)),
                                ),
                            ),
                        pending@ == all.take(pending@.len() as int),
                        pending@.len() <= all.len(),
                        forall|m: int| 0 <= m < all.len() ==> (#[trigger] all[m]).wf(),
                        forall|m: int|
                            0 <= m < all.len() ==> (#[trigger] all[m]).turret_mount_number.0
                                < world.ships@[i as int].bundle.turret_mount_list.0@.len(),
                        pre.bundle.turret_mount_list.0@.len()
                            == world.ships@[i as int].bundle.turret_mount_list.0@.len(),
                        world.ships@[i as int].bundle.turret_assignment_list.0 is None,
                        turrets_installed_rel(
                            pre,
                            Ship {
                                bundle: crate::ship::ShipBundle {
                                    turret_assignment_list: pre.bundle.turret_assignment_list,
                                    ..world.ships@[i as int].bundle
                                },
                                ..world.ships@[i as int]
                            },
                            all.skip(pending@.len() as int),
                            n0,
                        ),
                        world.next_id as int == bump_k(n0, all.len() - pending@.len()),
                        n0 == bump_k(
                            old(world).next_id as int,
                            total_assignment_count(old(world).ships@.take(i as int)),
                        ),
                    decreases pending@.len(),
                {
                    let ghost mlen = pending@.len() as int;
                    let ghost cur = Ship {
                        bundle: crate::ship::ShipBundle {
                            turret_assignment_list: pre.bundle.turret_assignment_list,
                            ..world.ships@[i as int].bundle
                        },
                        ..world.ships@[i as int]
                    };
                    let tb = pending.pop().unwrap();
                    proof {
                        assert(tb == all[mlen - 1]);
                        assert(pending@ =~= all.take(mlen - 1));
                        assert(tb.wf());
                        assert(tb.turret_mount_number.0
                            < world.ships@[i as int].bundle.turret_mount_list.0@.len());
                    }
                    let n = tb.turret_mount_number.0;
                    let old_ent = world.ships[i].bundle.turret_mount_list.0[n].mount_turret_entity;
                    if let Some(oid) = old_ent {
                        let nt = world.ships[i].turrets.len();
                        let mut turrets: Vec<Turret> = Vec::new();
                        core::mem::swap(&mut world.ships[i].turrets, &mut turrets);
                        let ghost tall = turrets@;
                        let mut outt: Vec<Turret> = Vec::new();
                        let mut q: usize = 0;
                        while q < nt
                            invariant
                                nt == tall.len(),
                                q <= nt,
                                turrets@ =~= tall.skip(q as int),
                                outt@ =~= tall.take(q as int).filter(keep_turret(oid)),
                                forall|m: int| 0 <= m < tall.len() ==> (#[trigger] tall[m]).wf(),
                                forall|m: int| 0 <= m < outt@.len() ==> (#[trigger] outt@[m]).wf(),
                            decreases nt - q,
                        {
                            proof {
                                assert(turrets@[0] == tall.skip(q as int)[0]);
                                assert(tall.skip(q as int)[0] == tall[q as int]);
                            }
                            let ghost tprev = turrets@;
                            let t = turrets.remove(0);
                            if t.id != oid {
                                outt.push(t);
                            }
                            proof {
                                assert(turrets@ =~= tprev.skip(1));
                                assert(turrets@ =~= tall.skip(q as int + 1));
                                let pr = keep_turret(oid);
                                let t1 = tall.take(q as int + 1);
                                assert(t1.drop_last() =~= tall.take(q as int));
                                assert(t1.last() == tall[q as int]);
                                assert(pr(t) == (t.id != oid));
                                reveal_with_fuel(Seq::<Turret>::filter, 2);
                                assert(t1.filter(pr) == if pr(t1.last()) {
                                    t1.drop_last().filter(pr).push(t1.last())
                                } else {
                                    t1.drop_last().filter(pr)
                                });
                                assert(outt@ =~= t1.filter(pr));
                            }
                            q = q + 1;
                        }
                        world.ships[i].turrets = outt;
                        proof {
                            assert(tall.take(nt as int) =~= tall);
                        }
                    }
                    let id = world.next_id;
                    if world.next_id < u64::MAX {
                        world.next_id = world.next_id + 1;
                    }
                    world.ships[i].turrets.push(Turret { id, bundle: tb, guns: Vec::new() });
                    world.ships[i].bundle.turret_mount_list.0[n].mount_turret_entity = Some(id);
                    proof {
                        let cur2 = Ship {
                            bundle: crate::ship::ShipBundle {
                                turret_assignment_list: pre.bundle.turret_assignment_list,
                                ..world.ships@[i as int].bundle
                            },
                            ..world.ships@[i as int]
                        };
                        let nn = tb.turret_mount_number.0 as int;
                        let mounts = cur.bundle.turret_mount_list.0@;
                        let kept = match mounts[nn].mount_turret_entity {
                            Option::None => cur.turrets@,
                            Option::Some(oid) => cur.turrets@.filter(keep_turret(oid)),
                        };
                        assert(cur2.bundle.turret_mount_list.0@ =~= mounts.update(
                            nn,
                            mount_with_entity(mounts[nn], id as int),
                        ));
                        assert(cur2.turrets@.take(kept.len() as int) =~= kept);
                        assert(cur2.turrets@.last().guns@ =~= Seq::<Gun>::empty());
                        assert(install_step_rel(cur, cur2, tb, id as int));
                        let suffix = all.skip(mlen - 1);
                        assert(suffix.first() == all[mlen - 1]);
                        assert(suffix.drop_first() =~= all.skip(mlen));
                        assert(suffix.len() == all.len() - mlen + 1);
                        assert(bump_k(n0, suffix.len() - 1) == id as int);
                        assert(turrets_installed_rel(pre, cur, suffix.drop_first(), n0));
                        assert(install_step_rel(cur, cur2, suffix.first(), bump_k(n0, suffix.len() - 1)));
                        lemma_turrets_installed_extend(pre, cur, cur2, suffix, n0);
                    }
                }
                proof {
                    assert(all.take(0int) =~= Seq::<TurretBundle>::empty());
                    assert(all.skip(0int) =~= all);
                }
                world.ships[i].bundle.turret_assignment_list.0 = Some(pending);
                proof {
                    let post = world.ships@[i as int];
                    let mid = Ship {
                        bundle: crate::ship::ShipBundle {
                            turret_assignment_list: pre.bundle.turret_assignment_list,
                            ..post.bundle
                        },
                        ..post
                    };
                    assert(turrets_installed_rel(pre, mid, all, n0));
                    assert(assignment_consumed(mid, post));
                    assert(ship_turrets_spawned(pre, post, n0));
                }
            },
        }
        i = i + 1;
    }
    proof {
        assert(old(world).ships@.take(nships as int) =~= old(world).ships@);
    }
}

} // verus!
