//! Gun definitions: the typed records the definition store loads at
//! startup, and the template record written out for editing reference.
use vstd::prelude::*;
use vstd::string::StringExecFns;

use crate::gun::GunCycleTimer;
use crate::gun::GunType;
use crate::math::Vec2;
use crate::math::MAX_PROJECTILE_SPEED;
use crate::physics::MAX_SCALE;
use crate::turret::bump_k;
use crate::turret::TurretGunAssignment;
use crate::world::Gun;
use crate::world::Ship;
use crate::world::Turret;
use crate::world::World;
use crate::ItemSize;

verus! {

broadcast use vstd::seq::group_seq_axioms;


/// Names of the guns the game knows.
#[derive(Clone, Copy, Debug, PartialEq, Eq, Structural)]
pub enum GunName {
    TemplateGun,
    SmallMachinegun,
}

/// Parameters of one gun as loaded from the definition store. Speeds are in
/// hundredths of a metre per second, the deviation is a percentage, and the
/// spread is in whole degrees.
#[derive(Clone, Debug)]
pub struct GunDefinition {
    pub gun_name: GunName,
    pub gun_type: GunType,
    pub gun_size: ItemSize,
    pub projectile_damage: i64,
    pub rate_of_fire: u64,
    pub projectile_velocity_mps: i64,
    pub velocity_deviation_percent: i64,
    pub bullet_spread_degrees: i64,
    pub texture_path: String,
    pub texture_render_size: Vec2,
    pub projectile_texture: String,
    pub projectile_texture_render_size: Vec2,
    pub fire_sound_path: String,
}

impl GunDefinition {
    /// The ranges the fire-control arithmetic is proved exact over; loaded
    /// definitions must be gated through `is_valid` before assembly.
    pub open spec fn wf(self) -> bool {
        &&& 1 <= self.rate_of_fire <= 1000
        &&& 0 < self.projectile_velocity_mps <= MAX_PROJECTILE_SPEED
        &&& 0 <= self.velocity_deviation_percent <= 100
        &&& 0 <= self.bullet_spread_degrees <= 360
        &&& 0 <= self.projectile_damage <= 0x100_0000_0000
        &&& 0 <= self.texture_render_size.x <= MAX_SCALE
        &&& 0 <= self.texture_render_size.y <= MAX_SCALE
        &&& 0 <= self.projectile_texture_render_size.x <= MAX_SCALE
        &&& 0 <= self.projectile_texture_render_size.y <= MAX_SCALE
    }

    /// Checks `wf` at run time, for callers handing in unchecked records.
    pub fn is_valid(&self) -> (r: bool)
        ensures
            r == self.wf(),
    {
        1 <= self.rate_of_fire && self.rate_of_fire <= 1000 && 0 < self.projectile_velocity_mps
            && self.projectile_velocity_mps <= MAX_PROJECTILE_SPEED && 0
            <= self.velocity_deviation_percent && self.velocity_deviation_percent <= 100 && 0
            <= self.bullet_spread_degrees && self.bullet_spread_degrees <= 360 && 0
            <= self.projectile_damage && self.projectile_damage <= 0x100_0000_0000 && 0
            <= self.texture_render_size.x && self.texture_render_size.x <= MAX_SCALE && 0
            <= self.texture_render_size.y && self.texture_render_size.y <= MAX_SCALE && 0
            <= self.projectile_texture_render_size.x && self.projectile_texture_render_size.x
            <= MAX_SCALE && 0 <= self.projectile_texture_render_size.y
            && self.projectile_texture_render_size.y <= MAX_SCALE
    }
}

/// All gun definitions loaded at startup.
#[derive(Clone, Debug)]
pub struct GunDefinitionList(pub Vec<GunDefinition>);

impl GunDefinitionList {
    /// Every definition in the list is within range.
    pub open spec fn wf(self) -> bool {
        forall|i: int| 0 <= i < self.0@.len() ==> (#[trigger] self.0@[i]).wf()
    }
}

/// Builds the explanatory template record for how a gun definition should be
/// formatted; the definition store serializes it to a template file for
/// editing reference.
pub fn write_gun_definition_template() -> (t: GunDefinition)
    ensures
        t.gun_name == GunName::TemplateGun,
        t.gun_type == GunType::Kinetic,
        t.gun_size == ItemSize::Small,
        t.projectile_damage == 10,
        t.rate_of_fire == 10,
        t.projectile_velocity_mps == 40000,
        t.velocity_deviation_percent == 1,
        t.bullet_spread_degrees == 4,
        t.texture_path@ == "template_texture.png"@,
        t.texture_render_size == (Vec2 { x: 1000, y: 1000 }),
        t.projectile_texture@ == "template_proj_texture.png"@,
        t.projectile_texture_render_size == (Vec2 { x: 100, y: 100 }),
        t.fire_sound_path@ == "template_audio.ogg"@,
        t.wf(),
{
    GunDefinition {
        gun_name: GunName::TemplateGun,
        gun_type: GunType::Kinetic,
        gun_size: ItemSize::Small,
        projectile_damage: 10,
        rate_of_fire: 10,
        projectile_velocity_mps: 40000,
        velocity_deviation_percent: 1,
        bullet_spread_degrees: 4,
        texture_path: String::from_str("template_texture.png"),
        texture_render_size: Vec2 { x: 1000, y: 1000 },
        projectile_texture: String::from_str("template_proj_texture.png"),
        projectile_texture_render_size: Vec2 { x: 100, y: 100 },
        fire_sound_path: String::from_str("template_audio.ogg"),
    }
}

/// Turret `b` is turret `a` after one gun assignment `ga` was spawned as a
/// child gun entity under the fresh id `id`: the gun sits at the end of the
/// turret's gun list, placed per the assignment, with its cycle countdown
/// at zero (ready to fire the moment the turret first holds a firing
/// solution). The pending assignment list is not constrained here; the
/// spawn pass empties it as a whole.
pub open spec fn gun_install_step_rel(a: Turret, b: Turret, ga: TurretGunAssignment, id: int) -> bool {
    &&& b.id == a.id
    &&& b.bundle.is_turret == a.bundle.is_turret
    &&& b.bundle.turret_size == a.bundle.turret_size
    &&& b.bundle.turret_mount_number == a.bundle.turret_mount_number
    &&& b.bundle.turret_properties == a.bundle.turret_properties
    &&& b.bundle.transform == a.bundle.transform
    &&& b.bundle.gun_properties == a.bundle.gun_properties
    &&& b.bundle.sprite == a.bundle.sprite
    &&& b.bundle.texture == a.bundle.texture
    &&& b.guns@.len() == a.guns@.len() + 1
    &&& b.guns@.take(a.guns@.len() as int) == a.guns@
    &&& b.guns@.last().id == id as u64
    &&& b.guns@.last().transform == ga.transform
    &&& b.guns@.last().cycle_timer == GunCycleTimer(0)
}

/// Turret `post` is turret `pre` after the assignments of `list` were
/// spawned, drawing ids from `n0` on: the assignments are consumed from the
/// back of the list, so `list.first()` is spawned last, under the highest
/// id.
pub open spec fn guns_installed_rel(
    pre: Turret,
    post: Turret,
    list: Seq<TurretGunAssignment>,
    n0: int,
) -> bool
    decreases list.len(),
{
    if list.len() == 0 {
        post == pre
    } else {
        exists|mid: Turret|
            guns_installed_rel(pre, mid, list.drop_first(), n0)
                && #[trigger] gun_install_step_rel(
                mid,
                post,
                list.first(),
                bump_k(n0, list.len() - 1),
            )
    }
}

/// One more spawned gun extends the chain.
pub proof fn lemma_guns_installed_extend(
    pre: Turret,
    mid: Turret,
    post: Turret,
    list: Seq<TurretGunAssignment>,
    n0: int,
)
    requires
        list.len() > 0,
        guns_installed_rel(pre, mid, list.drop_first(), n0),
        gun_install_step_rel(mid, post, list.first(), bump_k(n0, list.len() - 1)),
    ensures
        guns_installed_rel(pre, post, list, n0),
{
    assert(exists|m: Turret|
        guns_installed_rel(pre, m, list.drop_first(), n0) && #[trigger] gun_install_step_rel(
            m,
            post,
            list.first(),
            bump_k(n0, list.len() - 1),
        ));
}

/// Turret `post` is turret `mid` with its pending gun assignments consumed:
/// the list is present and empty, all else unchanged.
pub open spec fn gun_assignment_consumed(mid: Turret, post: Turret) -> bool {
    &&& post.id == mid.id
    &&& post.bundle.is_turret == mid.bundle.is_turret
    &&& post.bundle.turret_size == mid.bundle.turret_size
    &&& post.bundle.turret_mount_number == mid.bundle.turret_mount_number
    &&& post.bundle.turret_properties == mid.bundle.turret_properties
    &&& post.bundle.transform == mid.bundle.transform
    &&& post.bundle.gun_properties == mid.bundle.gun_properties
    &&& post.bundle.sprite == mid.bundle.sprite
    &&& post.bundle.texture == mid.bundle.texture
    &&& post.guns == mid.guns
    &&& post.bundle.gun_assignment_list.0 is Some
    &&& post.bundle.gun_assignment_list.0.unwrap()@.len() == 0
}

/// Turret `post` is turret `pre` after the gun spawn pass, drawing ids from
/// `n0` on.
pub open spec fn turret_guns_spawned(pre: Turret, post: Turret, n0: int) -> bool {
    match pre.bundle.gun_assignment_list.0 {
        Option::None => post == pre,
        Option::Some(v) => exists|mid: Turret|
            #![auto]
            guns_installed_rel(pre, mid, v@, n0) && gun_assignment_consumed(mid, post),
    }
}

/// How many gun assignments turret `t` has pending.
pub open spec fn gun_assignment_count(t: Turret) -> int {
    match t.bundle.gun_assignment_list.0 {
        Option::None => 0,
        Option::Some(v) => v@.len() as int,
    }
}

/// How many gun assignments these turrets have pending in all.
pub open spec fn gun_count_turrets(ts: Seq<Turret>) -> int
    decreases ts.len(),
{
    if ts.len() == 0 {
        0
    } else {
        gun_count_turrets(ts.drop_last()) + gun_assignment_count(ts.last())
    }
}

/// How many gun assignments the turrets of these ships have pending in all.
pub open spec fn gun_count_ships(ss: Seq<Ship>) -> int
    decreases ss.len(),
{
    if ss.len() == 0 {
        0
    } else {
        gun_count_ships(ss.drop_last()) + gun_count_turrets(ss.last().turrets@)
    }
}

/// Pending-assignment counts are never negative.
pub proof fn lemma_gun_count_turrets_nonneg(ts: Seq<Turret>)
    ensures
        gun_count_turrets(ts) >= 0,
    decreases ts.len(),
{
    if ts.len() > 0 {
        lemma_gun_count_turrets_nonneg(ts.drop_last());
    }
}

/// Pending-assignment counts are never negative.
pub proof fn lemma_gun_count_ships_nonneg(ss: Seq<Ship>)
    ensures
        gun_count_ships(ss) >= 0,
    decreases ss.len(),
{
    if ss.len() > 0 {
        lemma_gun_count_ships_nonneg(ss.drop_last());
        lemma_gun_count_turrets_nonneg(ss.last().turrets@);
    }
}

/// Drawing `b` ids and then `c` more is drawing `b + c` ids.
pub proof fn lemma_bump_compose(a: int, b: int, c: int)
    requires
        0 <= b,
        0 <= c,
    ensures
        bump_k(bump_k(a, b), c) == bump_k(a, b + c),
{
}

/// The gun spawn pass: each turret's pending gun assignment list is
/// consumed from the back; each assignment becomes a child gun entity under
/// a fresh id, placed on the turret per the assignment, with its cycle
/// countdown ready.
pub fn turret_gun_spawn_system(world: &mut World)
    requires
        old(world).wf(),
    ensures
        final(world).wf(),
        final(world).projectiles == old(world).projectiles,
        final(world).ships@.len() == old(world).ships@.len(),
        forall|i: int|
            0 <= i < old(world).ships@.len() ==> {
                let os = old(world).ships@[i];
                let ns = #[trigger] final(world).ships@[i];
                &&& ns.id == os.id
                &&& ns.is_player == os.is_player
                &&& ns.bundle == os.bundle
                &&& ns.turrets@.len() == os.turrets@.len()
                &&& forall|j: int|
                    0 <= j < os.turrets@.len() ==> turret_guns_spawned(
                        os.turrets@[j],
                        #[trigger] ns.turrets@[j],
                        bump_k(
                            old(world).next_id as int,
                            gun_count_ships(old(world).ships@.take(i)) + gun_count_turrets(
                                os.turrets@.take(j),
                            ),
                        ),
                    )
            },
        final(world).next_id as int == bump_k(
            old(world).next_id as int,
            gun_count_ships(old(world).ships@),
        ),
{
    let nships = world.ships.len();
    let mut i: usize = 0;
    while i < nships
        invariant
            world.wf(),
            old(world).wf(),
            nships == world.ships@.len(),
            world.ships@.len() == old(world).ships@.len(),
            world.projectiles == old(world).projectiles,
            i <= nships,
            forall|k: int| i <= k < nships ==> world.ships@[k] == old(world).ships@[k],
            forall|k: int|
                0 <= k < i ==> {
                    let os = old(world).ships@[k];
                    let ns = #[trigger] world.ships@[k];
                    &&& ns.id == os.id
                    &&& ns.is_player == os.is_player
                    &&& ns.bundle == os.bundle
                    &&& ns.turrets@.len() == os.turrets@.len()
                    &&& forall|j: int|
                        0 <= j < os.turrets@.len() ==> turret_guns_spawned(
                            os.turrets@[j],
                            #[trigger] ns.turrets@[j],
                            bump_k(
                                old(world).next_id as int,
                                gun_count_ships(old(world).ships@.take(k)) + gun_count_turrets(
                                    os.turrets@.take(j),
                                ),
                            ),
                        )
                },
            world.next_id as int == bump_k(
                old(world).next_id as int,
                gun_count_ships(old(world).ships@.take(i as int)),
            ),
        decreases nships - i,
    {
        proof {
            assert(old(world).ships@.take(i as int + 1).drop_last() =~= old(world).ships@.take(
                i as int,
            ));
            assert(old(world).ships@.take(i as int + 1).last() == old(world).ships@[i as int]);
        }
        let ghost ship_n0: int = world.next_id as int;
        let nturrets = world.ships[i].turrets.len();
        let mut j: usize = 0;
        while j < nturrets
            invariant
                world.wf(),
                old(world).wf(),
                i < nships,
                nships == world.ships@.len(),
                world.ships@.len() == old(world).ships@.len(),
                world.projectiles == old(world).projectiles,
                j <= nturrets,
                forall|k: int| i < k < nships ==> world.ships@[k] == old(world).ships@[k],
                forall|k: int|
                    0 <= k < i ==> {
                        let os = old(world).ships@[k];
                        let ns = #[trigger] world.ships@[k];
                        &&& ns.id == os.id
                        &&& ns.is_player == os.is_player
                        &&& ns.bundle == os.bundle
                        &&& ns.turrets@.len() == os.turrets@.len()
                        &&& forall|jj: int|
                            0 <= jj < os.turrets@.len() ==> turret_guns_spawned(
                                os.turrets@[jj],
                                #[trigger] ns.turrets@[jj],
                                bump_k(
                                    old(world).next_id as int,
                                    gun_count_ships(old(world).ships@.take(k)) + gun_count_turrets(
                                        os.turrets@.take(jj),
                                    ),
                                ),
                            )
                    },
                nturrets == world.ships@[i as int].turrets@.len(),
                nturrets == old(world).ships@[i as int].turrets@.len(),
                world.ships@[i as int].id == old(world).ships@[i as int].id,
                world.ships@[i as int].is_player == old(world).ships@[i as int].is_player,
                world.ships@[i as int].bundle == old(world).ships@[i as int].bundle,
                forall|l: int|
                    j <= l < nturrets ==> world.ships@[i as int].turrets@[l] == old(
                        world,
                    ).ships@[i as int].turrets@[l],
                forall|l: int|
                    0 <= l < j ==> turret_guns_spawned(
                        old(world).ships@[i as int].turrets@[l],
                        #[trigger] world.ships@[i as int].turrets@[l],
                        bump_k(
                            old(world).next_id as int,
                            gun_count_ships(old(world).ships@.take(i as int)) + gun_count_turrets(
                                old(world).ships@[i as int].turrets@.take(l),
                            ),
                        ),
                    ),
                ship_n0 == bump_k(
                    old(world).next_id as int,
                    gun_count_ships(old(world).ships@.take(i as int)),
                ),
                world.next_id as int == bump_k(
                    ship_n0,
                    gun_count_turrets(old(world).ships@[i as int].turrets@.take(j as int)),
                ),
            decreases nturrets - j,
        {
            proof {
                let ts = old(world).ships@[i as int].turrets@;
                assert(ts.take(j as int + 1).drop_last() =~= ts.take(j as int));
                assert(ts.take(j as int + 1).last() == ts[j as int]);
                assert(world.ships@[i as int].wf());
                assert(world.ships@[i as int].turrets@[j as int].wf());
            }
            let ghost pre = world.ships@[i as int].turrets@[j as int];
            let ghost n0: int = world.next_id as int;
            let taken = world.ships[i].turrets[j].bundle.gun_assignment_list.0.take();
            match taken {
                Option::None => {
                    proof {
                        assert(world.ships@[i as int].turrets@[j as int] == pre);
                    }
                },
                Option::Some(mut pending) => {
                    let ghost all = pending@;
                    proof {
                        assert(all.take(all.len() as int) =~= all);
                        assert(all.skip(all.len() as int) =~= Seq::<TurretGunAssignment>::empty());
                    }
                    while pending.len() > 0
                        invariant
                            world.wf(),
                            old(world).wf(),
                            i < nships,
                            j < nturrets,
                            nships == world.ships@.len(),
                            world.ships@.len() == old(world).ships@.len(),
                            world.projectiles == old(world).projectiles,
                            forall|k: int|
                                i < k < nships ==> world.ships@[k] == old(world).ships@[k],
                            forall|k: int|
                                0 <= k < i ==> {
                                    let os = old(world).ships@[k];
                                    let ns = #[trigger] world.ships@[k];
                                    &&& ns.id == os.id
                                    &&& ns.is_player == os.is_player
                                    &&& ns.bundle == os.bundle
                                    &&& ns.turrets@.len() == os.turrets@.len()
                                    &&& forall|jj: int|
                                        0 <= jj < os.turrets@.len() ==> turret_guns_spawned(
                                            os.turrets@[jj],
                                            #[trigger] ns.turrets@[jj],
                                            bump_k(
                                                old(world).next_id as int,
                                                gun_count_ships(old(world).ships@.take(k))
                                                    + gun_count_turrets(os.turrets@.take(jj)),
                                            ),
                                        )
                                },
                            nturrets == world.ships@[i as int].turrets@.len(),
                            nturrets == old(world).ships@[i as int].turrets@.len(),
                            world.ships@[i as int].id == old(world).ships@[i as int].id,
                            world.ships@[i as int].is_player == old(
                                world,
                            ).ships@[i as int].is_player,
                            world.ships@[i as int].bundle == old(world).ships@[i as int].bundle,
                            forall|l: int|
                                j < l < nturrets ==> world.ships@[i as int].turrets@[l] == old(
                                    world,
                                ).ships@[i as int].turrets@[l],
                            forall|l: int|
                                0 <= l < j ==> turret_guns_spawned(
                                    old(world).ships@[i as int].turrets@[l],
                                    #[trigger] world.ships@[i as int].turrets@[l],
                                    bump_k(
                                        old(world).next_id as int,
                                        gun_count_ships(old(world).ships@.take(i as int))
                                            + gun_count_turrets(
                                            old(world).ships@[i as int].turrets@.take(l),
                                        ),
                                    ),
                                ),
                            pending@ == all.take(pending@.len() as int),
                            pending@.len() <= all.len(),
                            forall|m: int| 0 <= m < all.len() ==> (#[trigger] all[m]).transform.wf(),
                            world.ships@[i as int].turrets@[j as int].bundle.gun_assignment_list.0
                                is None,
                            guns_installed_rel(
                                pre,
                                Turret {
                                    bundle: crate::turret::TurretBundle {
                                        gun_assignment_list: pre.bundle.gun_assignment_list,
                                        ..world.ships@[i as int].turrets@[j as int].bundle
                                    },
                                    ..world.ships@[i as int].turrets@[j as int]
                                },
                                all.skip(pending@.len() as int),
                                n0,
                            ),
                            world.next_id as int == bump_k(n0, all.len() - pending@.len()),
                            n0 == bump_k(
                                ship_n0,
                                gun_count_turrets(
                                    old(world).ships@[i as int].turrets@.take(j as int),
                                ),
                            ),
                            ship_n0 == bump_k(
                                old(world).next_id as int,
                                gun_count_ships(old(world).ships@.take(i as int)),
                            ),
                        decreases pending@.len(),
                    {
                        let ghost mlen = pending@.len() as int;
                        let ghost cur = Turret {
                            bundle: crate::turret::TurretBundle {
                                gun_assignment_list: pre.bundle.gun_assignment_list,
                                ..world.ships@[i as int].turrets@[j as int].bundle
                            },
                            ..world.ships@[i as int].turrets@[j as int]
                        };
                        let ga = pending.pop().unwrap();
                        proof {
                            assert(ga == all[mlen - 1]);
                            assert(pending@ =~= all.take(mlen - 1));
                        }
                        let id = world.next_id;
                        if world.next_id < u64::MAX {
                            world.next_id = world.next_id + 1;
                        }
                        world.ships[i].turrets[j].guns.push(
                            Gun { id, transform: ga.transform, cycle_timer: GunCycleTimer(0) },
                        );
                        proof {
                            let cur2 = Turret {
                                bundle: crate::turret::TurretBundle {
                                    gun_assignment_list: pre.bundle.gun_assignment_list,
                                    ..world.ships@[i as int].turrets@[j as int].bundle
                                },
                                ..world.ships@[i as int].turrets@[j as int]
                            };
                            assert(cur2.guns@.take(cur.guns@.len() as int) =~= cur.guns@);
                            assert(gun_install_step_rel(cur, cur2, ga, id as int));
                            let suffix = all.skip(mlen - 1);
                            assert(suffix.first() == all[mlen - 1]);
                            assert(suffix.drop_first() =~= all.skip(mlen));
                            assert(suffix.len() == all.len() - mlen + 1);
                            assert(bump_k(n0, suffix.len() - 1) == id as int);
                            assert(guns_installed_rel(pre, cur, suffix.drop_first(), n0));
                            lemma_guns_installed_extend(pre, cur, cur2, suffix, n0);
                        }
                    }
                    proof {
                        assert(all.skip(0int) =~= all);
                    }
                    world.ships[i].turrets[j].bundle.gun_assignment_list.0 = Some(pending);
                    proof {
                        let post = world.ships@[i as int].turrets@[j as int];
                        let mid = Turret {
                            bundle: crate::turret::TurretBundle {
                                gun_assignment_list: pre.bundle.gun_assignment_list,
                                ..post.bundle
                            },
                            ..post
                        };
                        assert(guns_installed_rel(pre, mid, all, n0));
                        assert(gun_assignment_consumed(mid, post));
                        assert(turret_guns_spawned(pre, post, n0));
                    }
                },
            }
            proof {
                let ts = old(world).ships@[i as int].turrets@;
                lemma_gun_count_ships_nonneg(old(world).ships@.take(i as int));
                lemma_gun_count_turrets_nonneg(ts.take(j as int));
                lemma_bump_compose(
                    old(world).next_id as int,
                    gun_count_ships(old(world).ships@.take(i as int)),
                    gun_count_turrets(ts.take(j as int)),
                );
                assert(gun_assignment_count(pre) >= 0);
                lemma_bump_compose(
                    ship_n0,
                    gun_count_turrets(ts.take(j as int)),
                    gun_assignment_count(pre),
                );
            }
            j = j + 1;
        }
        proof {
            let ts = old(world).ships@[i as int].turrets@;
            assert(ts.take(nturrets as int) =~= ts);
            lemma_gun_count_ships_nonneg(old(world).ships@.take(i as int));
            lemma_gun_count_turrets_nonneg(ts);
            lemma_bump_compose(
                old(world).next_id as int,
                gun_count_ships(old(world).ships@.take(i as int)),
                gun_count_turrets(ts),
            );
        }
        i = i + 1;
    }
    proof {
        assert(old(world).ships@.take(nships as int) =~= old(world).ships@);
    }
}

} // verus!
