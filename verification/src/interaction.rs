//! Faction tags, damage values, and the lifecycle pass that removes
//! destroyed ships.
use vstd::prelude::*;

use crate::world::Ship;
use crate::world::World;

verus! {

broadcast use vstd::seq::group_seq_axioms;


/// Identification friend-or-foe: the faction tag that filters both targeting
/// and collision damage. Entities only engage entities of a different tag.
#[derive(Clone, Copy, Debug, PartialEq, Eq, Structural)]
pub enum IFF {
    Neutral,
    Friendly,
    Enemy,
}

/// Damage a projectile deals on impact.
#[derive(Clone, Copy, Debug, PartialEq, Eq, Structural)]
pub struct Damage(pub i64);

/// A ship still lives: its health is strictly positive.
pub open spec fn alive(s: Ship) -> bool {
    s.bundle.health.0 > 0
}

/// `alive`, packaged as the predicate that keeps a ship.
pub open spec fn alive_pred() -> spec_fn(Ship) -> bool {
    |s: Ship| alive(s)
}

/// Lifecycle pass: every ship whose health has reached zero or below is
/// removed before the next tick begins, and — ships owning their turrets and
/// turrets their guns — its whole turret and gun hierarchy goes with it.
/// Health is never resurrected: a destroyed ship is simply gone.
pub fn kill_system(world: &mut World)
    requires
        old(world).wf(),
    ensures
        final(world).wf(),
        final(world).next_id == old(world).next_id,
        final(world).projectiles == old(world).projectiles,
        final(world).ships@ == old(world).ships@.filter(alive_pred()),
{
    let nships = world.ships.len();
    let mut ships: Vec<Ship> = Vec::new();
    core::mem::swap(&mut world.ships, &mut ships);
    let mut out: Vec<Ship> = Vec::new();
    let mut k: usize = 0;
    while k < nships
        invariant
            old(world).wf(),
            nships == old(world).ships@.len(),
            k <= nships,
            ships@ =~= old(world).ships@.skip(k as int),
            out@ =~= old(world).ships@.take(k as int).filter(alive_pred()),
            forall|m: int| 0 <= m < out@.len() ==> (#[trigger] out@[m]).wf(),
        decreases nships - k,
    {
        proof {
            assert(ships@[0] == old(world).ships@.skip(k as int)[0]);
            assert(old(world).ships@.skip(k as int)[0] == old(world).ships@[k as int]);
            assert(old(world).ships@[k as int].wf());
        }
        let ghost prev = ships@;
        let s = ships.remove(0);
        if s.bundle.health.0 > 0 {
            out.push(s);
        }
        proof {
            assert(ships@ =~= prev.skip(1));
            assert(ships@ =~= old(world).ships@.skip(k as int + 1));
            let pr = alive_pred();
            let t1 = old(world).ships@.take(k as int + 1);
            assert(t1.drop_last() =~= old(world).ships@.take(k as int));
            assert(t1.last() == old(world).ships@[k as int]);
            assert(pr(s) == alive(s));
            reveal_with_fuel(Seq::<Ship>::filter, 2);
            assert(t1.filter(pr) == if pr(t1.last()) {
                t1.drop_last().filter(pr).push(t1.last())
            } else {
                t1.drop_last().filter(pr)
            });
            assert(out@ =~= t1.filter(pr));
        }
        k = k + 1;
    }
    world.ships = out;
    proof {
        assert(old(world).ships@.take(nships as int) =~= old(world).ships@);
    }
}

} // verus!
