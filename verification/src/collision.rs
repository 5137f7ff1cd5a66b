//! Collision reaction rules.
//!
//! The external physics collaborator detects overlaps; the simulation only
//! consumes, per tick, a flag per tracked entity saying whether it had a
//! collision partner. A lifetime-tagged, collision-tracked entity with a
//! partner despawns immediately: collision handling is authoritative and
//! preempts the lifetime countdown.

use vstd::prelude::*;

use crate::projectile::Projectile;

verus! {

/// Whether a tracked bullet is struck this tick: it carries the lifetime
/// tag, the physics collaborator reports collisions for it, and it had a
/// partner.
pub open spec fn spec_struck(pr: Projectile, hit: bool) -> bool {
    hit && pr.collidable && pr.lifetime is Some
}

/// The collision pass: exactly the struck bullets despawn, in order,
/// whatever their remaining lifetime.
pub open spec fn spec_collision_pass(ps: Seq<Projectile>, hits: Seq<bool>) -> Seq<Projectile>
    recommends
        ps.len() == hits.len(),
    decreases ps.len(),
{
    if ps.len() == 0 {
        Seq::empty()
    } else {
        let rest = spec_collision_pass(ps.drop_first(), hits.drop_first());
        if spec_struck(ps[0], hits[0]) {
            rest
        } else {
            seq![ps[0]] + rest
        }
    }
}

/// Despawn every lifetime-tagged, collision-tracked bullet that has a
/// collision partner this tick.
#[verifier::loop_isolation(false)]
pub fn handle_bullet_collision(ps: &mut Vec<Projectile>, hits: &Vec<bool>)
    requires
        hits@.len() == old(ps)@.len(),
    ensures
        final(ps)@ == spec_collision_pass(old(ps)@, hits@),
{
    let len = ps.len();
    let mut out: Vec<Projectile> = Vec::new();
    let mut i: usize = 0;
    proof {
        assert(ps@.skip(0) =~= ps@);
        assert(hits@.skip(0) =~= hits@);
        assert(out@ + spec_collision_pass(ps@, hits@) =~= spec_collision_pass(ps@, hits@));
    }
    while i < len
        invariant
            i <= len,
            ps@ == old(ps)@,
            spec_collision_pass(ps@, hits@) == out@ + spec_collision_pass(
                ps@.skip(i as int),
                hits@.skip(i as int),
            ),
        decreases len - i,
    {
        let pr = ps[i];
        proof {
            assert(ps@.skip(i as int)[0] == ps@[i as int]);
            assert(hits@.skip(i as int)[0] == hits@[i as int]);
            assert(ps@.skip(i as int).drop_first() =~= ps@.skip(i as int + 1));
            assert(hits@.skip(i as int).drop_first() =~= hits@.skip(i as int + 1));
        }
        let tagged = match pr.lifetime {
            Some(_) => true,
            None => false,
        };
        if !(hits[i] && pr.collidable && tagged) {
            out.push(pr);
            proof {
                assert(out@ + spec_collision_pass(ps@.skip(i as int + 1), hits@.skip(i as int + 1))
                    =~= out@.drop_last() + (seq![pr] + spec_collision_pass(
                    ps@.skip(i as int + 1),
                    hits@.skip(i as int + 1),
                )));
            }
        }
        i = i + 1;
    }
    proof {
        assert(ps@.skip(len as int) =~= Seq::<Projectile>::empty());
        assert(out@ + Seq::<Projectile>::empty() =~= out@);
    }
    *ps = out;
}

/// Collision despawn is authoritative and exact: every bullet not struck
/// this tick survives the pass unchanged, and the pass never grows the
/// population.
pub proof fn lemma_collision_exact(ps: Seq<Projectile>, hits: Seq<bool>)
    requires
        ps.len() == hits.len(),
    ensures
        spec_collision_pass(ps, hits).len() <= ps.len(),
        forall|i: int|
            0 <= i < ps.len() && !spec_struck(#[trigger] ps[i], hits[i]) ==> spec_collision_pass(
                ps,
                hits,
            ).contains(ps[i]),
    decreases ps.len(),
{
    if ps.len() > 0 {
        lemma_collision_exact(ps.drop_first(), hits.drop_first());
        let rest = spec_collision_pass(ps.drop_first(), hits.drop_first());
        assert forall|i: int|
            0 <= i < ps.len() && !spec_struck(#[trigger] ps[i], hits[i]) implies spec_collision_pass(
            ps,
            hits,
        ).contains(ps[i]) by {
            if i == 0 {
                assert(spec_collision_pass(ps, hits)[0] == ps[0]);
            } else {
                assert(ps.drop_first()[i - 1] == ps[i]);
                assert(hits.drop_first()[i - 1] == hits[i]);
                assert(rest.contains(ps[i]));
                let j = choose|j: int| 0 <= j < rest.len() && rest[j] == ps[i];
                if spec_struck(ps[0], hits[0]) {
                    assert(spec_collision_pass(ps, hits)[j] == ps[i]);
                } else {
                    assert(spec_collision_pass(ps, hits)[j + 1] == ps[i]);
                }
            }
        }
    }
}

/// The collision pass keeps only elements of the starting population, so
/// well-formedness carries over.
pub proof fn lemma_collision_pass_wf(ps: Seq<Projectile>, hits: Seq<bool>)
    requires
        forall|i: int| 0 <= i < ps.len() ==> (#[trigger] ps[i]).wf(),
    ensures
        forall|i: int| 0 <= i < spec_collision_pass(ps, hits).len() ==> (#[trigger] spec_collision_pass(
            ps,
            hits,
        )[i]).wf(),
    decreases ps.len(),
{
    if ps.len() > 0 {
        assert(forall|i: int| 0 <= i < ps.drop_first().len() ==> (#[trigger] ps.drop_first()[i]).wf());
        lemma_collision_pass_wf(ps.drop_first(), hits.drop_first());
        let out = spec_collision_pass(ps, hits);
        let rest = spec_collision_pass(ps.drop_first(), hits.drop_first());
        assert forall|i: int| 0 <= i < out.len() implies (#[trigger] out[i]).wf() by {
            if spec_struck(ps[0], hits[0]) {
                assert(out[i] == rest[i]);
            } else if i == 0 {
                assert(out[0] == ps[0]);
            } else {
                assert(out[i] == rest[i - 1]);
            }
        }
    }
}

/// Reserved extension point: enemy-versus-player contact damage. The
/// minimal core tracks enemy health but defines no path that reduces it.
pub fn hurt_player() {
}

} // verus!
