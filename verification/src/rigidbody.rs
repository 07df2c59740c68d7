//! Physics-object assembly: which colliders a physics object attaches as
//! children, the gameplay role and sensor flag each child carries, and the
//! registry records the collision pass later resolves handles through.

use vstd::prelude::*;

use crate::collision::{AAColliderType, ColliderOwner, ColliderRec, ColliderTable};

verus! {

/// One collider definition of a character: its symbolic id and the gameplay
/// role it is tagged with.
#[derive(Clone, Copy, Debug, PartialEq, Eq, Structural)]
pub struct AugmentedCollider {
    pub id: u64,
    pub collider_type: AAColliderType,
}

/// A list of collider ids singled out for a special role.
#[derive(Clone, Debug)]
pub struct CollidersVec {
    pub colliders: Vec<u64>,
}

/// Whether a value occurs in a vector of ids.
fn contains_id(ids: &Vec<u64>, id: u64) -> (r: bool)
    ensures
        r == ids@.contains(id),
{
    let n = ids.len();
    let mut i: usize = 0;
    while i < n
        invariant
            n == ids@.len(),
            0 <= i <= n,
            forall|j: int| 0 <= j < i ==> ids@[j] != id,
        decreases n - i,
    {
        if ids[i] == id {
            return true;
        }
        i += 1;
    }
    false
}

impl CollidersVec {
    /// Retags every collider definition whose id this list names with the
    /// given role; all other definitions keep theirs.
    pub fn set_special_type(
        &self,
        bundles: &mut Vec<AugmentedCollider>,
        collider_type: AAColliderType,
    )
        ensures
            final(bundles)@.len() == old(bundles)@.len(),
            forall|i: int|
                0 <= i < old(bundles)@.len() ==> final(bundles)@[i] == (if self.colliders@.contains(
                    (#[trigger] old(bundles)@[i]).id,
                ) {
                    AugmentedCollider { collider_type, ..old(bundles)@[i] }
                } else {
                    old(bundles)@[i]
                }),
    {
        let n = bundles.len();
        let mut i: usize = 0;
        while i < n
            invariant
                n == bundles@.len(),
                bundles@.len() == old(bundles)@.len(),
                0 <= i <= n,
                forall|j: int| i <= j < n ==> bundles@[j] == old(bundles)@[j],
                forall|j: int|
                    0 <= j < i ==> bundles@[j] == (if self.colliders@.contains(
                        (#[trigger] old(bundles)@[j]).id,
                    ) {
                        AugmentedCollider { collider_type, ..old(bundles)@[j] }
                    } else {
                        old(bundles)@[j]
                    }),
            decreases n - i,
        {
            if contains_id(&self.colliders, bundles[i].id) {
                let b = &mut bundles[i];
                b.collider_type = collider_type;
            }
            i += 1;
        }
    }
}

/// The collider definitions carrying one id, in catalog order.
pub open spec fn matching_colliders(cat: Seq<AugmentedCollider>, id: u64) -> Seq<AugmentedCollider>
    decreases cat.len(),
{
    if cat.len() == 0 {
        Seq::empty()
    } else if cat.last().id == id {
        matching_colliders(cat.drop_last(), id).push(cat.last())
    } else {
        matching_colliders(cat.drop_last(), id)
    }
}

/// The colliders a physics object attaches: for each listed id, every
/// catalog definition carrying it, in declaration order.
pub open spec fn gathered_colliders(
    cat: Seq<AugmentedCollider>,
    ids: Seq<u64>,
) -> Seq<AugmentedCollider>
    decreases ids.len(),
{
    if ids.len() == 0 {
        Seq::empty()
    } else {
        gathered_colliders(cat, ids.drop_last()) + matching_colliders(cat, ids.last())
    }
}

/// Whether the spawned body's sensor flag is up after some prefix of its
/// children: it starts raised when a sensor extra was requested, and any
/// jump-reset or death child raises it for that child and for every later
/// one.
pub open spec fn sensor_run(base: bool, cols: Seq<AugmentedCollider>) -> bool {
    base || exists|j: int|
        0 <= j < cols.len() && (#[trigger] cols[j]).collider_type != AAColliderType::Solid
}

/// A selection carries at most as many colliders as the catalog.
proof fn lemma_matching_len(cat: Seq<AugmentedCollider>, id: u64)
    ensures
        matching_colliders(cat, id).len() <= cat.len(),
    decreases cat.len(),
{
    if cat.len() > 0 {
        lemma_matching_len(cat.drop_last(), id);
    }
}

/// The gathered colliders number at most catalog size times id count.
proof fn lemma_gathered_len(cat: Seq<AugmentedCollider>, ids: Seq<u64>)
    ensures
        gathered_colliders(cat, ids).len() <= cat.len() * ids.len(),
    decreases ids.len(),
{
    if ids.len() > 0 {
        lemma_gathered_len(cat, ids.drop_last());
        lemma_matching_len(cat, ids.last());
        assert(cat.len() * (ids.len() - 1) + cat.len() == cat.len() * ids.len())
            by (nonlinear_arith);
    }
}

/// Assembles one physics object: gathers every collider the object's id
/// list names, registers each as a child of the owner in the collider
/// registry under consecutive fresh handles, and reports, per child, the
/// sensor flag the engine is handed — raised by a requested sensor extra or
/// by any jump-reset or death child seen so far, and never lowered again.
pub fn spawn_physics_object_with_sync(
    collider_map: &Vec<AugmentedCollider>,
    collider_ids: &Vec<u64>,
    has_sensor_extra: bool,
    owner: ColliderOwner,
    first_child_id: u64,
    table: &mut ColliderTable,
) -> (flags: Vec<bool>)
    requires
        first_child_id + collider_map@.len() * collider_ids@.len() <= u64::MAX,
    ensures
        ({
            let cols = gathered_colliders(collider_map@, collider_ids@);
            &&& flags@.len() == cols.len()
            &&& forall|k: int|
                0 <= k < cols.len() ==> flags@[k] == sensor_run(
                    has_sensor_extra,
                    cols.take(k + 1),
                )
            &&& final(table).recs@.len() == old(table).recs@.len() + cols.len()
            &&& forall|b: int|
                0 <= b < old(table).recs@.len() ==> final(table).recs@[b] == old(table).recs@[b]
            &&& forall|k: int|
                0 <= k < cols.len() ==> final(table).recs@[old(table).recs@.len() + k] == (
                ColliderRec {
                    id: (first_child_id + k) as u64,
                    parent: owner,
                    collider_type: cols[k].collider_type,
                })
        }),
{
    let mut cols: Vec<AugmentedCollider> = Vec::new();
    let nids = collider_ids.len();
    let mut j: usize = 0;
    while j < nids
        invariant
            nids == collider_ids@.len(),
            0 <= j <= nids,
            cols@ == gathered_colliders(collider_map@, collider_ids@.take(j as int)),
        decreases nids - j,
    {
        let id = collider_ids[j];
        let ghost mid = cols@;
        let nc = collider_map.len();
        let mut i: usize = 0;
        while i < nc
            invariant
                nc == collider_map@.len(),
                0 <= i <= nc,
                cols@ == mid + matching_colliders(collider_map@.take(i as int), id),
            decreases nc - i,
        {
            let c = collider_map[i];
            if c.id == id {
                cols.push(c);
            }
            proof {
                let taken = collider_map@.take(i as int + 1);
                assert(taken.drop_last() =~= collider_map@.take(i as int));
                assert(taken.last() == collider_map@[i as int]);
                if collider_map@[i as int].id == id {
                    assert(cols@ =~= mid + matching_colliders(taken, id));
                }
            }
            i += 1;
        }
        proof {
            assert(collider_map@.take(nc as int) =~= collider_map@);
            let taken = collider_ids@.take(j as int + 1);
            assert(taken.drop_last() =~= collider_ids@.take(j as int));
            assert(taken.last() == collider_ids@[j as int]);
        }
        j += 1;
    }
    proof {
        assert(collider_ids@.take(nids as int) =~= collider_ids@);
        lemma_gathered_len(collider_map@, collider_ids@);
    }
    let total = cols.len();
    let mut flags: Vec<bool> = Vec::new();
    let mut sensor = has_sensor_extra;
    let mut k: usize = 0;
    while k < total
        invariant
            total == cols@.len(),
            0 <= k <= total,
            cols@.len() <= collider_map@.len() * collider_ids@.len(),
            first_child_id + collider_map@.len() * collider_ids@.len() <= u64::MAX,
            sensor == sensor_run(has_sensor_extra, cols@.take(k as int)),
            flags@.len() == k,
            forall|q: int|
                0 <= q < k ==> flags@[q] == sensor_run(has_sensor_extra, cols@.take(q + 1)),
            table.recs@.len() == old(table).recs@.len() + k,
            forall|b: int|
                0 <= b < old(table).recs@.len() ==> table.recs@[b] == old(table).recs@[b],
            forall|q: int|
                0 <= q < k ==> table.recs@[old(table).recs@.len() + q] == (ColliderRec {
                    id: (first_child_id + q) as u64,
                    parent: owner,
                    collider_type: cols@[q].collider_type,
                }),
        decreases total - k,
    {
        let c = cols[k];
        if !(c.collider_type == AAColliderType::Solid) {
            sensor = true;
        }
        proof {
            let taken = cols@.take(k as int + 1);
            assert(taken.drop_last() =~= cols@.take(k as int));
            assert(taken.last() == cols@[k as int]);
            assert(sensor == sensor_run(has_sensor_extra, taken)) by {
                if sensor {
                    if cols@[k as int].collider_type != AAColliderType::Solid {
                        assert(taken[k as int].collider_type != AAColliderType::Solid);
                    } else {
                        if !has_sensor_extra {
                            let w = choose|w: int|
                                0 <= w < cols@.take(k as int).len() && (#[trigger] cols@.take(
                                    k as int,
                                )[w]).collider_type != AAColliderType::Solid;
                            assert(taken[w].collider_type != AAColliderType::Solid);
                        }
                    }
                } else {
                    assert forall|w: int| 0 <= w < taken.len() implies (
                    #[trigger] taken[w]).collider_type == AAColliderType::Solid by {
                        if w < k as int {
                            assert(cols@.take(k as int)[w] == taken[w]);
                        }
                    }
                }
            }
        }
        flags.push(sensor);
        let child_id = first_child_id + (k as u64);
        table.recs.push(ColliderRec { id: child_id, parent: owner, collider_type: c.collider_type });
        k += 1;
    }
    proof {
        assert(cols@.take(total as int) =~= cols@);
    }
    flags
}

} // verus!
