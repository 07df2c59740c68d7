//! Instance Map and Deferred Batch Queue: the entities spawned during one
//! attack execution, filed under a facing + instance-tag key, and the
//! movement actions that must be applied to them in a later phase.

use vstd::prelude::*;

use crate::catalog::MovementAttackAction;
use crate::direction::Facing;

verus! {

/// The key spawned entities are filed under: the fighter's canonical facing
/// at spawn time plus the action's symbolic instance tag.
#[derive(Clone, Copy, Debug, PartialEq, Eq, Structural)]
pub struct InstanceIdDir {
    pub facing: Facing,
    pub tag: u64,
}

/// Builds the instance key for a facing and tag.
pub fn get_instance_id(facing: Facing, tag: u64) -> (r: InstanceIdDir)
    ensures
        r == (InstanceIdDir { facing, tag }),
{
    InstanceIdDir { facing, tag }
}

/// The mathematical content of an instance map: keyed lists of projectile
/// handles.
pub type InstanceRows = Seq<(InstanceIdDir, Seq<usize>)>;

/// The handles filed under a key: those of its first matching row, or none.
pub open spec fn slot_of(rows: InstanceRows, key: InstanceIdDir) -> Seq<usize>
    decreases rows.len(),
{
    if rows.len() == 0 {
        Seq::empty()
    } else if rows[0].0 == key {
        rows[0].1
    } else {
        slot_of(rows.drop_first(), key)
    }
}

/// Row keys are pairwise distinct.
pub open spec fn unique_keys(rows: InstanceRows) -> bool {
    forall|i: int, j: int|
        0 <= i < j < rows.len() ==> (#[trigger] rows[i]).0 != (#[trigger] rows[j]).0
}

/// Extending the handle list of the one row holding `key` changes that
/// slot's contents and no other.
proof fn lemma_slot_update(rows: InstanceRows, i: int, w: Seq<usize>)
    requires
        0 <= i < rows.len(),
        forall|j: int| 0 <= j < i ==> (#[trigger] rows[j]).0 != rows[i].0,
    ensures
        slot_of(rows.update(i, (rows[i].0, w)), rows[i].0) == w,
        forall|k2: InstanceIdDir|
            k2 != rows[i].0 ==> slot_of(rows.update(i, (rows[i].0, w)), k2) == slot_of(rows, k2),
    decreases i,
{
    let upd = rows.update(i, (rows[i].0, w));
    if i == 0 {
        assert(upd[0] == (rows[0].0, w));
        assert forall|k2: InstanceIdDir| k2 != rows[i].0 implies slot_of(upd, k2) == slot_of(
            rows,
            k2,
        ) by {
            assert(upd.drop_first() =~= rows.drop_first());
        }
    } else {
        assert(upd[0] == rows[0]);
        assert(upd.drop_first() =~= rows.drop_first().update(i - 1, (rows[i].0, w)));
        assert(rows.drop_first()[i - 1] == rows[i]);
        assert(forall|j: int|
            0 <= j < i - 1 ==> (#[trigger] rows.drop_first()[j]).0 != rows.drop_first()[i - 1].0);
        lemma_slot_update(rows.drop_first(), i - 1, w);
        assert(rows[0].0 != rows[i].0);
        assert(slot_of(upd, rows[i].0) == slot_of(upd.drop_first(), rows[i].0));
        assert forall|k2: InstanceIdDir| k2 != rows[i].0 implies slot_of(upd, k2) == slot_of(
            rows,
            k2,
        ) by {
            if upd[0].0 != k2 {
                assert(slot_of(upd, k2) == slot_of(upd.drop_first(), k2));
                assert(slot_of(rows, k2) == slot_of(rows.drop_first(), k2));
            }
        }
    }
}

/// Appending a row with an unused key fills exactly that slot.
proof fn lemma_slot_push(rows: InstanceRows, key: InstanceIdDir, w: Seq<usize>)
    requires
        forall|j: int| 0 <= j < rows.len() ==> (#[trigger] rows[j]).0 != key,
    ensures
        slot_of(rows, key) == Seq::<usize>::empty(),
        slot_of(rows.push((key, w)), key) == w,
        forall|k2: InstanceIdDir|
            k2 != key ==> slot_of(rows.push((key, w)), k2) == slot_of(rows, k2),
    decreases rows.len(),
{
    let ext = rows.push((key, w));
    if rows.len() == 0 {
        assert(ext[0] == (key, w));
        assert forall|k2: InstanceIdDir| k2 != key implies slot_of(ext, k2) == slot_of(
            rows,
            k2,
        ) by {
            assert(slot_of(ext, k2) == slot_of(ext.drop_first(), k2));
        }
    } else {
        assert(ext[0] == rows[0]);
        assert(ext.drop_first() =~= rows.drop_first().push((key, w)));
        lemma_slot_push(rows.drop_first(), key, w);
        assert(rows[0].0 != key);
        assert(slot_of(ext, key) == slot_of(ext.drop_first(), key));
        assert(slot_of(rows, key) == slot_of(rows.drop_first(), key));
        assert forall|k2: InstanceIdDir| k2 != key implies slot_of(ext, k2) == slot_of(
            rows,
            k2,
        ) by {
            if ext[0].0 != k2 {
                assert(slot_of(ext, k2) == slot_of(ext.drop_first(), k2));
                assert(slot_of(rows, k2) == slot_of(rows.drop_first(), k2));
            }
        }
    }
}

/// Per-attack-execution table from instance key to the entities spawned
/// under it, in spawn order.
#[derive(Debug)]
pub struct InstanceMap {
    pub entries: Vec<(InstanceIdDir, Vec<usize>)>,
}

impl View for InstanceMap {
    type V = InstanceRows;

    open spec fn view(&self) -> InstanceRows {
        self.entries@.map_values(|e: (InstanceIdDir, Vec<usize>)| (e.0, e.1@))
    }
}

impl InstanceMap {
    /// Keys are pairwise distinct.
    pub open spec fn well_formed(self) -> bool {
        unique_keys(self@)
    }

    /// A table with no entries.
    pub fn new() -> (r: InstanceMap)
        ensures
            r@.len() == 0,
            r.well_formed(),
            forall|k: InstanceIdDir| slot_of(r@, k) == Seq::<usize>::empty(),
    {
        let r = InstanceMap { entries: Vec::new() };
        proof {
            assert(r@ =~= Seq::<(InstanceIdDir, Seq<usize>)>::empty());
        }
        r
    }

    /// Files one spawned-entity handle under a key, after any handles
    /// already filed there; other slots are untouched.
    pub fn push_handle(&mut self, key: InstanceIdDir, h: usize)
        requires
            old(self).well_formed(),
        ensures
            final(self).well_formed(),
            slot_of(final(self)@, key) == slot_of(old(self)@, key).push(h),
            forall|k2: InstanceIdDir| k2 != key ==> slot_of(final(self)@, k2) == slot_of(old(self)@, k2),
    {
        let n = self.entries.len();
        let mut i: usize = 0;
        while i < n
            invariant
                *self == *old(self),
                old(self).well_formed(),
                n == self.entries@.len(),
                0 <= i <= n,
                forall|j: int| 0 <= j < i ==> (#[trigger] self@[j]).0 != key,
            decreases n - i,
        {
            if self.entries[i].0 == key {
                let e = &mut self.entries[i];
                e.1.push(h);
                proof {
                    let rows = old(self)@;
                    assert(self@ =~= rows.update(i as int, (key, rows[i as int].1.push(h))));
                    lemma_slot_update(rows, i as int, rows[i as int].1.push(h));
                    assert(slot_of(rows, key) == rows[i as int].1) by {
                        lemma_slot_first_match(rows, i as int);
                    }
                    assert forall|a: int, b: int|
                        0 <= a < b < self@.len() implies (#[trigger] self@[a]).0 != (
                    #[trigger] self@[b]).0 by {
                        assert(rows[a].0 != rows[b].0);
                    }
                }
                return ;
            }
            i += 1;
        }
        let mut w: Vec<usize> = Vec::new();
        w.push(h);
        self.entries.push((key, w));
        proof {
            let rows = old(self)@;
            assert(self@ =~= rows.push((key, w@)));
            lemma_slot_push(rows, key, w@);
            assert(w@ =~= Seq::<usize>::empty().push(h));
            assert forall|a: int, b: int|
                0 <= a < b < self@.len() implies (#[trigger] self@[a]).0 != (
            #[trigger] self@[b]).0 by {
                if b < rows.len() {
                    assert(rows[a].0 != rows[b].0);
                } else {
                    assert(self@[b].0 == key);
                    assert(rows[a].0 != key);
                }
            }
        }
    }

    /// Copies out the handles filed under a key, in spawn order.
    pub fn handles_for(&self, key: InstanceIdDir) -> (v: Vec<usize>)
        requires
            self.well_formed(),
        ensures
            v@ == slot_of(self@, key),
    {
        let n = self.entries.len();
        let mut i: usize = 0;
        while i < n
            invariant
                self.well_formed(),
                n == self.entries@.len(),
                0 <= i <= n,
                forall|j: int| 0 <= j < i ==> (#[trigger] self@[j]).0 != key,
            decreases n - i,
        {
            if self.entries[i].0 == key {
                let src = &self.entries[i].1;
                let m = src.len();
                let mut v: Vec<usize> = Vec::new();
                let mut k: usize = 0;
                while k < m
                    invariant
                        m == src@.len(),
                        0 <= k <= m,
                        v@ == src@.take(k as int),
                    decreases m - k,
                {
                    v.push(src[k]);
                    proof {
                        assert(src@.take(k as int + 1) =~= src@.take(k as int).push(
                            src@[k as int],
                        ));
                    }
                    k += 1;
                }
                proof {
                    assert(src@.take(m as int) =~= src@);
                    lemma_slot_first_match(self@, i as int);
                }
                return v;
            }
            i += 1;
        }
        proof {
            lemma_slot_absent(self@, key);
        }
        Vec::new()
    }
}

/// The slot of a key equals the handle list of its first matching row.
proof fn lemma_slot_first_match(rows: InstanceRows, i: int)
    requires
        0 <= i < rows.len(),
        forall|j: int| 0 <= j < i ==> (#[trigger] rows[j]).0 != rows[i].0,
    ensures
        slot_of(rows, rows[i].0) == rows[i].1,
    decreases i,
{
    if i > 0 {
        assert(rows.drop_first()[i - 1] == rows[i]);
        assert(forall|j: int|
            0 <= j < i - 1 ==> (#[trigger] rows.drop_first()[j]).0 != rows.drop_first()[i - 1].0);
        lemma_slot_first_match(rows.drop_first(), i - 1);
    }
}

/// A key no row holds has an empty slot.
proof fn lemma_slot_absent(rows: InstanceRows, key: InstanceIdDir)
    requires
        forall|j: int| 0 <= j < rows.len() ==> (#[trigger] rows[j]).0 != key,
    ensures
        slot_of(rows, key) == Seq::<usize>::empty(),
    decreases rows.len(),
{
    if rows.len() > 0 {
        lemma_slot_absent(rows.drop_first(), key);
    }
}

/// One deferred batch: the movement actions an attack execution could not
/// apply inline, the fighter that owns them, the batch id, and the instance
/// map they must consult.
#[derive(Debug)]
pub struct UnusedAction {
    pub actions: Vec<MovementAttackAction>,
    pub player_id: u64,
    pub instance_id: u64,
    pub instance_map: InstanceMap,
}

/// The global deferred-batch queue and the monotonic counter batch ids are
/// drawn from.
#[derive(Debug)]
pub struct AttackInstanceDirectory {
    pub unexecuted_actions: Vec<UnusedAction>,
    pub previous_used_id: u64,
}

impl AttackInstanceDirectory {
    /// An empty queue.
    pub fn new() -> (r: AttackInstanceDirectory)
        ensures
            r.unexecuted_actions@.len() == 0,
            r.previous_used_id == 0,
    {
        AttackInstanceDirectory { unexecuted_actions: Vec::new(), previous_used_id: 0 }
    }
}

} // verus!
