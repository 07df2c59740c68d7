//! Deferred Batch Queue resolution: once per tick, every pending batch is
//! resolved against its instance map and then discarded — a single attempt,
//! never retried.

use vstd::prelude::*;

use crate::action::MovementAction;
use crate::catalog::{movements_for_spec, MovementAttackAction, MovementActionMap};
use crate::direction::Facing;
use crate::instance::{slot_of, AttackInstanceDirectory, InstanceIdDir, UnusedAction};
use crate::world::{Fighter, ProjectileArena, SpawnedProjectile};

verus! {

/// The arena after one movement action has been applied to one handle:
/// `set` fields overwrite, then `add` fields accumulate, on the body of a
/// still-live projectile; stale handles change nothing.
pub open spec fn apply_at_spec(
    arena: Seq<Option<SpawnedProjectile>>,
    h: usize,
    act: MovementAction,
) -> Seq<Option<SpawnedProjectile>> {
    if h < arena.len() && arena[h as int] is Some {
        let ent = arena[h as int]->0;
        arena.update(
            h as int,
            Option::Some(SpawnedProjectile { body: act.set_then_add_spec(ent.body), ..ent }),
        )
    } else {
        arena
    }
}

/// One movement action applied to a list of handles in order.
pub open spec fn handles_fold(
    arena: Seq<Option<SpawnedProjectile>>,
    handles: Seq<usize>,
    act: MovementAction,
) -> Seq<Option<SpawnedProjectile>>
    decreases handles.len(),
{
    if handles.len() == 0 {
        arena
    } else {
        apply_at_spec(handles_fold(arena, handles.drop_last(), act), handles.last(), act)
    }
}

/// A list of movement-action templates applied in order, each to the
/// instance-map slot its own instance tag selects.
pub open spec fn movements_fold(
    arena: Seq<Option<SpawnedProjectile>>,
    movements: Seq<MovementAction>,
    rows: crate::instance::InstanceRows,
    facing: Facing,
) -> Seq<Option<SpawnedProjectile>>
    decreases movements.len(),
{
    if movements.len() == 0 {
        arena
    } else {
        let act = movements.last();
        let key = InstanceIdDir { facing, tag: act.instance_affected_id };
        handles_fold(
            movements_fold(arena, movements.drop_last(), rows, facing),
            slot_of(rows, key),
            act,
        )
    }
}

/// A batch's queued movement attack actions resolved in order: each selects
/// its facing-specific movement-action id and applies the catalog's actions
/// bound to it.
pub open spec fn moves_fold(
    arena: Seq<Option<SpawnedProjectile>>,
    moves: Seq<MovementAttackAction>,
    mcat: Seq<MovementAction>,
    rows: crate::instance::InstanceRows,
    facing: Facing,
) -> Seq<Option<SpawnedProjectile>>
    decreases moves.len(),
{
    if moves.len() == 0 {
        arena
    } else {
        movements_fold(
            moves_fold(arena, moves.drop_last(), mcat, rows, facing),
            movements_for_spec(mcat, moves.last().ids.id_for_spec(facing)),
            rows,
            facing,
        )
    }
}

/// The first fighter carrying a player id, if any.
pub open spec fn fighter_lookup(s: Seq<Fighter>, pid: u64) -> Option<Fighter>
    decreases s.len(),
{
    if s.len() == 0 {
        Option::None
    } else if s[0].player_id == pid {
        Option::Some(s[0])
    } else {
        fighter_lookup(s.drop_first(), pid)
    }
}

/// One batch resolved: dropped outright when its owning fighter is gone,
/// otherwise every queued movement action applied against the batch's own
/// instance map under the fighter's current facing.
pub open spec fn batch_apply_spec(
    arena: Seq<Option<SpawnedProjectile>>,
    batch: UnusedAction,
    fighters: Seq<Fighter>,
    mcat: Seq<MovementAction>,
) -> Seq<Option<SpawnedProjectile>> {
    match fighter_lookup(fighters, batch.player_id) {
        Option::None => arena,
        Option::Some(f) => moves_fold(
            arena,
            batch.actions@,
            mcat,
            batch.instance_map@,
            f.descriptor.direction_facing.facing_spec(),
        ),
    }
}

/// Every pending batch resolved in queue order.
pub open spec fn batches_fold(
    arena: Seq<Option<SpawnedProjectile>>,
    batches: Seq<UnusedAction>,
    fighters: Seq<Fighter>,
    mcat: Seq<MovementAction>,
) -> Seq<Option<SpawnedProjectile>>
    decreases batches.len(),
{
    if batches.len() == 0 {
        arena
    } else {
        batch_apply_spec(
            batches_fold(arena, batches.drop_last(), fighters, mcat),
            batches.last(),
            fighters,
            mcat,
        )
    }
}

/// The first-match scan agrees with `fighter_lookup`.
proof fn lemma_fighter_lookup_at(s: Seq<Fighter>, i: int)
    requires
        0 <= i < s.len(),
        forall|j: int| 0 <= j < i ==> (#[trigger] s[j]).player_id != s[i].player_id,
    ensures
        fighter_lookup(s, s[i].player_id) == Option::Some(s[i]),
    decreases i,
{
    if i > 0 {
        assert(s.drop_first()[i - 1] == s[i]);
        assert(forall|j: int|
            0 <= j < i - 1 ==> (#[trigger] s.drop_first()[j]).player_id != s.drop_first()[i
                - 1].player_id);
        lemma_fighter_lookup_at(s.drop_first(), i - 1);
    }
}

/// No fighter carries the id.
proof fn lemma_fighter_lookup_absent(s: Seq<Fighter>, pid: u64)
    requires
        forall|j: int| 0 <= j < s.len() ==> (#[trigger] s[j]).player_id != pid,
    ensures
        fighter_lookup(s, pid) is None,
    decreases s.len(),
{
    if s.len() > 0 {
        lemma_fighter_lookup_absent(s.drop_first(), pid);
    }
}

/// Finds the first fighter carrying a player id.
pub fn find_fighter(fighters: &Vec<Fighter>, pid: u64) -> (r: Option<usize>)
    ensures
        match r {
            Option::Some(i) => i < fighters@.len() && fighters@[i as int].player_id == pid
                && fighter_lookup(fighters@, pid) == Option::Some(fighters@[i as int]),
            Option::None => fighter_lookup(fighters@, pid) is None,
        },
{
    let n = fighters.len();
    let mut i: usize = 0;
    while i < n
        invariant
            n == fighters@.len(),
            0 <= i <= n,
            forall|j: int| 0 <= j < i ==> (#[trigger] fighters@[j]).player_id != pid,
        decreases n - i,
    {
        if fighters[i].player_id == pid {
            proof {
                lemma_fighter_lookup_at(fighters@, i as int);
            }
            return Option::Some(i);
        }
        i += 1;
    }
    proof {
        lemma_fighter_lookup_absent(fighters@, pid);
    }
    Option::None
}

/// Applies one movement action to the projectile one handle names, `set`
/// fields before `add` fields; a despawned or out-of-range handle is
/// silently skipped.
fn apply_move_at(arena: &mut ProjectileArena, h: usize, act: &MovementAction)
    requires
        old(arena).well_formed(),
    ensures
        final(arena).well_formed(),
        final(arena).slots@ == apply_at_spec(old(arena).slots@, h, *act),
{
    if h < arena.slots.len() {
        let slot = &mut arena.slots[h];
        match slot {
            Option::Some(ent) => {
                act.set_values(&mut ent.body);
                act.add_values(&mut ent.body);
            },
            Option::None => {},
        }
        proof {
            assert(arena.slots@ =~= apply_at_spec(old(arena).slots@, h, *act));
        }
    }
}

/// Resolves and discards every pending deferred batch, in queue order: a
/// batch whose owning fighter is gone is dropped; otherwise each queued
/// movement action is applied, through the batch's instance map, to every
/// still-live entity spawned under its key.  Afterwards the queue is empty —
/// no batch is ever retried — and the batch-id counter is untouched.
pub fn execute_unused_actions(
    directory: &mut AttackInstanceDirectory,
    movement_map: &MovementActionMap,
    fighters: &Vec<Fighter>,
    arena: &mut ProjectileArena,
)
    requires
        old(arena).well_formed(),
        forall|b: int|
            0 <= b < old(directory).unexecuted_actions@.len() ==> (#[trigger] old(
                directory,
            ).unexecuted_actions@[b]).instance_map.well_formed(),
    ensures
        final(arena).well_formed(),
        final(arena).slots@ == batches_fold(
            old(arena).slots@,
            old(directory).unexecuted_actions@,
            fighters@,
            movement_map.actions@,
        ),
        final(directory).unexecuted_actions@.len() == 0,
        final(directory).previous_used_id == old(directory).previous_used_id,
{
    let nb = directory.unexecuted_actions.len();
    let mut bi: usize = 0;
    while bi < nb
        invariant
            arena.well_formed(),
            *directory == *old(directory),
            nb == directory.unexecuted_actions@.len(),
            0 <= bi <= nb,
            forall|b: int|
                0 <= b < directory.unexecuted_actions@.len() ==> (
                #[trigger] directory.unexecuted_actions@[b]).instance_map.well_formed(),
            arena.slots@ == batches_fold(
                old(arena).slots@,
                directory.unexecuted_actions@.take(bi as int),
                fighters@,
                movement_map.actions@,
            ),
        decreases nb - bi,
    {
        let ghost st_batch = arena.slots@;
        let pid = directory.unexecuted_actions[bi].player_id;
        match find_fighter(fighters, pid) {
            Option::None => {},
            Option::Some(fi) => {
                let facing = fighters[fi].descriptor.direction_facing.resolve_facing();
                let batch = &directory.unexecuted_actions[bi];
                let nm = batch.actions.len();
                let mut mi: usize = 0;
                while mi < nm
                    invariant
                        arena.well_formed(),
                        batch == &directory.unexecuted_actions@[bi as int],
                        batch.instance_map.well_formed(),
                        nm == batch.actions@.len(),
                        0 <= mi <= nm,
                        facing == fighter_lookup(fighters@, batch.player_id)
                            ->0.descriptor.direction_facing.facing_spec(),
                        fighter_lookup(fighters@, batch.player_id) is Some,
                        arena.slots@ == moves_fold(
                            st_batch,
                            batch.actions@.take(mi as int),
                            movement_map.actions@,
                            batch.instance_map@,
                            facing,
                        ),
                    decreases nm - mi,
                {
                    let ghost st_move = arena.slots@;
                    let mv = batch.actions[mi];
                    let action_id = mv.ids.id_for(facing);
                    let movements = movement_map.movements_for(action_id);
                    let nv = movements.len();
                    let mut vi: usize = 0;
                    while vi < nv
                        invariant
                            arena.well_formed(),
                            batch == &directory.unexecuted_actions@[bi as int],
                            batch.instance_map.well_formed(),
                            nv == movements@.len(),
                            0 <= vi <= nv,
                            movements@ == movements_for_spec(
                                movement_map.actions@,
                                mv.ids.id_for_spec(facing),
                            ),
                            arena.slots@ == movements_fold(
                                st_move,
                                movements@.take(vi as int),
                                batch.instance_map@,
                                facing,
                            ),
                        decreases nv - vi,
                    {
                        let ghost st_mv = arena.slots@;
                        let act = movements[vi];
                        let key = InstanceIdDir { facing, tag: act.instance_affected_id };
                        let handles = batch.instance_map.handles_for(key);
                        let nh = handles.len();
                        let mut hi: usize = 0;
                        while hi < nh
                            invariant
                                arena.well_formed(),
                                nh == handles@.len(),
                                0 <= hi <= nh,
                                handles@ == slot_of(
                                    batch.instance_map@,
                                    InstanceIdDir { facing, tag: act.instance_affected_id },
                                ),
                                arena.slots@ == handles_fold(
                                    st_mv,
                                    handles@.take(hi as int),
                                    act,
                                ),
                            decreases nh - hi,
                        {
                            apply_move_at(arena, handles[hi], &act);
                            proof {
                                let taken = handles@.take(hi as int + 1);
                                assert(taken.drop_last() =~= handles@.take(hi as int));
                                assert(taken.last() == handles@[hi as int]);
                            }
                            hi += 1;
                        }
                        proof {
                            assert(handles@.take(nh as int) =~= handles@);
                            let taken = movements@.take(vi as int + 1);
                            assert(taken.drop_last() =~= movements@.take(vi as int));
                            assert(taken.last() == movements@[vi as int]);
                        }
                        vi += 1;
                    }
                    proof {
                        assert(movements@.take(nv as int) =~= movements@);
                        let taken = batch.actions@.take(mi as int + 1);
                        assert(taken.drop_last() =~= batch.actions@.take(mi as int));
                        assert(taken.last() == batch.actions@[mi as int]);
                    }
                    mi += 1;
                }
                proof {
                    assert(batch.actions@.take(nm as int) =~= batch.actions@);
                }
            },
        }
        proof {
            let bs = directory.unexecuted_actions@;
            let taken = bs.take(bi as int + 1);
            assert(taken.drop_last() =~= bs.take(bi as int));
            assert(taken.last() == bs[bi as int]);
        }
        bi += 1;
    }
    proof {
        assert(directory.unexecuted_actions@.take(nb as int) =~= directory.unexecuted_actions@);
    }
    directory.unexecuted_actions.clear();
}

/// Applying one movement action against a map whose every slot is empty
/// changes nothing.
proof fn lemma_movements_fold_empty(
    arena: Seq<Option<SpawnedProjectile>>,
    movements: Seq<MovementAction>,
    rows: crate::instance::InstanceRows,
    facing: Facing,
)
    requires
        forall|k: InstanceIdDir| slot_of(rows, k) == Seq::<usize>::empty(),
    ensures
        movements_fold(arena, movements, rows, facing) == arena,
    decreases movements.len(),
{
    if movements.len() > 0 {
        lemma_movements_fold_empty(arena, movements.drop_last(), rows, facing);
    }
}

/// Resolving queued movement attack actions against a map whose every slot
/// is empty changes nothing.
proof fn lemma_moves_fold_empty(
    arena: Seq<Option<SpawnedProjectile>>,
    moves: Seq<MovementAttackAction>,
    mcat: Seq<MovementAction>,
    rows: crate::instance::InstanceRows,
    facing: Facing,
)
    requires
        forall|k: InstanceIdDir| slot_of(rows, k) == Seq::<usize>::empty(),
    ensures
        moves_fold(arena, moves, mcat, rows, facing) == arena,
    decreases moves.len(),
{
    if moves.len() > 0 {
        lemma_moves_fold_empty(arena, moves.drop_last(), mcat, rows, facing);
        lemma_movements_fold_empty(
            arena,
            movements_for_spec(mcat, moves.last().ids.id_for_spec(facing)),
            rows,
            facing,
        );
    }
}

/// A deferred batch whose paired spawn actions never populated the instance
/// map resolves with zero effect: every queued movement action finds an
/// empty slot, the simulation is unchanged, and the batch is still consumed
/// — resolution removes it without retry, as `execute_unused_actions`
/// guarantees.
pub proof fn lemma_unpopulated_batch_no_effect(
    arena: Seq<Option<SpawnedProjectile>>,
    batch: UnusedAction,
    fighters: Seq<Fighter>,
    mcat: Seq<MovementAction>,
)
    requires
        forall|k: InstanceIdDir| slot_of(batch.instance_map@, k) == Seq::<usize>::empty(),
    ensures
        batch_apply_spec(arena, batch, fighters, mcat) == arena,
{
    match fighter_lookup(fighters, batch.player_id) {
        Option::None => {},
        Option::Some(f) => {
            lemma_moves_fold_empty(
                arena,
                batch.actions@,
                mcat,
                batch.instance_map@,
                f.descriptor.direction_facing.facing_spec(),
            );
        },
    }
}

/// A spawn-projectile action followed by its paired movement attack action
/// — same instance tag, same facing — across one attack execution leaves,
/// after the deferred-resolution phase, the spawned projectile's body with
/// the movement action's `set` and `add` fields applied to its at-rest state
/// exactly once; every other slot of the arena is untouched.
pub proof fn lemma_paired_spawn_move(
    arena0: Seq<Option<SpawnedProjectile>>,
    visuals0: Seq<Option<crate::world::Visual>>,
    graph: Seq<(u64, crate::catalog::AttackActions)>,
    pmap: Seq<crate::catalog::Projectile>,
    mcat: Seq<MovementAction>,
    x: u64,
    a: crate::catalog::SpawnProjectileAction,
    m: MovementAttackAction,
    tpl: crate::catalog::Projectile,
    act: MovementAction,
    facing: Facing,
    base: crate::world::Transform2,
    owner: u64,
    now: u64,
    imrows: crate::instance::InstanceRows,
)
    requires
        arena0.len() < usize::MAX,
        visuals0.len() < usize::MAX,
        crate::catalog::actions_for_spec(graph, x) == seq![
            crate::catalog::AttackActions::SpawnProjectile(a),
            crate::catalog::AttackActions::MoveAttackAction(m),
        ],
        crate::catalog::templates_for_spec(pmap, a.ids.id_for_spec(facing)) == seq![tpl],
        movements_for_spec(mcat, m.ids.id_for_spec(facing)) == seq![act],
        act.instance_affected_id == a.instance_id,
        ({
            let st = crate::attack::ids_fold(
                seq![x],
                crate::attack::exec_start(arena0, visuals0),
                graph,
                pmap,
                facing,
                base,
                owner,
                now,
            );
            forall|k: InstanceIdDir| slot_of(imrows, k) == st.slots[k]
        }),
    ensures
        ({
            let st = crate::attack::ids_fold(
                seq![x],
                crate::attack::exec_start(arena0, visuals0),
                graph,
                pmap,
                facing,
                base,
                owner,
                now,
            );
            let h = arena0.len() as int;
            let after = moves_fold(st.arena, st.deferred, mcat, imrows, facing);
            &&& st.deferred == seq![m]
            &&& st.arena.len() == arena0.len() + 1
            &&& st.arena[h] is Some
            &&& st.arena[h]->0.body == crate::action::BodyState {
                linvel_x: 0i64,
                linvel_y: 0i64,
                angvel: 0i64,
                force_x: 0i64,
                force_y: 0i64,
                torque: 0i64,
                linear_damping: 0i64,
                angular_damping: 0i64,
            }
            &&& after.len() == st.arena.len()
            &&& after[h] is Some
            &&& after[h]->0.body == act.set_then_add_spec(st.arena[h]->0.body)
            &&& forall|q: int| 0 <= q < after.len() && q != h ==> after[q] == st.arena[q]
        }),
{
    reveal_with_fuel(crate::attack::ids_fold, 2);
    reveal_with_fuel(crate::attack::actions_fold, 3);
    reveal_with_fuel(crate::attack::spawn_templates_fold, 2);
    reveal_with_fuel(moves_fold, 2);
    reveal_with_fuel(movements_fold, 2);
    reveal_with_fuel(handles_fold, 2);
    let st0 = crate::attack::exec_start(arena0, visuals0);
    let acts = crate::catalog::actions_for_spec(graph, x);
    let ids = seq![x];
    assert(ids.drop_last() =~= Seq::<u64>::empty());
    assert(ids.last() == x);
    let st = crate::attack::ids_fold(ids, st0, graph, pmap, facing, base, owner, now);
    assert(crate::attack::ids_fold(
        ids.drop_last(),
        st0,
        graph,
        pmap,
        facing,
        base,
        owner,
        now,
    ) == st0);
    assert(st == crate::attack::actions_fold(acts, st0, pmap, facing, base, owner, now));
    let sp = crate::catalog::AttackActions::SpawnProjectile(a);
    let mv = crate::catalog::AttackActions::MoveAttackAction(m);
    assert(acts.drop_last() =~= seq![sp]);
    assert(acts.last() == mv);
    let st_sp = crate::attack::actions_fold(seq![sp], st0, pmap, facing, base, owner, now);
    assert(seq![sp].drop_last() =~= Seq::<crate::catalog::AttackActions>::empty());
    assert(seq![sp].last() == sp);
    let tpls = crate::catalog::templates_for_spec(pmap, a.ids.id_for_spec(facing));
    assert(st_sp == crate::attack::spawn_templates_fold(
        tpls,
        st0,
        a.instance_id,
        facing,
        base,
        owner,
        now,
    ));
    assert(tpls.drop_last() =~= Seq::<crate::catalog::Projectile>::empty());
    assert(tpls.last() == tpl);
    assert(st_sp == crate::attack::spawn_step(st0, tpl, a.instance_id, facing, base, owner, now));
    let key = InstanceIdDir { facing, tag: a.instance_id };
    let h = arena0.len() as int;
    assert(st0.slots[key] =~= Seq::<usize>::empty());
    assert(st_sp.slots == st0.slots.insert(key, st0.slots[key].push(arena0.len() as usize)));
    assert(st_sp.slots[key] == st0.slots[key].push(arena0.len() as usize));
    assert(st_sp.slots[key] =~= seq![arena0.len() as usize]);
    assert(st == crate::attack::AttackExecState {
        deferred: st_sp.deferred.push(m),
        ..st_sp
    });
    assert(st.deferred =~= seq![m]);
    assert(st.slots[key] == st_sp.slots[key]);

    let after = moves_fold(st.arena, st.deferred, mcat, imrows, facing);
    assert(st.deferred.drop_last() =~= Seq::<MovementAttackAction>::empty());
    assert(st.deferred.last() == m);
    let movements = movements_for_spec(mcat, m.ids.id_for_spec(facing));
    assert(after == movements_fold(st.arena, movements, imrows, facing));
    assert(movements.drop_last() =~= Seq::<MovementAction>::empty());
    assert(movements.last() == act);
    let handles = slot_of(imrows, InstanceIdDir { facing, tag: act.instance_affected_id });
    assert(handles == st.slots[key]);
    assert(after == handles_fold(st.arena, handles, act));
    assert(handles.drop_last() =~= Seq::<usize>::empty());
    assert(handles.last() == arena0.len() as usize);
    assert(after == apply_at_spec(st.arena, arena0.len() as usize, act));
    assert(st.arena[h] is Some);
}

} // verus!
