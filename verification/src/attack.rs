//! Attack Graph Resolver: maps a combo key to an attack descriptor, walks
//! the descriptor's symbolic action ids, executes spawn-projectile actions
//! immediately and defers movement actions into a batch consulted in a later
//! phase.

use vstd::prelude::*;

use crate::action::BodyState;
use crate::buffer::AttackType;
use crate::catalog::{
    actions_for_spec, templates_for_spec, Attack, AttackActions, AttackMap, AvailableAttacks,
    MovementAttackAction, Projectile, ProjectileMap,
};
use crate::cooldown::CooldownTable;
use crate::direction::Facing;
use crate::instance::{
    slot_of, AttackInstanceDirectory, InstanceIdDir, InstanceMap, UnusedAction,
};
use crate::math::{rotate_point, rotated_x_spec, rotated_y_spec, sat_add, sat_add_spec};
use crate::world::{
    ProjectileArena, ProjectileIdentifier, SpawnedProjectile, Transform2, Visual, VisualStore,
};

verus! {

/// The transform a projectile entity spawns with: the fighter's transform,
/// displaced by the template's fixed offset and by the facing-specific aim
/// offset, carrying the template's own rotation and scale.
pub open spec fn spawn_transform_spec(tpl: Projectile, facing: Facing, base: Transform2) -> Transform2 {
    let aim = tpl.face_dir_looking_angles.rotation_for_spec(facing);
    let ax = rotated_x_spec(aim, tpl.spawn_origin_looking_radius as int, 0);
    let ay = rotated_y_spec(aim, tpl.spawn_origin_looking_radius as int, 0);
    Transform2 {
        x: sat_add_spec(sat_add_spec(base.x as int, tpl.spawn_origin_rel_abs.0 as int), ax) as i64,
        y: sat_add_spec(sat_add_spec(base.y as int, tpl.spawn_origin_rel_abs.1 as int), ay) as i64,
        z: sat_add_spec(base.z as int, tpl.spawn_origin_rel_abs.2 as int) as i64,
        rot: tpl.rotation,
        scale_x: tpl.scale.0,
        scale_y: tpl.scale.1,
    }
}

/// The sprite a spawned projectile carries: the spawn transform at the
/// template's z-order, with the template's sync offset and intrinsic size.
pub open spec fn sprite_visual_spec(tpl: Projectile, facing: Facing, base: Transform2) -> Visual {
    Visual {
        transform: Transform2 { z: tpl.spawn_z_axis, ..spawn_transform_spec(tpl, facing, base) },
        offset_x: tpl.sync_offset.0,
        offset_y: tpl.sync_offset.1,
        offset_z: tpl.sync_offset.2,
        svg_size: tpl.svg_size,
    }
}

/// The projectile entity a template spawns: tagged with lifetime, damage,
/// pierce and owner, at rest, bound to its sprite.
pub open spec fn spawned_projectile_spec(
    tpl: Projectile,
    facing: Facing,
    base: Transform2,
    owner: u64,
    now: u64,
    sprite: usize,
) -> SpawnedProjectile {
    SpawnedProjectile {
        ident: ProjectileIdentifier {
            created_timestamp: now,
            lifetime: tpl.lifetime,
            damage: tpl.damage,
            pierce: tpl.pierce,
            parent: owner,
        },
        body: BodyState {
            linvel_x: 0,
            linvel_y: 0,
            angvel: 0,
            force_x: 0,
            force_y: 0,
            torque: 0,
            linear_damping: 0,
            angular_damping: 0,
        },
        transform: spawn_transform_spec(tpl, facing, base),
        sprite,
    }
}

/// The state one attack execution builds up: the projectile arena and visual
/// store as they grow, the instance-map contents, and the deferred movement
/// actions in discovery order.
pub struct AttackExecState {
    pub arena: Seq<Option<SpawnedProjectile>>,
    pub visuals: Seq<Option<Visual>>,
    pub slots: Map<InstanceIdDir, Seq<usize>>,
    pub deferred: Seq<MovementAttackAction>,
}

/// The starting state of one attack execution over the current world.
pub open spec fn exec_start(
    arena: Seq<Option<SpawnedProjectile>>,
    visuals: Seq<Option<Visual>>,
) -> AttackExecState {
    AttackExecState {
        arena,
        visuals,
        slots: Map::new(|k: InstanceIdDir| true, |k: InstanceIdDir| Seq::empty()),
        deferred: Seq::empty(),
    }
}

/// One template spawned: a sprite and an entity appended, and the entity's
/// handle filed under the action's key.
pub open spec fn spawn_step(
    st: AttackExecState,
    tpl: Projectile,
    tag: u64,
    facing: Facing,
    base: Transform2,
    owner: u64,
    now: u64,
) -> AttackExecState {
    let sprite = st.visuals.len() as usize;
    let h = st.arena.len() as usize;
    let key = InstanceIdDir { facing, tag };
    AttackExecState {
        arena: st.arena.push(
            Option::Some(spawned_projectile_spec(tpl, facing, base, owner, now, sprite)),
        ),
        visuals: st.visuals.push(Option::Some(sprite_visual_spec(tpl, facing, base))),
        slots: st.slots.insert(key, st.slots[key].push(h)),
        deferred: st.deferred,
    }
}

/// The templates of one spawn action executed in order.
pub open spec fn spawn_templates_fold(
    tpls: Seq<Projectile>,
    st: AttackExecState,
    tag: u64,
    facing: Facing,
    base: Transform2,
    owner: u64,
    now: u64,
) -> AttackExecState
    decreases tpls.len(),
{
    if tpls.len() == 0 {
        st
    } else {
        spawn_step(
            spawn_templates_fold(tpls.drop_last(), st, tag, facing, base, owner, now),
            tpls.last(),
            tag,
            facing,
            base,
            owner,
            now,
        )
    }
}

/// One symbolic id's concrete actions executed in order: spawn actions
/// resolve their facing-specific template list and spawn it; movement
/// actions are deferred, never applied inline.
pub open spec fn actions_fold(
    acts: Seq<AttackActions>,
    st: AttackExecState,
    pmap: Seq<Projectile>,
    facing: Facing,
    base: Transform2,
    owner: u64,
    now: u64,
) -> AttackExecState
    decreases acts.len(),
{
    if acts.len() == 0 {
        st
    } else {
        let st1 = actions_fold(acts.drop_last(), st, pmap, facing, base, owner, now);
        match acts.last() {
            AttackActions::SpawnProjectile(a) => spawn_templates_fold(
                templates_for_spec(pmap, a.ids.id_for_spec(facing)),
                st1,
                a.instance_id,
                facing,
                base,
                owner,
                now,
            ),
            AttackActions::MoveAttackAction(m) => AttackExecState {
                deferred: st1.deferred.push(m),
                ..st1
            },
        }
    }
}

/// An attack descriptor's symbolic action ids walked in declaration order.
pub open spec fn ids_fold(
    ids: Seq<u64>,
    st: AttackExecState,
    rows: Seq<(u64, AttackActions)>,
    pmap: Seq<Projectile>,
    facing: Facing,
    base: Transform2,
    owner: u64,
    now: u64,
) -> AttackExecState
    decreases ids.len(),
{
    if ids.len() == 0 {
        st
    } else {
        actions_fold(
            actions_for_spec(rows, ids.last()),
            ids_fold(ids.drop_last(), st, rows, pmap, facing, base, owner, now),
            pmap,
            facing,
            base,
            owner,
            now,
        )
    }
}

/// Every template selected out of a well-formed catalog is itself
/// well formed.
proof fn lemma_templates_for_wf(s: Seq<Projectile>, id: u64)
    requires
        forall|i: int| 0 <= i < s.len() ==> (#[trigger] s[i]).well_formed(),
    ensures
        forall|q: int|
            0 <= q < templates_for_spec(s, id).len() ==> (#[trigger] templates_for_spec(
                s,
                id,
            )[q]).well_formed(),
    decreases s.len(),
{
    if s.len() > 0 {
        assert(forall|i: int|
            0 <= i < s.drop_last().len() ==> (#[trigger] s.drop_last()[i]).well_formed());
        lemma_templates_for_wf(s.drop_last(), id);
        let out = templates_for_spec(s, id);
        let sub = templates_for_spec(s.drop_last(), id);
        assert forall|q: int| 0 <= q < out.len() implies (#[trigger] out[q]).well_formed() by {
            if s.last().id == id {
                if q < sub.len() {
                    assert(out[q] == sub[q]);
                } else {
                    assert(out[q] == s.last());
                }
            } else {
                assert(out[q] == sub[q]);
            }
        }
    }
}

/// Spawns one projectile from a template: its sprite first, then the entity
/// bound to it.
pub fn spawn_projectile(
    tpl: &Projectile,
    facing: Facing,
    base: &Transform2,
    owner: u64,
    now: u64,
    arena: &mut ProjectileArena,
    visuals: &mut VisualStore,
) -> (h: usize)
    requires
        tpl.well_formed(),
        base.well_formed(),
        old(arena).well_formed(),
        old(visuals).well_formed(),
    ensures
        final(arena).well_formed(),
        final(visuals).well_formed(),
        h == old(arena).slots@.len(),
        final(visuals).slots@ == old(visuals).slots@.push(
            Option::Some(sprite_visual_spec(*tpl, facing, *base)),
        ),
        final(arena).slots@ == old(arena).slots@.push(
            Option::Some(
                spawned_projectile_spec(
                    *tpl,
                    facing,
                    *base,
                    owner,
                    now,
                    old(visuals).slots@.len() as usize,
                ),
            ),
        ),
{
    let aim = tpl.face_dir_looking_angles.rotation_angle(facing);
    let offset = rotate_point(aim, tpl.spawn_origin_looking_radius, 0);
    let x = sat_add(sat_add(base.x, tpl.spawn_origin_rel_abs.0), offset.0);
    let y = sat_add(sat_add(base.y, tpl.spawn_origin_rel_abs.1), offset.1);
    let z = sat_add(base.z, tpl.spawn_origin_rel_abs.2);
    let transform = Transform2 {
        x,
        y,
        z,
        rot: tpl.rotation,
        scale_x: tpl.scale.0,
        scale_y: tpl.scale.1,
    };
    let sprite_transform = Transform2 { z: tpl.spawn_z_axis, ..transform };
    let sprite = visuals.spawn(
        Visual {
            transform: sprite_transform,
            offset_x: tpl.sync_offset.0,
            offset_y: tpl.sync_offset.1,
            offset_z: tpl.sync_offset.2,
            svg_size: tpl.svg_size,
        },
    );
    let ent = SpawnedProjectile {
        ident: ProjectileIdentifier {
            created_timestamp: now,
            lifetime: tpl.lifetime,
            damage: tpl.damage,
            pierce: tpl.pierce,
            parent: owner,
        },
        body: BodyState::at_rest(),
        transform,
        sprite,
    };
    arena.spawn(ent)
}

/// Executes one attack descriptor: walks its symbolic action ids in
/// declaration order, spawning projectiles synchronously and deferring
/// movement actions.  If any movement action was deferred, a batch carrying
/// them and the instance map is registered under a fresh monotonic batch id.
pub fn execute_attack(
    attack: &Attack,
    attack_actions: &AttackMap,
    projectiles: &ProjectileMap,
    facing: Facing,
    base: &Transform2,
    owner: u64,
    now: u64,
    arena: &mut ProjectileArena,
    visuals: &mut VisualStore,
    directory: &mut AttackInstanceDirectory,
)
    requires
        projectiles.well_formed(),
        base.well_formed(),
        old(arena).well_formed(),
        old(visuals).well_formed(),
        old(directory).previous_used_id < u64::MAX,
    ensures
        final(arena).well_formed(),
        final(visuals).well_formed(),
        ({
            let st = ids_fold(
                attack.actions@,
                exec_start(old(arena).slots@, old(visuals).slots@),
                attack_actions.rows@,
                projectiles.templates@,
                facing,
                *base,
                owner,
                now,
            );
            &&& final(arena).slots@ == st.arena
            &&& final(visuals).slots@ == st.visuals
            &&& st.deferred.len() == 0 ==> *final(directory) == *old(directory)
            &&& st.deferred.len() > 0 ==> {
                &&& final(directory).previous_used_id == old(directory).previous_used_id + 1
                &&& final(directory).unexecuted_actions@.len()
                    == old(directory).unexecuted_actions@.len() + 1
                &&& forall|b: int|
                    0 <= b < old(directory).unexecuted_actions@.len()
                        ==> final(directory).unexecuted_actions@[b]
                        == old(directory).unexecuted_actions@[b]
                &&& {
                    let batch = final(directory).unexecuted_actions@.last();
                    &&& batch.actions@ == st.deferred
                    &&& batch.player_id == owner
                    &&& batch.instance_id == old(directory).previous_used_id
                    &&& batch.instance_map.well_formed()
                    &&& forall|k: InstanceIdDir| slot_of(batch.instance_map@, k) == st.slots[k]
                }
            }
        }),
{
    let ghost st0 = exec_start(old(arena).slots@, old(visuals).slots@);
    let mut attack_instance = InstanceMap::new();
    let mut unexecuted: Vec<MovementAttackAction> = Vec::new();
    proof {
        assert(forall|k: InstanceIdDir| slot_of(attack_instance@, k) == st0.slots[k]);
    }
    let n = attack.actions.len();
    let mut i: usize = 0;
    while i < n
        invariant
            projectiles.well_formed(),
            base.well_formed(),
            arena.well_formed(),
            visuals.well_formed(),
            attack_instance.well_formed(),
            n == attack.actions@.len(),
            0 <= i <= n,
            ({
                let st = ids_fold(
                    attack.actions@.take(i as int),
                    st0,
                    attack_actions.rows@,
                    projectiles.templates@,
                    facing,
                    *base,
                    owner,
                    now,
                );
                &&& arena.slots@ == st.arena
                &&& visuals.slots@ == st.visuals
                &&& unexecuted@ == st.deferred
                &&& forall|k: InstanceIdDir| slot_of(attack_instance@, k) == st.slots[k]
            }),
            *directory == *old(directory),
        decreases n - i,
    {
        let ghost st_outer = ids_fold(
            attack.actions@.take(i as int),
            st0,
            attack_actions.rows@,
            projectiles.templates@,
            facing,
            *base,
            owner,
            now,
        );
        let id = attack.actions[i];
        let acts = attack_actions.actions_for(id);
        let m = acts.len();
        let mut j: usize = 0;
        while j < m
            invariant
                projectiles.well_formed(),
                base.well_formed(),
                arena.well_formed(),
                visuals.well_formed(),
                attack_instance.well_formed(),
                m == acts@.len(),
                0 <= j <= m,
                ({
                    let st = actions_fold(
                        acts@.take(j as int),
                        st_outer,
                        projectiles.templates@,
                        facing,
                        *base,
                        owner,
                        now,
                    );
                    &&& arena.slots@ == st.arena
                    &&& visuals.slots@ == st.visuals
                    &&& unexecuted@ == st.deferred
                    &&& forall|k: InstanceIdDir| slot_of(attack_instance@, k) == st.slots[k]
                }),
        decreases m - j,
        {
            let ghost st_act = actions_fold(
                acts@.take(j as int),
                st_outer,
                projectiles.templates@,
                facing,
                *base,
                owner,
                now,
            );
            match acts[j] {
                AttackActions::SpawnProjectile(a) => {
                    let pid = a.ids.id_for(facing);
                    let tpls = projectiles.templates_for(pid);
                    proof {
                        lemma_templates_for_wf(projectiles.templates@, pid);
                    }
                    let t = tpls.len();
                    let mut k: usize = 0;
                    while k < t
                        invariant
                            projectiles.well_formed(),
                            base.well_formed(),
                            arena.well_formed(),
                            visuals.well_formed(),
                            attack_instance.well_formed(),
                            t == tpls@.len(),
                            0 <= k <= t,
                            tpls@ == templates_for_spec(projectiles.templates@, pid),
                            forall|q: int| 0 <= q < t ==> (#[trigger] tpls@[q]).well_formed(),
                            ({
                                let st = spawn_templates_fold(
                                    tpls@.take(k as int),
                                    st_act,
                                    a.instance_id,
                                    facing,
                                    *base,
                                    owner,
                                    now,
                                );
                                &&& arena.slots@ == st.arena
                                &&& visuals.slots@ == st.visuals
                                &&& unexecuted@ == st.deferred
                                &&& forall|kk: InstanceIdDir|
                                    slot_of(attack_instance@, kk) == st.slots[kk]
                            }),
                        decreases t - k,
                    {
                        let ghost st_tpl = spawn_templates_fold(
                            tpls@.take(k as int),
                            st_act,
                            a.instance_id,
                            facing,
                            *base,
                            owner,
                            now,
                        );
                        let tpl = tpls[k];
                        let h = spawn_projectile(&tpl, facing, base, owner, now, arena, visuals);
                        let key = InstanceIdDir { facing, tag: a.instance_id };
                        attack_instance.push_handle(key, h);
                        proof {
                            let taken = tpls@.take(k as int + 1);
                            assert(taken.drop_last() =~= tpls@.take(k as int));
                            assert(taken.last() == tpls@[k as int]);
                            let st_next = spawn_step(
                                st_tpl,
                                tpls@[k as int],
                                a.instance_id,
                                facing,
                                *base,
                                owner,
                                now,
                            );
                            assert forall|kk: InstanceIdDir|
                                slot_of(attack_instance@, kk) == st_next.slots[kk] by {
                                if kk != key {
                                    assert(st_next.slots[kk] == st_tpl.slots[kk]);
                                }
                            }
                        }
                        k += 1;
                    }
                    proof {
                        assert(tpls@.take(t as int) =~= tpls@);
                    }
                },
                AttackActions::MoveAttackAction(mv) => {
                    unexecuted.push(mv);
                },
            }
            proof {
                let taken = acts@.take(j as int + 1);
                assert(taken.drop_last() =~= acts@.take(j as int));
                assert(taken.last() == acts@[j as int]);
            }
            j += 1;
        }
        proof {
            assert(acts@.take(m as int) =~= acts@);
            let taken = attack.actions@.take(i as int + 1);
            assert(taken.drop_last() =~= attack.actions@.take(i as int));
            assert(taken.last() == attack.actions@[i as int]);
        }
        i += 1;
    }
    proof {
        assert(attack.actions@.take(n as int) =~= attack.actions@);
    }
    if unexecuted.len() > 0 {
        let current_id = directory.previous_used_id;
        directory.previous_used_id = current_id + 1;
        let batch = UnusedAction {
            actions: unexecuted,
            player_id: owner,
            instance_id: current_id,
            instance_map: attack_instance,
        };
        directory.unexecuted_actions.push(batch);
    }
}

/// Resolves a combo key for one fighter: looks up the bound attack slot,
/// gates it on the cooldown table, and on success executes the attack and
/// starts its cooldown.  An unbound combo key is inert; a running cooldown
/// suppresses the attack entirely.
pub fn apply_attack(
    attacks: &AvailableAttacks,
    combo: AttackType,
    attack_actions: &AttackMap,
    projectiles: &ProjectileMap,
    facing: Facing,
    base: &Transform2,
    owner: u64,
    now: u64,
    cooldowns: &mut CooldownTable,
    arena: &mut ProjectileArena,
    visuals: &mut VisualStore,
    directory: &mut AttackInstanceDirectory,
) -> (executed: bool)
    requires
        projectiles.well_formed(),
        base.well_formed(),
        old(cooldowns).well_formed(),
        old(arena).well_formed(),
        old(visuals).well_formed(),
        old(directory).previous_used_id < u64::MAX,
    ensures
        final(cooldowns).well_formed(),
        final(arena).well_formed(),
        final(visuals).well_formed(),
        executed == (attacks.slot_spec(combo) is Some && !crate::cooldown::has_entry(
            old(cooldowns)@,
            owner,
            combo,
        )),
        !executed ==> *final(arena) == *old(arena) && *final(visuals) == *old(visuals)
            && *final(directory) == *old(directory),
        attacks.slot_spec(combo) is None ==> *final(cooldowns) == *old(cooldowns),
        attacks.slot_spec(combo) is Some ==> final(cooldowns)@ == crate::cooldown::begin_spec(
            old(cooldowns)@,
            owner,
            combo,
            now,
            (attacks.slot_spec(combo)->0).cooldown,
        ),
        executed ==> ({
            let attack = attacks.slot_spec(combo)->0;
            let st = ids_fold(
                attack.actions@,
                exec_start(old(arena).slots@, old(visuals).slots@),
                attack_actions.rows@,
                projectiles.templates@,
                facing,
                *base,
                owner,
                now,
            );
            &&& final(arena).slots@ == st.arena
            &&& final(visuals).slots@ == st.visuals
            &&& st.deferred.len() == 0 ==> *final(directory) == *old(directory)
            &&& st.deferred.len() > 0 ==> {
                &&& final(directory).previous_used_id == old(directory).previous_used_id + 1
                &&& final(directory).unexecuted_actions@.len()
                    == old(directory).unexecuted_actions@.len() + 1
                &&& forall|b: int|
                    0 <= b < old(directory).unexecuted_actions@.len()
                        ==> final(directory).unexecuted_actions@[b]
                        == old(directory).unexecuted_actions@[b]
                &&& {
                    let batch = final(directory).unexecuted_actions@.last();
                    &&& batch.actions@ == st.deferred
                    &&& batch.player_id == owner
                    &&& batch.instance_id == old(directory).previous_used_id
                    &&& batch.instance_map.well_formed()
                    &&& forall|k: InstanceIdDir| slot_of(batch.instance_map@, k) == st.slots[k]
                }
            }
        }),
{
    match attacks.slot(combo) {
        Option::None => false,
        Option::Some(attack) => {
            let ready = cooldowns.begin_if_ready(owner, combo, now, attack.cooldown);
            if ready {
                execute_attack(
                    attack,
                    attack_actions,
                    projectiles,
                    facing,
                    base,
                    owner,
                    now,
                    arena,
                    visuals,
                    directory,
                );
                true
            } else {
                false
            }
        },
    }
}

} // verus!
