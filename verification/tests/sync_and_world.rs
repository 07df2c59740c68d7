use arena_combat::action::{cap_velocity, BodyState, MovementAction, VelocityForceCap};
use arena_combat::buffer::{AttackBuffer, InputKeyboardType, InputPurpose};
use arena_combat::collision::{AAColliderType, ColliderOwner, ColliderTable};
use arena_combat::direction::DirectionFlags;
use arena_combat::input::AvailableMovementActions;
use arena_combat::instance::{get_instance_id, InstanceMap};
use arena_combat::math::{Rot, ROT_ONE};
use arena_combat::rigidbody::{
    spawn_physics_object_with_sync, AugmentedCollider, CollidersVec,
};
use arena_combat::catalog::DirRotateAngles;
use arena_combat::direction::Facing;
use arena_combat::sync::{sync_objects_colliders, update_dir_look};
use arena_combat::world::{
    health_despawn_check, projectile_lifetimes, AAPlayerDescriptor, ColliderSyncEntity, Fighter,
    PlayerHealth, ProjectileArena, ProjectileIdentifier, SpawnedProjectile, SyncColliderFlags,
    Transform2, Visual, VisualStore,
};

fn visual_at(x: i64, y: i64) -> Visual {
    Visual {
        transform: Transform2 { x, y, ..Transform2::at_origin() },
        offset_x: 0,
        offset_y: 0,
        offset_z: 0,
        svg_size: None,
    }
}

fn fighter(pid: u64, health: u64) -> Fighter {
    Fighter {
        player_id: pid,
        descriptor: AAPlayerDescriptor {
            maximum_jumps: 2,
            available_jumps: 2,
            char_collision_dominance: false,
            direction_facing: DirectionFlags { up: false, down: false, left: false, right: false },
        },
        health: PlayerHealth { maximum_health: 100, current_health: health },
        attack_buffer: AttackBuffer::new(),
        body: BodyState::at_rest(),
        transform: Transform2::at_origin(),
        velocity_cap: VelocityForceCap::unbounded(),
        sync: ColliderSyncEntity::empty(),
    }
}

#[test]
fn sync_copies_translation_with_offset() {
    let mut visuals = VisualStore::new();
    let mut v = visual_at(0, 0);
    v.offset_x = 5;
    v.offset_y = -2;
    let h = visuals.spawn(v);
    let group = ColliderSyncEntity {
        synced_objects: vec![(h, SyncColliderFlags { rotation: false })],
    };
    let primary = Transform2 { x: 100, y: 200, ..Transform2::at_origin() };
    sync_objects_colliders(&primary, &group, &mut visuals);
    let after = visuals.slots[h].unwrap();
    assert_eq!(after.transform.x, 105);
    assert_eq!(after.transform.y, 198);
}

#[test]
fn rotation_is_copied_only_when_the_flag_is_set() {
    let mut visuals = VisualStore::new();
    let keep = visuals.spawn(visual_at(0, 0));
    let follow = visuals.spawn(visual_at(0, 0));
    let group = ColliderSyncEntity {
        synced_objects: vec![
            (keep, SyncColliderFlags { rotation: false }),
            (follow, SyncColliderFlags { rotation: true }),
        ],
    };
    let spun = Rot { c: 0, s: ROT_ONE };
    let primary = Transform2 { rot: spun, ..Transform2::at_origin() };
    sync_objects_colliders(&primary, &group, &mut visuals);
    assert_eq!(visuals.slots[keep].unwrap().transform.rot, Rot { c: ROT_ONE, s: 0 });
    assert_eq!(visuals.slots[follow].unwrap().transform.rot, spun);
}

#[test]
fn vector_assets_take_the_anchor_correction() {
    let mut visuals = VisualStore::new();
    let mut v = visual_at(0, 0);
    v.svg_size = Some((20, 10));
    let h = visuals.spawn(v);
    let group = ColliderSyncEntity {
        synced_objects: vec![(h, SyncColliderFlags { rotation: false })],
    };
    let primary = Transform2 { x: 100, y: 100, ..Transform2::at_origin() };
    sync_objects_colliders(&primary, &group, &mut visuals);
    // displaced by half the box, flipped on the vertical axis: (10, -5)
    let after = visuals.slots[h].unwrap();
    assert_eq!(after.transform.x, 90);
    assert_eq!(after.transform.y, 105);
}

#[test]
fn unnamed_visuals_are_untouched_by_sync() {
    let mut visuals = VisualStore::new();
    let named = visuals.spawn(visual_at(1, 1));
    let other = visuals.spawn(visual_at(2, 2));
    let group = ColliderSyncEntity {
        synced_objects: vec![(named, SyncColliderFlags { rotation: false })],
    };
    let primary = Transform2 { x: 50, y: 60, ..Transform2::at_origin() };
    sync_objects_colliders(&primary, &group, &mut visuals);
    assert_eq!(visuals.slots[other].unwrap().transform.x, 2);
    assert_eq!(visuals.slots[named].unwrap().transform.x, 50);
}

#[test]
fn direction_look_aims_the_dependent_offset() {
    let quarter = Rot { c: 0, s: ROT_ONE };
    let identity = Rot { c: ROT_ONE, s: 0 };
    let angles = DirRotateAngles {
        up: quarter,
        down: identity,
        left: identity,
        right: identity,
        up_left: identity,
        up_right: identity,
        down_left: identity,
        down_right: identity,
    };
    let mut visuals = VisualStore::new();
    let mut limb_visual = visual_at(0, 0);
    limb_visual.offset_z = 5;
    let limb = visuals.spawn(limb_visual);
    update_dir_look(Facing::Up, 12, &angles, limb, &mut visuals);
    let aimed = visuals.slots[limb].unwrap();
    // the whole offset vector is rewritten, z included
    assert_eq!((aimed.offset_x, aimed.offset_y, aimed.offset_z), (0, 12, 0));
    update_dir_look(Facing::Neutral, 12, &angles, limb, &mut visuals);
    let parked = visuals.slots[limb].unwrap();
    assert_eq!((parked.offset_x, parked.offset_y, parked.offset_z), (0, 0, 0));
}

#[test]
fn dead_fighters_despawn_with_their_visuals() {
    let mut visuals = VisualStore::new();
    let bar = visuals.spawn(visual_at(0, 0));
    let tag = visuals.spawn(visual_at(1, 1));
    let mut dead = fighter(1, 0);
    dead.sync = ColliderSyncEntity {
        synced_objects: vec![(bar, SyncColliderFlags { rotation: false })],
    };
    let mut alive = fighter(2, 50);
    alive.sync = ColliderSyncEntity {
        synced_objects: vec![(tag, SyncColliderFlags { rotation: false })],
    };
    let mut fighters = vec![dead, alive];
    health_despawn_check(&mut fighters, &mut visuals);
    assert_eq!(fighters.len(), 1);
    assert_eq!(fighters[0].player_id, 2);
    assert!(visuals.slots[bar].is_none());
    assert!(visuals.slots[tag].is_some());
}

#[test]
fn projectiles_expire_by_lifetime_or_spent_pierce() {
    let mut visuals = VisualStore::new();
    let s1 = visuals.spawn(visual_at(0, 0));
    let s2 = visuals.spawn(visual_at(0, 0));
    let s3 = visuals.spawn(visual_at(0, 0));
    let mut arena = ProjectileArena::new();
    let mk = |sprite: usize, created: u64, lifetime: u64, pierce: u32| SpawnedProjectile {
        ident: ProjectileIdentifier {
            created_timestamp: created,
            lifetime,
            damage: 1,
            pierce,
            parent: 1,
        },
        body: BodyState::at_rest(),
        transform: Transform2::at_origin(),
        sprite,
    };
    arena.spawn(mk(s1, 0, 10, 1));
    arena.spawn(mk(s2, 0, 100, 0));
    arena.spawn(mk(s3, 0, 100, 1));
    projectile_lifetimes(&mut arena, &mut visuals, 50);
    assert!(arena.slots[0].is_none());
    assert!(arena.slots[1].is_none());
    assert!(arena.slots[2].is_some());
    assert!(visuals.slots[s1].is_none());
    assert!(visuals.slots[s2].is_none());
    assert!(visuals.slots[s3].is_some());
}

#[test]
fn velocity_cap_clamps_symmetrically() {
    let mut body = BodyState::at_rest();
    body.linvel_x = 500;
    body.linvel_y = -500;
    body.angvel = 3;
    let cap = VelocityForceCap {
        max_velocity: Some((100, 50)),
        max_angvel: Some(10),
        max_external_force: None,
        max_external_torque: None,
    };
    cap_velocity(&mut body, &cap);
    assert_eq!(body.linvel_x, 100);
    assert_eq!(body.linvel_y, -50);
    assert_eq!(body.angvel, 3);
}

#[test]
fn set_runs_before_add_on_the_input_path() {
    let mut a = MovementAction::inert(1, 0);
    a.set_velocity = Some((5, 6));
    a.add_velocity = Some((1, 1));
    let mut body = BodyState::at_rest();
    body.linvel_x = 99;
    a.set_values(&mut body);
    a.add_values(&mut body);
    assert_eq!(body.linvel_x, 6);
    assert_eq!(body.linvel_y, 7);
}

#[test]
fn jump_gated_movement_spends_jumps() {
    let mut a = MovementAction::inert(1, 0);
    a.add_velocity = Some((0, 10));
    a.require_available_jumps = true;
    a.required_jumps = 1;
    a.jumps_removed = 1;
    let moves = AvailableMovementActions {
        pressed_up: a,
        pressed_down: MovementAction::inert(0, 0),
        pressed_left: MovementAction::inert(0, 0),
        pressed_right: MovementAction::inert(0, 0),
        unpressed_up: MovementAction::inert(0, 0),
        unpressed_down: MovementAction::inert(0, 0),
        unpressed_left: MovementAction::inert(0, 0),
        unpressed_right: MovementAction::inert(0, 0),
    };
    let mut f = fighter(1, 100);
    f.descriptor.available_jumps = 2;
    moves.apply_action(
        InputKeyboardType::JustPressed,
        InputPurpose::Up,
        &mut f.descriptor,
        &mut f.body,
    );
    assert_eq!(f.body.linvel_y, 10);
    assert_eq!(f.descriptor.available_jumps, 1);
    assert!(f.descriptor.direction_facing.up);

    // with no jumps left the action is gated off entirely
    f.descriptor.available_jumps = 0;
    f.body.linvel_y = 0;
    moves.apply_action(
        InputKeyboardType::JustPressed,
        InputPurpose::Up,
        &mut f.descriptor,
        &mut f.body,
    );
    assert_eq!(f.body.linvel_y, 0);
    assert_eq!(f.descriptor.available_jumps, 0);
}

#[test]
fn dominance_spares_the_jump_cost() {
    let mut a = MovementAction::inert(1, 0);
    a.add_velocity = Some((0, 10));
    a.require_available_jumps = true;
    a.required_jumps = 1;
    a.jumps_removed = 1;
    let mut d = AAPlayerDescriptor {
        maximum_jumps: 2,
        available_jumps: 2,
        char_collision_dominance: true,
        direction_facing: DirectionFlags { up: false, down: false, left: false, right: false },
    };
    let mut body = BodyState::at_rest();
    a.apply_action(&mut d, &mut body, arena_combat::direction::DirectionFlag::Up, true);
    assert_eq!(body.linvel_y, 10);
    assert_eq!(d.available_jumps, 2);
}

#[test]
fn instance_map_files_handles_under_their_keys() {
    let mut m = InstanceMap::new();
    let k1 = get_instance_id(arena_combat::direction::Facing::Left, 7);
    let k2 = get_instance_id(arena_combat::direction::Facing::Left, 8);
    m.push_handle(k1, 10);
    m.push_handle(k1, 11);
    m.push_handle(k2, 12);
    assert_eq!(m.handles_for(k1), vec![10, 11]);
    assert_eq!(m.handles_for(k2), vec![12]);
    let k3 = get_instance_id(arena_combat::direction::Facing::Right, 7);
    assert_eq!(m.handles_for(k3), Vec::<usize>::new());
}

#[test]
fn special_collider_ids_are_retagged() {
    let mut bundles = vec![
        AugmentedCollider { id: 1, collider_type: AAColliderType::Solid },
        AugmentedCollider { id: 2, collider_type: AAColliderType::Solid },
        AugmentedCollider { id: 3, collider_type: AAColliderType::Solid },
    ];
    let special = CollidersVec { colliders: vec![2] };
    special.set_special_type(&mut bundles, AAColliderType::Death);
    assert_eq!(bundles[0].collider_type, AAColliderType::Solid);
    assert_eq!(bundles[1].collider_type, AAColliderType::Death);
    assert_eq!(bundles[2].collider_type, AAColliderType::Solid);
}

#[test]
fn body_assembly_gathers_children_and_propagates_the_sensor_flag() {
    let catalog = vec![
        AugmentedCollider { id: 1, collider_type: AAColliderType::Solid },
        AugmentedCollider { id: 2, collider_type: AAColliderType::JumpReset },
        AugmentedCollider { id: 3, collider_type: AAColliderType::Solid },
    ];
    let ids = vec![1, 2, 3];
    let mut table = ColliderTable { recs: vec![] };
    let flags = spawn_physics_object_with_sync(
        &catalog,
        &ids,
        false,
        ColliderOwner::FighterBody(1),
        50,
        &mut table,
    );
    // once the jump-reset child raises the flag, every later child keeps it
    assert_eq!(flags, vec![false, true, true]);
    assert_eq!(table.recs.len(), 3);
    assert_eq!(table.recs[0].id, 50);
    assert_eq!(table.recs[1].id, 51);
    assert_eq!(table.recs[2].id, 52);
    assert_eq!(table.recs[1].collider_type, AAColliderType::JumpReset);
    assert_eq!(table.recs[2].parent, ColliderOwner::FighterBody(1));
}

#[test]
fn a_requested_sensor_extra_marks_every_child() {
    let catalog = vec![AugmentedCollider { id: 1, collider_type: AAColliderType::Solid }];
    let ids = vec![1];
    let mut table = ColliderTable { recs: vec![] };
    let flags = spawn_physics_object_with_sync(
        &catalog,
        &ids,
        true,
        ColliderOwner::ProjectileBody(0),
        0,
        &mut table,
    );
    assert_eq!(flags, vec![true]);
}
