use arena_combat::action::MovementAction;
use arena_combat::attack::{apply_attack, execute_attack};
use arena_combat::batch::execute_unused_actions;
use arena_combat::buffer::{AttackBuffer, AttackType, InputKeyboardType, InputPurpose};
use arena_combat::catalog::{
    create_action_map, create_movement_action_map, create_projectile_map, Attack, AvailableAttacks,
    DirRotateAngles, FacingIds, MovementAttackAction, Projectile, SpawnProjectileAction,
};
use arena_combat::cooldown::CooldownTable;
use arena_combat::direction::DirectionFlags;
use arena_combat::input::{movement_input_system, AvailableMovementActions};
use arena_combat::instance::AttackInstanceDirectory;
use arena_combat::math::{Rot, ROT_ONE};
use arena_combat::world::{
    AAPlayerDescriptor, ColliderSyncEntity, Fighter, PlayerHealth, ProjectileArena, Transform2,
    VisualStore,
};

fn same_ids(id: u64) -> FacingIds {
    FacingIds {
        none_id: id,
        left_id: id,
        right_id: id,
        down_id: id,
        up_id: id,
        up_left_id: id,
        up_right_id: id,
        down_left_id: id,
        down_right_id: id,
    }
}

fn identity_angles() -> DirRotateAngles {
    let r = Rot { c: ROT_ONE, s: 0 };
    DirRotateAngles {
        up: r,
        down: r,
        left: r,
        right: r,
        up_left: r,
        up_right: r,
        down_left: r,
        down_right: r,
    }
}

fn template(id: u64) -> Projectile {
    Projectile {
        id,
        damage: 25,
        pierce: 2,
        lifetime: 40,
        rotation: Rot { c: ROT_ONE, s: 0 },
        scale: (1, 1),
        spawn_z_axis: 5,
        spawn_origin_rel_abs: (30, 40, 0),
        spawn_origin_looking_radius: 100,
        sync_offset: (0, 0, 0),
        svg_size: None,
        face_dir_looking_angles: identity_angles(),
    }
}

fn fighter(pid: u64) -> Fighter {
    Fighter {
        player_id: pid,
        descriptor: AAPlayerDescriptor {
            maximum_jumps: 2,
            available_jumps: 2,
            char_collision_dominance: false,
            direction_facing: DirectionFlags { up: false, down: false, left: false, right: false },
        },
        health: PlayerHealth { maximum_health: 100, current_health: 100 },
        attack_buffer: AttackBuffer::new(),
        body: arena_combat::action::BodyState::at_rest(),
        transform: Transform2::at_origin(),
        velocity_cap: arena_combat::action::VelocityForceCap::unbounded(),
        sync: ColliderSyncEntity::empty(),
    }
}

fn inert_moves() -> AvailableMovementActions {
    AvailableMovementActions {
        pressed_up: MovementAction::inert(0, 0),
        pressed_down: MovementAction::inert(0, 0),
        pressed_left: MovementAction::inert(0, 0),
        pressed_right: MovementAction::inert(0, 0),
        unpressed_up: MovementAction::inert(0, 0),
        unpressed_down: MovementAction::inert(0, 0),
        unpressed_left: MovementAction::inert(0, 0),
        unpressed_right: MovementAction::inert(0, 0),
    }
}

#[test]
fn paired_spawn_and_move_apply_exactly_once() {
    let spawn_actions = vec![SpawnProjectileAction { id: 1, ids: same_ids(100), instance_id: 7 }];
    let movement_attacks = vec![MovementAttackAction { id: 2, ids: same_ids(200), instance_id: 7 }];
    let graph = create_action_map(&spawn_actions, &movement_attacks);
    let projectiles = create_projectile_map(&vec![template(100)]);
    let mut push = MovementAction::inert(200, 7);
    push.add_velocity = Some((3, 4));
    let movements = create_movement_action_map(&vec![push]);
    let attack = Attack { actions: vec![1, 2], cooldown: 30 };

    let mut arena = ProjectileArena::new();
    let mut visuals = VisualStore::new();
    let mut directory = AttackInstanceDirectory::new();
    let base = Transform2::at_origin();
    execute_attack(
        &attack,
        &graph,
        &projectiles,
        arena_combat::direction::Facing::Neutral,
        &base,
        1,
        10,
        &mut arena,
        &mut visuals,
        &mut directory,
    );
    assert_eq!(arena.slots.len(), 1);
    assert_eq!(visuals.slots.len(), 1);
    assert_eq!(directory.unexecuted_actions.len(), 1);
    let ent = arena.slots[0].clone().unwrap();
    assert_eq!(ent.body.linvel_x, 0);
    // fixed offset plus aim radius under the identity aim rotation
    assert_eq!(ent.transform.x, 130);
    assert_eq!(ent.transform.y, 40);
    assert_eq!(ent.ident.damage, 25);
    assert_eq!(ent.ident.parent, 1);

    let fighters = vec![fighter(1)];
    execute_unused_actions(&mut directory, &movements, &fighters, &mut arena);
    let after = arena.slots[0].clone().unwrap();
    assert_eq!(after.body.linvel_x, 3);
    assert_eq!(after.body.linvel_y, 4);
    assert_eq!(directory.unexecuted_actions.len(), 0);

    // a second pass has nothing left to apply: the batch was consumed
    execute_unused_actions(&mut directory, &movements, &fighters, &mut arena);
    let again = arena.slots[0].clone().unwrap();
    assert_eq!(again.body.linvel_x, 3);
    assert_eq!(again.body.linvel_y, 4);
}

#[test]
fn unpopulated_instance_map_resolves_with_zero_effect() {
    // the spawn action names a template id the catalog does not hold, so the
    // instance map stays empty
    let spawn_actions = vec![SpawnProjectileAction { id: 1, ids: same_ids(999), instance_id: 7 }];
    let movement_attacks = vec![MovementAttackAction { id: 2, ids: same_ids(200), instance_id: 7 }];
    let graph = create_action_map(&spawn_actions, &movement_attacks);
    let projectiles = create_projectile_map(&vec![template(100)]);
    let mut push = MovementAction::inert(200, 7);
    push.add_velocity = Some((3, 4));
    let movements = create_movement_action_map(&vec![push]);
    let attack = Attack { actions: vec![1, 2], cooldown: 30 };

    let mut arena = ProjectileArena::new();
    let mut visuals = VisualStore::new();
    let mut directory = AttackInstanceDirectory::new();
    let base = Transform2::at_origin();
    execute_attack(
        &attack,
        &graph,
        &projectiles,
        arena_combat::direction::Facing::Neutral,
        &base,
        1,
        10,
        &mut arena,
        &mut visuals,
        &mut directory,
    );
    assert_eq!(arena.slots.len(), 0);
    assert_eq!(directory.unexecuted_actions.len(), 1);

    let fighters = vec![fighter(1)];
    execute_unused_actions(&mut directory, &movements, &fighters, &mut arena);
    assert_eq!(arena.slots.len(), 0);
    assert_eq!(directory.unexecuted_actions.len(), 0);
}

#[test]
fn batch_of_despawned_fighter_is_dropped() {
    let spawn_actions = vec![SpawnProjectileAction { id: 1, ids: same_ids(100), instance_id: 7 }];
    let movement_attacks = vec![MovementAttackAction { id: 2, ids: same_ids(200), instance_id: 7 }];
    let graph = create_action_map(&spawn_actions, &movement_attacks);
    let projectiles = create_projectile_map(&vec![template(100)]);
    let mut push = MovementAction::inert(200, 7);
    push.add_velocity = Some((3, 4));
    let movements = create_movement_action_map(&vec![push]);
    let attack = Attack { actions: vec![1, 2], cooldown: 30 };

    let mut arena = ProjectileArena::new();
    let mut visuals = VisualStore::new();
    let mut directory = AttackInstanceDirectory::new();
    let base = Transform2::at_origin();
    execute_attack(
        &attack,
        &graph,
        &projectiles,
        arena_combat::direction::Facing::Neutral,
        &base,
        1,
        10,
        &mut arena,
        &mut visuals,
        &mut directory,
    );
    // the owning fighter is gone: the batch is dropped without effect
    let fighters: Vec<Fighter> = vec![fighter(2)];
    execute_unused_actions(&mut directory, &movements, &fighters, &mut arena);
    let after = arena.slots[0].clone().unwrap();
    assert_eq!(after.body.linvel_x, 0);
    assert_eq!(directory.unexecuted_actions.len(), 0);
}

#[test]
fn deferred_resolution_applies_set_before_add() {
    let spawn_actions = vec![SpawnProjectileAction { id: 1, ids: same_ids(100), instance_id: 7 }];
    let movement_attacks = vec![MovementAttackAction { id: 2, ids: same_ids(200), instance_id: 7 }];
    let graph = create_action_map(&spawn_actions, &movement_attacks);
    let projectiles = create_projectile_map(&vec![template(100)]);
    let mut launch = MovementAction::inert(200, 7);
    launch.add_velocity = Some((3, 3));
    launch.set_velocity = Some((50, 60));
    let movements = create_movement_action_map(&vec![launch]);
    let attack = Attack { actions: vec![1, 2], cooldown: 30 };

    let mut arena = ProjectileArena::new();
    let mut visuals = VisualStore::new();
    let mut directory = AttackInstanceDirectory::new();
    let base = Transform2::at_origin();
    execute_attack(
        &attack,
        &graph,
        &projectiles,
        arena_combat::direction::Facing::Neutral,
        &base,
        1,
        10,
        &mut arena,
        &mut visuals,
        &mut directory,
    );
    let fighters = vec![fighter(1)];
    execute_unused_actions(&mut directory, &movements, &fighters, &mut arena);
    // `set` overwrites first, then `add` accumulates on top
    let after = arena.slots[0].clone().unwrap();
    assert_eq!(after.body.linvel_x, 53);
    assert_eq!(after.body.linvel_y, 63);
}

#[test]
fn a_press_exactly_at_the_window_edge_still_counts() {
    let mut b = AttackBuffer::new();
    b.add_to_buffer(InputKeyboardType::JustPressed, InputPurpose::Atk1, 10);
    b.add_to_buffer(InputKeyboardType::JustPressed, InputPurpose::Atk1, 12);
    // now == final_timestamp + timeout is not yet stale
    assert_eq!(b.execute_buffer(17, 5), Some(AttackType::OneOne));
}

#[test]
fn actions_with_no_bound_id_stay_out_of_the_graph() {
    let spawn_actions = vec![
        SpawnProjectileAction { id: 0, ids: same_ids(100), instance_id: 7 },
        SpawnProjectileAction { id: 1, ids: same_ids(100), instance_id: 7 },
    ];
    let movement_attacks = vec![MovementAttackAction { id: 0, ids: same_ids(200), instance_id: 7 }];
    let graph = create_action_map(&spawn_actions, &movement_attacks);
    assert_eq!(graph.rows.len(), 1);
    assert_eq!(graph.rows[0].0, 1);
}

#[test]
fn spawn_placement_follows_the_facing_aim_rotation() {
    let mut tpl = template(100);
    // aim straight up when facing up: a quarter turn
    tpl.face_dir_looking_angles.up = Rot { c: 0, s: ROT_ONE };
    let spawn_actions = vec![SpawnProjectileAction { id: 1, ids: same_ids(100), instance_id: 7 }];
    let graph = create_action_map(&spawn_actions, &vec![]);
    let projectiles = create_projectile_map(&vec![tpl]);
    let attack = Attack { actions: vec![1], cooldown: 30 };
    let mut arena = ProjectileArena::new();
    let mut visuals = VisualStore::new();
    let mut directory = AttackInstanceDirectory::new();
    let base = Transform2::at_origin();
    execute_attack(
        &attack,
        &graph,
        &projectiles,
        arena_combat::direction::Facing::Up,
        &base,
        1,
        10,
        &mut arena,
        &mut visuals,
        &mut directory,
    );
    let ent = arena.slots[0].clone().unwrap();
    // the fixed offset stays, and the aim radius points up
    assert_eq!(ent.transform.x, 30);
    assert_eq!(ent.transform.y, 140);
    // the sprite sits at the template's z-order
    let sprite = visuals.slots[ent.sprite].unwrap();
    assert_eq!(sprite.transform.z, 5);
}

#[test]
fn cooldown_suppresses_a_repeated_attack() {
    let spawn_actions = vec![SpawnProjectileAction { id: 1, ids: same_ids(100), instance_id: 7 }];
    let graph = create_action_map(&spawn_actions, &vec![]);
    let projectiles = create_projectile_map(&vec![template(100)]);
    let attacks = AvailableAttacks {
        one_one: Some(Attack { actions: vec![1], cooldown: 30 }),
        one_two: None,
        two_one: None,
        two_two: None,
    };
    let mut cooldowns = CooldownTable::new();
    let mut arena = ProjectileArena::new();
    let mut visuals = VisualStore::new();
    let mut directory = AttackInstanceDirectory::new();
    let base = Transform2::at_origin();

    let first = apply_attack(
        &attacks,
        AttackType::OneOne,
        &graph,
        &projectiles,
        arena_combat::direction::Facing::Neutral,
        &base,
        1,
        10,
        &mut cooldowns,
        &mut arena,
        &mut visuals,
        &mut directory,
    );
    assert!(first);
    assert_eq!(arena.slots.len(), 1);

    let second = apply_attack(
        &attacks,
        AttackType::OneOne,
        &graph,
        &projectiles,
        arena_combat::direction::Facing::Neutral,
        &base,
        1,
        20,
        &mut cooldowns,
        &mut arena,
        &mut visuals,
        &mut directory,
    );
    assert!(!second);
    assert_eq!(arena.slots.len(), 1);
}

#[test]
fn unbound_combo_key_is_inert() {
    let graph = create_action_map(&vec![], &vec![]);
    let projectiles = create_projectile_map(&vec![]);
    let attacks = AvailableAttacks { one_one: None, one_two: None, two_one: None, two_two: None };
    let mut cooldowns = CooldownTable::new();
    let mut arena = ProjectileArena::new();
    let mut visuals = VisualStore::new();
    let mut directory = AttackInstanceDirectory::new();
    let base = Transform2::at_origin();
    let executed = apply_attack(
        &attacks,
        AttackType::TwoTwo,
        &graph,
        &projectiles,
        arena_combat::direction::Facing::Neutral,
        &base,
        1,
        10,
        &mut cooldowns,
        &mut arena,
        &mut visuals,
        &mut directory,
    );
    assert!(!executed);
    assert_eq!(cooldowns.entries.len(), 0);
    assert_eq!(arena.slots.len(), 0);
}

#[test]
fn two_attack_presses_drive_a_spawn_through_the_input_path() {
    let spawn_actions = vec![SpawnProjectileAction { id: 1, ids: same_ids(100), instance_id: 7 }];
    let graph = create_action_map(&spawn_actions, &vec![]);
    let projectiles = create_projectile_map(&vec![template(100)]);
    let attacks = AvailableAttacks {
        one_one: Some(Attack { actions: vec![1], cooldown: 30 }),
        one_two: None,
        two_one: None,
        two_two: None,
    };
    let moves = inert_moves();
    let mut f = fighter(1);
    let mut cooldowns = CooldownTable::new();
    let mut arena = ProjectileArena::new();
    let mut visuals = VisualStore::new();
    let mut directory = AttackInstanceDirectory::new();

    let first = movement_input_system(
        InputKeyboardType::JustPressed,
        InputPurpose::Atk1,
        10,
        5,
        &mut f,
        &moves,
        &attacks,
        &graph,
        &projectiles,
        &mut cooldowns,
        &mut arena,
        &mut visuals,
        &mut directory,
    );
    assert!(!first);
    assert_eq!(arena.slots.len(), 0);

    let second = movement_input_system(
        InputKeyboardType::JustPressed,
        InputPurpose::Atk1,
        12,
        5,
        &mut f,
        &moves,
        &attacks,
        &graph,
        &projectiles,
        &mut cooldowns,
        &mut arena,
        &mut visuals,
        &mut directory,
    );
    assert!(second);
    assert_eq!(arena.slots.len(), 1);
    assert_eq!(f.attack_buffer.buffer.len(), 0);
}
