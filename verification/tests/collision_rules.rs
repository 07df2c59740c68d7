use arena_combat::action::BodyState;
use arena_combat::buffer::AttackBuffer;
use arena_combat::collision::{
    collision_process, process_collision_event, AAColliderType, ColliderOwner, ColliderRec,
    ColliderTable, CollisionEvent, CollisionEventType, CollisionPlayerType, FoundPlayerRigidId,
};
use arena_combat::direction::DirectionFlags;
use arena_combat::world::{
    check_victory_conditions, enforce_char_collision_dominance, AAPlayerDescriptor,
    ColliderSyncEntity, Fighter, PlayerHealth, ProjectileArena, ProjectileIdentifier,
    SpawnedProjectile, Transform2, VictoryEvent,
};

fn fighter(pid: u64, jumps: u32) -> Fighter {
    Fighter {
        player_id: pid,
        descriptor: AAPlayerDescriptor {
            maximum_jumps: 3,
            available_jumps: jumps,
            char_collision_dominance: false,
            direction_facing: DirectionFlags { up: false, down: false, left: false, right: false },
        },
        health: PlayerHealth { maximum_health: 100, current_health: 100 },
        attack_buffer: AttackBuffer::new(),
        body: BodyState::at_rest(),
        transform: Transform2::at_origin(),
        velocity_cap: arena_combat::action::VelocityForceCap::unbounded(),
        sync: ColliderSyncEntity::empty(),
    }
}

fn projectile(owner: u64, damage: u64, pierce: u32) -> SpawnedProjectile {
    SpawnedProjectile {
        ident: ProjectileIdentifier {
            created_timestamp: 0,
            lifetime: 100,
            damage,
            pierce,
            parent: owner,
        },
        body: BodyState::at_rest(),
        transform: Transform2::at_origin(),
        sprite: 0,
    }
}

fn rec(id: u64, parent: ColliderOwner, kind: AAColliderType) -> ColliderRec {
    ColliderRec { id, parent, collider_type: kind }
}

fn event(started: bool, a: u64, b: u64) -> CollisionEvent {
    CollisionEvent {
        event_type: if started { CollisionEventType::Started } else { CollisionEventType::Stopped },
        collider_one: a,
        collider_two: b,
        removed: false,
    }
}

#[test]
fn classification_finds_the_fighters() {
    let table = ColliderTable {
        recs: vec![
            rec(11, ColliderOwner::FighterBody(1), AAColliderType::Solid),
            rec(12, ColliderOwner::FighterBody(2), AAColliderType::Solid),
            rec(30, ColliderOwner::Level, AAColliderType::JumpReset),
        ],
    };
    assert_eq!(
        process_collision_event(&table, 11, 12),
        CollisionPlayerType::Two(FoundPlayerRigidId::Both, (1, 2))
    );
    assert_eq!(
        process_collision_event(&table, 11, 30),
        CollisionPlayerType::Single(FoundPlayerRigidId::ColliderOne, 1)
    );
    assert_eq!(
        process_collision_event(&table, 30, 12),
        CollisionPlayerType::Single(FoundPlayerRigidId::ColliderTwo, 2)
    );
    assert_eq!(process_collision_event(&table, 30, 99), CollisionPlayerType::NoFighter);
}

#[test]
fn ground_contact_resets_and_then_decrements_jumps() {
    let table = ColliderTable {
        recs: vec![
            rec(11, ColliderOwner::FighterBody(1), AAColliderType::Solid),
            rec(30, ColliderOwner::Level, AAColliderType::JumpReset),
        ],
    };
    let mut fighters = vec![fighter(1, 0)];
    let mut arena = ProjectileArena::new();
    collision_process(&vec![event(true, 11, 30)], &table, &mut fighters, &mut arena);
    assert_eq!(fighters[0].descriptor.available_jumps, 3);
    assert!(fighters[0].descriptor.char_collision_dominance);
    collision_process(&vec![event(false, 11, 30)], &table, &mut fighters, &mut arena);
    assert_eq!(fighters[0].descriptor.available_jumps, 2);
    assert!(!fighters[0].descriptor.char_collision_dominance);
}

#[test]
fn death_collider_knocks_out_on_start_and_stop() {
    let table = ColliderTable {
        recs: vec![
            rec(11, ColliderOwner::FighterBody(1), AAColliderType::Solid),
            rec(40, ColliderOwner::Level, AAColliderType::Death),
        ],
    };
    let mut fighters = vec![fighter(1, 1)];
    let mut arena = ProjectileArena::new();
    collision_process(&vec![event(true, 11, 40)], &table, &mut fighters, &mut arena);
    assert_eq!(fighters[0].health.current_health, 0);

    let mut fighters = vec![fighter(1, 1)];
    collision_process(&vec![event(false, 11, 40)], &table, &mut fighters, &mut arena);
    assert_eq!(fighters[0].health.current_health, 0);
}

#[test]
fn two_fighter_contact_resets_both_and_spares_the_third() {
    let table = ColliderTable {
        recs: vec![
            rec(10, ColliderOwner::FighterBody(1), AAColliderType::JumpReset),
            rec(11, ColliderOwner::FighterBody(1), AAColliderType::Solid),
            rec(12, ColliderOwner::FighterBody(2), AAColliderType::Solid),
        ],
    };
    let mut fighters = vec![fighter(1, 0), fighter(2, 0), fighter(3, 0)];
    let mut arena = ProjectileArena::new();
    collision_process(&vec![event(true, 11, 12)], &table, &mut fighters, &mut arena);
    assert_eq!(fighters[0].descriptor.available_jumps, 3);
    assert_eq!(fighters[1].descriptor.available_jumps, 3);
    assert_eq!(fighters[2].descriptor.available_jumps, 0);

    // the ending contact decrements both, dominance or not
    fighters[0].descriptor.char_collision_dominance = true;
    collision_process(&vec![event(false, 11, 12)], &table, &mut fighters, &mut arena);
    assert_eq!(fighters[0].descriptor.available_jumps, 2);
    assert!(!fighters[0].descriptor.char_collision_dominance);
    assert_eq!(fighters[1].descriptor.available_jumps, 2);
    assert_eq!(fighters[2].descriptor.available_jumps, 0);
}

#[test]
fn projectile_hit_damages_and_pierces_exactly_once() {
    let table = ColliderTable {
        recs: vec![
            rec(11, ColliderOwner::FighterBody(2), AAColliderType::Solid),
            rec(20, ColliderOwner::ProjectileBody(0), AAColliderType::Solid),
        ],
    };
    let mut fighters = vec![fighter(2, 1)];
    let mut arena = ProjectileArena::new();
    arena.spawn(projectile(1, 25, 2));
    collision_process(&vec![event(true, 11, 20)], &table, &mut fighters, &mut arena);
    assert_eq!(fighters[0].health.current_health, 75);
    assert_eq!(arena.slots[0].clone().unwrap().ident.pierce, 1);
}

#[test]
fn projectile_never_damages_its_own_fighter() {
    let table = ColliderTable {
        recs: vec![
            rec(11, ColliderOwner::FighterBody(1), AAColliderType::Solid),
            rec(20, ColliderOwner::ProjectileBody(0), AAColliderType::Solid),
        ],
    };
    let mut fighters = vec![fighter(1, 1)];
    let mut arena = ProjectileArena::new();
    arena.spawn(projectile(1, 25, 2));
    collision_process(&vec![event(true, 11, 20)], &table, &mut fighters, &mut arena);
    assert_eq!(fighters[0].health.current_health, 100);
    assert_eq!(arena.slots[0].clone().unwrap().ident.pierce, 2);
}

#[test]
fn sensors_take_no_projectile_damage() {
    let table = ColliderTable {
        recs: vec![
            rec(10, ColliderOwner::FighterBody(2), AAColliderType::JumpReset),
            rec(20, ColliderOwner::ProjectileBody(0), AAColliderType::Solid),
        ],
    };
    let mut fighters = vec![fighter(2, 1)];
    let mut arena = ProjectileArena::new();
    arena.spawn(projectile(1, 25, 2));
    collision_process(&vec![event(true, 10, 20)], &table, &mut fighters, &mut arena);
    assert_eq!(fighters[0].health.current_health, 100);
    assert_eq!(arena.slots[0].clone().unwrap().ident.pierce, 2);
}

#[test]
fn health_clamps_at_zero_across_repeated_hits() {
    let table = ColliderTable {
        recs: vec![
            rec(11, ColliderOwner::FighterBody(2), AAColliderType::Solid),
            rec(20, ColliderOwner::ProjectileBody(0), AAColliderType::Solid),
        ],
    };
    let mut fighters = vec![fighter(2, 1)];
    fighters[0].health.maximum_health = 30;
    fighters[0].health.current_health = 30;
    let mut arena = ProjectileArena::new();
    arena.spawn(projectile(1, 25, 5));
    let hits = vec![event(true, 11, 20), event(true, 11, 20), event(true, 11, 20)];
    collision_process(&hits, &table, &mut fighters, &mut arena);
    assert_eq!(fighters[0].health.current_health, 0);
    assert_eq!(arena.slots[0].clone().unwrap().ident.pierce, 2);
}

#[test]
fn removed_events_are_ignored() {
    let table = ColliderTable {
        recs: vec![
            rec(11, ColliderOwner::FighterBody(1), AAColliderType::Solid),
            rec(40, ColliderOwner::Level, AAColliderType::Death),
        ],
    };
    let mut fighters = vec![fighter(1, 1)];
    let mut arena = ProjectileArena::new();
    let mut ev = event(true, 11, 40);
    ev.removed = true;
    collision_process(&vec![ev], &table, &mut fighters, &mut arena);
    assert_eq!(fighters[0].health.current_health, 100);
}

#[test]
fn dominance_forces_jumps_back_to_maximum() {
    let mut fighters = vec![fighter(1, 0), fighter(2, 0)];
    fighters[0].descriptor.char_collision_dominance = true;
    enforce_char_collision_dominance(&mut fighters);
    assert_eq!(fighters[0].descriptor.available_jumps, 3);
    assert_eq!(fighters[1].descriptor.available_jumps, 0);
}

#[test]
fn victory_check_reports_draw_victory_or_nothing() {
    let empty: Vec<Fighter> = vec![];
    assert_eq!(check_victory_conditions(&empty), Some(VictoryEvent::Draw));
    let one = vec![fighter(4, 1)];
    assert_eq!(check_victory_conditions(&one), Some(VictoryEvent::Victory(4)));
    let two = vec![fighter(1, 1), fighter(2, 1)];
    assert_eq!(check_victory_conditions(&two), None);
}
