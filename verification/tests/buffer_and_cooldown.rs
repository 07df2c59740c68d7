use arena_combat::buffer::{AttackBuffer, AttackKey, AttackType, InputKeyboardType, InputPurpose};
use arena_combat::cooldown::CooldownTable;

#[test]
fn two_presses_within_window_resolve_in_order() {
    let mut b = AttackBuffer::new();
    b.add_to_buffer(InputKeyboardType::JustPressed, InputPurpose::Atk1, 10);
    b.add_to_buffer(InputKeyboardType::JustPressed, InputPurpose::Atk2, 12);
    let combo = b.execute_buffer(14, 5);
    assert_eq!(combo, Some(AttackType::OneTwo));
    assert_eq!(b.buffer.len(), 0);
    assert_eq!(b.final_timestamp, 0);
}

#[test]
fn two_presses_other_order_resolve_to_other_combo() {
    let mut b = AttackBuffer::new();
    b.add_to_buffer(InputKeyboardType::JustPressed, InputPurpose::Atk2, 10);
    b.add_to_buffer(InputKeyboardType::JustPressed, InputPurpose::Atk1, 11);
    assert_eq!(b.execute_buffer(11, 5), Some(AttackType::TwoOne));
}

#[test]
fn stale_buffer_resolves_to_nothing_and_clears() {
    let mut b = AttackBuffer::new();
    b.add_to_buffer(InputKeyboardType::JustPressed, InputPurpose::Atk1, 10);
    b.add_to_buffer(InputKeyboardType::JustPressed, InputPurpose::Atk1, 11);
    let combo = b.execute_buffer(100, 5);
    assert_eq!(combo, None);
    assert_eq!(b.buffer.len(), 0);
}

#[test]
fn single_press_waits() {
    let mut b = AttackBuffer::new();
    b.add_to_buffer(InputKeyboardType::JustPressed, InputPurpose::Atk1, 10);
    assert_eq!(b.execute_buffer(11, 5), None);
    assert_eq!(b.buffer, vec![AttackKey::One]);
}

#[test]
fn reset_input_clears_buffer() {
    let mut b = AttackBuffer::new();
    b.add_to_buffer(InputKeyboardType::JustPressed, InputPurpose::Atk1, 10);
    b.add_to_buffer(InputKeyboardType::JustPressed, InputPurpose::Reset, 11);
    assert_eq!(b.buffer.len(), 0);
    assert_eq!(b.final_timestamp, 0);
}

#[test]
fn releases_and_direction_inputs_are_ignored() {
    let mut b = AttackBuffer::new();
    b.add_to_buffer(InputKeyboardType::JustReleased, InputPurpose::Atk1, 10);
    b.add_to_buffer(InputKeyboardType::JustPressed, InputPurpose::Left, 11);
    b.add_to_buffer(InputKeyboardType::Idle, InputPurpose::Atk2, 12);
    assert_eq!(b.buffer.len(), 0);
}

#[test]
fn buffer_never_grows_past_two() {
    let mut b = AttackBuffer::new();
    b.add_to_buffer(InputKeyboardType::JustPressed, InputPurpose::Atk1, 1);
    b.add_to_buffer(InputKeyboardType::JustPressed, InputPurpose::Atk2, 2);
    b.add_to_buffer(InputKeyboardType::JustPressed, InputPurpose::Atk2, 3);
    assert_eq!(b.buffer, vec![AttackKey::One, AttackKey::Two]);
    assert_eq!(b.final_timestamp, 2);
}

#[test]
fn cooldown_gates_then_reopens_after_duration() {
    let mut t = CooldownTable::new();
    assert!(t.begin_if_ready(1, AttackType::OneOne, 100, 50));
    t.check_cooldowns(120);
    assert!(!t.begin_if_ready(1, AttackType::OneOne, 120, 50));
    t.check_cooldowns(150);
    assert!(t.begin_if_ready(1, AttackType::OneOne, 150, 50));
}

#[test]
fn cooldown_slots_are_independent() {
    let mut t = CooldownTable::new();
    assert!(t.begin_if_ready(1, AttackType::OneOne, 100, 50));
    assert!(t.begin_if_ready(1, AttackType::TwoTwo, 100, 50));
    assert!(t.begin_if_ready(2, AttackType::OneOne, 100, 50));
    assert!(!t.begin_if_ready(1, AttackType::OneOne, 101, 50));
}

#[test]
fn prune_removes_only_elapsed_entries() {
    let mut t = CooldownTable::new();
    assert!(t.begin_if_ready(1, AttackType::OneOne, 100, 10));
    assert!(t.begin_if_ready(1, AttackType::OneTwo, 100, 100));
    t.check_cooldowns(110);
    assert!(t.begin_if_ready(1, AttackType::OneOne, 110, 10));
    assert!(!t.begin_if_ready(1, AttackType::OneTwo, 110, 100));
    assert_eq!(t.entries.len(), 2);
}
