//! Per-tick reaction to one fighter's input edges: attack presses feed the
//! attack buffer and may trigger an attack; direction edges update the
//! facing flags and apply the character's configured movement actions,
//! gated on available jumps.

use vstd::prelude::*;

use crate::action::{BodyState, MovementAction};
use crate::attack::{apply_attack, exec_start, ids_fold};
use crate::buffer::{
    record_spec, resolve_result_spec, resolve_state_spec, InputKeyboardType, InputPurpose,
};
use crate::catalog::{AttackMap, AvailableAttacks, ProjectileMap};
use crate::cooldown::CooldownTable;
use crate::direction::DirectionFlag;
use crate::instance::{slot_of, AttackInstanceDirectory, InstanceIdDir};
use crate::world::{AAPlayerDescriptor, Fighter, ProjectileArena, VisualStore};

verus! {

/// The movement action bound to each direction's press and release edge.
#[derive(Clone, Copy, Debug, PartialEq, Eq)]
pub struct AvailableMovementActions {
    pub pressed_up: MovementAction,
    pub pressed_down: MovementAction,
    pub pressed_left: MovementAction,
    pub pressed_right: MovementAction,
    pub unpressed_up: MovementAction,
    pub unpressed_down: MovementAction,
    pub unpressed_left: MovementAction,
    pub unpressed_right: MovementAction,
}

impl AvailableMovementActions {
    /// The movement action, flag and flag value one input edge selects, if
    /// it is a direction edge at all.
    pub open spec fn selected_spec(
        self,
        input_type: InputKeyboardType,
        purpose: InputPurpose,
    ) -> Option<(MovementAction, DirectionFlag, bool)> {
        match input_type {
            InputKeyboardType::JustPressed => match purpose {
                InputPurpose::Up => Option::Some((self.pressed_up, DirectionFlag::Up, true)),
                InputPurpose::Down => Option::Some((self.pressed_down, DirectionFlag::Down, true)),
                InputPurpose::Left => Option::Some((self.pressed_left, DirectionFlag::Left, true)),
                InputPurpose::Right => Option::Some(
                    (self.pressed_right, DirectionFlag::Right, true),
                ),
                _ => Option::None,
            },
            InputKeyboardType::JustReleased => match purpose {
                InputPurpose::Up => Option::Some((self.unpressed_up, DirectionFlag::Up, false)),
                InputPurpose::Down => Option::Some(
                    (self.unpressed_down, DirectionFlag::Down, false),
                ),
                InputPurpose::Left => Option::Some(
                    (self.unpressed_left, DirectionFlag::Left, false),
                ),
                InputPurpose::Right => Option::Some(
                    (self.unpressed_right, DirectionFlag::Right, false),
                ),
                _ => Option::None,
            },
            InputKeyboardType::Idle => Option::None,
        }
    }
}

/// Descriptor and body after one movement action: the facing flag is set or
/// cleared first; if the action requires jumps, it runs only when enough are
/// available, spending them unless collision dominance holds; when it runs,
/// `set` fields apply before `add` fields.
pub open spec fn apply_action_spec(
    a: MovementAction,
    d: AAPlayerDescriptor,
    b: BodyState,
    flag: DirectionFlag,
    pressed: bool,
) -> (AAPlayerDescriptor, BodyState) {
    let d1 = AAPlayerDescriptor {
        direction_facing: d.direction_facing.with_flag_spec(flag, pressed),
        ..d
    };
    let process = !a.require_available_jumps || d1.available_jumps >= a.required_jumps;
    let d2 = if a.require_available_jumps && d1.available_jumps >= a.required_jumps
        && !d1.char_collision_dominance {
        AAPlayerDescriptor {
            available_jumps: if d1.available_jumps >= a.jumps_removed {
                (d1.available_jumps - a.jumps_removed) as u32
            } else {
                0
            },
            ..d1
        }
    } else {
        d1
    };
    let b2 = if process {
        a.set_then_add_spec(b)
    } else {
        b
    };
    (d2, b2)
}

impl MovementAction {
    /// Applies this movement action to a fighter's descriptor and body.
    pub fn apply_action(
        &self,
        descriptor: &mut AAPlayerDescriptor,
        body: &mut BodyState,
        flag: DirectionFlag,
        pressed: bool,
    )
        requires
            old(descriptor).well_formed(),
        ensures
            final(descriptor).well_formed(),
            (*final(descriptor), *final(body)) == apply_action_spec(
                *self,
                *old(descriptor),
                *old(body),
                flag,
                pressed,
            ),
    {
        descriptor.direction_facing.set_flag(flag, pressed);
        let process = if self.require_available_jumps {
            if descriptor.available_jumps >= self.required_jumps {
                if !descriptor.char_collision_dominance {
                    descriptor.available_jumps = if descriptor.available_jumps
                        >= self.jumps_removed {
                        descriptor.available_jumps - self.jumps_removed
                    } else {
                        0
                    };
                }
                true
            } else {
                false
            }
        } else {
            true
        };
        if process {
            self.set_values(body);
            self.add_values(body);
        }
    }
}

impl AvailableMovementActions {
    /// Dispatches one input edge to the movement action bound to it; edges
    /// that bind no movement change nothing.
    pub fn apply_action(
        &self,
        input_type: InputKeyboardType,
        purpose: InputPurpose,
        descriptor: &mut AAPlayerDescriptor,
        body: &mut BodyState,
    )
        requires
            old(descriptor).well_formed(),
        ensures
            final(descriptor).well_formed(),
            match self.selected_spec(input_type, purpose) {
                Option::Some(sel) => (*final(descriptor), *final(body)) == apply_action_spec(
                    sel.0,
                    *old(descriptor),
                    *old(body),
                    sel.1,
                    sel.2,
                ),
                Option::None => *final(descriptor) == *old(descriptor) && *final(body) == *old(
                    body,
                ),
            },
    {
        match input_type {
            InputKeyboardType::JustPressed => match purpose {
                InputPurpose::Up => self.pressed_up.apply_action(
                    descriptor,
                    body,
                    DirectionFlag::Up,
                    true,
                ),
                InputPurpose::Down => self.pressed_down.apply_action(
                    descriptor,
                    body,
                    DirectionFlag::Down,
                    true,
                ),
                InputPurpose::Left => self.pressed_left.apply_action(
                    descriptor,
                    body,
                    DirectionFlag::Left,
                    true,
                ),
                InputPurpose::Right => self.pressed_right.apply_action(
                    descriptor,
                    body,
                    DirectionFlag::Right,
                    true,
                ),
                _ => {},
            },
            InputKeyboardType::JustReleased => match purpose {
                InputPurpose::Up => self.unpressed_up.apply_action(
                    descriptor,
                    body,
                    DirectionFlag::Up,
                    false,
                ),
                InputPurpose::Down => self.unpressed_down.apply_action(
                    descriptor,
                    body,
                    DirectionFlag::Down,
                    false,
                ),
                InputPurpose::Left => self.unpressed_left.apply_action(
                    descriptor,
                    body,
                    DirectionFlag::Left,
                    false,
                ),
                InputPurpose::Right => self.unpressed_right.apply_action(
                    descriptor,
                    body,
                    DirectionFlag::Right,
                    false,
                ),
                _ => {},
            },
            InputKeyboardType::Idle => {},
        }
    }
}

/// Reacts to one input edge for one fighter, in the tick's order: the edge
/// is recorded in the attack buffer, the buffer is resolved, a resolved
/// combo key is applied as an attack under the fighter's facing before the
/// edge, and then the edge's movement action runs.
pub fn movement_input_system(
    input_type: InputKeyboardType,
    purpose: InputPurpose,
    now: u64,
    timeout: u64,
    fighter: &mut Fighter,
    actions: &AvailableMovementActions,
    attacks: &AvailableAttacks,
    attack_actions: &AttackMap,
    projectiles: &ProjectileMap,
    cooldowns: &mut CooldownTable,
    arena: &mut ProjectileArena,
    visuals: &mut VisualStore,
    directory: &mut AttackInstanceDirectory,
) -> (executed: bool)
    requires
        old(fighter).well_formed(),
        projectiles.well_formed(),
        old(cooldowns).well_formed(),
        old(arena).well_formed(),
        old(visuals).well_formed(),
        old(directory).previous_used_id < u64::MAX,
    ensures
        final(fighter).well_formed(),
        final(cooldowns).well_formed(),
        final(arena).well_formed(),
        final(visuals).well_formed(),
        ({
            let b1 = record_spec(old(fighter).attack_buffer@, input_type, purpose, now);
            let combo = resolve_result_spec(b1, now, timeout);
            let facing = old(fighter).descriptor.direction_facing.facing_spec();
            &&& final(fighter).attack_buffer@ == resolve_state_spec(b1, now, timeout)
            &&& final(fighter).player_id == old(fighter).player_id
            &&& final(fighter).health == old(fighter).health
            &&& final(fighter).transform == old(fighter).transform
            &&& executed == (combo is Some && attacks.slot_spec(combo->0) is Some
                && !crate::cooldown::has_entry(old(cooldowns)@, old(fighter).player_id, combo->0))
            &&& (match actions.selected_spec(input_type, purpose) {
                Option::Some(sel) => (final(fighter).descriptor, final(fighter).body)
                    == apply_action_spec(
                    sel.0,
                    old(fighter).descriptor,
                    old(fighter).body,
                    sel.1,
                    sel.2,
                ),
                Option::None => final(fighter).descriptor == old(fighter).descriptor
                    && final(fighter).body == old(fighter).body,
            })
            &&& combo is None ==> *final(cooldowns) == *old(cooldowns)
                && *final(arena) == *old(arena) && *final(visuals) == *old(visuals)
                && *final(directory) == *old(directory)
            &&& combo is Some ==> {
                &&& attacks.slot_spec(combo->0) is None ==> *final(cooldowns) == *old(cooldowns)
                &&& attacks.slot_spec(combo->0) is Some ==> final(cooldowns)@
                    == crate::cooldown::begin_spec(
                    old(cooldowns)@,
                    old(fighter).player_id,
                    combo->0,
                    now,
                    (attacks.slot_spec(combo->0)->0).cooldown,
                )
            }
            &&& !executed ==> *final(arena) == *old(arena) && *final(visuals) == *old(visuals)
                && *final(directory) == *old(directory)
            &&& executed ==> ({
                let attack = attacks.slot_spec(combo->0)->0;
                let st = ids_fold(
                    attack.actions@,
                    exec_start(old(arena).slots@, old(visuals).slots@),
                    attack_actions.rows@,
                    projectiles.templates@,
                    facing,
                    old(fighter).transform,
                    old(fighter).player_id,
                    now,
                );
                &&& final(arena).slots@ == st.arena
                &&& final(visuals).slots@ == st.visuals
                &&& st.deferred.len() == 0 ==> *final(directory) == *old(directory)
                &&& st.deferred.len() > 0 ==> {
                    &&& final(directory).previous_used_id == old(directory).previous_used_id + 1
                    &&& final(directory).unexecuted_actions@.len()
                        == old(directory).unexecuted_actions@.len() + 1
                    &&& forall|b: int|
                        0 <= b < old(directory).unexecuted_actions@.len()
                            ==> final(directory).unexecuted_actions@[b]
                            == old(directory).unexecuted_actions@[b]
                    &&& {
                        let batch = final(directory).unexecuted_actions@.last();
                        &&& batch.actions@ == st.deferred
                        &&& batch.player_id == old(fighter).player_id
                        &&& batch.instance_id == old(directory).previous_used_id
                        &&& batch.instance_map.well_formed()
                        &&& forall|k: InstanceIdDir| slot_of(batch.instance_map@, k) == st.slots[k]
                    }
                }
            })
        }),
{
    fighter.attack_buffer.add_to_buffer(input_type, purpose, now);
    let combo = fighter.attack_buffer.execute_buffer(now, timeout);
    let mut executed = false;
    match combo {
        Option::Some(key) => {
            let facing = fighter.descriptor.direction_facing.resolve_facing();
            let base = fighter.transform;
            executed = apply_attack(
                attacks,
                key,
                attack_actions,
                projectiles,
                facing,
                &base,
                fighter.player_id,
                now,
                cooldowns,
                arena,
                visuals,
                directory,
            );
        },
        Option::None => {},
    }
    actions.apply_action(input_type, purpose, &mut fighter.descriptor, &mut fighter.body);
    executed
}

} // verus!
