//! Movement-action templates and the physics body state they act on.
//!
//! A movement action overwrites (`set`) or accumulates (`add`) velocity,
//! angular velocity, force, torque and damping components of a body.
//! Accumulation saturates at the fixed-point range instead of overflowing.

use vstd::prelude::*;

use crate::math::{clamp_spec, clamp_i64, sat_add, sat_add_spec};

verus! {

/// The mutable physics state of one body, in fixed-point units.
#[derive(Clone, Copy, Debug, PartialEq, Eq, Structural)]
pub struct BodyState {
    pub linvel_x: i64,
    pub linvel_y: i64,
    pub angvel: i64,
    pub force_x: i64,
    pub force_y: i64,
    pub torque: i64,
    pub linear_damping: i64,
    pub angular_damping: i64,
}

impl BodyState {
    /// A body at rest with no applied force or damping.
    pub fn at_rest() -> (r: BodyState)
        ensures
            r == (BodyState {
                linvel_x: 0i64,
                linvel_y: 0i64,
                angvel: 0i64,
                force_x: 0i64,
                force_y: 0i64,
                torque: 0i64,
                linear_damping: 0i64,
                angular_damping: 0i64,
            }),
    {
        BodyState {
            linvel_x: 0,
            linvel_y: 0,
            angvel: 0,
            force_x: 0,
            force_y: 0,
            torque: 0,
            linear_damping: 0,
            angular_damping: 0,
        }
    }
}

/// One movement-action template: per-component overwrite and accumulate
/// fields, an identifier, the instance tag pairing it with spawned entities,
/// and the jump requirements the fighter input path honours.
#[derive(Clone, Copy, Debug, PartialEq, Eq)]
pub struct MovementAction {
    pub id: u64,
    pub instance_affected_id: u64,
    pub set_velocity: Option<(i64, i64)>,
    pub add_velocity: Option<(i64, i64)>,
    pub set_angvel: Option<i64>,
    pub add_angvel: Option<i64>,
    pub set_external_force: Option<(i64, i64)>,
    pub add_external_force: Option<(i64, i64)>,
    pub set_external_torque: Option<i64>,
    pub add_external_torque: Option<i64>,
    pub set_lin_damping: Option<i64>,
    pub add_lin_damping: Option<i64>,
    pub set_ang_damping: Option<i64>,
    pub add_ang_damping: Option<i64>,
    pub require_available_jumps: bool,
    pub required_jumps: u32,
    pub jumps_removed: u32,
}

impl MovementAction {
    /// A template that names `id` and `instance_affected_id` and changes
    /// nothing when applied.
    pub fn inert(id: u64, instance_affected_id: u64) -> (r: MovementAction)
        ensures
            r.id == id,
            r.instance_affected_id == instance_affected_id,
            forall|b: BodyState| r.set_values_spec(b) == b && r.add_values_spec(b) == b,
            !r.require_available_jumps,
    {
        MovementAction {
            id,
            instance_affected_id,
            set_velocity: Option::None,
            add_velocity: Option::None,
            set_angvel: Option::None,
            add_angvel: Option::None,
            set_external_force: Option::None,
            add_external_force: Option::None,
            set_external_torque: Option::None,
            add_external_torque: Option::None,
            set_lin_damping: Option::None,
            add_lin_damping: Option::None,
            set_ang_damping: Option::None,
            add_ang_damping: Option::None,
            require_available_jumps: false,
            required_jumps: 1,
            jumps_removed: 1,
        }
    }

    /// The body after every present `set` field has overwritten its
    /// component.
    pub open spec fn set_values_spec(self, b: BodyState) -> BodyState {
        BodyState {
            linvel_x: if self.set_velocity is Some {
                (self.set_velocity->0).0
            } else {
                b.linvel_x
            },
            linvel_y: if self.set_velocity is Some {
                (self.set_velocity->0).1
            } else {
                b.linvel_y
            },
            angvel: if self.set_angvel is Some {
                self.set_angvel->0
            } else {
                b.angvel
            },
            force_x: if self.set_external_force is Some {
                (self.set_external_force->0).0
            } else {
                b.force_x
            },
            force_y: if self.set_external_force is Some {
                (self.set_external_force->0).1
            } else {
                b.force_y
            },
            torque: if self.set_external_torque is Some {
                self.set_external_torque->0
            } else {
                b.torque
            },
            linear_damping: if self.set_lin_damping is Some {
                self.set_lin_damping->0
            } else {
                b.linear_damping
            },
            angular_damping: if self.set_ang_damping is Some {
                self.set_ang_damping->0
            } else {
                b.angular_damping
            },
        }
    }

    /// The body after every present `add` field has accumulated onto its
    /// component, saturating at the fixed-point range.
    pub open spec fn add_values_spec(self, b: BodyState) -> BodyState {
        BodyState {
            linvel_x: if self.add_velocity is Some {
                sat_add_spec(b.linvel_x as int, (self.add_velocity->0).0 as int) as i64
            } else {
                b.linvel_x
            },
            linvel_y: if self.add_velocity is Some {
                sat_add_spec(b.linvel_y as int, (self.add_velocity->0).1 as int) as i64
            } else {
                b.linvel_y
            },
            angvel: if self.add_angvel is Some {
                sat_add_spec(b.angvel as int, self.add_angvel->0 as int) as i64
            } else {
                b.angvel
            },
            force_x: if self.add_external_force is Some {
                sat_add_spec(b.force_x as int, (self.add_external_force->0).0 as int) as i64
            } else {
                b.force_x
            },
            force_y: if self.add_external_force is Some {
                sat_add_spec(b.force_y as int, (self.add_external_force->0).1 as int) as i64
            } else {
                b.force_y
            },
            torque: if self.add_external_torque is Some {
                sat_add_spec(b.torque as int, self.add_external_torque->0 as int) as i64
            } else {
                b.torque
            },
            linear_damping: if self.add_lin_damping is Some {
                sat_add_spec(b.linear_damping as int, self.add_lin_damping->0 as int) as i64
            } else {
                b.linear_damping
            },
            angular_damping: if self.add_ang_damping is Some {
                sat_add_spec(b.angular_damping as int, self.add_ang_damping->0 as int) as i64
            } else {
                b.angular_damping
            },
        }
    }

    /// The body after one full application of this action: `set` fields
    /// overwrite first, then `add` fields accumulate.
    pub open spec fn set_then_add_spec(self, b: BodyState) -> BodyState {
        self.add_values_spec(self.set_values_spec(b))
    }

    /// Overwrites every component a `set` field is present for.
    pub fn set_values(&self, body: &mut BodyState)
        ensures
            *final(body) == self.set_values_spec(*old(body)),
    {
        match self.set_velocity {
            Option::Some(v) => {
                body.linvel_x = v.0;
                body.linvel_y = v.1;
            },
            Option::None => {},
        }
        match self.set_angvel {
            Option::Some(v) => body.angvel = v,
            Option::None => {},
        }
        match self.set_external_force {
            Option::Some(v) => {
                body.force_x = v.0;
                body.force_y = v.1;
            },
            Option::None => {},
        }
        match self.set_external_torque {
            Option::Some(v) => body.torque = v,
            Option::None => {},
        }
        match self.set_lin_damping {
            Option::Some(v) => body.linear_damping = v,
            Option::None => {},
        }
        match self.set_ang_damping {
            Option::Some(v) => body.angular_damping = v,
            Option::None => {},
        }
    }

    /// Accumulates every component an `add` field is present for.
    pub fn add_values(&self, body: &mut BodyState)
        ensures
            *final(body) == self.add_values_spec(*old(body)),
    {
        match self.add_velocity {
            Option::Some(v) => {
                body.linvel_x = sat_add(body.linvel_x, v.0);
                body.linvel_y = sat_add(body.linvel_y, v.1);
            },
            Option::None => {},
        }
        match self.add_angvel {
            Option::Some(v) => body.angvel = sat_add(body.angvel, v),
            Option::None => {},
        }
        match self.add_external_force {
            Option::Some(v) => {
                body.force_x = sat_add(body.force_x, v.0);
                body.force_y = sat_add(body.force_y, v.1);
            },
            Option::None => {},
        }
        match self.add_external_torque {
            Option::Some(v) => body.torque = sat_add(body.torque, v),
            Option::None => {},
        }
        match self.add_lin_damping {
            Option::Some(v) => body.linear_damping = sat_add(body.linear_damping, v),
            Option::None => {},
        }
        match self.add_ang_damping {
            Option::Some(v) => body.angular_damping = sat_add(body.angular_damping, v),
            Option::None => {},
        }
    }
}

/// Per-component magnitude caps on a body's velocity and applied force.
#[derive(Clone, Copy, Debug, PartialEq, Eq)]
pub struct VelocityForceCap {
    pub max_velocity: Option<(i64, i64)>,
    pub max_angvel: Option<i64>,
    pub max_external_force: Option<(i64, i64)>,
    pub max_external_torque: Option<i64>,
}

impl Default for VelocityForceCap {
    /// No component capped.
    fn default() -> (r: Self)
        ensures
            r == (VelocityForceCap {
                max_velocity: Option::<(i64, i64)>::None,
                max_angvel: Option::<i64>::None,
                max_external_force: Option::<(i64, i64)>::None,
                max_external_torque: Option::<i64>::None,
            }),
            r.well_formed(),
    {
        VelocityForceCap {
            max_velocity: Option::None,
            max_angvel: Option::None,
            max_external_force: Option::None,
            max_external_torque: Option::None,
        }
    }
}

impl VelocityForceCap {
    /// Caps are magnitudes, so every present bound is non-negative.
    pub open spec fn well_formed(self) -> bool {
        &&& self.max_velocity is Some ==> (self.max_velocity->0).0 >= 0 && (self.max_velocity->0).1
            >= 0
        &&& self.max_angvel is Some ==> self.max_angvel->0 >= 0
        &&& self.max_external_force is Some ==> (self.max_external_force->0).0 >= 0
            && (self.max_external_force->0).1 >= 0
        &&& self.max_external_torque is Some ==> self.max_external_torque->0 >= 0
    }

    /// The cap that bounds nothing.
    pub fn unbounded() -> (r: VelocityForceCap)
        ensures
            r.well_formed(),
            forall|b: BodyState| r.cap_spec(b) == b,
    {
        VelocityForceCap {
            max_velocity: Option::None,
            max_angvel: Option::None,
            max_external_force: Option::None,
            max_external_torque: Option::None,
        }
    }

    /// The body with each capped component clamped to `[-cap, cap]`.
    pub open spec fn cap_spec(self, b: BodyState) -> BodyState {
        BodyState {
            linvel_x: if self.max_velocity is Some {
                clamp_spec(
                    b.linvel_x as int,
                    -(self.max_velocity->0).0 as int,
                    (self.max_velocity->0).0 as int,
                ) as i64
            } else {
                b.linvel_x
            },
            linvel_y: if self.max_velocity is Some {
                clamp_spec(
                    b.linvel_y as int,
                    -(self.max_velocity->0).1 as int,
                    (self.max_velocity->0).1 as int,
                ) as i64
            } else {
                b.linvel_y
            },
            angvel: if self.max_angvel is Some {
                clamp_spec(b.angvel as int, -self.max_angvel->0 as int, self.max_angvel->0 as int)
                    as i64
            } else {
                b.angvel
            },
            force_x: if self.max_external_force is Some {
                clamp_spec(
                    b.force_x as int,
                    -(self.max_external_force->0).0 as int,
                    (self.max_external_force->0).0 as int,
                ) as i64
            } else {
                b.force_x
            },
            force_y: if self.max_external_force is Some {
                clamp_spec(
                    b.force_y as int,
                    -(self.max_external_force->0).1 as int,
                    (self.max_external_force->0).1 as int,
                ) as i64
            } else {
                b.force_y
            },
            torque: if self.max_external_torque is Some {
                clamp_spec(
                    b.torque as int,
                    -self.max_external_torque->0 as int,
                    self.max_external_torque->0 as int,
                ) as i64
            } else {
                b.torque
            },
            linear_damping: b.linear_damping,
            angular_damping: b.angular_damping,
        }
    }
}

/// Clamps a body's velocity and applied force to the fighter's configured
/// caps; damping is never capped.
pub fn cap_velocity(body: &mut BodyState, cap: &VelocityForceCap)
    requires
        cap.well_formed(),
    ensures
        *final(body) == cap.cap_spec(*old(body)),
{
    match cap.max_velocity {
        Option::Some(c) => {
            body.linvel_x = clamp_i64(body.linvel_x, -c.0, c.0);
            body.linvel_y = clamp_i64(body.linvel_y, -c.1, c.1);
        },
        Option::None => {},
    }
    match cap.max_angvel {
        Option::Some(c) => body.angvel = clamp_i64(body.angvel, -c, c),
        Option::None => {},
    }
    match cap.max_external_force {
        Option::Some(c) => {
            body.force_x = clamp_i64(body.force_x, -c.0, c.0);
            body.force_y = clamp_i64(body.force_y, -c.1, c.1);
        },
        Option::None => {},
    }
    match cap.max_external_torque {
        Option::Some(c) => body.torque = clamp_i64(body.torque, -c, c),
        Option::None => {},
    }
}

} // verus!
