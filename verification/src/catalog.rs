//! Static per-character attack data: combo-key slots, the attack graph from
//! symbolic action ids to concrete actions, projectile templates and
//! movement-action templates.  All of it is loaded once at match setup and
//! never changes during play.

use vstd::prelude::*;

use crate::action::MovementAction;
use crate::buffer::AttackType;
use crate::direction::Facing;
use crate::math::{Rot, GEOM_LIMIT};
use crate::world::SIZE_LIMIT;

verus! {

/// The reserved identifier standing for "no id bound": actions carrying it
/// are not entered into the attack graph.
pub const UNSET_ID: u64 = 0;

/// One symbolic id per canonical facing, as spawn and movement attack
/// actions carry it.  `Neutral` selects `none_id`.
#[derive(Clone, Copy, Debug, PartialEq, Eq, Structural)]
pub struct FacingIds {
    pub none_id: u64,
    pub left_id: u64,
    pub right_id: u64,
    pub down_id: u64,
    pub up_id: u64,
    pub up_left_id: u64,
    pub up_right_id: u64,
    pub down_left_id: u64,
    pub down_right_id: u64,
}

impl FacingIds {
    /// The id selected by a canonical facing.
    pub open spec fn id_for_spec(self, f: Facing) -> u64 {
        match f {
            Facing::Neutral => self.none_id,
            Facing::Up => self.up_id,
            Facing::Down => self.down_id,
            Facing::Left => self.left_id,
            Facing::Right => self.right_id,
            Facing::UpLeft => self.up_left_id,
            Facing::UpRight => self.up_right_id,
            Facing::DownLeft => self.down_left_id,
            Facing::DownRight => self.down_right_id,
        }
    }

    /// Selects the id for a facing.
    pub fn id_for(&self, f: Facing) -> (r: u64)
        ensures
            r == self.id_for_spec(f),
    {
        match f {
            Facing::Neutral => self.none_id,
            Facing::Up => self.up_id,
            Facing::Down => self.down_id,
            Facing::Left => self.left_id,
            Facing::Right => self.right_id,
            Facing::UpLeft => self.up_left_id,
            Facing::UpRight => self.up_right_id,
            Facing::DownLeft => self.down_left_id,
            Facing::DownRight => self.down_right_id,
        }
    }
}

/// One aim rotation per canonical facing; `Neutral` aims along the identity.
#[derive(Clone, Copy, Debug, PartialEq, Eq, Structural)]
pub struct DirRotateAngles {
    pub up: Rot,
    pub down: Rot,
    pub left: Rot,
    pub right: Rot,
    pub up_left: Rot,
    pub up_right: Rot,
    pub down_left: Rot,
    pub down_right: Rot,
}

impl DirRotateAngles {
    pub open spec fn well_formed(self) -> bool {
        self.up.bounded() && self.down.bounded() && self.left.bounded() && self.right.bounded()
            && self.up_left.bounded() && self.up_right.bounded() && self.down_left.bounded()
            && self.down_right.bounded()
    }

    /// The aim rotation selected by a canonical facing.
    pub open spec fn rotation_for_spec(self, f: Facing) -> Rot {
        match f {
            Facing::Neutral => Rot { c: crate::math::ROT_ONE, s: 0 },
            Facing::Up => self.up,
            Facing::Down => self.down,
            Facing::Left => self.left,
            Facing::Right => self.right,
            Facing::UpLeft => self.up_left,
            Facing::UpRight => self.up_right,
            Facing::DownLeft => self.down_left,
            Facing::DownRight => self.down_right,
        }
    }

    /// Selects the aim rotation for a facing.
    pub fn rotation_angle(&self, f: Facing) -> (r: Rot)
        requires
            self.well_formed(),
        ensures
            r == self.rotation_for_spec(f),
            r.bounded(),
    {
        match f {
            Facing::Neutral => Rot::identity(),
            Facing::Up => self.up,
            Facing::Down => self.down,
            Facing::Left => self.left,
            Facing::Right => self.right,
            Facing::UpLeft => self.up_left,
            Facing::UpRight => self.up_right,
            Facing::DownLeft => self.down_left,
            Facing::DownRight => self.down_right,
        }
    }
}

/// A projectile template: what one spawned projectile looks like and
/// carries, before facing-specific placement.
#[derive(Clone, Copy, Debug, PartialEq, Eq)]
pub struct Projectile {
    pub id: u64,
    pub damage: u64,
    pub pierce: u32,
    pub lifetime: u64,
    pub rotation: Rot,
    pub scale: (i64, i64),
    pub spawn_z_axis: i64,
    pub spawn_origin_rel_abs: (i64, i64, i64),
    pub spawn_origin_looking_radius: i64,
    pub sync_offset: (i64, i64, i64),
    pub svg_size: Option<(i64, i64)>,
    pub face_dir_looking_angles: DirRotateAngles,
}

impl Projectile {
    /// Bounds that keep the spawn-placement arithmetic exact.
    pub open spec fn well_formed(self) -> bool {
        &&& self.rotation.bounded()
        &&& -SIZE_LIMIT <= self.scale.0 <= SIZE_LIMIT
        &&& -SIZE_LIMIT <= self.scale.1 <= SIZE_LIMIT
        &&& -GEOM_LIMIT <= self.spawn_origin_looking_radius <= GEOM_LIMIT
        &&& self.face_dir_looking_angles.well_formed()
        &&& self.svg_size is Some ==> 0 <= (self.svg_size->0).0 <= SIZE_LIMIT && 0 <= (
        self.svg_size->0).1 <= SIZE_LIMIT
    }
}

/// A spawn-projectile action: per-facing projectile-template ids plus the
/// instance tag its spawned entities are filed under.
#[derive(Clone, Copy, Debug, PartialEq, Eq, Structural)]
pub struct SpawnProjectileAction {
    pub id: u64,
    pub ids: FacingIds,
    pub instance_id: u64,
}

/// A movement attack action: per-facing movement-action ids plus the
/// instance tag pairing it with a spawn action's entities.
#[derive(Clone, Copy, Debug, PartialEq, Eq, Structural)]
pub struct MovementAttackAction {
    pub id: u64,
    pub ids: FacingIds,
    pub instance_id: u64,
}

/// The two concrete action kinds an attack descriptor's symbolic id can
/// resolve to.
#[derive(Clone, Copy, Debug, PartialEq, Eq)]
pub enum AttackActions {
    SpawnProjectile(SpawnProjectileAction),
    MoveAttackAction(MovementAttackAction),
}

/// One attack descriptor: symbolic action ids in declaration order, and the
/// cooldown the attack starts when executed.
#[derive(Clone, Debug)]
pub struct Attack {
    pub actions: Vec<u64>,
    pub cooldown: u64,
}

/// The four combo-key slots of one character.
#[derive(Clone, Debug)]
pub struct AvailableAttacks {
    pub one_one: Option<Attack>,
    pub one_two: Option<Attack>,
    pub two_one: Option<Attack>,
    pub two_two: Option<Attack>,
}

impl AvailableAttacks {
    /// The slot a combo key is bound to.
    pub open spec fn slot_spec(self, combo: AttackType) -> Option<Attack> {
        match combo {
            AttackType::OneOne => self.one_one,
            AttackType::OneTwo => self.one_two,
            AttackType::TwoOne => self.two_one,
            AttackType::TwoTwo => self.two_two,
        }
    }

    /// Looks up the slot bound to a combo key.
    pub fn slot(&self, combo: AttackType) -> (r: &Option<Attack>)
        ensures
            *r == self.slot_spec(combo),
    {
        match combo {
            AttackType::OneOne => &self.one_one,
            AttackType::OneTwo => &self.one_two,
            AttackType::TwoOne => &self.two_one,
            AttackType::TwoTwo => &self.two_two,
        }
    }
}

/// The attack-graph rows built from a list of spawn actions: one row per
/// action with a bound id, in order.
pub open spec fn spawn_rows(s: Seq<SpawnProjectileAction>) -> Seq<(u64, AttackActions)>
    decreases s.len(),
{
    if s.len() == 0 {
        Seq::empty()
    } else if s.last().id != UNSET_ID {
        spawn_rows(s.drop_last()).push((s.last().id, AttackActions::SpawnProjectile(s.last())))
    } else {
        spawn_rows(s.drop_last())
    }
}

/// The attack-graph rows built from a list of movement attack actions.
pub open spec fn movement_rows(s: Seq<MovementAttackAction>) -> Seq<(u64, AttackActions)>
    decreases s.len(),
{
    if s.len() == 0 {
        Seq::empty()
    } else if s.last().id != UNSET_ID {
        movement_rows(s.drop_last()).push((s.last().id, AttackActions::MoveAttackAction(s.last())))
    } else {
        movement_rows(s.drop_last())
    }
}

/// The concrete actions an attack graph binds to one symbolic id, in row
/// order.
pub open spec fn actions_for_spec(rows: Seq<(u64, AttackActions)>, id: u64) -> Seq<AttackActions>
    decreases rows.len(),
{
    if rows.len() == 0 {
        Seq::empty()
    } else if rows.last().0 == id {
        actions_for_spec(rows.drop_last(), id).push(rows.last().1)
    } else {
        actions_for_spec(rows.drop_last(), id)
    }
}

/// The templates a projectile catalog binds to one template id, in order.
pub open spec fn templates_for_spec(s: Seq<Projectile>, id: u64) -> Seq<Projectile>
    decreases s.len(),
{
    if s.len() == 0 {
        Seq::empty()
    } else if s.last().id == id {
        templates_for_spec(s.drop_last(), id).push(s.last())
    } else {
        templates_for_spec(s.drop_last(), id)
    }
}

/// The movement actions a catalog binds to one action id, in order.
pub open spec fn movements_for_spec(s: Seq<MovementAction>, id: u64) -> Seq<MovementAction>
    decreases s.len(),
{
    if s.len() == 0 {
        Seq::empty()
    } else if s.last().id == id {
        movements_for_spec(s.drop_last(), id).push(s.last())
    } else {
        movements_for_spec(s.drop_last(), id)
    }
}

/// The attack graph: rows from a symbolic action id to one concrete action,
/// in insertion order.
#[derive(Clone, Debug)]
pub struct AttackMap {
    pub rows: Vec<(u64, AttackActions)>,
}

impl AttackMap {
    /// Gathers the actions bound to one symbolic id, in row order.
    pub fn actions_for(&self, id: u64) -> (v: Vec<AttackActions>)
        ensures
            v@ == actions_for_spec(self.rows@, id),
    {
        let mut v: Vec<AttackActions> = Vec::new();
        let n = self.rows.len();
        let mut i: usize = 0;
        while i < n
            invariant
                n == self.rows@.len(),
                0 <= i <= n,
                v@ == actions_for_spec(self.rows@.take(i as int), id),
            decreases n - i,
        {
            let row = self.rows[i];
            if row.0 == id {
                v.push(row.1);
            }
            proof {
                let taken = self.rows@.take(i as int + 1);
                assert(taken.drop_last() =~= self.rows@.take(i as int));
                assert(taken.last() == self.rows@[i as int]);
            }
            i += 1;
        }
        proof {
            assert(self.rows@.take(n as int) =~= self.rows@);
        }
        v
    }
}

/// The projectile-template catalog of one character.
#[derive(Clone, Debug)]
pub struct ProjectileMap {
    pub templates: Vec<Projectile>,
}

impl ProjectileMap {
    /// Every template obeys the spawn-arithmetic bounds.
    pub open spec fn well_formed(self) -> bool {
        forall|i: int|
            0 <= i < self.templates@.len() ==> (#[trigger] self.templates@[i]).well_formed()
    }

    /// Gathers the templates bound to one template id, in catalog order.
    pub fn templates_for(&self, id: u64) -> (v: Vec<Projectile>)
        ensures
            v@ == templates_for_spec(self.templates@, id),
    {
        let mut v: Vec<Projectile> = Vec::new();
        let n = self.templates.len();
        let mut i: usize = 0;
        while i < n
            invariant
                n == self.templates@.len(),
                0 <= i <= n,
                v@ == templates_for_spec(self.templates@.take(i as int), id),
            decreases n - i,
        {
            let t = self.templates[i];
            if t.id == id {
                v.push(t);
            }
            proof {
                let taken = self.templates@.take(i as int + 1);
                assert(taken.drop_last() =~= self.templates@.take(i as int));
                assert(taken.last() == self.templates@[i as int]);
            }
            i += 1;
        }
        proof {
            assert(self.templates@.take(n as int) =~= self.templates@);
        }
        v
    }
}

/// The movement-action template catalog of one character.
#[derive(Clone, Debug)]
pub struct MovementActionMap {
    pub actions: Vec<MovementAction>,
}

impl MovementActionMap {
    /// Gathers the movement actions bound to one action id, in order.
    pub fn movements_for(&self, id: u64) -> (v: Vec<MovementAction>)
        ensures
            v@ == movements_for_spec(self.actions@, id),
    {
        let mut v: Vec<MovementAction> = Vec::new();
        let n = self.actions.len();
        let mut i: usize = 0;
        while i < n
            invariant
                n == self.actions@.len(),
                0 <= i <= n,
                v@ == movements_for_spec(self.actions@.take(i as int), id),
            decreases n - i,
        {
            let a = self.actions[i];
            if a.id == id {
                v.push(a);
            }
            proof {
                let taken = self.actions@.take(i as int + 1);
                assert(taken.drop_last() =~= self.actions@.take(i as int));
                assert(taken.last() == self.actions@[i as int]);
            }
            i += 1;
        }
        proof {
            assert(self.actions@.take(n as int) =~= self.actions@);
        }
        v
    }
}

/// Adds every spawn action with a bound id to the attack graph, in
/// declaration order.
pub fn add_projectile_spawn_action_to_attack_map(
    graph: &mut AttackMap,
    spawn_actions: &Vec<SpawnProjectileAction>,
)
    ensures
        final(graph).rows@ == old(graph).rows@ + spawn_rows(spawn_actions@),
{
    let ghost mid = graph.rows@;
    let n = spawn_actions.len();
    let mut i: usize = 0;
    while i < n
        invariant
            n == spawn_actions@.len(),
            0 <= i <= n,
            graph.rows@ == mid + spawn_rows(spawn_actions@.take(i as int)),
        decreases n - i,
    {
        let a = spawn_actions[i];
        if a.id != UNSET_ID {
            graph.rows.push((a.id, AttackActions::SpawnProjectile(a)));
        }
        proof {
            let taken = spawn_actions@.take(i as int + 1);
            assert(taken.drop_last() =~= spawn_actions@.take(i as int));
            assert(taken.last() == spawn_actions@[i as int]);
            if spawn_actions@[i as int].id != UNSET_ID {
                assert(graph.rows@ =~= mid + spawn_rows(taken));
            }
        }
        i += 1;
    }
    proof {
        assert(spawn_actions@.take(n as int) =~= spawn_actions@);
    }
}

/// Adds every movement attack action with a bound id to the attack graph,
/// in declaration order.
pub fn add_movement_attack_action_to_attack_map(
    graph: &mut AttackMap,
    movement_actions: &Vec<MovementAttackAction>,
)
    ensures
        final(graph).rows@ == old(graph).rows@ + movement_rows(movement_actions@),
{
    let ghost mid = graph.rows@;
    let m = movement_actions.len();
    let mut j: usize = 0;
    while j < m
        invariant
            m == movement_actions@.len(),
            0 <= j <= m,
            graph.rows@ == mid + movement_rows(movement_actions@.take(j as int)),
        decreases m - j,
    {
        let a = movement_actions[j];
        if a.id != UNSET_ID {
            graph.rows.push((a.id, AttackActions::MoveAttackAction(a)));
        }
        proof {
            let taken = movement_actions@.take(j as int + 1);
            assert(taken.drop_last() =~= movement_actions@.take(j as int));
            assert(taken.last() == movement_actions@[j as int]);
            if movement_actions@[j as int].id != UNSET_ID {
                assert(graph.rows@ =~= mid + movement_rows(taken));
            }
        }
        j += 1;
    }
    proof {
        assert(movement_actions@.take(m as int) =~= movement_actions@);
    }
}

/// Builds the attack graph of one character: every spawn action with a bound
/// id, then every movement attack action with a bound id, in declaration
/// order.
pub fn create_action_map(
    spawn_actions: &Vec<SpawnProjectileAction>,
    movement_actions: &Vec<MovementAttackAction>,
) -> (r: AttackMap)
    ensures
        r.rows@ == spawn_rows(spawn_actions@) + movement_rows(movement_actions@),
{
    let mut graph = AttackMap { rows: Vec::new() };
    add_projectile_spawn_action_to_attack_map(&mut graph, spawn_actions);
    add_movement_attack_action_to_attack_map(&mut graph, movement_actions);
    proof {
        assert(Seq::<(u64, AttackActions)>::empty() + spawn_rows(spawn_actions@) =~= spawn_rows(
            spawn_actions@,
        ));
    }
    graph
}

/// Builds the projectile-template catalog: the templates as declared, in
/// order.
pub fn create_projectile_map(templates: &Vec<Projectile>) -> (r: ProjectileMap)
    ensures
        r.templates@ == templates@,
{
    let mut v: Vec<Projectile> = Vec::new();
    let n = templates.len();
    let mut i: usize = 0;
    while i < n
        invariant
            n == templates@.len(),
            0 <= i <= n,
            v@ == templates@.take(i as int),
        decreases n - i,
    {
        v.push(templates[i]);
        proof {
            assert(templates@.take(i as int + 1) =~= templates@.take(i as int).push(
                templates@[i as int],
            ));
        }
        i += 1;
    }
    proof {
        assert(templates@.take(n as int) =~= templates@);
    }
    ProjectileMap { templates: v }
}

/// Builds the movement-action catalog: the actions as declared, in order.
pub fn create_movement_action_map(actions: &Vec<MovementAction>) -> (r: MovementActionMap)
    ensures
        r.actions@ == actions@,
{
    let mut v: Vec<MovementAction> = Vec::new();
    let n = actions.len();
    let mut i: usize = 0;
    while i < n
        invariant
            n == actions@.len(),
            0 <= i <= n,
            v@ == actions@.take(i as int),
        decreases n - i,
    {
        v.push(actions[i]);
        proof {
            assert(actions@.take(i as int + 1) =~= actions@.take(i as int).push(
                actions@[i as int],
            ));
        }
        i += 1;
    }
    proof {
        assert(actions@.take(n as int) =~= actions@);
    }
    MovementActionMap { actions: v }
}

} // verus!
