//! Collision/Hit Resolution: a state machine over collision-start and
//! collision-stop notifications from the physics engine, updating jump
//! availability, death, and projectile-hit damage.

use vstd::prelude::*;

use crate::world::{
    AAPlayerDescriptor, Fighter, PlayerHealth, ProjectileArena, SpawnedProjectile,
};

verus! {

/// Whether a notification reports a beginning or an ending contact.
#[derive(Clone, Copy, Debug, PartialEq, Eq, Structural)]
pub enum CollisionEventType {
    Started,
    Stopped,
}

/// One collision notification: two opaque collider handles and the removal
/// flag that invalidates the event.
#[derive(Clone, Copy, Debug, PartialEq, Eq, Structural)]
pub struct CollisionEvent {
    pub event_type: CollisionEventType,
    pub collider_one: u64,
    pub collider_two: u64,
    pub removed: bool,
}

/// What a collider is a child of: a fighter's body, a projectile's body, or
/// the level itself.
#[derive(Clone, Copy, Debug, PartialEq, Eq, Structural)]
pub enum ColliderOwner {
    FighterBody(u64),
    ProjectileBody(usize),
    Level,
}

/// The gameplay role a collider is tagged with.
#[derive(Clone, Copy, Debug, PartialEq, Eq, Structural)]
pub enum AAColliderType {
    Solid,
    JumpReset,
    Death,
}

/// One collider: its handle, the body it belongs to, and its role.
#[derive(Clone, Copy, Debug, PartialEq, Eq, Structural)]
pub struct ColliderRec {
    pub id: u64,
    pub parent: ColliderOwner,
    pub collider_type: AAColliderType,
}

/// The collider registry the physics engine's handles resolve through.
#[derive(Clone, Debug)]
pub struct ColliderTable {
    pub recs: Vec<ColliderRec>,
}

/// The first record carrying a collider handle, if any.
pub open spec fn rec_of(s: Seq<ColliderRec>, id: u64) -> Option<ColliderRec>
    decreases s.len(),
{
    if s.len() == 0 {
        Option::None
    } else if s[0].id == id {
        Option::Some(s[0])
    } else {
        rec_of(s.drop_first(), id)
    }
}

/// Whether a collider handle resolves to a record of the given role.
pub open spec fn collider_kind_is(s: Seq<ColliderRec>, id: u64, kind: AAColliderType) -> bool {
    rec_of(s, id) is Some && rec_of(s, id)->0.collider_type == kind
}

/// The fighter a collider handle belongs to, if its parent is a fighter
/// body.
pub open spec fn owner_fighter(s: Seq<ColliderRec>, id: u64) -> Option<u64> {
    match rec_of(s, id) {
        Option::Some(rec) => match rec.parent {
            ColliderOwner::FighterBody(p) => Option::Some(p),
            _ => Option::None,
        },
        Option::None => Option::None,
    }
}

/// Whether some collider of the given role is a child of a fighter's body.
pub open spec fn fighter_has_child_kind(s: Seq<ColliderRec>, pid: u64, kind: AAColliderType) -> bool {
    exists|i: int|
        0 <= i < s.len() && (#[trigger] s[i]).parent == ColliderOwner::FighterBody(pid)
            && s[i].collider_type == kind
}

impl ColliderTable {
    /// Looks a collider handle up, returning its first record.
    pub fn lookup(&self, id: u64) -> (r: Option<ColliderRec>)
        ensures
            r == rec_of(self.recs@, id),
    {
        let n = self.recs.len();
        let mut i: usize = 0;
        while i < n
            invariant
                n == self.recs@.len(),
                0 <= i <= n,
                forall|j: int| 0 <= j < i ==> (#[trigger] self.recs@[j]).id != id,
            decreases n - i,
        {
            if self.recs[i].id == id {
                proof {
                    lemma_rec_of_at(self.recs@, i as int);
                }
                return Option::Some(self.recs[i]);
            }
            i += 1;
        }
        proof {
            lemma_rec_of_absent(self.recs@, id);
        }
        Option::None
    }

    /// Whether a fighter's body carries a child collider of the given role.
    pub fn fighter_has_kind(&self, pid: u64, kind: AAColliderType) -> (r: bool)
        ensures
            r == fighter_has_child_kind(self.recs@, pid, kind),
    {
        let n = self.recs.len();
        let mut i: usize = 0;
        while i < n
            invariant
                n == self.recs@.len(),
                0 <= i <= n,
                forall|j: int|
                    0 <= j < i ==> !((#[trigger] self.recs@[j]).parent
                        == ColliderOwner::FighterBody(pid) && self.recs@[j].collider_type == kind),
            decreases n - i,
        {
            let rec = self.recs[i];
            if rec.collider_type == kind {
                match rec.parent {
                    ColliderOwner::FighterBody(p) => {
                        if p == pid {
                            return true;
                        }
                    },
                    _ => {},
                }
            }
            i += 1;
        }
        false
    }
}

/// The first-match scan agrees with `rec_of`.
proof fn lemma_rec_of_at(s: Seq<ColliderRec>, i: int)
    requires
        0 <= i < s.len(),
        forall|j: int| 0 <= j < i ==> (#[trigger] s[j]).id != s[i].id,
    ensures
        rec_of(s, s[i].id) == Option::Some(s[i]),
    decreases i,
{
    if i > 0 {
        assert(s.drop_first()[i - 1] == s[i]);
        assert(forall|j: int|
            0 <= j < i - 1 ==> (#[trigger] s.drop_first()[j]).id != s.drop_first()[i - 1].id);
        lemma_rec_of_at(s.drop_first(), i - 1);
    }
}

/// No record carries the handle.
proof fn lemma_rec_of_absent(s: Seq<ColliderRec>, id: u64)
    requires
        forall|j: int| 0 <= j < s.len() ==> (#[trigger] s[j]).id != id,
    ensures
        rec_of(s, id) is None,
    decreases s.len(),
{
    if s.len() > 0 {
        lemma_rec_of_absent(s.drop_first(), id);
    }
}

/// Which of a notification's two collider handles resolved to a fighter.
#[derive(Clone, Copy, Debug, PartialEq, Eq, Structural)]
pub enum FoundPlayerRigidId {
    ColliderOne,
    ColliderTwo,
    Both,
}

/// How many fighters a notification involves, and which.
#[derive(Clone, Copy, Debug, PartialEq, Eq)]
pub enum CollisionPlayerType {
    NoFighter,
    Single(FoundPlayerRigidId, u64),
    Two(FoundPlayerRigidId, (u64, u64)),
}

/// Resolves a notification's two collider handles to their owning fighters:
/// each collider is walked up to its parent body, and a fighter counts as
/// involved when that body is a fighter's.
pub fn process_collision_event(
    table: &ColliderTable,
    collider_one: u64,
    collider_two: u64,
) -> (r: CollisionPlayerType)
    ensures
        ({
            let o1 = owner_fighter(table.recs@, collider_one);
            let o2 = owner_fighter(table.recs@, collider_two);
            r == (if o1 is Some && o2 is Some {
                CollisionPlayerType::Two(FoundPlayerRigidId::Both, (o1->0, o2->0))
            } else if o1 is Some {
                CollisionPlayerType::Single(FoundPlayerRigidId::ColliderOne, o1->0)
            } else if o2 is Some {
                CollisionPlayerType::Single(FoundPlayerRigidId::ColliderTwo, o2->0)
            } else {
                CollisionPlayerType::NoFighter
            })
        }),
{
    let r1 = table.lookup(collider_one);
    let r2 = table.lookup(collider_two);
    let p1 = match r1 {
        Option::Some(rec) => match rec.parent {
            ColliderOwner::FighterBody(p) => Option::Some(p),
            _ => Option::None,
        },
        Option::None => Option::None,
    };
    let p2 = match r2 {
        Option::Some(rec) => match rec.parent {
            ColliderOwner::FighterBody(p) => Option::Some(p),
            _ => Option::None,
        },
        Option::None => Option::None,
    };
    match (p1, p2) {
        (Option::Some(a), Option::Some(b)) => CollisionPlayerType::Two(
            FoundPlayerRigidId::Both,
            (a, b),
        ),
        (Option::Some(a), Option::None) => CollisionPlayerType::Single(
            FoundPlayerRigidId::ColliderOne,
            a,
        ),
        (Option::None, Option::Some(b)) => CollisionPlayerType::Single(
            FoundPlayerRigidId::ColliderTwo,
            b,
        ),
        (Option::None, Option::None) => CollisionPlayerType::NoFighter,
    }
}

/// A fighter after a beginning jump-reset contact: jumps restored to the
/// maximum and collision dominance held.
pub open spec fn jump_reset_started(f: Fighter) -> Fighter {
    Fighter {
        descriptor: AAPlayerDescriptor {
            available_jumps: f.descriptor.maximum_jumps,
            char_collision_dominance: true,
            ..f.descriptor
        },
        ..f
    }
}

/// A fighter after an ending jump-reset contact: one jump short of the
/// maximum and dominance released.
pub open spec fn jump_reset_stopped(f: Fighter) -> Fighter {
    Fighter {
        descriptor: AAPlayerDescriptor {
            available_jumps: (f.descriptor.maximum_jumps - 1) as u32,
            char_collision_dominance: false,
            ..f.descriptor
        },
        ..f
    }
}

/// A fighter after a beginning two-fighter jump-reset contact: jumps
/// restored to the maximum; dominance is left as it stands.
pub open spec fn jump_reset_restored(f: Fighter) -> Fighter {
    Fighter {
        descriptor: AAPlayerDescriptor {
            available_jumps: f.descriptor.maximum_jumps,
            ..f.descriptor
        },
        ..f
    }
}

/// A fighter knocked out: health set to zero.
pub open spec fn knocked_out(f: Fighter) -> Fighter {
    Fighter { health: PlayerHealth { current_health: 0, ..f.health }, ..f }
}

/// A fighter struck by a projectile: damage taken out of health, clamped at
/// zero.
pub open spec fn damaged(f: Fighter, damage: u64) -> Fighter {
    Fighter {
        health: PlayerHealth {
            current_health: if f.health.current_health >= damage {
                (f.health.current_health - damage) as u64
            } else {
                0
            },
            ..f.health
        },
        ..f
    }
}

/// The fighter list with one update applied to every fighter carrying the
/// id; with unique ids, to exactly that fighter.
pub open spec fn map_pid(s: Seq<Fighter>, pid: u64, g: spec_fn(Fighter) -> Fighter) -> Seq<Fighter> {
    Seq::new(s.len(), |i: int| if s[i].player_id == pid { g(s[i]) } else { s[i] })
}

/// The fighter list after a single-fighter contact with a potential
/// jump-reset collider.
pub open spec fn single_jump_spec(
    s: Seq<Fighter>,
    recs: Seq<ColliderRec>,
    pid: u64,
    other: u64,
    et: CollisionEventType,
) -> Seq<Fighter> {
    if collider_kind_is(recs, other, AAColliderType::JumpReset) {
        match et {
            CollisionEventType::Started => map_pid(s, pid, |f: Fighter| jump_reset_started(f)),
            CollisionEventType::Stopped => map_pid(s, pid, |f: Fighter| jump_reset_stopped(f)),
        }
    } else {
        s
    }
}

/// The fighter list after a single-fighter contact with a potential death
/// collider: an instant knockout on both beginning and ending contact.
pub open spec fn single_death_spec(
    s: Seq<Fighter>,
    recs: Seq<ColliderRec>,
    pid: u64,
    other: u64,
) -> Seq<Fighter> {
    if collider_kind_is(recs, other, AAColliderType::Death) {
        map_pid(s, pid, |f: Fighter| knocked_out(f))
    } else {
        s
    }
}

/// The fighter list after a two-fighter contact where a jump-reset collider
/// is a child of either fighter: the rule applies to both simultaneously and
/// to nobody else.
pub open spec fn double_jump_spec(
    s: Seq<Fighter>,
    recs: Seq<ColliderRec>,
    p1: u64,
    p2: u64,
    et: CollisionEventType,
) -> Seq<Fighter> {
    if fighter_has_child_kind(recs, p1, AAColliderType::JumpReset) || fighter_has_child_kind(
        recs,
        p2,
        AAColliderType::JumpReset,
    ) {
        match et {
            CollisionEventType::Started => map_pid(
                map_pid(s, p1, |f: Fighter| jump_reset_restored(f)),
                p2,
                |f: Fighter| jump_reset_restored(f),
            ),
            CollisionEventType::Stopped => map_pid(
                map_pid(s, p1, |f: Fighter| jump_reset_stopped(f)),
                p2,
                |f: Fighter| jump_reset_stopped(f),
            ),
        }
    } else {
        s
    }
}

/// Whether a projectile hit applies: the other collider's parent is a live
/// projectile, the struck collider is tagged solid, its parent is a fighter
/// other than the projectile's owner, and that fighter is present.
pub open spec fn hit_applies(
    s: Seq<Fighter>,
    arena: Seq<Option<SpawnedProjectile>>,
    recs: Seq<ColliderRec>,
    own: u64,
    other: u64,
) -> bool {
    &&& rec_of(recs, other) is Some
    &&& rec_of(recs, other)->0.parent is ProjectileBody
    &&& {
        let h = rec_of(recs, other)->0.parent->ProjectileBody_0;
        &&& h < arena.len()
        &&& arena[h as int] is Some
        &&& rec_of(recs, own) is Some
        &&& rec_of(recs, own)->0.parent is FighterBody
        &&& arena[h as int]->0.ident.parent != rec_of(recs, own)->0.parent->FighterBody_0
        &&& rec_of(recs, own)->0.collider_type == AAColliderType::Solid
        &&& crate::batch::fighter_lookup(s, rec_of(recs, own)->0.parent->FighterBody_0) is Some
    }
}

/// The projectile after one applied hit: pierce decremented by exactly one,
/// stopping at zero.
pub open spec fn pierced(p: SpawnedProjectile) -> SpawnedProjectile {
    SpawnedProjectile {
        ident: crate::world::ProjectileIdentifier {
            pierce: if p.ident.pierce >= 1 {
                (p.ident.pierce - 1) as u32
            } else {
                0
            },
            ..p.ident
        },
        ..p
    }
}

/// Fighters and arena after a potential projectile hit.
pub open spec fn hit_spec(
    s: Seq<Fighter>,
    arena: Seq<Option<SpawnedProjectile>>,
    recs: Seq<ColliderRec>,
    own: u64,
    other: u64,
) -> (Seq<Fighter>, Seq<Option<SpawnedProjectile>>) {
    if hit_applies(s, arena, recs, own, other) {
        let h = rec_of(recs, other)->0.parent->ProjectileBody_0;
        let pid = rec_of(recs, own)->0.parent->FighterBody_0;
        let damage = arena[h as int]->0.ident.damage;
        (
            map_pid(s, pid, |f: Fighter| damaged(f, damage)),
            arena.update(h as int, Option::Some(pierced(arena[h as int]->0))),
        )
    } else {
        (s, arena)
    }
}

/// Fighters and arena after one collision notification.
pub open spec fn event_spec(
    s: Seq<Fighter>,
    arena: Seq<Option<SpawnedProjectile>>,
    recs: Seq<ColliderRec>,
    ev: CollisionEvent,
) -> (Seq<Fighter>, Seq<Option<SpawnedProjectile>>) {
    if ev.removed {
        (s, arena)
    } else {
        let o1 = owner_fighter(recs, ev.collider_one);
        let o2 = owner_fighter(recs, ev.collider_two);
        if o1 is Some && o2 is Some {
            (double_jump_spec(s, recs, o1->0, o2->0, ev.event_type), arena)
        } else if o1 is Some {
            single_event_spec(s, arena, recs, o1->0, ev.collider_one, ev.collider_two, ev.event_type)
        } else if o2 is Some {
            single_event_spec(s, arena, recs, o2->0, ev.collider_two, ev.collider_one, ev.event_type)
        } else {
            (s, arena)
        }
    }
}

/// The single-fighter branch of one notification: jump reset, then death,
/// then, on a beginning contact, a projectile hit.
pub open spec fn single_event_spec(
    s: Seq<Fighter>,
    arena: Seq<Option<SpawnedProjectile>>,
    recs: Seq<ColliderRec>,
    pid: u64,
    own: u64,
    other: u64,
    et: CollisionEventType,
) -> (Seq<Fighter>, Seq<Option<SpawnedProjectile>>) {
    let s1 = single_jump_spec(s, recs, pid, other, et);
    let s2 = single_death_spec(s1, recs, pid, other);
    match et {
        CollisionEventType::Started => hit_spec(s2, arena, recs, own, other),
        CollisionEventType::Stopped => (s2, arena),
    }
}

/// All notifications of one tick processed in order.
pub open spec fn events_fold(
    s: Seq<Fighter>,
    arena: Seq<Option<SpawnedProjectile>>,
    recs: Seq<ColliderRec>,
    events: Seq<CollisionEvent>,
) -> (Seq<Fighter>, Seq<Option<SpawnedProjectile>>)
    decreases events.len(),
{
    if events.len() == 0 {
        (s, arena)
    } else {
        let prior = events_fold(s, arena, recs, events.drop_last());
        event_spec(prior.0, prior.1, recs, events.last())
    }
}

/// Simultaneous two-fighter jump-reset contact: on a beginning contact both
/// involved fighters' jumps are restored to their maxima; on an ending
/// contact both drop to one below the maximum; a fighter involved in
/// neither role is never affected.
pub proof fn lemma_double_jump_reset(
    s: Seq<Fighter>,
    recs: Seq<ColliderRec>,
    p1: u64,
    p2: u64,
)
    requires
        fighters_wf(s),
        fighter_has_child_kind(recs, p1, AAColliderType::JumpReset) || fighter_has_child_kind(
            recs,
            p2,
            AAColliderType::JumpReset,
        ),
    ensures
        forall|i: int|
            0 <= i < s.len() && ((#[trigger] s[i]).player_id == p1 || s[i].player_id == p2)
                ==> double_jump_spec(s, recs, p1, p2, CollisionEventType::Started)[i]
                .descriptor.available_jumps == s[i].descriptor.maximum_jumps,
        forall|i: int|
            0 <= i < s.len() && ((#[trigger] s[i]).player_id == p1 || s[i].player_id == p2)
                ==> double_jump_spec(s, recs, p1, p2, CollisionEventType::Stopped)[i]
                .descriptor.available_jumps == s[i].descriptor.maximum_jumps - 1,
        forall|i: int|
            0 <= i < s.len() && (#[trigger] s[i]).player_id != p1 && s[i].player_id != p2
                ==> double_jump_spec(s, recs, p1, p2, CollisionEventType::Started)[i] == s[i]
                && double_jump_spec(s, recs, p1, p2, CollisionEventType::Stopped)[i] == s[i],
{
}

/// Projectile hits: damage comes off a struck fighter's health exactly when
/// the struck collider is tagged solid and its owning fighter differs from
/// the projectile's owner; each applied hit lowers the projectile's pierce
/// by exactly one; health loses exactly the damage, stopping at zero, so it
/// can never go negative however many hits land.
pub proof fn lemma_projectile_hit(
    s: Seq<Fighter>,
    arena: Seq<Option<SpawnedProjectile>>,
    recs: Seq<ColliderRec>,
    own: u64,
    other: u64,
)
    ensures
        !hit_applies(s, arena, recs, own, other) ==> hit_spec(s, arena, recs, own, other) == (
        s,
        arena,
        ),
        hit_applies(s, arena, recs, own, other) ==> ({
            let h = rec_of(recs, other)->0.parent->ProjectileBody_0;
            let pid = rec_of(recs, own)->0.parent->FighterBody_0;
            let damage = arena[h as int]->0.ident.damage;
            let (s2, a2) = hit_spec(s, arena, recs, own, other);
            &&& forall|i: int|
                0 <= i < s.len() && (#[trigger] s[i]).player_id == pid
                    ==> s2[i].health.current_health == (if s[i].health.current_health >= damage {
                    s[i].health.current_health - damage
                } else {
                    0
                })
            &&& forall|i: int|
                0 <= i < s.len() && (#[trigger] s[i]).player_id != pid ==> s2[i] == s[i]
            &&& arena[h as int]->0.ident.pierce >= 1 ==> a2[h as int]->0.ident.pierce == arena[
                h as int
            ]->0.ident.pierce - 1
            &&& forall|q: int| 0 <= q < arena.len() && q != h ==> a2[q] == arena[q]
        }),
{
}

/// Every fighter well formed.
pub open spec fn fighters_wf(s: Seq<Fighter>) -> bool {
    forall|i: int| 0 <= i < s.len() ==> (#[trigger] s[i]).well_formed()
}

/// Applies one per-fighter update to every fighter carrying the id.
fn update_pid(fighters: &mut Vec<Fighter>, pid: u64, mode: u8)
    requires
        mode <= 3,
        fighters_wf(old(fighters)@),
    ensures
        fighters_wf(final(fighters)@),
        final(fighters)@ == map_pid(
            old(fighters)@,
            pid,
            if mode == 0 {
                |f: Fighter| jump_reset_started(f)
            } else if mode == 1 {
                |f: Fighter| jump_reset_stopped(f)
            } else if mode == 2 {
                |f: Fighter| knocked_out(f)
            } else {
                |f: Fighter| jump_reset_restored(f)
            },
        ),
{
    let ghost g: spec_fn(Fighter) -> Fighter = if mode == 0 {
        |f: Fighter| jump_reset_started(f)
    } else if mode == 1 {
        |f: Fighter| jump_reset_stopped(f)
    } else if mode == 2 {
        |f: Fighter| knocked_out(f)
    } else {
        |f: Fighter| jump_reset_restored(f)
    };
    let n = fighters.len();
    let mut i: usize = 0;
    while i < n
        invariant
            mode <= 3,
            g == (if mode == 0 {
                |f: Fighter| jump_reset_started(f)
            } else if mode == 1 {
                |f: Fighter| jump_reset_stopped(f)
            } else if mode == 2 {
                |f: Fighter| knocked_out(f)
            } else {
                |f: Fighter| jump_reset_restored(f)
            }),
            n == fighters@.len(),
            fighters@.len() == old(fighters)@.len(),
            0 <= i <= n,
            fighters_wf(old(fighters)@),
            fighters_wf(fighters@),
            forall|k: int| i <= k < n ==> fighters@[k] == old(fighters)@[k],
            forall|k: int|
                0 <= k < i ==> fighters@[k] == (if old(fighters)@[k].player_id == pid {
                    g(old(fighters)@[k])
                } else {
                    old(fighters)@[k]
                }),
        decreases n - i,
    {
        if fighters[i].player_id == pid {
            if mode == 0 {
                let max = fighters[i].descriptor.maximum_jumps;
                let f = &mut fighters[i];
                f.descriptor.available_jumps = max;
                f.descriptor.char_collision_dominance = true;
            } else if mode == 1 {
                let max = fighters[i].descriptor.maximum_jumps;
                let f = &mut fighters[i];
                f.descriptor.available_jumps = max - 1;
                f.descriptor.char_collision_dominance = false;
            } else if mode == 2 {
                let f = &mut fighters[i];
                f.health.current_health = 0;
            } else {
                let max = fighters[i].descriptor.maximum_jumps;
                let f = &mut fighters[i];
                f.descriptor.available_jumps = max;
            }
        }
        i += 1;
    }
    proof {
        assert(fighters@ =~= map_pid(old(fighters)@, pid, g));
    }
}

/// On contact with a jump-reset collider, restores a fighter's jumps on a
/// beginning contact (holding dominance) or drops them to one below the
/// maximum on an ending one (releasing dominance); any other collider leaves
/// the fighter untouched.
pub fn single_update_player_jump_reset(
    fighters: &mut Vec<Fighter>,
    pid: u64,
    potential_jump_reset: u64,
    table: &ColliderTable,
    collision_type: CollisionEventType,
)
    requires
        fighters_wf(old(fighters)@),
    ensures
        fighters_wf(final(fighters)@),
        final(fighters)@ == single_jump_spec(
            old(fighters)@,
            table.recs@,
            pid,
            potential_jump_reset,
            collision_type,
        ),
{
    match table.lookup(potential_jump_reset) {
        Option::Some(rec) => {
            if rec.collider_type == AAColliderType::JumpReset {
                match collision_type {
                    CollisionEventType::Started => update_pid(fighters, pid, 0),
                    CollisionEventType::Stopped => update_pid(fighters, pid, 1),
                }
            }
        },
        Option::None => {},
    }
}

/// On contact with a death collider — beginning or ending — sets the
/// fighter's health to zero.
pub fn single_update_player_death(
    fighters: &mut Vec<Fighter>,
    pid: u64,
    potential_death: u64,
    table: &ColliderTable,
)
    requires
        fighters_wf(old(fighters)@),
    ensures
        fighters_wf(final(fighters)@),
        final(fighters)@ == single_death_spec(old(fighters)@, table.recs@, pid, potential_death),
{
    match table.lookup(potential_death) {
        Option::Some(rec) => {
            if rec.collider_type == AAColliderType::Death {
                update_pid(fighters, pid, 2);
            }
        },
        Option::None => {},
    }
}

/// When two fighters touch and a jump-reset collider is a child of either,
/// applies the reset or decrement rule to both simultaneously — and to no
/// other fighter.  The ending contact decrements both unconditionally.
pub fn double_update_player_jump_reset(
    fighters: &mut Vec<Fighter>,
    p1: u64,
    p2: u64,
    table: &ColliderTable,
    collision_type: CollisionEventType,
)
    requires
        fighters_wf(old(fighters)@),
    ensures
        fighters_wf(final(fighters)@),
        final(fighters)@ == double_jump_spec(
            old(fighters)@,
            table.recs@,
            p1,
            p2,
            collision_type,
        ),
{
    let involved = table.fighter_has_kind(p1, AAColliderType::JumpReset) || table.fighter_has_kind(
        p2,
        AAColliderType::JumpReset,
    );
    if involved {
        match collision_type {
            CollisionEventType::Started => {
                update_pid(fighters, p1, 3);
                update_pid(fighters, p2, 3);
            },
            CollisionEventType::Stopped => {
                update_pid(fighters, p1, 1);
                update_pid(fighters, p2, 1);
            },
        }
    }
}

/// Applies a projectile hit: when the struck collider is solid and owned by
/// a fighter other than the projectile's owner, damage comes off that
/// fighter's health (clamped at zero) and the projectile's pierce counter
/// drops by exactly one.  Self-hits, sensor colliders and vanished entities
/// change nothing.
pub fn projectile_hit_collision_event(
    fighters: &mut Vec<Fighter>,
    arena: &mut ProjectileArena,
    own_collider: u64,
    other_collider: u64,
    table: &ColliderTable,
)
    requires
        fighters_wf(old(fighters)@),
        old(arena).well_formed(),
    ensures
        fighters_wf(final(fighters)@),
        final(arena).well_formed(),
        (final(fighters)@, final(arena).slots@) == hit_spec(
            old(fighters)@,
            old(arena).slots@,
            table.recs@,
            own_collider,
            other_collider,
        ),
{
    let other_rec = match table.lookup(other_collider) {
        Option::Some(rec) => rec,
        Option::None => {
            return ;
        },
    };
    let h = match other_rec.parent {
        ColliderOwner::ProjectileBody(h) => h,
        _ => {
            return ;
        },
    };
    if h >= arena.slots.len() {
        return ;
    }
    let damage = match &arena.slots[h] {
        Option::Some(ent) => ent.ident.damage,
        Option::None => {
            return ;
        },
    };
    let owner = match &arena.slots[h] {
        Option::Some(ent) => ent.ident.parent,
        Option::None => {
            return ;
        },
    };
    let own_rec = match table.lookup(own_collider) {
        Option::Some(rec) => rec,
        Option::None => {
            return ;
        },
    };
    let pid = match own_rec.parent {
        ColliderOwner::FighterBody(p) => p,
        _ => {
            return ;
        },
    };
    if owner == pid {
        return ;
    }
    if own_rec.collider_type != AAColliderType::Solid {
        return ;
    }
    match crate::batch::find_fighter(fighters, pid) {
        Option::None => {
            return ;
        },
        Option::Some(_) => {},
    }
    let n = fighters.len();
    let mut i: usize = 0;
    while i < n
        invariant
            n == fighters@.len(),
            fighters@.len() == old(fighters)@.len(),
            0 <= i <= n,
            fighters_wf(old(fighters)@),
            fighters_wf(fighters@),
            forall|k: int| i <= k < n ==> fighters@[k] == old(fighters)@[k],
            forall|k: int|
                0 <= k < i ==> fighters@[k] == (if old(fighters)@[k].player_id == pid {
                    damaged(old(fighters)@[k], damage)
                } else {
                    old(fighters)@[k]
                }),
        decreases n - i,
    {
        if fighters[i].player_id == pid {
            let current = fighters[i].health.current_health;
            let f = &mut fighters[i];
            f.health.current_health = if current >= damage {
                current - damage
            } else {
                0
            };
        }
        i += 1;
    }
    proof {
        assert(fighters@ =~= map_pid(old(fighters)@, pid, |f: Fighter| damaged(f, damage)));
    }
    let slot = &mut arena.slots[h];
    match slot {
        Option::Some(ent) => {
            if ent.ident.pierce >= 1 {
                ent.ident.pierce = ent.ident.pierce - 1;
            } else {
                ent.ident.pierce = 0;
            }
        },
        Option::None => {},
    }
    proof {
        assert(arena.slots@ =~= old(arena).slots@.update(
            h as int,
            Option::Some(pierced(old(arena).slots@[h as int]->0)),
        ));
    }
}

/// Processes every collision notification of one tick, in order: events
/// flagged removed are ignored; a single fighter against a collider takes
/// the jump-reset, death and (on beginning contact) projectile-hit rules;
/// two fighters take the simultaneous jump-reset rule.
pub fn collision_process(
    events: &Vec<CollisionEvent>,
    table: &ColliderTable,
    fighters: &mut Vec<Fighter>,
    arena: &mut ProjectileArena,
)
    requires
        fighters_wf(old(fighters)@),
        old(arena).well_formed(),
    ensures
        fighters_wf(final(fighters)@),
        final(arena).well_formed(),
        (final(fighters)@, final(arena).slots@) == events_fold(
            old(fighters)@,
            old(arena).slots@,
            table.recs@,
            events@,
        ),
{
    let n = events.len();
    let mut i: usize = 0;
    while i < n
        invariant
            fighters_wf(fighters@),
            arena.well_formed(),
            n == events@.len(),
            0 <= i <= n,
            (fighters@, arena.slots@) == events_fold(
                old(fighters)@,
                old(arena).slots@,
                table.recs@,
                events@.take(i as int),
            ),
        decreases n - i,
    {
        let ev = events[i];
        if !ev.removed {
            match process_collision_event(table, ev.collider_one, ev.collider_two) {
                CollisionPlayerType::Two(_, pair) => {
                    double_update_player_jump_reset(
                        fighters,
                        pair.0,
                        pair.1,
                        table,
                        ev.event_type,
                    );
                },
                CollisionPlayerType::Single(found, pid) => {
                    let (own_collider, other_collider) = match found {
                        FoundPlayerRigidId::ColliderOne => (ev.collider_one, ev.collider_two),
                        _ => (ev.collider_two, ev.collider_one),
                    };
                    single_update_player_jump_reset(
                        fighters,
                        pid,
                        other_collider,
                        table,
                        ev.event_type,
                    );
                    single_update_player_death(fighters, pid, other_collider, table);
                    match ev.event_type {
                        CollisionEventType::Started => {
                            projectile_hit_collision_event(
                                fighters,
                                arena,
                                own_collider,
                                other_collider,
                                table,
                            );
                        },
                        CollisionEventType::Stopped => {},
                    }
                },
                CollisionPlayerType::NoFighter => {},
            }
        }
        proof {
            let taken = events@.take(i as int + 1);
            assert(taken.drop_last() =~= events@.take(i as int));
            assert(taken.last() == events@[i as int]);
        }
        i += 1;
    }
    proof {
        assert(events@.take(n as int) =~= events@);
    }
}

} // verus!
