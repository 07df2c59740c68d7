//! The simulation state: fighters, projectile entities, dependent visual
//! entities, and the per-tick upkeep passes over them.
//!
//! Entity handles are indices into append-only arenas whose slots are cleared
//! on despawn and never reused, so a stale handle can be detected but can
//! never denote a different entity.

use vstd::prelude::*;

use crate::action::{BodyState, VelocityForceCap};
use crate::buffer::AttackBuffer;
use crate::direction::DirectionFlags;
use crate::math::{Rot, GEOM_LIMIT, ROT_ONE};

verus! {

/// Magnitude bound on scale factors and intrinsic asset sizes, chosen so the
/// anchor-correction products stay inside [`rotate_point`]'s domain.
pub const SIZE_LIMIT: i64 = 0x40_0000;

/// A planar transform: fixed-point translation, z-order, rotation and scale.
#[derive(Clone, Copy, Debug, PartialEq, Eq, Structural)]
pub struct Transform2 {
    pub x: i64,
    pub y: i64,
    pub z: i64,
    pub rot: Rot,
    pub scale_x: i64,
    pub scale_y: i64,
}

impl Transform2 {
    /// Rotation components are unit-scaled and the scale factors are small
    /// enough for the anchor-correction arithmetic.
    pub open spec fn well_formed(self) -> bool {
        self.rot.bounded() && -SIZE_LIMIT <= self.scale_x <= SIZE_LIMIT && -SIZE_LIMIT
            <= self.scale_y <= SIZE_LIMIT
    }

    /// The identity transform at the origin.
    pub fn at_origin() -> (r: Transform2)
        ensures
            r == (Transform2 {
                x: 0i64,
                y: 0i64,
                z: 0i64,
                rot: Rot { c: ROT_ONE, s: 0i64 },
                scale_x: 1i64,
                scale_y: 1i64,
            }),
            r.well_formed(),
    {
        Transform2 { x: 0, y: 0, z: 0, rot: Rot::identity(), scale_x: 1, scale_y: 1 }
    }
}

/// Per-dependent synchronization switches.
#[derive(Clone, Copy, Debug, PartialEq, Eq, Structural)]
pub struct SyncColliderFlags {
    pub rotation: bool,
}

/// The dependents bound to one authoritative physics transform.
#[derive(Clone, Debug)]
pub struct ColliderSyncEntity {
    pub synced_objects: Vec<(usize, SyncColliderFlags)>,
}

impl ColliderSyncEntity {
    /// Whether the group names visual `v`.
    pub open spec fn names(self, v: int) -> bool {
        exists|k: int|
            0 <= k < self.synced_objects@.len() && (#[trigger] self.synced_objects@[k]).0 == v
    }

    /// Each dependent is named once, so one pass writes each at most once.
    pub open spec fn well_formed(self) -> bool {
        forall|i: int, j: int|
            0 <= i < j < self.synced_objects@.len() ==> (#[trigger] self.synced_objects@[i]).0 != (
            #[trigger] self.synced_objects@[j]).0
    }

    /// A group with no dependents.
    pub fn empty() -> (r: ColliderSyncEntity)
        ensures
            r.synced_objects@.len() == 0,
            r.well_formed(),
    {
        ColliderSyncEntity { synced_objects: Vec::new() }
    }
}

/// One dependent visual entity: its transform, its fixed local offset, and,
/// for vector-graphic assets, the intrinsic size driving anchor correction.
#[derive(Clone, Copy, Debug, PartialEq, Eq)]
pub struct Visual {
    pub transform: Transform2,
    pub offset_x: i64,
    pub offset_y: i64,
    pub offset_z: i64,
    pub svg_size: Option<(i64, i64)>,
}

impl Visual {
    /// Transform bounds hold and any intrinsic size is small enough for the
    /// anchor-correction arithmetic.
    pub open spec fn well_formed(self) -> bool {
        self.transform.well_formed() && (self.svg_size is Some ==> 0 <= (self.svg_size->0).0
            <= SIZE_LIMIT && 0 <= (self.svg_size->0).1 <= SIZE_LIMIT)
    }
}

/// Append-only arena of visual entities; despawned slots stay empty.
#[derive(Clone, Debug)]
pub struct VisualStore {
    pub slots: Vec<Option<Visual>>,
}

impl VisualStore {
    /// Every live visual satisfies its bounds.
    pub open spec fn well_formed(self) -> bool {
        forall|i: int|
            0 <= i < self.slots@.len() && (#[trigger] self.slots@[i]) is Some ==> (
            self.slots@[i]->0).well_formed()
    }

    /// An arena with no entities.
    pub fn new() -> (r: VisualStore)
        ensures
            r.slots@.len() == 0,
            r.well_formed(),
    {
        VisualStore { slots: Vec::new() }
    }

    /// Spawns a visual, returning its handle.
    pub fn spawn(&mut self, v: Visual) -> (h: usize)
        requires
            old(self).well_formed(),
            v.well_formed(),
        ensures
            final(self).well_formed(),
            h == old(self).slots@.len(),
            final(self).slots@ == old(self).slots@.push(Option::Some(v)),
    {
        let h = self.slots.len();
        self.slots.push(Option::Some(v));
        h
    }

    /// Clears the slot a handle names; a stale or out-of-range handle is a
    /// no-op.
    pub fn despawn(&mut self, h: usize)
        requires
            old(self).well_formed(),
        ensures
            final(self).well_formed(),
            final(self).slots@.len() == old(self).slots@.len(),
            forall|i: int|
                0 <= i < old(self).slots@.len() && i != h ==> final(self).slots@[i] == old(
                    self,
                ).slots@[i],
            h < old(self).slots@.len() ==> final(self).slots@[h as int] is None,
    {
        if h < self.slots.len() {
            self.slots.set(h, Option::None);
        }
    }
}

/// Identity, jump bookkeeping and facing of one fighter.
#[derive(Clone, Copy, Debug, PartialEq, Eq, Structural)]
pub struct AAPlayerDescriptor {
    pub maximum_jumps: u32,
    pub available_jumps: u32,
    pub char_collision_dominance: bool,
    pub direction_facing: DirectionFlags,
}

impl AAPlayerDescriptor {
    /// The jump counter never exceeds the configured maximum, and a maximum
    /// exists to decrement from.
    pub open spec fn well_formed(self) -> bool {
        self.maximum_jumps >= 1 && self.available_jumps <= self.maximum_jumps
    }
}

impl Default for AAPlayerDescriptor {
    /// One jump allowed, none available yet, no dominance, nothing pressed.
    fn default() -> (r: Self)
        ensures
            r == (AAPlayerDescriptor {
                maximum_jumps: 1u32,
                available_jumps: 0u32,
                char_collision_dominance: false,
                direction_facing: DirectionFlags {
                    up: false,
                    down: false,
                    left: false,
                    right: false,
                },
            }),
            r.well_formed(),
    {
        AAPlayerDescriptor {
            maximum_jumps: 1,
            available_jumps: 0,
            char_collision_dominance: false,
            direction_facing: DirectionFlags { up: false, down: false, left: false, right: false },
        }
    }
}

/// Current and maximum health of one fighter; health never exceeds the
/// maximum and is clamped at zero.
#[derive(Clone, Copy, Debug, PartialEq, Eq, Structural)]
pub struct PlayerHealth {
    pub maximum_health: u64,
    pub current_health: u64,
}

impl PlayerHealth {
    pub open spec fn well_formed(self) -> bool {
        self.current_health <= self.maximum_health
    }
}

/// One combatant: identity, descriptor, health, buffered attack input,
/// physics body, transform, velocity caps and the visuals glued to it.
#[derive(Clone, Debug)]
pub struct Fighter {
    pub player_id: u64,
    pub descriptor: AAPlayerDescriptor,
    pub health: PlayerHealth,
    pub attack_buffer: AttackBuffer,
    pub body: BodyState,
    pub transform: Transform2,
    pub velocity_cap: VelocityForceCap,
    pub sync: ColliderSyncEntity,
}

impl Fighter {
    pub open spec fn well_formed(self) -> bool {
        self.descriptor.well_formed() && self.health.well_formed()
            && self.attack_buffer.well_formed() && self.velocity_cap.well_formed()
            && self.transform.well_formed() && self.sync.well_formed()
    }
}

/// Lifetime, damage, pierce and ownership of one projectile.
#[derive(Clone, Copy, Debug, PartialEq, Eq, Structural)]
pub struct ProjectileIdentifier {
    pub created_timestamp: u64,
    pub lifetime: u64,
    pub damage: u64,
    pub pierce: u32,
    pub parent: u64,
}

/// One live projectile entity.  A projectile always carries exactly one
/// dependent sprite, synchronized with rotation inherited.
#[derive(Clone, Copy, Debug, PartialEq, Eq, Structural)]
pub struct SpawnedProjectile {
    pub ident: ProjectileIdentifier,
    pub body: BodyState,
    pub transform: Transform2,
    pub sprite: usize,
}

impl SpawnedProjectile {
    pub open spec fn well_formed(self) -> bool {
        self.transform.well_formed()
    }
}

/// Append-only arena of projectile entities; despawned slots stay empty.
#[derive(Clone, Debug)]
pub struct ProjectileArena {
    pub slots: Vec<Option<SpawnedProjectile>>,
}

impl ProjectileArena {
    pub open spec fn well_formed(self) -> bool {
        forall|i: int|
            0 <= i < self.slots@.len() && (#[trigger] self.slots@[i]) is Some ==> (
            self.slots@[i]->0).well_formed()
    }

    /// An arena with no projectiles.
    pub fn new() -> (r: ProjectileArena)
        ensures
            r.slots@.len() == 0,
            r.well_formed(),
    {
        ProjectileArena { slots: Vec::new() }
    }

    /// Spawns a projectile, returning its handle.
    pub fn spawn(&mut self, p: SpawnedProjectile) -> (h: usize)
        requires
            old(self).well_formed(),
            p.well_formed(),
        ensures
            final(self).well_formed(),
            h == old(self).slots@.len(),
            final(self).slots@ == old(self).slots@.push(Option::Some(p)),
    {
        let h = self.slots.len();
        self.slots.push(Option::Some(p));
        h
    }
}

/// Whether a projectile slot is expired at `now`: its lifetime has elapsed or
/// its pierce counter is spent.
pub open spec fn projectile_expired(p: SpawnedProjectile, now: u64) -> bool {
    p.ident.created_timestamp + p.ident.lifetime < now || p.ident.pierce == 0
}

/// A fighter scheduled for despawn: health has reached zero.
pub open spec fn fighter_dead(f: Fighter) -> bool {
    f.health.current_health == 0
}

/// The descriptor after the per-tick dominance pass: a fighter holding
/// collision dominance has its jumps forced back to the maximum.
pub open spec fn dominance_spec(f: Fighter) -> Fighter {
    if f.descriptor.char_collision_dominance {
        Fighter {
            descriptor: AAPlayerDescriptor {
                available_jumps: f.descriptor.maximum_jumps,
                ..f.descriptor
            },
            ..f
        }
    } else {
        f
    }
}

/// Whether one of the first `n` entries of a sync group names visual `v`.
pub open spec fn names_in_prefix(g: ColliderSyncEntity, n: int, v: int) -> bool {
    exists|k: int| 0 <= k < n && (#[trigger] g.synced_objects@[k]).0 == v
}

impl ColliderSyncEntity {
/// Despawns every visual this sync group names; stale handles are skipped.
pub fn despawn_self(&self, visuals: &mut VisualStore)
    requires
        old(visuals).well_formed(),
    ensures
        final(visuals).well_formed(),
        final(visuals).slots@.len() == old(visuals).slots@.len(),
        forall|v: int|
            0 <= v < old(visuals).slots@.len() ==> final(visuals).slots@[v] == (if self.names(v) {
                Option::<Visual>::None
            } else {
                old(visuals).slots@[v]
            }),
{
    let n = self.synced_objects.len();
    let mut k: usize = 0;
    while k < n
        invariant
            old(visuals).well_formed(),
            visuals.well_formed(),
            n == self.synced_objects@.len(),
            0 <= k <= n,
            visuals.slots@.len() == old(visuals).slots@.len(),
            forall|v: int|
                0 <= v < old(visuals).slots@.len() ==> visuals.slots@[v] == (if names_in_prefix(
                    *self,
                    k as int,
                    v,
                ) {
                    Option::<Visual>::None
                } else {
                    old(visuals).slots@[v]
                }),
        decreases n - k,
    {
        let h = self.synced_objects[k].0;
        visuals.despawn(h);
        proof {
            assert forall|v: int| 0 <= v < old(visuals).slots@.len() implies visuals.slots@[v] == (
            if names_in_prefix(*self, k as int + 1, v) {
                Option::<Visual>::None
            } else {
                old(visuals).slots@[v]
            }) by {
                if names_in_prefix(*self, k as int + 1, v) {
                    if v != h && !names_in_prefix(*self, k as int, v) {
                        let w = choose|w: int|
                            0 <= w < k as int + 1 && (#[trigger] self.synced_objects@[w]).0 == v;
                        assert(w == k as int);
                    }
                }
            }
        }
        k += 1;
    }
    proof {
        assert forall|v: int| true implies (names_in_prefix(*self, n as int, v) <==> self.names(
            v,
        )) by {
            if self.names(v) {
                let w = choose|w: int|
                    0 <= w < self.synced_objects@.len() && (#[trigger] self.synced_objects@[w]).0
                        == v;
                assert(names_in_prefix(*self, n as int, v));
            }
        }
    }
}
}

/// Whether one of the first `n` fighters is dead and names visual `v`.
pub open spec fn dead_names_prefix(s: Seq<Fighter>, n: int, v: int) -> bool {
    exists|j: int| 0 <= j < n && fighter_dead(#[trigger] s[j]) && s[j].sync.names(v)
}

/// Despawns every fighter whose health has reached zero, together with all
/// visuals bound to it through its sync group; live fighters and unrelated
/// visuals are untouched.
pub fn health_despawn_check(fighters: &mut Vec<Fighter>, visuals: &mut VisualStore)
    requires
        old(visuals).well_formed(),
    ensures
        final(visuals).well_formed(),
        final(visuals).slots@.len() == old(visuals).slots@.len(),
        final(fighters)@ == old(fighters)@.filter(|f: Fighter| !fighter_dead(f)),
        forall|v: int|
            0 <= v < old(visuals).slots@.len() ==> final(visuals).slots@[v] == (if
            dead_names_prefix(old(fighters)@, old(fighters)@.len() as int, v) {
                Option::<Visual>::None
            } else {
                old(visuals).slots@[v]
            }),
{
    let ghost alive = |f: Fighter| !fighter_dead(f);
    let ghost s = old(fighters)@;
    let n = fighters.len();
    let ghost mut j: int = 0;
    let mut i: usize = 0;
    while i < fighters.len()
        invariant
            old(visuals).well_formed(),
            visuals.well_formed(),
            n == s.len(),
            alive == (|f: Fighter| !fighter_dead(f)),
            0 <= j <= n,
            i as int == s.take(j).filter(alive).len(),
            fighters@ == s.take(j).filter(alive) + s.skip(j),
            visuals.slots@.len() == old(visuals).slots@.len(),
            forall|v: int|
                0 <= v < old(visuals).slots@.len() ==> visuals.slots@[v] == (if dead_names_prefix(
                    s,
                    j,
                    v,
                ) {
                    Option::<Visual>::None
                } else {
                    old(visuals).slots@[v]
                }),
        decreases fighters@.len() - i,
    {
        proof {
            broadcast use vstd::seq_lib::group_filter_ensures;

            assert(j < n) by {
                if j == n {
                    assert(s.skip(j) =~= Seq::<Fighter>::empty());
                }
            }
            assert(fighters@[i as int] == s.skip(j)[0]);
            assert(s.skip(j)[0] == s[j]);
        }
        let ghost pre = visuals.slots@;
        let dead = fighters[i].health.current_health == 0;
        if dead {
            fighters[i].sync.despawn_self(visuals);
            fighters.remove(i);
            proof {
                assert(fighters@ =~= s.take(j).filter(alive) + s.skip(j + 1)) by {
                    assert(s.skip(j).remove(0) =~= s.skip(j + 1));
                }
            }
        } else {
            i += 1;
        }
        proof {
            let taken = s.take(j + 1);
            assert(taken.drop_last() =~= s.take(j));
            assert(taken.last() == s[j]);
            reveal(Seq::filter);
            if !dead {
                assert(s.take(j + 1).filter(alive) == s.take(j).filter(alive).push(s[j]));
                assert(fighters@ =~= s.take(j + 1).filter(alive) + s.skip(j + 1)) by {
                    assert(s.skip(j) =~= seq![s[j]] + s.skip(j + 1));
                }
            } else {
                assert(s.take(j + 1).filter(alive) == s.take(j).filter(alive));
            }
            assert forall|v: int| 0 <= v < old(visuals).slots@.len() implies visuals.slots@[v] == (
            if dead_names_prefix(s, j + 1, v) {
                Option::<Visual>::None
            } else {
                old(visuals).slots@[v]
            }) by {
                if dead_names_prefix(s, j + 1, v) {
                    let w = choose|w: int|
                        0 <= w < j + 1 && fighter_dead(#[trigger] s[w]) && s[w].sync.names(v);
                    if w < j {
                        assert(dead_names_prefix(s, j, v));
                        assert(pre[v] is None);
                        if dead {
                            assert(visuals.slots@[v] is None);
                        }
                    } else {
                        assert(fighter_dead(s[j]) && s[j].sync.names(v));
                        assert(visuals.slots@[v] is None);
                    }
                } else {
                    assert(!dead_names_prefix(s, j, v));
                    if dead {
                        assert(!s[j].sync.names(v)) by {
                            if s[j].sync.names(v) {
                                assert(dead_names_prefix(s, j + 1, v));
                            }
                        }
                    }
                }
            }
            j = j + 1;
        }
    }
    proof {
        assert(j == n) by {
            if j < n {
                broadcast use vstd::seq_lib::group_filter_ensures;

                assert(s.skip(j).len() > 0);
            }
        }
        assert(s.take(n as int) =~= s);
        assert(s.skip(n as int) =~= Seq::<Fighter>::empty());
        assert(fighters@ =~= s.filter(alive));
    }
}

/// Despawns every projectile whose lifetime has elapsed at `now` or whose
/// pierce counter is spent, together with the visuals bound to it.
pub fn projectile_lifetimes(arena: &mut ProjectileArena, visuals: &mut VisualStore, now: u64)
    requires
        old(arena).well_formed(),
        old(visuals).well_formed(),
    ensures
        final(arena).well_formed(),
        final(visuals).well_formed(),
        final(arena).slots@.len() == old(arena).slots@.len(),
        final(visuals).slots@.len() == old(visuals).slots@.len(),
        forall|p: int|
            0 <= p < old(arena).slots@.len() ==> final(arena).slots@[p] == (if old(
                arena,
            ).slots@[p] is Some && projectile_expired(old(arena).slots@[p]->0, now) {
                Option::<SpawnedProjectile>::None
            } else {
                old(arena).slots@[p]
            }),
        forall|v: int|
            0 <= v < old(visuals).slots@.len() ==> final(visuals).slots@[v] == (if
            expired_names_prefix(old(arena).slots@, old(arena).slots@.len() as int, now, v) {
                Option::<Visual>::None
            } else {
                old(visuals).slots@[v]
            }),
{
    let n = arena.slots.len();
    let mut p: usize = 0;
    while p < n
        invariant
            old(visuals).well_formed(),
            visuals.well_formed(),
            arena.well_formed(),
            n == arena.slots@.len(),
            0 <= p <= n,
            arena.slots@.len() == old(arena).slots@.len(),
            visuals.slots@.len() == old(visuals).slots@.len(),
            forall|q: int| p <= q < n ==> arena.slots@[q] == old(arena).slots@[q],
            forall|q: int|
                0 <= q < p ==> arena.slots@[q] == (if old(arena).slots@[q] is Some
                    && projectile_expired(old(arena).slots@[q]->0, now) {
                    Option::<SpawnedProjectile>::None
                } else {
                    old(arena).slots@[q]
                }),
            forall|v: int|
                0 <= v < old(visuals).slots@.len() ==> visuals.slots@[v] == (if
                expired_names_prefix(old(arena).slots@, p as int, now, v) {
                    Option::<Visual>::None
                } else {
                    old(visuals).slots@[v]
                }),
        decreases n - p,
    {
        let ghost pre = visuals.slots@;
        let mut expired = false;
        match &arena.slots[p] {
            Option::Some(ent) => {
                let e = &ent.ident;
                let deadline_passed = if e.lifetime > u64::MAX - e.created_timestamp {
                    false
                } else {
                    e.created_timestamp + e.lifetime < now
                };
                if deadline_passed || e.pierce == 0 {
                    expired = true;
                }
            },
            Option::None => {},
        }
        proof {
            assert(expired == (old(arena).slots@[p as int] is Some && projectile_expired(
                old(arena).slots@[p as int]->0,
                now,
            )));
        }
        if expired {
            match &arena.slots[p] {
                Option::Some(ent) => {
                    let sprite = ent.sprite;
                    visuals.despawn(sprite);
                },
                Option::None => {},
            }
            clear_projectile_slot(arena, p);
        }
        proof {
            let s = old(arena).slots@;
            assert forall|v: int| 0 <= v < old(visuals).slots@.len() implies visuals.slots@[v] == (
            if expired_names_prefix(s, p as int + 1, now, v) {
                Option::<Visual>::None
            } else {
                old(visuals).slots@[v]
            }) by {
                if expired_names_prefix(s, p as int + 1, now, v) {
                    let j = choose|j: int|
                        0 <= j < p as int + 1 && (#[trigger] s[j]) is Some && projectile_expired(
                            s[j]->0,
                            now,
                        ) && s[j]->0.sprite == v;
                    if j < p as int {
                        assert(expired_names_prefix(s, p as int, now, v));
                        assert(pre[v] is None);
                        if expired {
                            assert(visuals.slots@[v] is None);
                        }
                    } else {
                        assert(visuals.slots@[v] is None);
                    }
                } else {
                    assert(!expired_names_prefix(s, p as int, now, v));
                    if expired {
                        assert(s[p as int]->0.sprite != v) by {
                            if s[p as int]->0.sprite == v {
                                assert(expired_names_prefix(s, p as int + 1, now, v));
                            }
                        }
                    }
                }
            }
        }
        p += 1;
    }
}

/// Whether one of the first `n` projectile slots holds an expired projectile
/// naming visual `v`.
pub open spec fn expired_names_prefix(
    s: Seq<Option<SpawnedProjectile>>,
    n: int,
    now: u64,
    v: int,
) -> bool {
    exists|j: int|
        0 <= j < n && (#[trigger] s[j]) is Some && projectile_expired(s[j]->0, now)
            && s[j]->0.sprite == v
}

/// Clears one projectile slot.
fn clear_projectile_slot(arena: &mut ProjectileArena, p: usize)
    requires
        old(arena).well_formed(),
        p < old(arena).slots@.len(),
    ensures
        final(arena).well_formed(),
        final(arena).slots@ == old(arena).slots@.update(p as int, Option::<SpawnedProjectile>::None),
{
    arena.slots.set(p, Option::None);
}

/// The round outcome the victory check reports.
#[derive(Clone, Copy, Debug, PartialEq, Eq, Structural)]
pub enum VictoryEvent {
    Victory(u64),
    Draw,
}

/// Every tick, any fighter holding collision dominance has its available
/// jumps forced back to the maximum; nothing else changes.
pub fn enforce_char_collision_dominance(fighters: &mut Vec<Fighter>)
    ensures
        final(fighters)@.len() == old(fighters)@.len(),
        forall|i: int|
            0 <= i < old(fighters)@.len() ==> final(fighters)@[i] == dominance_spec(
                #[trigger] old(fighters)@[i],
            ),
{
    let n = fighters.len();
    let mut i: usize = 0;
    while i < n
        invariant
            n == fighters@.len(),
            0 <= i <= n,
            fighters@.len() == old(fighters)@.len(),
            forall|k: int|
                0 <= k < i ==> fighters@[k] == dominance_spec(#[trigger] old(fighters)@[k]),
            forall|k: int| i <= k < n ==> fighters@[k] == old(fighters)@[k],
        decreases n - i,
    {
        if fighters[i].descriptor.char_collision_dominance {
            let max = fighters[i].descriptor.maximum_jumps;
            let f = &mut fighters[i];
            f.descriptor.available_jumps = max;
        }
        i += 1;
    }
}

/// Reports the round outcome: no fighter left is a draw, exactly one left is
/// that fighter's victory, and with two or more the round goes on.
pub fn check_victory_conditions(fighters: &Vec<Fighter>) -> (r: Option<VictoryEvent>)
    ensures
        fighters@.len() == 0 ==> r == Option::Some(VictoryEvent::Draw),
        fighters@.len() == 1 ==> r == Option::Some(VictoryEvent::Victory(fighters@[0].player_id)),
        fighters@.len() >= 2 ==> r is None,
{
    if fighters.len() == 0 {
        Option::Some(VictoryEvent::Draw)
    } else if fighters.len() == 1 {
        Option::Some(VictoryEvent::Victory(fighters[0].player_id))
    } else {
        Option::None
    }
}

} // verus!
