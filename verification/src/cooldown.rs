//! Cooldown Table: per-fighter, per-attack-type timestamps gating repeated
//! attack execution.

use vstd::prelude::*;

use crate::buffer::AttackType;

verus! {

/// Start timestamp and duration of one running cooldown.
#[derive(Clone, Copy, Debug, PartialEq, Eq, Structural)]
pub struct AttackCooldown {
    pub cooldown_start: u64,
    pub cooldown_duration: u64,
}

/// One table row: the fighter and attack type a cooldown belongs to.
#[derive(Clone, Copy, Debug, PartialEq, Eq, Structural)]
pub struct CooldownEntry {
    pub player_id: u64,
    pub attack_type: AttackType,
    pub cooldown: AttackCooldown,
}

/// Whether two rows are filed under the same fighter and attack type.
pub open spec fn same_slot(a: CooldownEntry, b: CooldownEntry) -> bool {
    a.player_id == b.player_id && a.attack_type == b.attack_type
}

/// A row sequence holds at most one cooldown per fighter and attack type.
pub open spec fn unique_slots(s: Seq<CooldownEntry>) -> bool {
    forall|i: int, j: int| 0 <= i < j < s.len() ==> !(#[trigger] same_slot(s[i], s[j]))
}

/// Whether a cooldown for `(player_id, attack_type)` is present.
pub open spec fn has_entry(s: Seq<CooldownEntry>, player_id: u64, attack_type: AttackType) -> bool {
    exists|i: int|
        0 <= i < s.len() && (#[trigger] s[i]).player_id == player_id && s[i].attack_type
            == attack_type
}

/// A cooldown that has not yet elapsed at `now`.
pub open spec fn live_spec(e: CooldownEntry, now: u64) -> bool {
    (now as int) < e.cooldown.cooldown_start + e.cooldown.cooldown_duration
}

/// Rows after the periodic prune step at `now`: exactly the still-live ones,
/// in order.
pub open spec fn prune_spec(s: Seq<CooldownEntry>, now: u64) -> Seq<CooldownEntry> {
    s.filter(|e: CooldownEntry| live_spec(e, now))
}

/// Rows after `begin_if_ready`: unchanged when the slot is occupied, extended
/// by the fresh cooldown otherwise.
pub open spec fn begin_spec(
    s: Seq<CooldownEntry>,
    player_id: u64,
    attack_type: AttackType,
    now: u64,
    duration: u64,
) -> Seq<CooldownEntry> {
    if has_entry(s, player_id, attack_type) {
        s
    } else {
        s.push(
            CooldownEntry {
                player_id,
                attack_type,
                cooldown: AttackCooldown { cooldown_start: now, cooldown_duration: duration },
            },
        )
    }
}

/// Filtering a row sequence keeps slot uniqueness and introduces no row that
/// was not already present.
proof fn lemma_filter_keeps_unique(s: Seq<CooldownEntry>, pred: spec_fn(CooldownEntry) -> bool)
    requires
        unique_slots(s),
    ensures
        unique_slots(s.filter(pred)),
        forall|k: int|
            0 <= k < s.filter(pred).len() ==> s.contains(#[trigger] s.filter(pred)[k]),
    decreases s.len(),
{
    reveal(Seq::filter);
    if s.len() > 0 {
        let prefix = s.drop_last();
        assert(unique_slots(prefix)) by {
            assert(forall|i: int| 0 <= i < prefix.len() ==> prefix[i] == s[i]);
        }
        lemma_filter_keeps_unique(prefix, pred);
        assert(forall|k: int|
            0 <= k < prefix.filter(pred).len() ==> s.contains(
                #[trigger] prefix.filter(pred)[k],
            )) by {
            assert(forall|x: CooldownEntry| prefix.contains(x) ==> s.contains(x));
        }
        if pred(s.last()) {
            assert(s.filter(pred) == prefix.filter(pred).push(s.last()));
            assert(s.contains(s.last())) by {
                assert(s[s.len() - 1] == s.last());
            }
            assert forall|i: int, j: int|
                0 <= i < j < s.filter(pred).len() implies !(#[trigger] same_slot(
                s.filter(pred)[i],
                s.filter(pred)[j],
            )) by {
                if j == s.filter(pred).len() - 1 {
                    let x = prefix.filter(pred)[i];
                    assert(prefix.contains(x));
                    let idx = choose|idx: int| 0 <= idx < prefix.len() && prefix[idx] == x;
                    assert(s[idx] == x);
                    assert(!same_slot(s[idx], s[s.len() - 1]));
                }
            }
        }
    }
}

/// The table of running cooldowns, one row per fighter and attack type.
#[derive(Clone, Debug)]
pub struct CooldownTable {
    pub entries: Vec<CooldownEntry>,
}

impl View for CooldownTable {
    type V = Seq<CooldownEntry>;

    open spec fn view(&self) -> Seq<CooldownEntry> {
        self.entries@
    }
}

impl CooldownTable {
    /// At most one row per fighter and attack type.
    pub open spec fn well_formed(self) -> bool {
        unique_slots(self@)
    }

    /// An empty table.
    pub fn new() -> (r: CooldownTable)
        ensures
            r@.len() == 0,
            r.well_formed(),
    {
        CooldownTable { entries: Vec::new() }
    }

    /// Returns true and starts a cooldown when no row for the fighter and
    /// attack type is present; returns false, changing nothing, when one is.
    pub fn begin_if_ready(
        &mut self,
        player_id: u64,
        attack_type: AttackType,
        now: u64,
        duration: u64,
    ) -> (ready: bool)
        requires
            old(self).well_formed(),
        ensures
            final(self).well_formed(),
            ready == !has_entry(old(self)@, player_id, attack_type),
            final(self)@ == begin_spec(old(self)@, player_id, attack_type, now, duration),
    {
        let n = self.entries.len();
        let mut i: usize = 0;
        while i < n
            invariant
                *self == *old(self),
                old(self).well_formed(),
                n == self.entries.len(),
                0 <= i <= n,
                forall|k: int|
                    0 <= k < i ==> !((#[trigger] self.entries@[k]).player_id == player_id
                        && self.entries@[k].attack_type == attack_type),
            decreases n - i,
        {
            let e = self.entries[i];
            if e.player_id == player_id && e.attack_type == attack_type {
                return false;
            }
            i += 1;
        }
        self.entries.push(
            CooldownEntry {
                player_id,
                attack_type,
                cooldown: AttackCooldown { cooldown_start: now, cooldown_duration: duration },
            },
        );
        proof {
            assert forall|a: int, b: int|
                0 <= a < b < self.entries@.len() implies !(#[trigger] same_slot(
                self.entries@[a],
                self.entries@[b],
            )) by {
                if b == self.entries@.len() - 1 {
                    assert(!(self.entries@[a].player_id == player_id && self.entries@[a].attack_type
                        == attack_type));
                }
            }
        }
        true
    }

    /// The periodic prune step: removes every row whose duration has elapsed
    /// at `now`, keeping the rest in order.
    pub fn check_cooldowns(&mut self, now: u64)
        requires
            old(self).well_formed(),
        ensures
            final(self).well_formed(),
            final(self)@ == prune_spec(old(self)@, now),
    {
        let ghost pred = |e: CooldownEntry| live_spec(e, now);
        let mut kept: Vec<CooldownEntry> = Vec::new();
        let n = self.entries.len();
        let mut i: usize = 0;
        while i < n
            invariant
                n == self.entries.len(),
                0 <= i <= n,
                unique_slots(self.entries@),
                kept@ == self.entries@.take(i as int).filter(pred),
                pred == (|e: CooldownEntry| live_spec(e, now)),
            decreases n - i,
        {
            let e = self.entries[i];
            let live = if e.cooldown.cooldown_duration > u64::MAX - e.cooldown.cooldown_start {
                true
            } else {
                now < e.cooldown.cooldown_start + e.cooldown.cooldown_duration
            };
            proof {
                assert(live == live_spec(e, now));
                let taken = self.entries@.take(i as int + 1);
                assert(taken.drop_last() =~= self.entries@.take(i as int));
                assert(taken.last() == e);
                reveal(Seq::filter);
            }
            if live {
                kept.push(e);
            }
            i += 1;
        }
        proof {
            assert(self.entries@.take(n as int) =~= self.entries@);
            lemma_filter_keeps_unique(self.entries@, pred);
        }
        self.entries = kept;
    }
}

/// Beginning a cooldown in a free slot succeeds; until the duration has
/// elapsed the slot stays occupied through every prune, so a second attempt
/// fails; once the duration has elapsed the prune frees the slot and a third
/// attempt succeeds again.
pub proof fn lemma_cooldown_gate(
    s0: Seq<CooldownEntry>,
    player_id: u64,
    attack_type: AttackType,
    t0: u64,
    duration: u64,
    t1: u64,
    t2: u64,
)
    requires
        unique_slots(s0),
        !has_entry(s0, player_id, attack_type),
        t1 < t0 + duration,
        t2 >= t0 + duration,
    ensures
        ({
            let s1 = begin_spec(s0, player_id, attack_type, t0, duration);
            has_entry(prune_spec(s1, t1), player_id, attack_type)
                && !has_entry(prune_spec(s1, t2), player_id, attack_type)
        }),
{
    broadcast use vstd::seq_lib::group_filter_ensures;

    let s1 = begin_spec(s0, player_id, attack_type, t0, duration);
    let fresh = CooldownEntry {
        player_id,
        attack_type,
        cooldown: AttackCooldown { cooldown_start: t0, cooldown_duration: duration },
    };
    assert(s1 == s0.push(fresh));
    assert(unique_slots(s1)) by {
        assert forall|i: int, j: int| 0 <= i < j < s1.len() implies !(#[trigger] same_slot(
            s1[i],
            s1[j],
        )) by {
            if j == s1.len() - 1 {
                assert(s1[i] == s0[i]);
            }
        }
    }
    let pred1 = |e: CooldownEntry| live_spec(e, t1);
    assert(live_spec(fresh, t1));
    assert(s1[s1.len() - 1] == fresh);
    assert(prune_spec(s1, t1).contains(fresh));
    let w = choose|w: int|
        0 <= w < prune_spec(s1, t1).len() && prune_spec(s1, t1)[w] == fresh;
    assert(has_entry(prune_spec(s1, t1), player_id, attack_type));

    let pred2 = |e: CooldownEntry| live_spec(e, t2);
    lemma_filter_keeps_unique(s1, pred2);
    assert forall|k: int|
        0 <= k < prune_spec(s1, t2).len() implies !((#[trigger] prune_spec(s1, t2)[k]).player_id
        == player_id && prune_spec(s1, t2)[k].attack_type == attack_type) by {
        let e = prune_spec(s1, t2)[k];
        assert(s1.contains(e));
        assert(live_spec(e, t2));
        let idx = choose|idx: int| 0 <= idx < s1.len() && s1[idx] == e;
        if idx < s0.len() {
            assert(s0[idx] == e);
            if e.player_id == player_id && e.attack_type == attack_type {
                assert(has_entry(s0, player_id, attack_type));
            }
        } else {
            assert(e == fresh);
            assert(!live_spec(fresh, t2));
        }
    }
}

} // verus!
