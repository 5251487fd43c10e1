//! The mathematical model of the connection pool.
//!
//! A pool is a sequence of slots, one per connection id that was ever
//! handed out, each live or not, together with two clocks: when a
//! connection was last made and when one was last lost. The controller's
//! rules are functions on this model, and its laws are proved here.

use vstd::prelude::*;
use crate::errors::ConnectionUpdate;

verus! {

/// Seconds that must have passed since the last connect and since the
/// last disconnect before the pool repairs or grows.
pub const COOLDOWN_SECS: u64 = 70;

/// Ticks between two reports of the pool's size.
pub const REPORT_INTERVAL: u32 = 40;

/// What the pool wants done after a tick.
#[derive(Debug, Clone, Copy, PartialEq, Eq)]
pub enum PoolAction {
    /// Nothing.
    Idle,
    /// Connect again under this id, whose slot is dead.
    Repair(u32),
    /// Connect under this id, which is the next unused one.
    Grow(u32),
}

/// What a tick of the controller answers.
#[derive(Debug, Clone, Copy, PartialEq, Eq)]
pub struct Tick {
    /// The connection to attempt, if any.
    pub action: PoolAction,
    /// Whether the pool's size is due to be reported.
    pub report: bool,
}

/// The number of live slots.
pub open spec fn count_active(slots: Seq<bool>) -> nat
    decreases slots.len(),
{
    if slots.len() == 0 {
        0
    } else {
        count_active(slots.drop_last()) + if slots.last() { 1nat } else { 0nat }
    }
}

/// The least index at or after `from` whose slot is dead, or the number
/// of slots if there is none.
pub open spec fn first_inactive_from(slots: Seq<bool>, from: int) -> int
    decreases slots.len() - from,
{
    if from < 0 || from >= slots.len() {
        slots.len() as int
    } else if !slots[from] {
        from
    } else {
        first_inactive_from(slots, from + 1)
    }
}

/// The least index whose slot is dead, or the number of slots if all live.
pub open spec fn first_inactive(slots: Seq<bool>) -> int {
    first_inactive_from(slots, 0)
}

/// Seconds from `since` to `now`; none if the clock went backwards.
pub open spec fn elapsed(now: nat, since: nat) -> nat {
    if now >= since {
        (now - since) as nat
    } else {
        0
    }
}

/// The state of a pool, as mathematics.
pub struct PoolView {
    /// The feed address, as the URL parser wrote it back.
    pub url: Seq<char>,
    /// The chain whose feed is read.
    pub chain_id: u64,
    /// Slot `i` tells whether connection `i` is live.
    pub active: Seq<bool>,
    /// The number of slots the pool may grow to.
    pub max_connections: nat,
    /// When a connection was last made.
    pub last_connected: nat,
    /// When a connection was last lost, or failed to be made.
    pub last_disconnected: nat,
    /// Ticks since the last report.
    pub checks: nat,
}

impl PoolView {
    /// A pool whose first `init` connections have just been made. It is
    /// a pool only if `init` is no more than `max`.
    pub open spec fn initial(url: Seq<char>, chain_id: u64, max: nat, init: nat) -> PoolView {
        PoolView {
            url,
            chain_id,
            active: Seq::new(init, |i: int| true),
            max_connections: max,
            last_connected: 0,
            last_disconnected: 0,
            checks: 0,
        }
    }

    /// The pool as the control loop finds it when it starts at `now`.
    pub open spec fn started(self, now: nat) -> PoolView {
        PoolView { last_connected: now, last_disconnected: now, checks: 0, ..self }
    }

    /// The number of slots.
    pub open spec fn total(self) -> nat {
        self.active.len()
    }

    /// The number of live slots.
    pub open spec fn active_count(self) -> nat {
        count_active(self.active)
    }

    /// No more live slots than slots, and no more slots than the pool
    /// may have.
    pub open spec fn in_order(self) -> bool {
        0 <= self.active_count() <= self.total() <= self.max_connections
    }

    /// Both clocks have run for more than the cooldown.
    pub open spec fn cooled_down(self, now: nat) -> bool {
        &&& elapsed(now, self.last_connected) > COOLDOWN_SECS
        &&& elapsed(now, self.last_disconnected) > COOLDOWN_SECS
    }

    /// Whether a notice about `id` fits the pool: the id was handed out
    /// and its connection counts as live.
    pub open spec fn is_live(self, id: u32) -> bool {
        id < self.active.len() && self.active[id as int]
    }

    /// Whether `update` can be applied; no notice always can.
    pub open spec fn admits(self, update: Option<ConnectionUpdate>) -> bool {
        match update {
            Some(u) => self.is_live(u.spec_id()),
            None => true,
        }
    }

    /// The connection to attempt at `now` when no notice is pending:
    /// the first dead slot if there is one, else the next id if the pool
    /// may still grow, and nothing before both clocks have cooled down.
    pub open spec fn plan(self, now: nat) -> PoolAction {
        let target = first_inactive(self.active);
        if !self.cooled_down(now) {
            PoolAction::Idle
        } else if target < self.active.len() {
            PoolAction::Repair(target as u32)
        } else if self.active.len() < self.max_connections {
            PoolAction::Grow(self.active.len() as u32)
        } else {
            PoolAction::Idle
        }
    }

    /// Whether this tick is the one that reports.
    pub open spec fn report_due(self) -> bool {
        self.checks + 1 > REPORT_INTERVAL
    }

    /// The pool after connection `id` was lost at `now`.
    pub open spec fn disconnected(self, id: u32, now: nat) -> PoolView {
        PoolView { active: self.active.update(id as int, false), last_disconnected: now, ..self }
    }

    /// What a tick at `now` answers. A pending notice always wins: the
    /// tick that takes it attempts no connection.
    pub open spec fn tick_answer(self, update: Option<ConnectionUpdate>, now: nat) -> Tick {
        Tick {
            action: match update {
                Some(_) => PoolAction::Idle,
                None => self.plan(now),
            },
            report: self.report_due(),
        }
    }

    /// The pool after a tick at `now` that took `update`.
    pub open spec fn ticked(self, update: Option<ConnectionUpdate>, now: nat) -> PoolView {
        let noticed = match update {
            Some(u) => self.disconnected(u.spec_id(), now),
            None => self,
        };
        PoolView { checks: if self.report_due() { 0 } else { self.checks + 1 }, ..noticed }
    }

    /// Whether `action` is one that the pool could have asked for:
    /// a repair of a dead slot, or growth by the next id below the cap.
    pub open spec fn fits(self, action: PoolAction) -> bool {
        match action {
            PoolAction::Idle => true,
            PoolAction::Repair(id) => id < self.active.len() && !self.active[id as int],
            PoolAction::Grow(id) => id == self.active.len() && self.active.len()
                < self.max_connections,
        }
    }

    /// The pool after the attempt that `action` asked for ended at `now`.
    /// Success makes the slot live and restarts the connect clock;
    /// failure changes no slot and restarts the disconnect clock.
    pub open spec fn settled(self, action: PoolAction, connected: bool, now: nat) -> PoolView {
        match action {
            PoolAction::Idle => self,
            PoolAction::Repair(id) => if connected {
                PoolView { active: self.active.update(id as int, true), last_connected: now, ..self }
            } else {
                PoolView { last_disconnected: now, ..self }
            },
            PoolAction::Grow(_) => if connected {
                PoolView { active: self.active.push(true), last_connected: now, ..self }
            } else {
                PoolView { last_disconnected: now, ..self }
            },
        }
    }
}

/// No more slots are live than there are slots.
pub proof fn lemma_count_active_bound(slots: Seq<bool>)
    ensures
        count_active(slots) <= slots.len(),
    decreases slots.len(),
{
    if slots.len() > 0 {
        lemma_count_active_bound(slots.drop_last());
    }
}

/// A new slot at the end counts if it is live.
pub proof fn lemma_count_active_push(slots: Seq<bool>, live: bool)
    ensures
        count_active(slots.push(live)) == count_active(slots) + if live { 1nat } else { 0nat },
{
    assert(slots.push(live).drop_last() =~= slots);
}

/// Changing one slot changes the count by that slot alone.
pub proof fn lemma_count_active_update(slots: Seq<bool>, i: int, live: bool)
    requires
        0 <= i < slots.len(),
    ensures
        count_active(slots.update(i, live)) + (if slots[i] { 1nat } else { 0nat })
            == count_active(slots) + (if live { 1nat } else { 0nat }),
    decreases slots.len(),
{
    let changed = slots.update(i, live);
    if i == slots.len() - 1 {
        assert(changed.drop_last() =~= slots.drop_last());
    } else {
        lemma_count_active_update(slots.drop_last(), i, live);
        assert(changed.drop_last() =~= slots.drop_last().update(i, live));
    }
}

/// All slots live: as many live slots as slots.
pub proof fn lemma_count_active_all(n: nat)
    ensures
        count_active(Seq::new(n, |i: int| true)) == n,
    decreases n,
{
    if n > 0 {
        lemma_count_active_all((n - 1) as nat);
        assert(Seq::new(n, |i: int| true).drop_last() =~= Seq::new((n - 1) as nat, |i: int| true));
    }
}

/// The search from `from` ends at a dead slot with only live slots
/// between, or at the end when every slot from `from` on is live.
pub proof fn lemma_first_inactive_from(slots: Seq<bool>, from: int)
    requires
        0 <= from <= slots.len(),
    ensures
        from <= first_inactive_from(slots, from) <= slots.len(),
        first_inactive_from(slots, from) < slots.len() ==> !slots[first_inactive_from(slots, from)],
        forall|j: int| from <= j < first_inactive_from(slots, from) ==> slots[j],
    decreases slots.len() - from,
{
    if from < slots.len() && slots[from] {
        lemma_first_inactive_from(slots, from + 1);
    }
}

/// A pool made with no more connections than it may have is in order,
/// and still is when its control loop starts.
pub proof fn lemma_initial_in_order(url: Seq<char>, chain_id: u64, max: nat, init: nat, now: nat)
    requires
        init <= max,
    ensures
        PoolView::initial(url, chain_id, max, init).in_order(),
        PoolView::initial(url, chain_id, max, init).started(now).in_order(),
        PoolView::initial(url, chain_id, max, init).active_count() == init,
{
    lemma_count_active_all(init);
}

/// A tick keeps a pool in order, whatever notice it takes, and hands
/// out no id.
pub proof fn lemma_tick_keeps_order(pool: PoolView, update: Option<ConnectionUpdate>, now: nat)
    requires
        pool.in_order(),
        pool.admits(update),
    ensures
        pool.ticked(update, now).in_order(),
        pool.ticked(update, now).total() == pool.total(),
        update is Some ==> pool.ticked(update, now).active_count() + 1 == pool.active_count(),
        update is None ==> pool.ticked(update, now).active == pool.active,
{
    if let Some(notice) = update {
        lemma_count_active_update(pool.active, notice.spec_id() as int, false);
    }
}

/// The end of an attempt keeps a pool in order: a pool never holds more
/// slots than it may have.
pub proof fn lemma_settle_keeps_order(pool: PoolView, action: PoolAction, connected: bool, now: nat)
    requires
        pool.in_order(),
        pool.fits(action),
    ensures
        pool.settled(action, connected, now).in_order(),
{
    let after = pool.settled(action, connected, now);
    lemma_count_active_bound(after.active);
}

/// What a tick asks for is always something the pool can settle.
pub proof fn lemma_plan_fits(pool: PoolView, now: nat)
    requires
        pool.total() <= u32::MAX,
    ensures
        pool.fits(pool.plan(now)),
{
    lemma_first_inactive_from(pool.active, 0);
}

/// Repair comes before growth: while any slot is dead, a tick after the
/// cooldown asks for the repair of the first dead slot, and however that
/// attempt ends, no new id has been handed out.
pub proof fn lemma_repair_before_grow(pool: PoolView, dead: int, now: nat, connected: bool, end: nat)
    requires
        pool.total() <= u32::MAX,
        0 <= dead < pool.active.len(),
        !pool.active[dead],
        pool.cooled_down(now),
    ensures
        pool.plan(now) == PoolAction::Repair(first_inactive(pool.active) as u32),
        0 <= first_inactive(pool.active) <= dead,
        !pool.active[first_inactive(pool.active)],
        pool.settled(pool.plan(now), connected, end).total() == pool.total(),
        pool.settled(pool.plan(now), connected, end).active_count() == pool.active_count() + if connected {
            1nat
        } else {
            0nat
        },
{
    lemma_first_inactive_from(pool.active, 0);
    let first = first_inactive(pool.active);
    if first > dead {
        assert(pool.active[dead]);
    }
    lemma_count_active_update(pool.active, first, true);
}

/// Growth waits for repair and for room: a tick asks for a new id only
/// when every slot is live and the pool is below its cap, and the id is
/// then the next unused one.
pub proof fn lemma_grow_only_when_whole(pool: PoolView, now: nat, id: u32)
    requires
        pool.total() <= u32::MAX,
        pool.plan(now) == PoolAction::Grow(id),
    ensures
        id == pool.total(),
        pool.total() < pool.max_connections,
        pool.active_count() == pool.total(),
        forall|j: int| 0 <= j < pool.active.len() ==> pool.active[j],
        pool.cooled_down(now),
{
    lemma_first_inactive_from(pool.active, 0);
    lemma_all_live_count(pool.active);
}

/// Slots that are all live are all counted.
pub proof fn lemma_all_live_count(slots: Seq<bool>)
    requires
        forall|j: int| 0 <= j < slots.len() ==> slots[j],
    ensures
        count_active(slots) == slots.len(),
    decreases slots.len(),
{
    if slots.len() > 0 {
        lemma_all_live_count(slots.drop_last());
    }
}

/// The cooldown gates every attempt: until more than the cooldown has
/// passed on both clocks, a tick asks for nothing.
pub proof fn lemma_cooldown_gates(pool: PoolView, now: nat)
    requires
        elapsed(now, pool.last_connected) <= COOLDOWN_SECS || elapsed(now, pool.last_disconnected)
            <= COOLDOWN_SECS,
    ensures
        pool.plan(now) == PoolAction::Idle,
{
}

/// After a disconnect at `lost`, no tick within the cooldown repairs the
/// slot; the first tick past the cooldown on both clocks asks for the
/// repair of the first dead slot.
pub proof fn lemma_repair_after_cooldown(pool: PoolView, id: u32, lost: nat, now: nat)
    requires
        pool.total() <= u32::MAX,
        pool.is_live(id),
    ensures
        elapsed(now, lost) <= COOLDOWN_SECS ==> pool.disconnected(id, lost).plan(now)
            == PoolAction::Idle,
        pool.disconnected(id, lost).cooled_down(now) ==> pool.disconnected(id, lost).plan(now)
            == PoolAction::Repair(first_inactive(pool.disconnected(id, lost).active) as u32),
        pool.disconnected(id, lost).cooled_down(now) <==> elapsed(now, lost) > COOLDOWN_SECS
            && elapsed(now, pool.last_connected) > COOLDOWN_SECS,
        first_inactive(pool.disconnected(id, lost).active) <= id,
{
    let after = pool.disconnected(id, lost);
    lemma_first_inactive_from(after.active, 0);
    if first_inactive(after.active) > id {
        assert(after.active[id as int]);
    }
}

} // verus!
