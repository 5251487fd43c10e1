//! The controller of a pool of feed connections.
//!
//! The controller owns no socket. Once a second the embedding program
//! calls [`RelayClients::tick`] with the notice it found pending, if any,
//! and the time; the answer names at most one connection to attempt. The
//! program attempts it and tells the outcome to [`RelayClients::settle`].

use vstd::prelude::*;
use crate::errors::{ConnectionUpdate, RelayError};
use crate::pool_model::{
    count_active, first_inactive, first_inactive_from, lemma_count_active_all,
    lemma_count_active_bound, lemma_count_active_push, lemma_count_active_update, PoolAction,
    PoolView, Tick, COOLDOWN_SECS, REPORT_INTERVAL,
};

verus! {

/// The text that `url::Url::parse` writes back for `text`, or `None`
/// where it refuses `text`.
pub uninterp spec fn url_serialization(text: Seq<char>) -> Option<Seq<char>>;

/// Parses `text` with `url::Url::parse` and hands back the URL in its
/// serialized form. Trusted: that the outcome is the one named by
/// [`url_serialization`], which says no more than that the parser gives
/// the same answer for the same text.
#[verifier::external_body]
fn parse_url(text: &str) -> (r: Result<String, url::ParseError>)
    ensures
        match r {
            Ok(s) => url_serialization(text@) == Some(s@),
            Err(_) => url_serialization(text@).is_none(),
        },
{
    url::Url::parse(text).map(String::from)
}

/// A pool of feed connections: which ids are live, and when the pool
/// last gained or lost one.
pub struct RelayClients {
    active_clients: Vec<bool>,
    total_active_clients: u32,
    total_clients: u32,
    max_connections: u32,
    url: String,
    chain_id: u64,
    last_connected_time: u64,
    last_disconnected_time: u64,
    num_checks: u32,
}

impl View for RelayClients {
    type V = PoolView;

    closed spec fn view(&self) -> PoolView {
        PoolView {
            url: self.url@,
            chain_id: self.chain_id,
            active: self.active_clients@,
            max_connections: self.max_connections as nat,
            last_connected: self.last_connected_time as nat,
            last_disconnected: self.last_disconnected_time as nat,
            checks: self.num_checks as nat,
        }
    }
}

impl RelayClients {
    /// The counters agree with the slots, the pool holds no more slots
    /// than it may have, and the count of ticks has not passed the report
    /// interval.
    pub closed spec fn wf(&self) -> bool {
        &&& self.total_clients == self.active_clients@.len()
        &&& self.total_active_clients == count_active(self.active_clients@)
        &&& self.total_clients <= self.max_connections
        &&& self.num_checks <= REPORT_INTERVAL
    }

    /// The counter of slots.
    pub closed spec fn spec_total_clients(&self) -> u32 {
        self.total_clients
    }

    /// The counter of live slots.
    pub closed spec fn spec_total_active_clients(&self) -> u32 {
        self.total_active_clients
    }

    /// In every pool the counters are the numbers of live slots and of
    /// slots, no more connections count as live than ids were handed
    /// out, and no more ids were handed out than the pool may have.
    pub proof fn lemma_counters_in_order(&self)
        requires
            self.wf(),
        ensures
            self.spec_total_clients() == self@.active.len(),
            self.spec_total_active_clients() == self@.active_count(),
            0 <= self.spec_total_active_clients() <= self.spec_total_clients()
                <= self@.max_connections,
            self@.in_order(),
    {
        lemma_count_active_bound(self.active_clients@);
    }

    /// A pool for the feed at `url` whose connections `0..init_connections`
    /// are taken to be live. Fails when `url` is not a URL, and for a URL
    /// when the pool would start with more connections than it may have.
    pub fn new(url: &str, chain_id: u64, max_connections: u32, init_connections: u8) -> (r: Result<
        Self,
        RelayError,
    >)
        ensures
            match r {
                Ok(pool) => {
                    &&& url_serialization(url@) is Some
                    &&& init_connections <= max_connections
                    &&& pool.wf()
                    &&& pool@ == PoolView::initial(
                        url_serialization(url@).unwrap(),
                        chain_id,
                        max_connections as nat,
                        init_connections as nat,
                    )
                },
                Err(e) => if url_serialization(url@) is None {
                    e == RelayError::InvalidUrl
                } else {
                    init_connections > max_connections && e == RelayError::TooManyConnections
                },
            },
    {
        let url = match parse_url(url) {
            Ok(text) => text,
            Err(_) => {
                return Err(RelayError::InvalidUrl);
            },
        };
        if init_connections as u32 > max_connections {
            return Err(RelayError::TooManyConnections);
        }
        let mut active_clients: Vec<bool> = Vec::new();
        let mut made: u8 = 0;
        while made < init_connections
            invariant
                made <= init_connections,
                active_clients@ =~= Seq::new(made as nat, |i: int| true),
            decreases init_connections - made,
        {
            active_clients.push(true);
            made = made + 1;
        }
        proof {
            lemma_count_active_all(init_connections as nat);
        }
        Ok(
            RelayClients {
                active_clients,
                total_active_clients: init_connections as u32,
                total_clients: init_connections as u32,
                max_connections,
                url,
                chain_id,
                last_connected_time: 0,
                last_disconnected_time: 0,
                num_checks: 0,
            },
        )
    }

    /// Starts the control loop's clocks at `now`.
    pub fn start_reader(&mut self, now: u64)
        requires
            old(self).wf(),
        ensures
            final(self).wf(),
            final(self)@ == old(self)@.started(now as nat),
            final(self).spec_total_clients() == old(self).spec_total_clients(),
            final(self).spec_total_active_clients() == old(self).spec_total_active_clients(),
    {
        self.last_connected_time = now;
        self.last_disconnected_time = now;
        self.num_checks = 0;
    }

    /// The number of connection ids handed out so far.
    pub fn total_clients(&self) -> (n: u32)
        requires
            self.wf(),
        ensures
            n == self@.total(),
            n == self.spec_total_clients(),
            n <= self@.max_connections,
    {
        self.total_clients
    }

    /// The number of connections that count as live.
    pub fn total_active_clients(&self) -> (n: u32)
        requires
            self.wf(),
        ensures
            n == self@.active_count(),
            n == self.spec_total_active_clients(),
            n <= self@.total(),
    {
        proof {
            lemma_count_active_bound(self.active_clients@);
        }
        self.total_active_clients
    }

    /// The number of connections the pool may grow to.
    pub fn max_connections(&self) -> (n: u32)
        ensures
            n == self@.max_connections,
    {
        self.max_connections
    }

    /// The chain whose feed the pool reads.
    pub fn chain_id(&self) -> (id: u64)
        ensures
            id == self@.chain_id,
    {
        self.chain_id
    }

    /// The feed address, as the URL parser wrote it back.
    pub fn url(&self) -> (text: &str)
        ensures
            text@ == self@.url,
    {
        self.url.as_str()
    }

    /// Whether connection `id` was handed out and counts as live.
    pub fn is_active(&self, id: u32) -> (live: bool)
        ensures
            live == self@.is_live(id),
    {
        let slot = id as usize;
        slot < self.active_clients.len() && self.active_clients[slot]
    }

    /// Whether both clocks have run for more than the cooldown at `now`.
    pub fn cooled_down(&self, now: u64) -> (cool: bool)
        ensures
            cool == self@.cooled_down(now as nat),
    {
        let since_connect = if now >= self.last_connected_time {
            now - self.last_connected_time
        } else {
            0
        };
        let since_disconnect = if now >= self.last_disconnected_time {
            now - self.last_disconnected_time
        } else {
            0
        };
        since_connect > COOLDOWN_SECS && since_disconnect > COOLDOWN_SECS
    }

    /// The first dead slot, or the number of slots if every slot is live.
    fn first_dead_slot(&self) -> (slot: usize)
        ensures
            slot == first_inactive(self.active_clients@),
    {
        let mut slot: usize = 0;
        while slot < self.active_clients.len() && self.active_clients[slot]
            invariant
                slot <= self.active_clients@.len(),
                first_inactive(self.active_clients@) == first_inactive_from(
                    self.active_clients@,
                    slot as int,
                ),
            decreases self.active_clients@.len() - slot,
        {
            slot = slot + 1;
        }
        slot
    }

    /// The connection to attempt at `now` when no notice is pending.
    /// Changes nothing.
    pub fn plan(&self, now: u64) -> (action: PoolAction)
        requires
            self.wf(),
        ensures
            action == self@.plan(now as nat),
    {
        if !self.cooled_down(now) {
            return PoolAction::Idle;
        }
        let slot = self.first_dead_slot();
        if slot < self.active_clients.len() {
            PoolAction::Repair(slot as u32)
        } else if self.total_clients < self.max_connections {
            PoolAction::Grow(self.total_clients)
        } else {
            PoolAction::Idle
        }
    }

    /// One round of the control loop at `now`, with the notice that was
    /// pending, if any.
    ///
    /// A notice marks its connection dead and restarts the disconnect
    /// clock; the tick that takes one attempts no connection. Without a
    /// notice the answer is [`PoolView::plan`]. A notice about an id that
    /// was never handed out, or whose connection is already dead, is
    /// refused and leaves the pool as it was.
    pub fn tick(&mut self, update: Option<ConnectionUpdate>, now: u64) -> (r: Result<
        Tick,
        RelayError,
    >)
        requires
            old(self).wf(),
        ensures
            final(self).wf(),
            match r {
                Ok(answer) => {
                    &&& old(self)@.admits(update)
                    &&& answer == old(self)@.tick_answer(update, now as nat)
                    &&& final(self)@ == old(self)@.ticked(update, now as nat)
                },
                Err(e) => {
                    &&& !old(self)@.admits(update)
                    &&& update is Some
                    &&& e == RelayError::InconsistentClient(update.unwrap().spec_id())
                    &&& *final(self) == *old(self)
                },
            },
    {
        let report = self.num_checks >= REPORT_INTERVAL;
        let action = match update {
            Some(notice) => {
                let id = notice.id();
                if !self.is_active(id) {
                    return Err(RelayError::InconsistentClient(id));
                }
                proof {
                    lemma_count_active_update(self.active_clients@, id as int, false);
                }
                self.active_clients.set(id as usize, false);
                self.total_active_clients = self.total_active_clients - 1;
                self.last_disconnected_time = now;
                PoolAction::Idle
            },
            None => self.plan(now),
        };
        self.num_checks = if report {
            0
        } else {
            self.num_checks + 1
        };
        Ok(Tick { action, report })
    }

    /// Records how the attempt that `action` asked for ended at `now`.
    ///
    /// A repair that succeeded makes its slot live again, growth that
    /// succeeded adds a live slot, and both restart the connect clock. A
    /// failed attempt changes no slot and restarts the disconnect clock.
    /// An action that the pool could not have asked for is refused and
    /// leaves the pool as it was.
    pub fn settle(&mut self, action: PoolAction, connected: bool, now: u64) -> (r: Result<
        (),
        RelayError,
    >)
        requires
            old(self).wf(),
        ensures
            final(self).wf(),
            match r {
                Ok(_) => {
                    &&& old(self)@.fits(action)
                    &&& final(self)@ == old(self)@.settled(action, connected, now as nat)
                },
                Err(e) => {
                    &&& !old(self)@.fits(action)
                    &&& e == RelayError::InconsistentClient(
                        match action {
                            PoolAction::Repair(id) => id,
                            PoolAction::Grow(id) => id,
                            PoolAction::Idle => 0,
                        },
                    )
                    &&& *final(self) == *old(self)
                },
            },
    {
        match action {
            PoolAction::Idle => {},
            PoolAction::Repair(id) => {
                let slot = id as usize;
                if slot >= self.active_clients.len() || self.active_clients[slot] {
                    return Err(RelayError::InconsistentClient(id));
                }
                if connected {
                    proof {
                        lemma_count_active_update(self.active_clients@, id as int, true);
                        lemma_count_active_bound(self.active_clients@.update(id as int, true));
                    }
                    self.active_clients.set(slot, true);
                    self.total_active_clients = self.total_active_clients + 1;
                    self.last_connected_time = now;
                } else {
                    self.last_disconnected_time = now;
                }
            },
            PoolAction::Grow(id) => {
                if id != self.total_clients || self.total_clients >= self.max_connections {
                    return Err(RelayError::InconsistentClient(id));
                }
                if connected {
                    proof {
                        lemma_count_active_push(self.active_clients@, true);
                        lemma_count_active_bound(self.active_clients@);
                    }
                    self.active_clients.push(true);
                    self.total_active_clients = self.total_active_clients + 1;
                    self.total_clients = self.total_clients + 1;
                    self.last_connected_time = now;
                } else {
                    self.last_disconnected_time = now;
                }
            },
        }
        Ok(())
    }
}

} // verus!
