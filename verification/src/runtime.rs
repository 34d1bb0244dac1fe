//! The server runtime's connection registry: connection ids, per-connection
//! notification sequencing, legacy session subscriptions, server-initiated
//! request bookkeeping, event fan-out decisions, and the sessions with a
//! title generation in flight.

use vstd::prelude::*;
use vstd::arithmetic::power2::{lemma2_to64_rest, lemma_pow2_strictly_increases, pow2};
use vstd::bits::{lemma_u64_pow2_no_overflow, lemma_u64_shl_is_mul};
use std::collections::HashMap;

use crate::delivery::{
    connection_delivers, is_connection_local_method, is_connection_local_notification,
    selectors_cover, skips_non_owner_stream, should_skip_non_owner_stdio_stream, opt_str_view,
    selector_is_session, texts_view, same_text_set, texts_contain, ClientTransportKind,
    ConnectionRuntime, ConnectionState, RoutedEvent, StreamSelector, SubscriptionFilter,
};

verus! {

broadcast use vstd::std_specs::hash::group_hash_axioms;

/// One registered connection.
pub struct ConnectionSlot {
    pub id: u64,
    pub runtime: ConnectionRuntime,
}

/// The connection registry and title bookkeeping of the server runtime.
pub struct ServerRuntime {
    next_connection_id: u64,
    connections: Vec<ConnectionSlot>,
    title_generation_in_flight: Vec<u128>,
}

/// Whether connection `c` receives `event` (sent as `method`) in a
/// broadcast: it is not a non-owner stdio stream skip, and either its
/// legacy filters or its new-style selectors cover the event.
pub open spec fn broadcast_reaches(
    id: u64,
    c: ConnectionRuntime,
    event: RoutedEvent,
    method: Seq<char>,
    child_parent: Map<u128, u128>,
    active_turn_connections: Map<u128, u64>,
    event_cwd: Option<Seq<char>>,
) -> bool {
    !skips_non_owner_stream(id, c.transport, event, active_turn_connections)
        && (connection_delivers(c, method, event.session_id, child_parent)
            || selectors_cover(c.event_selectors@, event.session_id, event_cwd))
}

/// Whether a connection controls a session: it owns the session's turn or
/// subscribed to the session through a session selector.
pub open spec fn controls_session(s: ConnectionSlot, session_id: u128, owner: Option<u64>) -> bool {
    Some(s.id) == owner || exists|k: int| 0 <= k < s.runtime.event_selectors@.len()
        && #[trigger] selector_is_session(s.runtime.event_selectors@[k], session_id)
}

/// Whether a connection subscribed to a session through a session
/// selector.
pub open spec fn subscribed_to_session(s: ConnectionSlot, session_id: u128) -> bool {
    exists|k: int| 0 <= k < s.runtime.event_selectors@.len()
        && #[trigger] selector_is_session(s.runtime.event_selectors@[k], session_id)
}

/// The ids of `slots`, in order.
pub open spec fn slot_ids(slots: Seq<ConnectionSlot>) -> Seq<u64> {
    slots.map_values(|s: ConnectionSlot| s.id)
}

/// `slots` with the notification sequence of each slot satisfying `hit`
/// advanced by one, everything else unchanged.
pub open spec fn advanced_where(old_slot: ConnectionSlot, new_slot: ConnectionSlot, hit: bool) -> bool {
    &&& new_slot.id == old_slot.id
    &&& new_slot.runtime.next_event_seq == old_slot.runtime.next_event_seq + if hit { 1int } else { 0 }
    &&& new_slot.runtime.transport == old_slot.runtime.transport
    &&& new_slot.runtime.state == old_slot.runtime.state
    &&& new_slot.runtime.acp_authenticated == old_slot.runtime.acp_authenticated
    &&& new_slot.runtime.typed_items == old_slot.runtime.typed_items
    &&& new_slot.runtime.subscriptions == old_slot.runtime.subscriptions
    &&& new_slot.runtime.event_selectors == old_slot.runtime.event_selectors
    &&& new_slot.runtime.opt_out_notification_methods == old_slot.runtime.opt_out_notification_methods
    &&& new_slot.runtime.pending_client_requests == old_slot.runtime.pending_client_requests
    &&& new_slot.runtime.next_client_request_id == old_slot.runtime.next_client_request_id
}

/// Most attempts a model-generated title gets.
pub const MAX_TITLE_RETRIES: usize = 5;

/// Base delay of the title retry schedule, in seconds.
pub const TITLE_RETRY_BASE_DELAY_SECS: u64 = 1;

/// Delay before retrying title attempt `attempt` (counted from 1): the base
/// delay doubled for each earlier attempt, plus `attempt % 3` seconds of
/// spread.
pub open spec fn title_retry_delay(attempt: nat) -> int {
    let earlier: nat = if attempt == 0 { 0 } else { (attempt - 1) as nat };
    TITLE_RETRY_BASE_DELAY_SECS * pow2(earlier) + attempt % 3
}

impl ServerRuntime {
    /// Seconds to wait before retrying title attempt `attempt`.
    pub fn title_retry_backoff_secs(attempt: usize) -> (delay: u64)
        requires
            attempt <= 64,
        ensures
            delay == title_retry_delay(attempt as nat),
    {
        let shift: u64 = attempt.saturating_sub(1) as u64;
        proof {
            lemma_u64_pow2_no_overflow(shift as nat);
            lemma_u64_shl_is_mul(1u64, shift);
            lemma2_to64_rest();
            if shift < 63 {
                lemma_pow2_strictly_increases(shift as nat, 63);
            }
        }
        let base = TITLE_RETRY_BASE_DELAY_SECS * (1u64 << shift);
        base + (attempt as u64 % 3)
    }

    /// The registered connections, in id order.
    pub closed spec fn slots(&self) -> Seq<ConnectionSlot> {
        self.connections@
    }

    /// The id the next registered connection gets.
    pub closed spec fn next_id(&self) -> u64 {
        self.next_connection_id
    }

    /// Sessions with a title generation in flight.
    pub closed spec fn titles_in_flight(&self) -> Set<u128> {
        self.title_generation_in_flight@.to_set()
    }

    /// Connection ids are strictly increasing and below the next id; no
    /// session is listed twice among the title generations in flight.
    pub closed spec fn wf(&self) -> bool {
        &&& forall|i: int, j: int| 0 <= i < j < self.connections@.len()
            ==> self.connections@[i].id < self.connections@[j].id
        &&& forall|i: int| 0 <= i < self.connections@.len() ==> self.connections@[i].id < self.next_connection_id
        &&& self.title_generation_in_flight@.no_duplicates()
    }

    /// Index of connection `id` among the slots.
    pub open spec fn index_of(&self, id: u64) -> Option<int> {
        if exists|i: int| 0 <= i < self.slots().len() && self.slots()[i].id == id {
            Some(choose|i: int| 0 <= i < self.slots().len() && self.slots()[i].id == id)
        } else {
            None
        }
    }

    /// An empty registry; the first connection gets id 1.
    pub fn new() -> (runtime: Self)
        ensures
            runtime.wf(),
            runtime.slots().len() == 0,
            runtime.next_id() == 1,
            runtime.titles_in_flight() == Set::<u128>::empty(),
    {
        let runtime = ServerRuntime {
            next_connection_id: 1,
            connections: Vec::new(),
            title_generation_in_flight: Vec::new(),
        };
        proof {
            assert(runtime.title_generation_in_flight@.to_set() =~= Set::<u128>::empty());
        }
        runtime
    }

    fn find(&self, id: u64) -> (found: Option<usize>)
        requires
            self.wf(),
        ensures
            match found {
                Some(i) => i < self.slots().len() && self.slots()[i as int].id == id
                    && self.index_of(id) == Some(i as int),
                None => self.index_of(id) is None,
            },
    {
        let mut i: usize = 0;
        while i < self.connections.len()
            invariant
                self.wf(),
                i <= self.connections@.len(),
                forall|k: int| 0 <= k < i ==> self.connections@[k].id != id,
            decreases self.connections.len() - i,
        {
            if self.connections[i].id == id {
                proof {
                    let c = choose|k: int| 0 <= k < self.slots().len() && self.slots()[k].id == id;
                    assert(c == i) by {
                        if c < i {
                            assert(self.connections@[c].id != id);
                        }
                        if c > i {
                            assert(self.connections@[i as int].id < self.connections@[c].id);
                        }
                    }
                }
                return Some(i);
            }
            i += 1;
        }
        None
    }

    /// Registers a new client connection and returns its id.
    pub fn register_connection(&mut self, transport: ClientTransportKind) -> (connection_id: u64)
        requires
            old(self).wf(),
            old(self).next_id() < u64::MAX,
        ensures
            final(self).wf(),
            connection_id == old(self).next_id(),
            final(self).next_id() == old(self).next_id() + 1,
            final(self).index_of(connection_id) is Some,
            old(self).index_of(connection_id) is None,
            final(self).slots().len() == old(self).slots().len() + 1,
            final(self).slots().drop_last() == old(self).slots(),
            final(self).slots().last().id == connection_id,
            final(self).slots().last().runtime.transport == transport,
            final(self).slots().last().runtime.state == ConnectionState::Connected,
            final(self).slots().last().runtime.next_event_seq == 1,
            final(self).slots().last().runtime.subscriptions@.len() == 0,
            !final(self).slots().last().runtime.acp_authenticated,
            !final(self).slots().last().runtime.typed_items,
            final(self).slots().last().runtime.event_selectors@.len() == 0,
            final(self).slots().last().runtime.opt_out_notification_methods@.len() == 0,
            final(self).slots().last().runtime.next_client_request_id == 1,
            final(self).slots().last().runtime.pending_client_requests@.len() == 0,
            final(self).titles_in_flight() == old(self).titles_in_flight(),
    {
        let connection_id = self.next_connection_id;
        self.next_connection_id = self.next_connection_id + 1;
        self.connections.push(ConnectionSlot { id: connection_id, runtime: ConnectionRuntime::new(transport) });
        proof {
            assert(self.slots().drop_last() =~= old(self).slots());
            assert(self.slots()[self.slots().len() - 1].id == connection_id);
            if old(self).index_of(connection_id) is Some {
                let k = choose|k: int| 0 <= k < old(self).slots().len() && old(self).slots()[k].id == connection_id;
                assert(old(self).connections@[k].id < old(self).next_connection_id);
            }
        }
        connection_id
    }

    /// Removes a connection; returns the server-initiated requests it still
    /// had pending (they fail with "client connection closed"), or `None`
    /// when the connection was not registered.
    pub fn unregister_connection(&mut self, connection_id: u64) -> (pending: Option<Vec<u64>>)
        requires
            old(self).wf(),
        ensures
            final(self).wf(),
            final(self).next_id() == old(self).next_id(),
            final(self).index_of(connection_id) is None,
            match old(self).index_of(connection_id) {
                Some(i) => pending is Some
                    && pending->0@ == old(self).slots()[i].runtime.pending_client_requests@
                    && final(self).slots() == old(self).slots().remove(i),
                None => pending is None && final(self).slots() == old(self).slots(),
            },
            final(self).titles_in_flight() == old(self).titles_in_flight(),
    {
        match self.find(connection_id) {
            None => None,
            Some(i) => {
                let slot = self.connections.remove(i);
                proof {
                    if self.index_of(connection_id) is Some {
                        let k = choose|k: int| 0 <= k < self.slots().len() && self.slots()[k].id == connection_id;
                        if k < i {
                            assert(old(self).connections@[k].id < old(self).connections@[i as int].id);
                        } else {
                            assert(old(self).connections@[i as int].id < old(self).connections@[k + 1].id);
                        }
                    }
                }
                Some(slot.runtime.pending_client_requests)
            },
        }
    }

    /// Whether the connection finished its handshake.
    pub fn connection_ready(&self, connection_id: u64) -> (ready: bool)
        requires
            self.wf(),
        ensures
            ready == match self.index_of(connection_id) {
                Some(i) => self.slots()[i].runtime.state == ConnectionState::Ready,
                None => false,
            },
    {
        match self.find(connection_id) {
            Some(i) => self.connections[i].runtime.state == ConnectionState::Ready,
            None => false,
        }
    }

    /// Subscribes a connection to a session's events (all methods when no
    /// event types are given). A filter with the same session and the same
    /// set of event types is not added twice; stdio connections also follow
    /// the session's direct child agents.
    pub fn subscribe_connection_to_session(
        &mut self,
        connection_id: u64,
        session_id: u128,
        event_types: Option<Vec<String>>,
    )
        requires
            old(self).wf(),
        ensures
            final(self).wf(),
            final(self).next_id() == old(self).next_id(),
            slot_ids(final(self).slots()) == slot_ids(old(self).slots()),
            final(self).titles_in_flight() == old(self).titles_in_flight(),
            match old(self).index_of(connection_id) {
                None => final(self).slots() == old(self).slots(),
                Some(i) => {
                    let before = old(self).slots()[i].runtime;
                    let after = final(self).slots()[i].runtime;
                    let desired = match event_types {
                        Some(t) => texts_view(t@),
                        None => Set::empty(),
                    };
                    let already = exists|k: int| 0 <= k < before.subscriptions@.len()
                        && before.subscriptions@[k].session_id == Some(session_id)
                        && #[trigger] texts_view(before.subscriptions@[k].event_types@) == desired;
                    &&& forall|j: int| 0 <= j < old(self).slots().len() && j != i
                        ==> final(self).slots()[j] == old(self).slots()[j]
                    &&& after.transport == before.transport
                    &&& after.state == before.state
                    &&& after.next_event_seq == before.next_event_seq
                    &&& after.event_selectors == before.event_selectors
                    &&& after.opt_out_notification_methods == before.opt_out_notification_methods
                    &&& already ==> after.subscriptions == before.subscriptions
                    &&& !already ==> after.subscriptions@.drop_last() == before.subscriptions@
                        && after.subscriptions@.len() == before.subscriptions@.len() + 1
                        && after.subscriptions@.last().session_id == Some(session_id)
                        && texts_view(after.subscriptions@.last().event_types@) == desired
                        && after.subscriptions@.last().include_child_agents == (before.transport
                            == ClientTransportKind::Stdio || before.transport == ClientTransportKind::StdioProxy)
                },
            },
    {
        let i = match self.find(connection_id) {
            None => return,
            Some(i) => i,
        };
        let desired = match event_types {
            Some(t) => t,
            None => Vec::new(),
        };
        let ghost desired_set = texts_view(desired@);
        proof {
            assert(desired_set == match event_types {
                Some(t) => texts_view(t@),
                None => Set::<Seq<char>>::empty(),
            }) by {
                if event_types is None {
                    assert(texts_view(desired@) =~= Set::<Seq<char>>::empty());
                }
            }
        }
        let mut already = false;
        let mut k: usize = 0;
        while k < self.connections[i].runtime.subscriptions.len() && !already
            invariant
                i < self.connections@.len(),
                k <= self.connections@[i as int].runtime.subscriptions@.len(),
                desired_set == texts_view(desired@),
                already ==> exists|m: int| 0 <= m < self.connections@[i as int].runtime.subscriptions@.len()
                    && self.connections@[i as int].runtime.subscriptions@[m].session_id == Some(session_id)
                    && #[trigger] texts_view(self.connections@[i as int].runtime.subscriptions@[m].event_types@) == desired_set,
                !already ==> forall|m: int| 0 <= m < k ==> !(self.connections@[i as int].runtime.subscriptions@[m].session_id == Some(session_id)
                    && #[trigger] texts_view(self.connections@[i as int].runtime.subscriptions@[m].event_types@) == desired_set),
            decreases self.connections@[i as int].runtime.subscriptions@.len() - k, if already { 0int } else { 1 },
        {
            let sub = &self.connections[i].runtime.subscriptions[k];
            if sub.session_id == Some(session_id) && same_text_set(&sub.event_types, &desired) {
                already = true;
            } else {
                k += 1;
            }
        }
        if already {
            return;
        }
        let mut slot = self.connections.remove(i);
        let include_child_agents = slot.runtime.transport == ClientTransportKind::Stdio
            || slot.runtime.transport == ClientTransportKind::StdioProxy;
        slot.runtime.subscriptions.push(SubscriptionFilter {
            session_id: Some(session_id),
            event_types: desired,
            include_child_agents,
        });
        self.connections.insert(i, slot);
        proof {
            assert(slot_ids(self.slots()) =~= slot_ids(old(self).slots()));
            assert forall|a: int, b: int| 0 <= a < b < self.connections@.len()
                implies self.connections@[a].id < self.connections@[b].id by {
                assert(self.connections@[a].id == old(self).connections@[a].id);
                assert(self.connections@[b].id == old(self).connections@[b].id);
            }
            assert forall|a: int| 0 <= a < self.connections@.len()
                implies self.connections@[a].id < self.next_connection_id by {
                assert(self.connections@[a].id == old(self).connections@[a].id);
            }
            assert(self.slots()[i as int].runtime.subscriptions@.drop_last()
                =~= old(self).slots()[i as int].runtime.subscriptions@);
        }
    }

    /// The connections controlling a session, in ascending id order: those
    /// subscribed to it through a session selector, and the owner.
    pub fn controlling_connection_ids(&self, session_id: u128, owner_connection_id: Option<u64>) -> (ids: Vec<u64>)
        requires
            self.wf(),
        ensures
            ids@ == slot_ids(self.slots().filter(|s: ConnectionSlot| controls_session(s, session_id, owner_connection_id))),
            forall|a: int, b: int| 0 <= a < b < ids@.len() ==> ids@[a] < ids@[b],
    {
        let ghost pred = |s: ConnectionSlot| controls_session(s, session_id, owner_connection_id);
        let ghost slots = self.connections@;
        let mut ids: Vec<u64> = Vec::new();
        let mut i: usize = 0;
        while i < self.connections.len()
            invariant
                self.wf(),
                pred == (|s: ConnectionSlot| controls_session(s, session_id, owner_connection_id)),
                slots == self.connections@,
                i <= slots.len(),
                ids@ == slot_ids(slots.take(i as int).filter(pred)),
                forall|a: int, b: int| 0 <= a < b < ids@.len() ==> ids@[a] < ids@[b],
                i < slots.len() ==> forall|a: int| 0 <= a < ids@.len() ==> ids@[a] < slots[i as int].id,
            decreases self.connections.len() - i,
        {
            let id = self.connections[i].id;
            let subscribed = self.connections[i].runtime.has_session_selector(session_id);
            let hit = subscribed || Some(id) == owner_connection_id;
            proof {
                assert(subscribed == exists|k: int| 0 <= k < slots[i as int].runtime.event_selectors@.len()
                    && #[trigger] selector_is_session(slots[i as int].runtime.event_selectors@[k], session_id));
                assert(hit == controls_session(slots[i as int], session_id, owner_connection_id));
                assert(hit == pred(slots[i as int]));
                let t0 = slots.take(i as int);
                let t1 = slots.take(i + 1);
                assert(t1 =~= t0.push(slots[i as int]));
                reveal_with_fuel(Seq::filter, 1);
                assert(t1.drop_last() =~= t0);
            }
            if hit {
                ids.push(id);
                proof {
                    let t0 = slots.take(i as int);
                    assert(slot_ids(slots.take(i + 1).filter(pred)) =~= slot_ids(t0.filter(pred)).push(id));
                }
            }
            proof {
                if i + 1 < slots.len() {
                    assert(slots[i as int].id < slots[i + 1].id);
                }
            }
            i += 1;
        }
        proof {
            assert(slots.take(slots.len() as int) =~= slots);
        }
        ids
    }

    /// Replaces the cached union of a connection's new-style selectors;
    /// `false` when the connection does not exist.
    pub fn set_connection_selectors(&mut self, connection_id: u64, selectors: Vec<StreamSelector>) -> (found: bool)
        requires
            old(self).wf(),
        ensures
            final(self).wf(),
            slot_ids(final(self).slots()) == slot_ids(old(self).slots()),
            final(self).next_id() == old(self).next_id(),
            final(self).titles_in_flight() == old(self).titles_in_flight(),
            found == old(self).index_of(connection_id) is Some,
            match old(self).index_of(connection_id) {
                None => final(self).slots() == old(self).slots(),
                Some(i) => {
                    &&& final(self).slots()[i].runtime.event_selectors@ == selectors@
                    &&& final(self).slots()[i].runtime.subscriptions == old(self).slots()[i].runtime.subscriptions
                    &&& final(self).slots()[i].runtime.next_event_seq == old(self).slots()[i].runtime.next_event_seq
                    &&& forall|j: int| 0 <= j < old(self).slots().len() && j != i
                        ==> final(self).slots()[j] == old(self).slots()[j]
                },
            },
    {
        let i = match self.find(connection_id) {
            None => return false,
            Some(i) => i,
        };
        let mut slot = self.connections.remove(i);
        slot.runtime.event_selectors = selectors;
        self.connections.insert(i, slot);
        proof {
            self.lemma_same_ids_keep_wf(old(self), i as int);
        }
        true
    }

    /// Registers a server-initiated request on a connection; `None` when
    /// the connection does not exist.
    pub fn begin_client_request(&mut self, connection_id: u64) -> (request_id: Option<u64>)
        requires
            old(self).wf(),
            forall|i: int| 0 <= i < old(self).slots().len() && old(self).slots()[i].id == connection_id
                ==> old(self).slots()[i].runtime.next_client_request_id < u64::MAX,
        ensures
            final(self).wf(),
            slot_ids(final(self).slots()) == slot_ids(old(self).slots()),
            final(self).next_id() == old(self).next_id(),
            final(self).titles_in_flight() == old(self).titles_in_flight(),
            match old(self).index_of(connection_id) {
                None => request_id is None && final(self).slots() == old(self).slots(),
                Some(i) => {
                    let before = old(self).slots()[i].runtime;
                    let after = final(self).slots()[i].runtime;
                    &&& request_id == Some(before.next_client_request_id)
                    &&& after.next_client_request_id == before.next_client_request_id + 1
                    &&& after.pending_client_requests@ == before.pending_client_requests@.push(request_id->0)
                    &&& after.next_event_seq == before.next_event_seq
                    &&& forall|j: int| 0 <= j < old(self).slots().len() && j != i
                        ==> final(self).slots()[j] == old(self).slots()[j]
                },
            },
    {
        let i = match self.find(connection_id) {
            None => return None,
            Some(i) => i,
        };
        let mut slot = self.connections.remove(i);
        let request_id = slot.runtime.begin_client_request();
        self.connections.insert(i, slot);
        proof {
            self.lemma_same_ids_keep_wf(old(self), i as int);
        }
        Some(request_id)
    }

    /// Resolves a client response to a server-initiated request: drops the
    /// request from the connection's pending set and reports whether it was
    /// pending (an unknown id is dropped).
    pub fn resolve_pending_client_response(&mut self, connection_id: u64, request_id: u64) -> (resolved: bool)
        requires
            old(self).wf(),
        ensures
            final(self).wf(),
            slot_ids(final(self).slots()) == slot_ids(old(self).slots()),
            final(self).next_id() == old(self).next_id(),
            final(self).titles_in_flight() == old(self).titles_in_flight(),
            match old(self).index_of(connection_id) {
                None => !resolved && final(self).slots() == old(self).slots(),
                Some(i) => {
                    let before = old(self).slots()[i].runtime;
                    let after = final(self).slots()[i].runtime;
                    &&& resolved == before.pending_client_requests@.contains(request_id)
                    &&& after.pending_client_requests@ == before.pending_client_requests@.filter(|r: u64| r != request_id)
                    &&& after.next_client_request_id == before.next_client_request_id
                    &&& after.next_event_seq == before.next_event_seq
                    &&& forall|j: int| 0 <= j < old(self).slots().len() && j != i
                        ==> final(self).slots()[j] == old(self).slots()[j]
                },
            },
    {
        let i = match self.find(connection_id) {
            None => return false,
            Some(i) => i,
        };
        let mut slot = self.connections.remove(i);
        let resolved = slot.runtime.take_pending_request(request_id);
        self.connections.insert(i, slot);
        proof {
            self.lemma_same_ids_keep_wf(old(self), i as int);
        }
        resolved
    }

    /// Handles a client's response to a server-initiated request, given the
    /// response's `id` when it is an unsigned integer: a response without
    /// one is dropped; otherwise it resolves the pending request (see
    /// [`Self::resolve_pending_client_response`]).
    pub fn resolve_client_response(&mut self, connection_id: u64, response_id: Option<u64>) -> (resolved: bool)
        requires
            old(self).wf(),
        ensures
            final(self).wf(),
            slot_ids(final(self).slots()) == slot_ids(old(self).slots()),
            final(self).next_id() == old(self).next_id(),
            final(self).titles_in_flight() == old(self).titles_in_flight(),
            match response_id {
                None => !resolved && final(self).slots() == old(self).slots(),
                Some(request_id) => match old(self).index_of(connection_id) {
                    None => !resolved && final(self).slots() == old(self).slots(),
                    Some(i) => {
                        let before = old(self).slots()[i].runtime;
                        let after = final(self).slots()[i].runtime;
                        &&& resolved == before.pending_client_requests@.contains(request_id)
                        &&& after.pending_client_requests@ == before.pending_client_requests@.filter(|r: u64| r != request_id)
                        &&& after.next_client_request_id == before.next_client_request_id
                        &&& after.next_event_seq == before.next_event_seq
                        &&& forall|j: int| 0 <= j < old(self).slots().len() && j != i
                            ==> final(self).slots()[j] == old(self).slots()[j]
                    },
                },
            },
    {
        match response_id {
            None => false,
            Some(request_id) => self.resolve_pending_client_response(connection_id, request_id),
        }
    }

    proof fn lemma_same_ids_keep_wf(&self, before: &Self, i: int)
        requires
            before.wf(),
            0 <= i < before.connections@.len(),
            self.connections@.len() == before.connections@.len(),
            self.next_connection_id == before.next_connection_id,
            self.title_generation_in_flight == before.title_generation_in_flight,
            forall|j: int| 0 <= j < before.connections@.len() && j != i ==> self.connections@[j] == before.connections@[j],
            self.connections@[i].id == before.connections@[i].id,
        ensures
            self.wf(),
            slot_ids(self.slots()) == slot_ids(before.slots()),
    {
        assert forall|a: int, b: int| 0 <= a < b < self.connections@.len()
            implies self.connections@[a].id < self.connections@[b].id by {
            assert(self.connections@[a].id == before.connections@[a].id);
            assert(self.connections@[b].id == before.connections@[b].id);
        }
        assert forall|a: int| 0 <= a < self.connections@.len()
            implies self.connections@[a].id < self.next_connection_id by {
            assert(self.connections@[a].id == before.connections@[a].id);
        }
        assert(slot_ids(self.slots()) =~= slot_ids(before.slots())) by {
            assert forall|a: int| 0 <= a < self.connections@.len()
                implies slot_ids(self.slots())[a] == slot_ids(before.slots())[a] by {
                assert(self.connections@[a].id == before.connections@[a].id);
            }
        }
    }

    /// The connections a broadcast of `event` (sent as `method`) reaches,
    /// in id order, each with the notification sequence number it gets;
    /// each reached connection's sequence advances by one.
    pub fn broadcast_targets(
        &mut self,
        event: &RoutedEvent,
        method: &str,
        child_parent_by_session: &HashMap<u128, u128>,
        active_turn_connections: &HashMap<u128, u64>,
        event_cwd: Option<&str>,
    ) -> (targets: Vec<(u64, u64)>)
        requires
            old(self).wf(),
            forall|i: int| 0 <= i < old(self).slots().len() ==> old(self).slots()[i].runtime.next_event_seq < u64::MAX,
        ensures
            final(self).wf(),
            final(self).next_id() == old(self).next_id(),
            final(self).titles_in_flight() == old(self).titles_in_flight(),
            final(self).slots().len() == old(self).slots().len(),
            forall|i: int| 0 <= i < old(self).slots().len() ==> #[trigger] advanced_where(
                old(self).slots()[i],
                final(self).slots()[i],
                broadcast_reaches(
                    old(self).slots()[i].id,
                    old(self).slots()[i].runtime,
                    *event,
                    method@,
                    child_parent_by_session@,
                    active_turn_connections@,
                    opt_str_view(event_cwd),
                ),
            ),
            targets@ == old(self).slots().filter(|s: ConnectionSlot| broadcast_reaches(
                s.id,
                s.runtime,
                *event,
                method@,
                child_parent_by_session@,
                active_turn_connections@,
                opt_str_view(event_cwd),
            )).map_values(|s: ConnectionSlot| (s.id, s.runtime.next_event_seq)),
    {
        let ghost pred = |s: ConnectionSlot| broadcast_reaches(
            s.id,
            s.runtime,
            *event,
            method@,
            child_parent_by_session@,
            active_turn_connections@,
            opt_str_view(event_cwd),
        );
        let ghost old_slots = self.connections@;
        let mut targets: Vec<(u64, u64)> = Vec::new();
        let mut i: usize = 0;
        while i < self.connections.len()
            invariant
                pred == (|s: ConnectionSlot| broadcast_reaches(
                    s.id,
                    s.runtime,
                    *event,
                    method@,
                    child_parent_by_session@,
                    active_turn_connections@,
                    opt_str_view(event_cwd),
                )),
                i <= self.connections@.len(),
                self.connections@.len() == old_slots.len(),
                self.next_connection_id == old(self).next_connection_id,
                self.title_generation_in_flight == old(self).title_generation_in_flight,
                old_slots == old(self).connections@,
                old(self).wf(),
                forall|j: int| i <= j < old_slots.len() ==> self.connections@[j] == old_slots[j],
                forall|j: int| 0 <= j < i ==> #[trigger] advanced_where(old_slots[j], self.connections@[j], pred(old_slots[j])),
                forall|j: int| 0 <= j < old_slots.len() ==> old_slots[j].runtime.next_event_seq < u64::MAX,
                targets@ == old_slots.take(i as int).filter(pred).map_values(|s: ConnectionSlot| (s.id, s.runtime.next_event_seq)),
            decreases self.connections.len() - i,
        {
            let skip = should_skip_non_owner_stdio_stream(
                self.connections[i].id,
                self.connections[i].runtime.transport,
                event,
                active_turn_connections,
            );
            let legacy = self.connections[i].runtime.should_deliver(method, event.session_id, child_parent_by_session);
            let selected = self.connections[i].runtime.selectors_match(event.session_id, event_cwd);
            let reached = !skip && (legacy || selected);
            proof {
                assert(self.connections@[i as int] == old_slots[i as int]);
            }
            proof {
                assert(reached == broadcast_reaches(old_slots[i as int].id, old_slots[i as int].runtime, *event,
                    method@, child_parent_by_session@, active_turn_connections@, opt_str_view(event_cwd)));
                assert(reached == pred(old_slots[i as int]));
                let t0 = old_slots.take(i as int);
                let t1 = old_slots.take(i + 1);
                assert(t1 =~= t0.push(old_slots[i as int]));
                t0.lemma_filter_len_push(pred, old_slots[i as int]);
                reveal_with_fuel(Seq::filter, 1);
                assert(t1.drop_last() =~= t0);
            }
            if reached {
                let ghost mid = self.connections@;
                let mut slot = self.connections.remove(i);
                proof {
                    assert(slot == mid[i as int]);
                }
                let seq = slot.runtime.next_seq();
                let id = slot.id;
                let ghost updated = slot;
                self.connections.insert(i, slot);
                proof {
                    assert(self.connections@[i as int] == updated);
                }
                targets.push((id, seq));
                proof {
                    assert forall|j: int| 0 <= j < old_slots.len() && j != i implies self.connections@[j] == mid[j] by {
                        if j < i {
                            assert(self.connections@[j] == mid[j]);
                        } else {
                            assert(self.connections@[j] == mid[j]);
                        }
                    }
                    assert(advanced_where(old_slots[i as int], self.connections@[i as int], pred(old_slots[i as int])));
                    let t0 = old_slots.take(i as int);
                    assert(old_slots.take(i + 1).filter(pred) == t0.filter(pred).push(old_slots[i as int]));
                    assert(targets@ =~= old_slots.take(i + 1).filter(pred).map_values(|s: ConnectionSlot| (s.id, s.runtime.next_event_seq)));
                }
            } else {
                proof {
                    let t0 = old_slots.take(i as int);
                    assert(old_slots.take(i + 1).filter(pred) == t0.filter(pred));
                }
            }
            i += 1;
        }
        proof {
            assert(old_slots.take(old_slots.len() as int) =~= old_slots);
            assert forall|a: int, b: int| 0 <= a < b < self.connections@.len()
                implies self.connections@[a].id < self.connections@[b].id by {
                assert(advanced_where(old_slots[a], self.connections@[a], pred(old_slots[a])));
                assert(advanced_where(old_slots[b], self.connections@[b], pred(old_slots[b])));
            }
            assert forall|a: int| 0 <= a < self.connections@.len()
                implies self.connections@[a].id < self.next_connection_id by {
                assert(advanced_where(old_slots[a], self.connections@[a], pred(old_slots[a])));
            }
            assert forall|a: int| 0 <= a < old_slots.len() implies #[trigger] advanced_where(
                old_slots[a],
                self.connections@[a],
                broadcast_reaches(
                    old_slots[a].id,
                    old_slots[a].runtime,
                    *event,
                    method@,
                    child_parent_by_session@,
                    active_turn_connections@,
                    opt_str_view(event_cwd),
                ),
            ) by {
                assert(advanced_where(old_slots[a], self.connections@[a], pred(old_slots[a])));
            }
        }
        targets
    }

    /// The connections a `queue/updated` notification of `session_id`
    /// reaches (those subscribed to the session through a session
    /// selector), in id order, each with the notification sequence number
    /// it gets; each reached connection's sequence advances by one.
    pub fn queue_update_targets(&mut self, session_id: u128) -> (targets: Vec<(u64, u64)>)
        requires
            old(self).wf(),
            forall|i: int| 0 <= i < old(self).slots().len() ==> old(self).slots()[i].runtime.next_event_seq < u64::MAX,
        ensures
            final(self).wf(),
            final(self).next_id() == old(self).next_id(),
            final(self).titles_in_flight() == old(self).titles_in_flight(),
            final(self).slots().len() == old(self).slots().len(),
            forall|i: int| 0 <= i < old(self).slots().len() ==> #[trigger] advanced_where(
                old(self).slots()[i],
                final(self).slots()[i],
                subscribed_to_session(old(self).slots()[i], session_id),
            ),
            targets@ == old(self).slots().filter(|s: ConnectionSlot| subscribed_to_session(s, session_id))
                .map_values(|s: ConnectionSlot| (s.id, s.runtime.next_event_seq)),
    {
        let ghost pred = |s: ConnectionSlot| subscribed_to_session(s, session_id);
        let ghost old_slots = self.connections@;
        proof {
            assert forall|j: int| 0 <= j < old_slots.len() implies old_slots[j].runtime.next_event_seq < u64::MAX by {
                assert(old(self).slots()[j] == old_slots[j]);
            }
        }
        let mut targets: Vec<(u64, u64)> = Vec::new();
        let mut i: usize = 0;
        while i < self.connections.len()
            invariant
                pred == (|s: ConnectionSlot| subscribed_to_session(s, session_id)),
                i <= self.connections@.len(),
                self.connections@.len() == old_slots.len(),
                self.next_connection_id == old(self).next_connection_id,
                self.title_generation_in_flight == old(self).title_generation_in_flight,
                old_slots == old(self).connections@,
                old(self).wf(),
                forall|j: int| i <= j < old_slots.len() ==> self.connections@[j] == old_slots[j],
                forall|j: int| 0 <= j < i ==> #[trigger] advanced_where(old_slots[j], self.connections@[j], pred(old_slots[j])),
                forall|j: int| 0 <= j < old_slots.len() ==> old_slots[j].runtime.next_event_seq < u64::MAX,
                targets@ == old_slots.take(i as int).filter(pred).map_values(|s: ConnectionSlot| (s.id, s.runtime.next_event_seq)),
            decreases self.connections.len() - i,
        {
            let reached = self.connections[i].runtime.has_session_selector(session_id);
            proof {
                assert(self.connections@[i as int] == old_slots[i as int]);
                assert(reached == subscribed_to_session(old_slots[i as int], session_id));
                assert(reached == pred(old_slots[i as int]));
                let t0 = old_slots.take(i as int);
                let t1 = old_slots.take(i + 1);
                assert(t1 =~= t0.push(old_slots[i as int]));
                t0.lemma_filter_len_push(pred, old_slots[i as int]);
                reveal_with_fuel(Seq::filter, 1);
                assert(t1.drop_last() =~= t0);
            }
            if reached {
                let ghost mid = self.connections@;
                let mut slot = self.connections.remove(i);
                proof {
                    assert(slot == mid[i as int]);
                }
                let seq = slot.runtime.next_seq();
                let id = slot.id;
                let ghost updated = slot;
                self.connections.insert(i, slot);
                targets.push((id, seq));
                proof {
                    assert(self.connections@[i as int] == updated);
                    assert forall|j: int| 0 <= j < old_slots.len() && j != i implies self.connections@[j] == mid[j] by {
                        assert(self.connections@[j] == mid[j]);
                    }
                    assert(advanced_where(old_slots[i as int], self.connections@[i as int], pred(old_slots[i as int])));
                    let t0 = old_slots.take(i as int);
                    assert(old_slots.take(i + 1).filter(pred) == t0.filter(pred).push(old_slots[i as int]));
                    assert(targets@ =~= old_slots.take(i + 1).filter(pred).map_values(|s: ConnectionSlot| (s.id, s.runtime.next_event_seq)));
                }
            } else {
                proof {
                    let t0 = old_slots.take(i as int);
                    assert(old_slots.take(i + 1).filter(pred) == t0.filter(pred));
                }
            }
            i += 1;
        }
        proof {
            assert(old_slots.take(old_slots.len() as int) =~= old_slots);
            assert forall|a: int, b: int| 0 <= a < b < self.connections@.len()
                implies self.connections@[a].id < self.connections@[b].id by {
                assert(advanced_where(old_slots[a], self.connections@[a], pred(old_slots[a])));
                assert(advanced_where(old_slots[b], self.connections@[b], pred(old_slots[b])));
            }
            assert forall|a: int| 0 <= a < self.connections@.len()
                implies self.connections@[a].id < self.next_connection_id by {
                assert(advanced_where(old_slots[a], self.connections@[a], pred(old_slots[a])));
            }
            assert forall|a: int| 0 <= a < old_slots.len() implies #[trigger] advanced_where(
                old_slots[a],
                self.connections@[a],
                subscribed_to_session(old_slots[a], session_id),
            ) by {
                assert(advanced_where(old_slots[a], self.connections@[a], pred(old_slots[a])));
            }
        }
        targets
    }

    /// The sequence number a notification sent to one connection gets, or
    /// `None` when the connection does not take it: connection-local
    /// methods need only not be opted out, session-scoped ones need a
    /// matching legacy filter.
    pub fn connection_notification_seq(
        &mut self,
        connection_id: u64,
        method: &str,
        session_id: Option<u128>,
        child_parent_by_session: &HashMap<u128, u128>,
    ) -> (seq: Option<u64>)
        requires
            old(self).wf(),
            forall|i: int| 0 <= i < old(self).slots().len() && old(self).slots()[i].id == connection_id ==> old(self).slots()[i].runtime.next_event_seq < u64::MAX,
        ensures
            final(self).wf(),
            slot_ids(final(self).slots()) == slot_ids(old(self).slots()),
            final(self).next_id() == old(self).next_id(),
            final(self).titles_in_flight() == old(self).titles_in_flight(),
            match old(self).index_of(connection_id) {
                None => seq is None && final(self).slots() == old(self).slots(),
                Some(i) => {
                    let before = old(self).slots()[i].runtime;
                    let takes = if is_connection_local_method(method@) {
                        !texts_view(before.opt_out_notification_methods@).contains(method@)
                    } else {
                        connection_delivers(before, method@, session_id, child_parent_by_session@)
                    };
                    &&& takes ==> seq == Some(before.next_event_seq)
                    &&& !takes ==> seq is None && final(self).slots() == old(self).slots()
                    &&& advanced_where(old(self).slots()[i], final(self).slots()[i], takes)
                    &&& forall|j: int| 0 <= j < old(self).slots().len() && j != i
                        ==> final(self).slots()[j] == old(self).slots()[j]
                },
            },
    {
        let i = match self.find(connection_id) {
            None => return None,
            Some(i) => i,
        };
        let takes = if is_connection_local_notification(method) {
            self.connections[i].runtime.should_deliver_connection_local(method)
        } else {
            self.connections[i].runtime.should_deliver(method, session_id, child_parent_by_session)
        };
        if !takes {
            return None;
        }
        let mut slot = self.connections.remove(i);
        proof {
            assert(slot == old(self).connections@[i as int]);
        }
        let seq = slot.runtime.next_seq();
        let ghost updated = slot;
        self.connections.insert(i, slot);
        proof {
            assert(self.connections@[i as int] == updated);
            self.lemma_same_ids_keep_wf(old(self), i as int);
        }
        Some(seq)
    }

    /// The sequence number a streamed assistant-text delta gets on the
    /// connection that owns the session's running turn (the fast path that
    /// bypasses subscription filters), or `None` when that connection is
    /// gone or opted out of `method`; only that connection's sequence
    /// advances.
    pub fn owner_stream_seq(&mut self, connection_id: u64, method: &str) -> (seq: Option<u64>)
        requires
            old(self).wf(),
            forall|i: int| 0 <= i < old(self).slots().len() && old(self).slots()[i].id == connection_id ==> old(self).slots()[i].runtime.next_event_seq < u64::MAX,
        ensures
            final(self).wf(),
            slot_ids(final(self).slots()) == slot_ids(old(self).slots()),
            final(self).next_id() == old(self).next_id(),
            final(self).titles_in_flight() == old(self).titles_in_flight(),
            match old(self).index_of(connection_id) {
                None => seq is None && final(self).slots() == old(self).slots(),
                Some(i) => {
                    let before = old(self).slots()[i].runtime;
                    let takes = !texts_view(before.opt_out_notification_methods@).contains(method@);
                    &&& takes ==> seq == Some(before.next_event_seq)
                    &&& !takes ==> seq is None && final(self).slots() == old(self).slots()
                    &&& advanced_where(old(self).slots()[i], final(self).slots()[i], takes)
                    &&& forall|j: int| 0 <= j < old(self).slots().len() && j != i
                        ==> final(self).slots()[j] == old(self).slots()[j]
                },
            },
    {
        let i = match self.find(connection_id) {
            None => return None,
            Some(i) => i,
        };
        if !self.connections[i].runtime.should_deliver_connection_local(method) {
            return None;
        }
        let mut slot = self.connections.remove(i);
        proof {
            assert(slot == old(self).connections@[i as int]);
        }
        let seq = slot.runtime.next_seq();
        let ghost updated = slot;
        self.connections.insert(i, slot);
        proof {
            assert(self.connections@[i as int] == updated);
            self.lemma_same_ids_keep_wf(old(self), i as int);
        }
        Some(seq)
    }

    /// Marks a title generation in flight for `session_id`; `false` when
    /// one already is (the caller then does not start another).
    pub fn begin_title_generation(&mut self, session_id: u128) -> (started: bool)
        requires
            old(self).wf(),
        ensures
            final(self).wf(),
            started == !old(self).titles_in_flight().contains(session_id),
            final(self).titles_in_flight() == old(self).titles_in_flight().insert(session_id),
            final(self).slots() == old(self).slots(),
            final(self).next_id() == old(self).next_id(),
    {
        let mut i: usize = 0;
        while i < self.title_generation_in_flight.len()
            invariant
                self.wf(),
                self.connections == old(self).connections,
                self.next_connection_id == old(self).next_connection_id,
                self.title_generation_in_flight == old(self).title_generation_in_flight,
                i <= self.title_generation_in_flight@.len(),
                forall|k: int| 0 <= k < i ==> self.title_generation_in_flight@[k] != session_id,
            decreases self.title_generation_in_flight.len() - i,
        {
            if self.title_generation_in_flight[i] == session_id {
                proof {
                    assert(self.title_generation_in_flight@.contains(session_id));
                    assert(self.titles_in_flight().insert(session_id) =~= self.titles_in_flight());
                }
                return false;
            }
            i += 1;
        }
        let ghost before = self.title_generation_in_flight@;
        self.title_generation_in_flight.push(session_id);
        proof {
            assert(self.title_generation_in_flight@ == before.push(session_id));
            assert(!before.contains(session_id));
            assert(self.title_generation_in_flight@.to_set() =~= before.to_set().insert(session_id)) by {
                assert forall|x: u128| self.title_generation_in_flight@.contains(x) <==> (before.contains(x) || x == session_id) by {
                    if self.title_generation_in_flight@.contains(x) {
                        let a = choose|a: int| 0 <= a < self.title_generation_in_flight@.len() && self.title_generation_in_flight@[a] == x;
                        if a < before.len() {
                            assert(before[a] == x);
                        }
                    }
                    if before.contains(x) {
                        let a = choose|a: int| 0 <= a < before.len() && before[a] == x;
                        assert(self.title_generation_in_flight@[a] == x);
                    }
                    if x == session_id {
                        assert(self.title_generation_in_flight@[before.len() as int] == x);
                    }
                }
            }
            assert forall|a: int, b: int| 0 <= a < b < self.title_generation_in_flight@.len()
                implies self.title_generation_in_flight@[a] != self.title_generation_in_flight@[b] by {
                if b == before.len() {
                    assert(before[a] != session_id);
                }
            }
        }
        true
    }

    /// Clears in-flight auto title work (after it ends, or after an
    /// explicit user rename).
    pub fn cancel_auto_title_generation(&mut self, session_id: u128)
        requires
            old(self).wf(),
        ensures
            final(self).wf(),
            final(self).titles_in_flight() == old(self).titles_in_flight().remove(session_id),
            final(self).slots() == old(self).slots(),
            final(self).next_id() == old(self).next_id(),
    {
        let ghost before = self.title_generation_in_flight@;
        let mut i: usize = 0;
        while i < self.title_generation_in_flight.len()
            invariant
                old(self).wf(),
                self.connections == old(self).connections,
                self.next_connection_id == old(self).next_connection_id,
                before == old(self).title_generation_in_flight@,
                i <= before.len(),
                self.title_generation_in_flight@ == before,
                forall|k: int| 0 <= k < i ==> before[k] != session_id,
            decreases self.title_generation_in_flight.len() - i,
        {
            if self.title_generation_in_flight[i] == session_id {
                self.title_generation_in_flight.remove(i);
                proof {
                    let after = self.title_generation_in_flight@;
                    assert(after == before.remove(i as int));
                    assert forall|x: u128| after.contains(x) <==> (before.contains(x) && x != session_id) by {
                        if after.contains(x) {
                            let a = choose|a: int| 0 <= a < after.len() && after[a] == x;
                            if a < i {
                                assert(before[a] == x);
                            } else {
                                assert(before[a + 1] == x);
                                assert(a + 1 != i);
                            }
                        }
                        if before.contains(x) && x != session_id {
                            let a = choose|a: int| 0 <= a < before.len() && before[a] == x;
                            if a < i {
                                assert(after[a] == x);
                            } else {
                                assert(a != i);
                                assert(after[a - 1] == x);
                            }
                        }
                    }
                    assert(after.to_set() =~= before.to_set().remove(session_id));
                    assert forall|a: int, b: int| 0 <= a < b < after.len() implies after[a] != after[b] by {
                        let a2 = if a < i { a } else { a + 1 };
                        let b2 = if b < i { b } else { b + 1 };
                        assert(after[a] == before[a2]);
                        assert(after[b] == before[b2]);
                    }
                }
                return;
            }
            i += 1;
        }
        proof {
            assert(!before.contains(session_id));
            assert(before.to_set().remove(session_id) =~= before.to_set());
        }
    }
}

} // verus!
