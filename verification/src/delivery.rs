//! Event delivery routing: which events are reliable, which touch a
//! session's activity clock, which connection-local and session-scoped
//! notifications a client connection receives, and the ACP method routes.

use vstd::prelude::*;
use std::collections::HashMap;

use crate::text::text_equals;

verus! {

broadcast use {vstd::std_specs::hash::group_hash_axioms, vstd::string::group_string_axioms};

/// Every server event kind the runtime broadcasts.
#[derive(Debug, Clone, Copy, PartialEq, Eq, Structural)]
pub enum ServerEventKind {
    ItemDelta,
    TurnUsageUpdated,
    ContextUsageUpdated,
    WorkspaceChangesUpdated,
    ReferenceSearchUpdated,
    CommandExecOutputDelta,
    SessionStarted,
    SessionTitleUpdated,
    SessionCompactionStarted,
    SessionCompactionCompleted,
    SessionCompactionFailed,
    SessionStatusChanged,
    SessionEffectiveContextWindowUpdated,
    SessionArchived,
    SessionUnarchived,
    SessionClosed,
    SessionDeleted,
    TurnStarted,
    TurnCompleted,
    TurnInterrupted,
    TurnFailed,
    TurnPlanUpdated,
    TurnDiffUpdated,
    TurnProviderRetryStatus,
    ToolCallStatusUpdated,
    RequestUserInput,
    MessageEditRecorded,
    TurnSuperseded,
    WorkspaceRestoreStarted,
    WorkspaceRestoreCompleted,
    ItemStarted,
    ItemCompleted,
    ServerRequestResolved,
    ReferenceSearchCompleted,
    ReferenceSearchFailed,
    CommandExecExited,
}

/// Kind of a streamed item delta.
#[derive(Debug, Clone, Copy, PartialEq, Eq, Structural)]
pub enum ItemDeltaKind {
    AgentMessageDelta,
    ReasoningSummaryTextDelta,
    ReasoningTextDelta,
    CommandOutputDelta,
    PlanDelta,
}

/// Kind of a turn item.
#[derive(Debug, Clone, Copy, PartialEq, Eq, Structural)]
pub enum ItemKind {
    UserMessage,
    AgentMessage,
    Reasoning,
    ToolCall,
    ToolResult,
    CommandExecution,
    FileChange,
    ContextCompaction,
    Plan,
}

/// The routing facts of one server event.
#[derive(Debug, Clone, Copy, PartialEq, Eq, Structural)]
pub struct RoutedEvent {
    pub kind: ServerEventKind,
    /// The session the event belongs to, if any.
    pub session_id: Option<u128>,
    /// The turn the event belongs to, if any.
    pub turn_id: Option<u128>,
    /// The item kind, for item started/completed events.
    pub item_kind: Option<ItemKind>,
    /// The delta kind, for item delta events.
    pub delta_kind: Option<ItemDeltaKind>,
}

/// How an outbound notification is queued.
#[derive(Debug, Clone, Copy, PartialEq, Eq, Structural)]
pub enum OutboundDeliveryPolicy {
    /// Dropped under backpressure.
    BestEffort,
    /// Always delivered.
    Reliable,
}

/// Streaming updates are best effort; lifecycle events are reliable.
pub open spec fn is_best_effort_kind(kind: ServerEventKind) -> bool {
    ||| kind == ServerEventKind::ItemDelta
    ||| kind == ServerEventKind::TurnUsageUpdated
    ||| kind == ServerEventKind::ContextUsageUpdated
    ||| kind == ServerEventKind::WorkspaceChangesUpdated
    ||| kind == ServerEventKind::ReferenceSearchUpdated
    ||| kind == ServerEventKind::CommandExecOutputDelta
}

/// The delivery policy of an event.
pub fn outbound_delivery_policy(event: &RoutedEvent) -> (policy: OutboundDeliveryPolicy)
    ensures
        policy == if is_best_effort_kind(event.kind) {
            OutboundDeliveryPolicy::BestEffort
        } else {
            OutboundDeliveryPolicy::Reliable
        },
{
    match event.kind {
        ServerEventKind::ItemDelta
        | ServerEventKind::TurnUsageUpdated
        | ServerEventKind::ContextUsageUpdated
        | ServerEventKind::WorkspaceChangesUpdated
        | ServerEventKind::ReferenceSearchUpdated
        | ServerEventKind::CommandExecOutputDelta => OutboundDeliveryPolicy::BestEffort,
        _ => OutboundDeliveryPolicy::Reliable,
    }
}

/// Whether a delta streams assistant or reasoning text.
pub open spec fn is_text_stream_delta(delta: Option<ItemDeltaKind>) -> bool {
    delta == Some(ItemDeltaKind::AgentMessageDelta)
        || delta == Some(ItemDeltaKind::ReasoningSummaryTextDelta)
        || delta == Some(ItemDeltaKind::ReasoningTextDelta)
}

/// Whether an event counts as activity of its session.
pub open spec fn is_activity_event(event: RoutedEvent) -> bool {
    ||| event.kind == ServerEventKind::ToolCallStatusUpdated
    ||| event.kind == ServerEventKind::ItemDelta && is_text_stream_delta(event.delta_kind)
    ||| event.kind == ServerEventKind::ItemStarted && (event.item_kind == Some(ItemKind::ToolCall)
        || event.item_kind == Some(ItemKind::CommandExecution))
    ||| event.kind == ServerEventKind::ItemCompleted && (event.item_kind == Some(ItemKind::UserMessage)
        || event.item_kind == Some(ItemKind::ToolResult)
        || event.item_kind == Some(ItemKind::CommandExecution)
        || event.item_kind == Some(ItemKind::FileChange))
}

fn is_text_stream(delta: Option<ItemDeltaKind>) -> (streams: bool)
    ensures
        streams == is_text_stream_delta(delta),
{
    match delta {
        Some(ItemDeltaKind::AgentMessageDelta)
        | Some(ItemDeltaKind::ReasoningSummaryTextDelta)
        | Some(ItemDeltaKind::ReasoningTextDelta) => true,
        _ => false,
    }
}

/// The session whose last-activity time an event advances: tool status
/// updates, streamed assistant/reasoning text, started tool calls and
/// commands, and completed user messages, tool results, commands and file
/// changes.
pub fn session_activity_event_id(event: &RoutedEvent) -> (session: Option<u128>)
    ensures
        session == if is_activity_event(*event) {
            event.session_id
        } else {
            None
        },
{
    let activity = match event.kind {
        ServerEventKind::ToolCallStatusUpdated => true,
        ServerEventKind::ItemDelta => is_text_stream(event.delta_kind),
        ServerEventKind::ItemStarted => match event.item_kind {
            Some(ItemKind::ToolCall) | Some(ItemKind::CommandExecution) => true,
            _ => false,
        },
        ServerEventKind::ItemCompleted => match event.item_kind {
            Some(ItemKind::UserMessage)
            | Some(ItemKind::ToolResult)
            | Some(ItemKind::CommandExecution)
            | Some(ItemKind::FileChange) => true,
            _ => false,
        },
        _ => false,
    };
    if activity {
        event.session_id
    } else {
        None
    }
}

/// Transport of a client connection.
#[derive(Debug, Clone, Copy, PartialEq, Eq, Structural)]
pub enum ClientTransportKind {
    Stdio,
    StdioProxy,
    WebSocket,
}

/// Whether a connection must skip an event: stdio-proxy connections get a
/// session's streamed assistant/reasoning text of a turn only when they own
/// that session's active turn.
pub open spec fn skips_non_owner_stream(
    connection_id: u64,
    transport: ClientTransportKind,
    event: RoutedEvent,
    active_turn_connections: Map<u128, u64>,
) -> bool {
    &&& transport == ClientTransportKind::StdioProxy
    &&& event.kind == ServerEventKind::ItemDelta
    &&& is_text_stream_delta(event.delta_kind)
    &&& event.turn_id is Some
    &&& event.session_id is Some
    &&& active_turn_connections.contains_key(event.session_id->0)
    &&& active_turn_connections[event.session_id->0] != connection_id
}

/// Whether this connection skips the event because another connection owns
/// the session's active turn.
pub fn should_skip_non_owner_stdio_stream(
    connection_id: u64,
    transport: ClientTransportKind,
    event: &RoutedEvent,
    active_turn_connections: &HashMap<u128, u64>,
) -> (skip: bool)
    ensures
        skip == skips_non_owner_stream(connection_id, transport, *event, active_turn_connections@),
{
    if transport != ClientTransportKind::StdioProxy {
        return false;
    }
    if event.kind != ServerEventKind::ItemDelta || !is_text_stream(event.delta_kind) {
        return false;
    }
    if event.turn_id.is_none() {
        return false;
    }
    match event.session_id {
        None => false,
        Some(session_id) => match active_turn_connections.get(&session_id) {
            Some(owner) => *owner != connection_id,
            None => false,
        },
    }
}

/// The connection-local composer notifications.
pub open spec fn is_connection_local_method(method: Seq<char>) -> bool {
    method == "search/updated"@ || method == "search/completed"@ || method == "search/failed"@
}

/// Returns whether `method` is a connection-local composer notification:
/// scoped to the requesting connection, not to a session subscription.
pub fn is_connection_local_notification(method: &str) -> (local: bool)
    ensures
        local == is_connection_local_method(method@),
{
    text_equals(method, "search/updated") || text_equals(method, "search/completed")
        || text_equals(method, "search/failed")
}

/// ACP session methods served by dedicated handlers.
#[derive(Clone, Copy, Debug, PartialEq, Eq, Structural)]
pub enum AcpRoute {
    CancelSession,
    CloseSession,
    DeleteSession,
    ListSession,
    LoadSession,
    NewSession,
    PromptSession,
    ResumeSession,
    SetConfigOptionSession,
    SetModeSession,
}

pub const ACP_SESSION_CANCEL_METHOD: &'static str = "session/cancel";
pub const ACP_SESSION_CLOSE_METHOD: &'static str = "session/close";
pub const ACP_SESSION_DELETE_METHOD: &'static str = "session/delete";
pub const ACP_SESSION_LIST_METHOD: &'static str = "session/list";
pub const ACP_SESSION_LOAD_METHOD: &'static str = "session/load";
pub const ACP_SESSION_NEW_METHOD: &'static str = "session/new";
pub const ACP_SESSION_PROMPT_METHOD: &'static str = "session/prompt";
pub const ACP_SESSION_RESUME_METHOD: &'static str = "session/resume";
pub const ACP_SESSION_SET_CONFIG_OPTION_METHOD: &'static str = "session/set_config_option";
pub const ACP_SESSION_SET_MODE_METHOD: &'static str = "session/set_mode";

/// The ACP route table: each method with the route that serves it.
pub open spec fn acp_routes() -> Seq<(Seq<char>, AcpRoute)> {
    seq![
        ("session/cancel"@, AcpRoute::CancelSession),
        ("session/close"@, AcpRoute::CloseSession),
        ("session/delete"@, AcpRoute::DeleteSession),
        ("session/list"@, AcpRoute::ListSession),
        ("session/load"@, AcpRoute::LoadSession),
        ("session/new"@, AcpRoute::NewSession),
        ("session/prompt"@, AcpRoute::PromptSession),
        ("session/resume"@, AcpRoute::ResumeSession),
        ("session/set_config_option"@, AcpRoute::SetConfigOptionSession),
        ("session/set_mode"@, AcpRoute::SetModeSession),
    ]
}

/// The route of an ACP method, if it has one.
pub open spec fn acp_route_of(method: Seq<char>) -> Option<AcpRoute> {
    if exists|i: int| 0 <= i < acp_routes().len() && acp_routes()[i].0 == method {
        Some(acp_routes()[choose|i: int| 0 <= i < acp_routes().len() && acp_routes()[i].0 == method].1)
    } else {
        None
    }
}

/// The ACP route table.
pub fn acp_route_registry() -> (routes: Vec<(&'static str, AcpRoute)>)
    ensures
        routes@.len() == acp_routes().len(),
        forall|i: int| 0 <= i < routes@.len() ==> routes@[i].0@ == acp_routes()[i].0 && routes@[i].1 == acp_routes()[i].1,
{
    let routes = vec![
        (ACP_SESSION_CANCEL_METHOD, AcpRoute::CancelSession),
        (ACP_SESSION_CLOSE_METHOD, AcpRoute::CloseSession),
        (ACP_SESSION_DELETE_METHOD, AcpRoute::DeleteSession),
        (ACP_SESSION_LIST_METHOD, AcpRoute::ListSession),
        (ACP_SESSION_LOAD_METHOD, AcpRoute::LoadSession),
        (ACP_SESSION_NEW_METHOD, AcpRoute::NewSession),
        (ACP_SESSION_PROMPT_METHOD, AcpRoute::PromptSession),
        (ACP_SESSION_RESUME_METHOD, AcpRoute::ResumeSession),
        (ACP_SESSION_SET_CONFIG_OPTION_METHOD, AcpRoute::SetConfigOptionSession),
        (ACP_SESSION_SET_MODE_METHOD, AcpRoute::SetModeSession),
    ];
    routes
}

/// The route of an ACP method, if it has one.
pub fn acp_route(method: &str) -> (route: Option<AcpRoute>)
    ensures
        route == acp_route_of(method@),
{
    let routes = acp_route_registry();
    let mut i: usize = 0;
    while i < routes.len()
        invariant
            i <= routes@.len(),
            routes@.len() == acp_routes().len(),
            forall|j: int| 0 <= j < routes@.len() ==> routes@[j].0@ == acp_routes()[j].0 && routes@[j].1 == acp_routes()[j].1,
            forall|j: int| 0 <= j < i ==> acp_routes()[j].0 != method@,
        decreases routes.len() - i,
    {
        if text_equals(routes[i].0, method) {
            proof {
                lemma_acp_route_names_distinct();
                let c = choose|k: int| 0 <= k < acp_routes().len() && acp_routes()[k].0 == method@;
                assert(acp_routes()[i as int].0 == method@);
                assert(c == i);
            }
            return Some(routes[i].1);
        }
        i += 1;
    }
    None
}

/// The ACP route table names each method once.
pub proof fn lemma_acp_route_names_distinct()
    ensures
        forall|i: int, j: int|
            0 <= i < acp_routes().len() && 0 <= j < acp_routes().len() && i != j
                ==> acp_routes()[i].0 != acp_routes()[j].0,
{
    reveal_strlit("session/cancel");
    reveal_strlit("session/close");
    reveal_strlit("session/delete");
    reveal_strlit("session/list");
    reveal_strlit("session/load");
    reveal_strlit("session/new");
    reveal_strlit("session/prompt");
    reveal_strlit("session/resume");
    reveal_strlit("session/set_config_option");
    reveal_strlit("session/set_mode");
    assert forall|i: int, j: int|
        0 <= i < acp_routes().len() && 0 <= j < acp_routes().len() && i != j
            implies acp_routes()[i].0 != acp_routes()[j].0 by {
        let a = acp_routes()[i].0;
        let b = acp_routes()[j].0;
        if a.len() == b.len() {
            assert(a[8] != b[8] || a[9] != b[9] || a[10] != b[10] || a[11] != b[11] || a[12] != b[12]);
        }
    }
}


/// The set of strings a list holds.
pub open spec fn texts_view(v: Seq<String>) -> Set<Seq<char>> {
    texts_seq(v).to_set()
}

/// The values of a list of strings.
pub open spec fn texts_seq(v: Seq<String>) -> Seq<Seq<char>> {
    v.map_values(|s: String| s@)
}

/// Whether the list holds `text`.
pub fn texts_contain(v: &Vec<String>, text: &str) -> (found: bool)
    ensures
        found == texts_view(v@).contains(text@),
{
    let mut i: usize = 0;
    while i < v.len()
        invariant
            i <= v.len(),
            forall|k: int| 0 <= k < i ==> v@[k]@ != text@,
        decreases v.len() - i,
    {
        if text_equals(v[i].as_str(), text) {
            proof {
                assert(texts_seq(v@)[i as int] == text@);
            }
            return true;
        }
        i += 1;
    }
    proof {
        if texts_seq(v@).contains(text@) {
            let k = choose|k: int| 0 <= k < v@.len() && #[trigger] texts_seq(v@)[k] == text@;
            assert(v@[k]@ != text@);
        }
    }
    false
}

/// Whether two lists hold the same set of strings.
pub fn same_text_set(a: &Vec<String>, b: &Vec<String>) -> (same: bool)
    ensures
        same == (texts_view(a@) == texts_view(b@)),
{
    let mut i: usize = 0;
    while i < a.len()
        invariant
            i <= a.len(),
            forall|k: int| 0 <= k < i ==> texts_view(b@).contains(#[trigger] a@[k]@),
        decreases a.len() - i,
    {
        if !texts_contain(b, a[i].as_str()) {
            proof {
                assert(texts_seq(a@)[i as int] == a@[i as int]@);
                assert(texts_view(a@).contains(a@[i as int]@));
            }
            return false;
        }
        i += 1;
    }
    let mut j: usize = 0;
    while j < b.len()
        invariant
            j <= b.len(),
            forall|k: int| 0 <= k < a@.len() ==> texts_view(b@).contains(#[trigger] a@[k]@),
            forall|k: int| 0 <= k < j ==> texts_view(a@).contains(#[trigger] b@[k]@),
        decreases b.len() - j,
    {
        if !texts_contain(a, b[j].as_str()) {
            proof {
                assert(texts_seq(b@)[j as int] == b@[j as int]@);
                assert(texts_view(b@).contains(b@[j as int]@));
            }
            return false;
        }
        j += 1;
    }
    proof {
        assert forall|x: Seq<char>| texts_view(a@).contains(x) <==> texts_view(b@).contains(x) by {
            if texts_view(a@).contains(x) {
                let k = choose|k: int| 0 <= k < a@.len() && #[trigger] texts_seq(a@)[k] == x;
                assert(a@[k]@ == x);
            }
            if texts_view(b@).contains(x) {
                let k = choose|k: int| 0 <= k < b@.len() && #[trigger] texts_seq(b@)[k] == x;
                assert(b@[k]@ == x);
            }
        }
        assert(texts_view(a@) =~= texts_view(b@));
    }
    true
}

/// A legacy `events/subscribe` filter of one connection.
pub struct SubscriptionFilter {
    /// The subscribed session; `None` subscribes to every session.
    pub session_id: Option<u128>,
    /// Event methods to deliver; empty delivers every method.
    pub event_types: Vec<String>,
    /// Whether events of the session's direct child agents match too.
    pub include_child_agents: bool,
}

/// Whether a filter on `expected` (with or without child agents) matches an
/// event of `session`.
pub open spec fn filter_session_matches(
    expected: Option<u128>,
    include_child_agents: bool,
    session: Option<u128>,
    child_parent: Map<u128, u128>,
) -> bool {
    match expected {
        None => true,
        Some(e) => session == Some(e) || (include_child_agents && session is Some
            && child_parent.contains_key(session->0) && child_parent[session->0] == e),
    }
}

impl SubscriptionFilter {
    /// Whether this filter matches an event of `session_id`: any event for
    /// an unscoped filter, else the subscribed session itself or, when
    /// child agents are included, one of its direct children.
    pub fn session_matches(
        &self,
        session_id: Option<u128>,
        child_parent_by_session: &HashMap<u128, u128>,
    ) -> (matches: bool)
        ensures
            matches == filter_session_matches(
                self.session_id,
                self.include_child_agents,
                session_id,
                child_parent_by_session@,
            ),
    {
        let expected = match self.session_id {
            None => return true,
            Some(e) => e,
        };
        if session_id == Some(expected) {
            return true;
        }
        if !self.include_child_agents {
            return false;
        }
        match session_id {
            None => false,
            Some(s) => match child_parent_by_session.get(&s) {
                Some(parent) => *parent == expected,
                None => false,
            },
        }
    }
}

/// Handshake state of a client connection.
#[derive(Debug, Clone, Copy, PartialEq, Eq, Structural)]
pub enum ConnectionState {
    Connected,
    Ready,
}

/// A new-style (`subscription/*`) stream selector.
pub enum StreamSelector {
    /// Every event of one session.
    Session { session_id: u128 },
    /// Every event of the sessions working in one directory.
    SessionsByCwd { cwd: String },
}

/// Per-connection runtime state.
pub struct ConnectionRuntime {
    pub transport: ClientTransportKind,
    pub state: ConnectionState,
    pub acp_authenticated: bool,
    /// Whether the client opted in to native typed `item/*` notifications.
    pub typed_items: bool,
    /// Cached union of this connection's new-style selector sets.
    pub event_selectors: Vec<StreamSelector>,
    pub opt_out_notification_methods: Vec<String>,
    pub subscriptions: Vec<SubscriptionFilter>,
    /// Sequence number of the next notification.
    pub next_event_seq: u64,
    /// Id of the next server-initiated request.
    pub next_client_request_id: u64,
    /// Server-initiated requests still awaiting a client response.
    pub pending_client_requests: Vec<u64>,
}

/// Whether one legacy filter delivers `method` for `session`.
pub open spec fn filter_delivers(
    f: SubscriptionFilter,
    method: Seq<char>,
    session: Option<u128>,
    child_parent: Map<u128, u128>,
) -> bool {
    filter_session_matches(f.session_id, f.include_child_agents, session, child_parent)
        && (f.event_types@.len() == 0 || texts_view(f.event_types@).contains(method))
}

/// Whether a connection's legacy filters deliver `method` for `session`.
pub open spec fn connection_delivers(
    connection: ConnectionRuntime,
    method: Seq<char>,
    session: Option<u128>,
    child_parent: Map<u128, u128>,
) -> bool {
    !texts_view(connection.opt_out_notification_methods@).contains(method)
        && exists|i: int| 0 <= i < connection.subscriptions@.len()
            && #[trigger] filter_delivers(connection.subscriptions@[i], method, session, child_parent)
}

/// Whether a connection's selectors cover an event of `session` working in
/// `cwd`.
pub open spec fn selectors_cover(selectors: Seq<StreamSelector>, session: Option<u128>, cwd: Option<Seq<char>>) -> bool {
    exists|i: int| 0 <= i < selectors.len() && #[trigger] selector_covers(selectors[i], session, cwd)
}

/// Whether one selector covers an event of `session` working in `cwd`.
pub open spec fn selector_covers(selector: StreamSelector, session: Option<u128>, cwd: Option<Seq<char>>) -> bool {
    match selector {
        StreamSelector::Session { session_id } => session == Some(session_id),
        StreamSelector::SessionsByCwd { cwd: c } => cwd == Some(c@),
    }
}

/// Whether a selector is the session selector of `session_id`.
pub open spec fn selector_is_session(selector: StreamSelector, session_id: u128) -> bool {
    match selector {
        StreamSelector::Session { session_id: s } => s == session_id,
        StreamSelector::SessionsByCwd { .. } => false,
    }
}

/// The value of an optional string slice.
pub open spec fn opt_str_view(text: Option<&str>) -> Option<Seq<char>> {
    match text {
        Some(t) => Some(t@),
        None => None,
    }
}

fn selector_hit(selector: &StreamSelector, session_id: Option<u128>, event_cwd: Option<&str>) -> (hit: bool)
    ensures
        hit == selector_covers(*selector, session_id, opt_str_view(event_cwd)),
{
    match selector {
        StreamSelector::Session { session_id: s } => session_id == Some(*s),
        StreamSelector::SessionsByCwd { cwd } => match event_cwd {
            Some(e) => text_equals(cwd.as_str(), e),
            None => false,
        },
    }
}

impl ConnectionRuntime {
    /// A freshly connected client: nothing subscribed, sequences at 1.
    pub fn new(transport: ClientTransportKind) -> (connection: Self)
        ensures
            connection.transport == transport,
            connection.state == ConnectionState::Connected,
            !connection.acp_authenticated,
            !connection.typed_items,
            connection.event_selectors@.len() == 0,
            connection.opt_out_notification_methods@.len() == 0,
            connection.subscriptions@.len() == 0,
            connection.next_event_seq == 1,
            connection.next_client_request_id == 1,
            connection.pending_client_requests@.len() == 0,
    {
        ConnectionRuntime {
            transport,
            state: ConnectionState::Connected,
            acp_authenticated: false,
            typed_items: false,
            event_selectors: Vec::new(),
            opt_out_notification_methods: Vec::new(),
            subscriptions: Vec::new(),
            next_event_seq: 1,
            next_client_request_id: 1,
            pending_client_requests: Vec::new(),
        }
    }

    /// Connection-local notifications bypass session subscription filters;
    /// only an explicit opt-out stops them.
    pub fn should_deliver_connection_local(&self, method: &str) -> (deliver: bool)
        ensures
            deliver == !texts_view(self.opt_out_notification_methods@).contains(method@),
    {
        !texts_contain(&self.opt_out_notification_methods, method)
    }

    /// Whether a session-scoped notification reaches this connection: not
    /// opted out, and some legacy filter matches both the session and the
    /// method.
    pub fn should_deliver(
        &self,
        method: &str,
        session_id: Option<u128>,
        child_parent_by_session: &HashMap<u128, u128>,
    ) -> (deliver: bool)
        ensures
            deliver == connection_delivers(*self, method@, session_id, child_parent_by_session@),
    {
        if texts_contain(&self.opt_out_notification_methods, method) {
            return false;
        }
        let mut i: usize = 0;
        while i < self.subscriptions.len()
            invariant
                i <= self.subscriptions@.len(),
                !texts_view(self.opt_out_notification_methods@).contains(method@),
                forall|k: int| 0 <= k < i ==> !filter_delivers(self.subscriptions@[k], method@, session_id, child_parent_by_session@),
            decreases self.subscriptions.len() - i,
        {
            let subscription = &self.subscriptions[i];
            let session_matches = subscription.session_matches(session_id, child_parent_by_session);
            let event_matches = subscription.event_types.len() == 0
                || texts_contain(&subscription.event_types, method);
            if session_matches && event_matches {
                proof {
                    assert(filter_delivers(self.subscriptions@[i as int], method@, session_id, child_parent_by_session@));
                    assert(!texts_view(self.opt_out_notification_methods@).contains(method@));
                }
                return true;
            }
            i += 1;
        }
        false
    }

    /// Whether the new-style selectors cover an event of `session_id`
    /// whose session works in `event_cwd`.
    pub fn selectors_match(&self, session_id: Option<u128>, event_cwd: Option<&str>) -> (matches: bool)
        ensures
            matches == selectors_cover(self.event_selectors@, session_id, opt_str_view(event_cwd)),
    {
        let mut i: usize = 0;
        while i < self.event_selectors.len()
            invariant
                i <= self.event_selectors@.len(),
                forall|k: int| 0 <= k < i ==> !selector_covers(#[trigger] self.event_selectors@[k], session_id, opt_str_view(event_cwd)),
            decreases self.event_selectors.len() - i,
        {
            if selector_hit(&self.event_selectors[i], session_id, event_cwd) {
                return true;
            }
            i += 1;
        }
        false
    }

    /// Whether the connection subscribed to `session_id` through a session
    /// selector.
    pub fn has_session_selector(&self, session_id: u128) -> (found: bool)
        ensures
            found == exists|i: int| 0 <= i < self.event_selectors@.len()
                && selector_is_session(self.event_selectors@[i], session_id),
    {
        let mut i: usize = 0;
        while i < self.event_selectors.len()
            invariant
                i <= self.event_selectors@.len(),
                forall|k: int| 0 <= k < i ==> !selector_is_session(#[trigger] self.event_selectors@[k], session_id),
            decreases self.event_selectors.len() - i,
        {
            match &self.event_selectors[i] {
                StreamSelector::Session { session_id: s } => {
                    if *s == session_id {
                        return true;
                    }
                },
                _ => {},
            }
            i += 1;
        }
        false
    }

    /// Hands out this connection's next notification sequence number.
    pub fn next_seq(&mut self) -> (seq: u64)
        requires
            old(self).next_event_seq < u64::MAX,
        ensures
            seq == old(self).next_event_seq,
            final(self).next_event_seq == old(self).next_event_seq + 1,
            final(self).next_client_request_id == old(self).next_client_request_id,
            final(self).pending_client_requests == old(self).pending_client_requests,
            final(self).transport == old(self).transport,
            final(self).state == old(self).state,
            final(self).acp_authenticated == old(self).acp_authenticated,
            final(self).typed_items == old(self).typed_items,
            final(self).subscriptions == old(self).subscriptions,
            final(self).event_selectors == old(self).event_selectors,
            final(self).opt_out_notification_methods == old(self).opt_out_notification_methods,
    {
        let seq = self.next_event_seq;
        self.next_event_seq = self.next_event_seq + 1;
        seq
    }

    /// Registers a server-initiated request: it takes the next request id
    /// and waits among the pending requests.
    pub fn begin_client_request(&mut self) -> (request_id: u64)
        requires
            old(self).next_client_request_id < u64::MAX,
        ensures
            request_id == old(self).next_client_request_id,
            final(self).next_client_request_id == old(self).next_client_request_id + 1,
            final(self).pending_client_requests@ == old(self).pending_client_requests@.push(request_id),
            final(self).next_event_seq == old(self).next_event_seq,
    {
        let request_id = self.next_client_request_id;
        self.next_client_request_id = self.next_client_request_id + 1;
        self.pending_client_requests.push(request_id);
        request_id
    }

    /// Drops a pending request; returns whether it was pending.
    pub fn take_pending_request(&mut self, request_id: u64) -> (was_pending: bool)
        ensures
            was_pending == old(self).pending_client_requests@.contains(request_id),
            final(self).pending_client_requests@ == old(self).pending_client_requests@.filter(|r: u64| r != request_id),
            final(self).next_event_seq == old(self).next_event_seq,
            final(self).next_client_request_id == old(self).next_client_request_id,
    {
        let ghost old_pending = self.pending_client_requests@;
        let mut kept: Vec<u64> = Vec::new();
        let mut found = false;
        let mut i: usize = 0;
        while i < self.pending_client_requests.len()
            invariant
                i <= self.pending_client_requests@.len(),
                self.pending_client_requests@ == old_pending,
                kept@ == old_pending.take(i as int).filter(|r: u64| r != request_id),
                found == old_pending.take(i as int).contains(request_id),
            decreases self.pending_client_requests.len() - i,
        {
            let r = self.pending_client_requests[i];
            proof {
                let t0 = old_pending.take(i as int);
                let t1 = old_pending.take(i + 1);
                assert(t1 =~= t0.push(r));
                assert(t1.filter(|x: u64| x != request_id) =~= if r != request_id {
                    t0.filter(|x: u64| x != request_id).push(r)
                } else {
                    t0.filter(|x: u64| x != request_id)
                }) by {
                    t0.lemma_filter_len_push(|x: u64| x != request_id, r);
                    reveal_with_fuel(Seq::filter, 1);
                    assert(t1.drop_last() =~= t0);
                }
                if t1.contains(request_id) && !(r == request_id) {
                    let j = choose|j: int| 0 <= j < t1.len() && t1[j] == request_id;
                    assert(t0[j] == request_id);
                }
                if t0.contains(request_id) {
                    let j = choose|j: int| 0 <= j < t0.len() && t0[j] == request_id;
                    assert(t1[j] == request_id);
                }
                if r == request_id {
                    assert(t1[i as int] == request_id);
                }
            }
            if r == request_id {
                found = true;
            } else {
                kept.push(r);
            }
            i += 1;
        }
        proof {
            assert(old_pending.take(old_pending.len() as int) =~= old_pending);
        }
        self.pending_client_requests = kept;
        found
    }

    /// Takes every pending request (when the connection closes).
    pub fn drain_pending_requests(&mut self) -> (pending: Vec<u64>)
        ensures
            pending@ == old(self).pending_client_requests@,
            final(self).pending_client_requests@.len() == 0,
    {
        let mut pending: Vec<u64> = Vec::new();
        std::mem::swap(&mut pending, &mut self.pending_client_requests);
        pending
    }
}

/// A server-initiated request settles at most once: after it is taken
/// (answered, timed out, cancelled or dropped) it is no longer pending, so
/// a second settlement of the same id finds nothing, and every other
/// pending request stays pending.
pub proof fn lemma_request_settles_once(pending: Seq<u64>, request_id: u64, other: u64)
    ensures
        !pending.filter(|r: u64| r != request_id).contains(request_id),
        other != request_id && pending.contains(other) ==> pending.filter(|r: u64| r != request_id).contains(other),
{
    let pred = |r: u64| r != request_id;
    let kept = pending.filter(pred);
    if kept.contains(request_id) {
        let i = choose|i: int| 0 <= i < kept.len() && kept[i] == request_id;
        pending.lemma_filter_pred(pred, i);
    }
    if other != request_id && pending.contains(other) {
        let j = choose|j: int| 0 <= j < pending.len() && pending[j] == other;
        pending.lemma_filter_contains(pred, j);
    }
}

/// A legacy subscription delivers an event exactly when it covers the
/// event's session and lists its method (anywhere in its list) or lists
/// none; a connection takes the event when one of its subscriptions
/// delivers it and it has not opted out of the method.
pub proof fn lemma_subscriptions_deliver_listed_methods(
    connection: ConnectionRuntime,
    i: int,
    method: Seq<char>,
    session: Option<u128>,
    child_parent: Map<u128, u128>,
)
    requires
        0 <= i < connection.subscriptions@.len(),
    ensures
        ({
            let f = connection.subscriptions@[i];
            let covers = f.session_id is None || session == f.session_id;
            let listed = f.event_types@.len() == 0 || exists|k: int| 0 <= k < f.event_types@.len()
                && #[trigger] f.event_types@[k]@ == method;
            &&& covers && listed ==> filter_delivers(f, method, session, child_parent)
            &&& f.event_types@.len() > 0 && (forall|k: int| 0 <= k < f.event_types@.len()
                ==> #[trigger] f.event_types@[k]@ != method)
                ==> !filter_delivers(f, method, session, child_parent)
            &&& (f.session_id is Some && session is Some && session->0 != f.session_id->0 && !f.include_child_agents)
                ==> !filter_delivers(f, method, session, child_parent)
            &&& covers && listed && (forall|k: int| 0 <= k < connection.opt_out_notification_methods@.len()
                ==> #[trigger] connection.opt_out_notification_methods@[k]@ != method)
                ==> connection_delivers(connection, method, session, child_parent)
            &&& (exists|k: int| 0 <= k < connection.opt_out_notification_methods@.len()
                && #[trigger] connection.opt_out_notification_methods@[k]@ == method)
                ==> !connection_delivers(connection, method, session, child_parent)
        }),
{
    let f = connection.subscriptions@[i];
    if exists|k: int| 0 <= k < f.event_types@.len() && #[trigger] f.event_types@[k]@ == method {
        let k = choose|k: int| 0 <= k < f.event_types@.len() && #[trigger] f.event_types@[k]@ == method;
        assert(texts_seq(f.event_types@)[k] == method);
        assert(texts_seq(f.event_types@).contains(method));
    }
    if texts_view(f.event_types@).contains(method) {
        let k = choose|k: int| 0 <= k < texts_seq(f.event_types@).len() && texts_seq(f.event_types@)[k] == method;
        assert(f.event_types@[k]@ == method);
    }
    let opt = connection.opt_out_notification_methods@;
    if texts_view(opt).contains(method) {
        let k = choose|k: int| 0 <= k < texts_seq(opt).len() && texts_seq(opt)[k] == method;
        assert(opt[k]@ == method);
    }
    let covers = f.session_id is None || session == f.session_id;
    let listed = f.event_types@.len() == 0 || exists|k: int| 0 <= k < f.event_types@.len()
        && #[trigger] f.event_types@[k]@ == method;
    assert(covers && listed ==> filter_delivers(f, method, session, child_parent));
    assert(f.event_types@.len() > 0 && (forall|k: int| 0 <= k < f.event_types@.len()
        ==> #[trigger] f.event_types@[k]@ != method) ==> !filter_delivers(f, method, session, child_parent));
    assert((f.session_id is Some && session is Some && session->0 != f.session_id->0 && !f.include_child_agents)
        ==> !filter_delivers(f, method, session, child_parent));
    if exists|k: int| 0 <= k < opt.len() && #[trigger] opt[k]@ == method {
        let k = choose|k: int| 0 <= k < opt.len() && #[trigger] opt[k]@ == method;
        assert(texts_seq(opt)[k] == method);
        assert(texts_seq(opt).contains(method));
    }
}

} // verus!
