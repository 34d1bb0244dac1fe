use std::collections::HashMap;

use devo_server::delivery::{
    acp_route, is_connection_local_notification, outbound_delivery_policy,
    session_activity_event_id, should_skip_non_owner_stdio_stream, AcpRoute, ClientTransportKind,
    ConnectionRuntime, ItemDeltaKind, ItemKind, OutboundDeliveryPolicy, RoutedEvent,
    ServerEventKind, StreamSelector, SubscriptionFilter,
};

fn event(kind: ServerEventKind, session_id: Option<u128>) -> RoutedEvent {
    RoutedEvent { kind, session_id, turn_id: Some(7), item_kind: None, delta_kind: None }
}

#[test]
fn session_scoped_notifications_require_matching_subscription() {
    let subscribed_session: u128 = 0x1111;
    let subscription = SubscriptionFilter {
        session_id: Some(subscribed_session),
        event_types: Vec::new(),
        include_child_agents: false,
    };
    let child_parent_by_session: HashMap<u128, u128> = HashMap::new();

    assert!(!subscription.session_matches(None, &child_parent_by_session));
    assert!(subscription.session_matches(Some(subscribed_session), &child_parent_by_session));
}

#[test]
fn subscription_filter_can_match_direct_child_agents() {
    let parent: u128 = 1;
    let child: u128 = 2;
    let unrelated: u128 = 3;
    let child_parent_by_session = HashMap::from([(child, parent)]);
    let subscription = SubscriptionFilter {
        session_id: Some(parent),
        event_types: Vec::new(),
        include_child_agents: true,
    };

    assert_eq!(
        vec![true, true, false],
        vec![
            subscription.session_matches(Some(parent), &child_parent_by_session),
            subscription.session_matches(Some(child), &child_parent_by_session),
            subscription.session_matches(Some(unrelated), &child_parent_by_session),
        ]
    );
}

#[test]
fn item_lifecycle_is_reliable_while_item_deltas_are_best_effort() {
    let completed = RoutedEvent {
        kind: ServerEventKind::ItemCompleted,
        session_id: Some(1),
        turn_id: Some(2),
        item_kind: Some(ItemKind::ContextCompaction),
        delta_kind: None,
    };
    let delta = RoutedEvent {
        kind: ServerEventKind::ItemDelta,
        session_id: Some(1),
        turn_id: Some(2),
        item_kind: None,
        delta_kind: Some(ItemDeltaKind::AgentMessageDelta),
    };
    assert_eq!(
        [outbound_delivery_policy(&completed), outbound_delivery_policy(&delta)],
        [OutboundDeliveryPolicy::Reliable, OutboundDeliveryPolicy::BestEffort]
    );
}

#[test]
fn unscoped_filter_matches_every_session() {
    let filter = SubscriptionFilter { session_id: None, event_types: Vec::new(), include_child_agents: false };
    let map: HashMap<u128, u128> = HashMap::new();
    assert!(filter.session_matches(None, &map));
    assert!(filter.session_matches(Some(42), &map));
}

#[test]
fn child_agents_do_not_match_without_opt_in() {
    let filter = SubscriptionFilter { session_id: Some(1), event_types: Vec::new(), include_child_agents: false };
    let map = HashMap::from([(2u128, 1u128)]);
    assert!(!filter.session_matches(Some(2), &map));
}

#[test]
fn connection_local_methods_are_the_search_notifications() {
    assert!(is_connection_local_notification("search/updated"));
    assert!(is_connection_local_notification("search/completed"));
    assert!(is_connection_local_notification("search/failed"));
    assert!(!is_connection_local_notification("item/started"));
    assert!(!is_connection_local_notification("search/update"));
}

#[test]
fn acp_routes_resolve_known_methods_only() {
    assert_eq!(acp_route("session/prompt"), Some(AcpRoute::PromptSession));
    assert_eq!(acp_route("session/set_mode"), Some(AcpRoute::SetModeSession));
    assert_eq!(acp_route("session/cancel"), Some(AcpRoute::CancelSession));
    assert_eq!(acp_route("session/unknown"), None);
    assert_eq!(acp_route("turn/start"), None);
}

#[test]
fn stdio_proxy_skips_other_owners_text_stream_only() {
    let mut owners: HashMap<u128, u64> = HashMap::new();
    owners.insert(9, 1);
    let delta = RoutedEvent {
        kind: ServerEventKind::ItemDelta,
        session_id: Some(9),
        turn_id: Some(3),
        item_kind: None,
        delta_kind: Some(ItemDeltaKind::AgentMessageDelta),
    };
    assert!(should_skip_non_owner_stdio_stream(2, ClientTransportKind::StdioProxy, &delta, &owners));
    assert!(!should_skip_non_owner_stdio_stream(1, ClientTransportKind::StdioProxy, &delta, &owners));
    assert!(!should_skip_non_owner_stdio_stream(2, ClientTransportKind::Stdio, &delta, &owners));
    let command = RoutedEvent { delta_kind: Some(ItemDeltaKind::CommandOutputDelta), ..delta };
    assert!(!should_skip_non_owner_stdio_stream(2, ClientTransportKind::StdioProxy, &command, &owners));
}

#[test]
fn activity_events_name_their_session() {
    let status = event(ServerEventKind::ToolCallStatusUpdated, Some(5));
    assert_eq!(session_activity_event_id(&status), Some(5));
    let started = event(ServerEventKind::TurnStarted, Some(5));
    assert_eq!(session_activity_event_id(&started), None);
    let user_message = RoutedEvent { item_kind: Some(ItemKind::UserMessage), ..event(ServerEventKind::ItemCompleted, Some(6)) };
    assert_eq!(session_activity_event_id(&user_message), Some(6));
    let agent_message = RoutedEvent { item_kind: Some(ItemKind::AgentMessage), ..event(ServerEventKind::ItemCompleted, Some(6)) };
    assert_eq!(session_activity_event_id(&agent_message), None);
}

#[test]
fn connection_delivery_follows_filters_and_opt_outs() {
    let mut connection = ConnectionRuntime::new(ClientTransportKind::WebSocket);
    let map: HashMap<u128, u128> = HashMap::new();
    assert!(!connection.should_deliver("item/started", Some(1), &map));
    connection.subscriptions.push(SubscriptionFilter {
        session_id: Some(1),
        event_types: vec!["item/started".to_string()],
        include_child_agents: false,
    });
    assert!(connection.should_deliver("item/started", Some(1), &map));
    assert!(!connection.should_deliver("item/completed", Some(1), &map));
    connection.opt_out_notification_methods.push("item/started".to_string());
    assert!(!connection.should_deliver("item/started", Some(1), &map));
    assert!(!connection.should_deliver_connection_local("item/started"));
    assert!(connection.should_deliver_connection_local("search/updated"));
}

#[test]
fn selectors_cover_sessions_and_working_directories() {
    let mut connection = ConnectionRuntime::new(ClientTransportKind::WebSocket);
    connection.event_selectors.push(StreamSelector::SessionsByCwd { cwd: "/work".to_string() });
    assert!(connection.selectors_match(Some(4), Some("/work")));
    assert!(!connection.selectors_match(Some(4), Some("/elsewhere")));
    assert!(!connection.has_session_selector(4));
    connection.event_selectors.push(StreamSelector::Session { session_id: 4 });
    assert!(connection.has_session_selector(4));
    assert!(connection.selectors_match(Some(4), None));
}

#[test]
fn notification_sequences_count_up_from_one() {
    let mut connection = ConnectionRuntime::new(ClientTransportKind::Stdio);
    assert_eq!(connection.next_seq(), 1);
    assert_eq!(connection.next_seq(), 2);
    let first = connection.begin_client_request();
    let second = connection.begin_client_request();
    assert_eq!((first, second), (1, 2));
    assert!(connection.take_pending_request(first));
    assert!(!connection.take_pending_request(first));
    assert_eq!(connection.drain_pending_requests(), vec![second]);
}
