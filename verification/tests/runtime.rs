use std::collections::HashMap;

use devo_server::delivery::{
    ClientTransportKind, ConnectionState, RoutedEvent, ServerEventKind, StreamSelector,
};
use devo_server::runtime::{ServerRuntime, MAX_TITLE_RETRIES};
use devo_server::session_state::{PermissionPreset, SessionSummary};
use devo_server::titles::{
    mark_title_generating, needs_final_title, next_title_action,
    reset_title_after_generation_failure, title_wanted_before_first_turn, SessionTitleFinalSource,
    SessionTitleState, TitleAttemptOutcome, TitleRetryAction,
};

fn summary(title: Option<&str>, title_state: SessionTitleState) -> SessionSummary {
    SessionSummary {
        session_id: 1,
        title: title.map(|t| t.to_string()),
        title_state,
        model: None,
        model_binding_id: None,
        reasoning_effort_selection: None,
        permission_preset: Some(PermissionPreset::Default),
        effective_context_window: None,
        cwd: "/work".to_string(),
        ephemeral: false,
        updated_at: 0,
        last_activity_at: 0,
        total_input_tokens: 0,
        total_output_tokens: 0,
        total_tokens: 0,
        total_cache_creation_tokens: 0,
        total_cache_read_tokens: 0,
        last_query_total_tokens: 0,
    }
}

#[test]
fn connections_get_increasing_ids_and_unregister_returns_pending_requests() {
    let mut runtime = ServerRuntime::new();
    let first = runtime.register_connection(ClientTransportKind::Stdio);
    let second = runtime.register_connection(ClientTransportKind::WebSocket);
    assert_eq!((first, second), (1, 2));
    assert!(!runtime.connection_ready(first));
    assert_eq!(runtime.begin_client_request(second), Some(1));
    assert_eq!(runtime.begin_client_request(second), Some(2));
    assert!(runtime.resolve_pending_client_response(second, 1));
    assert!(!runtime.resolve_pending_client_response(second, 1));
    assert_eq!(runtime.unregister_connection(second), Some(vec![2]));
    assert_eq!(runtime.unregister_connection(second), None);
    assert_eq!(runtime.begin_client_request(second), None);
}

#[test]
fn controlling_connections_union_owner_and_session_subscribers() {
    let mut runtime = ServerRuntime::new();
    let owner_id = runtime.register_connection(ClientTransportKind::Stdio);
    let subscriber_id = runtime.register_connection(ClientTransportKind::WebSocket);
    let unrelated_id = runtime.register_connection(ClientTransportKind::WebSocket);
    let session_id: u128 = 7;
    assert!(runtime.set_connection_selectors(subscriber_id, vec![StreamSelector::Session { session_id }]));

    assert_eq!(runtime.controlling_connection_ids(session_id, Some(owner_id)), vec![owner_id, subscriber_id]);
    assert!(!runtime.controlling_connection_ids(session_id, Some(owner_id)).contains(&unrelated_id));
}

#[test]
fn legacy_subscriptions_do_not_make_a_controller() {
    let mut runtime = ServerRuntime::new();
    let owner = runtime.register_connection(ClientTransportKind::Stdio);
    let watcher = runtime.register_connection(ClientTransportKind::WebSocket);
    runtime.subscribe_connection_to_session(watcher, 7, None);
    assert_eq!(runtime.controlling_connection_ids(7, Some(owner)), vec![owner]);
    assert_eq!(runtime.controlling_connection_ids(7, None), Vec::<u64>::new());
}

#[test]
fn legacy_subscription_delivers_session_events_with_sequence_numbers() {
    let mut runtime = ServerRuntime::new();
    let a = runtime.register_connection(ClientTransportKind::Stdio);
    let b = runtime.register_connection(ClientTransportKind::WebSocket);
    runtime.subscribe_connection_to_session(a, 5, None);
    runtime.subscribe_connection_to_session(a, 5, None);
    let event = RoutedEvent { kind: ServerEventKind::TurnStarted, session_id: Some(5), turn_id: Some(1), item_kind: None, delta_kind: None };
    let map: HashMap<u128, u128> = HashMap::new();
    let owners: HashMap<u128, u64> = HashMap::new();
    let targets = runtime.broadcast_targets(&event, "turn/started", &map, &owners, None);
    assert_eq!(targets, vec![(a, 1)]);
    let targets = runtime.broadcast_targets(&event, "turn/started", &map, &owners, None);
    assert_eq!(targets, vec![(a, 2)]);
    assert_eq!(runtime.connection_notification_seq(b, "item/started", Some(5), &map), None);
    assert_eq!(runtime.connection_notification_seq(b, "search/updated", None, &map), Some(1));
    assert_eq!(runtime.connection_notification_seq(a, "item/started", Some(5), &map), Some(3));
}

#[test]
fn queue_updates_reach_session_selector_subscribers() {
    let mut runtime = ServerRuntime::new();
    let a = runtime.register_connection(ClientTransportKind::WebSocket);
    let b = runtime.register_connection(ClientTransportKind::WebSocket);
    assert_eq!(runtime.queue_update_targets(3), Vec::<(u64, u64)>::new());
    runtime.set_connection_selectors(b, vec![StreamSelector::SessionsByCwd { cwd: "/w".to_string() }, StreamSelector::Session { session_id: 3 }]);
    assert_eq!(runtime.queue_update_targets(3), vec![(b, 1)]);
    assert_eq!(runtime.queue_update_targets(3), vec![(b, 2)]);
    assert_eq!(runtime.queue_update_targets(4), Vec::<(u64, u64)>::new());
    assert!(a < b);
}

#[test]
fn selector_subscribers_receive_broadcasts() {
    let mut runtime = ServerRuntime::new();
    let a = runtime.register_connection(ClientTransportKind::WebSocket);
    runtime.set_connection_selectors(a, vec![StreamSelector::SessionsByCwd { cwd: "/w".to_string() }]);
    let event = RoutedEvent { kind: ServerEventKind::TurnStarted, session_id: Some(5), turn_id: Some(1), item_kind: None, delta_kind: None };
    let map: HashMap<u128, u128> = HashMap::new();
    let owners: HashMap<u128, u64> = HashMap::new();
    assert_eq!(runtime.broadcast_targets(&event, "turn/started", &map, &owners, Some("/w")), vec![(a, 1)]);
    assert_eq!(runtime.broadcast_targets(&event, "turn/started", &map, &owners, Some("/x")), Vec::<(u64, u64)>::new());
    let _ = ConnectionState::Ready;
}

#[test]
fn title_generation_runs_once_per_session() {
    let mut runtime = ServerRuntime::new();
    assert!(runtime.begin_title_generation(9));
    assert!(!runtime.begin_title_generation(9));
    runtime.cancel_auto_title_generation(9);
    assert!(runtime.begin_title_generation(9));
}

#[test]
fn title_retry_backoff_doubles_with_spread() {
    assert_eq!(ServerRuntime::title_retry_backoff_secs(1), 2);
    assert_eq!(ServerRuntime::title_retry_backoff_secs(2), 4);
    assert_eq!(ServerRuntime::title_retry_backoff_secs(3), 4);
    assert_eq!(ServerRuntime::title_retry_backoff_secs(4), 9);
    assert_eq!(ServerRuntime::title_retry_backoff_secs(0), 1);
}

#[test]
fn title_attempts_retry_until_the_limit_then_reset() {
    assert_eq!(next_title_action(1, TitleAttemptOutcome::Failed), TitleRetryAction::RetryAfter(2));
    assert_eq!(next_title_action(MAX_TITLE_RETRIES, TitleAttemptOutcome::Failed), TitleRetryAction::ResetTitle);
    assert_eq!(next_title_action(2, TitleAttemptOutcome::Generated), TitleRetryAction::ApplyGeneratedTitle);
    assert_eq!(next_title_action(2, TitleAttemptOutcome::AlreadyFinal), TitleRetryAction::Stop);
}

#[test]
fn only_an_untitled_unset_session_starts_generating() {
    let mut untitled = summary(None, SessionTitleState::Unset);
    assert!(mark_title_generating(&mut untitled, 42));
    assert_eq!(untitled.title_state, SessionTitleState::Generating);
    assert_eq!(untitled.updated_at, 42);
    let mut titled = summary(Some("kept"), SessionTitleState::Unset);
    assert!(!mark_title_generating(&mut titled, 42));
    assert_eq!(titled.updated_at, 0);
}

#[test]
fn a_final_title_survives_failed_generation() {
    let mut final_title = summary(Some("mine"), SessionTitleState::Final(SessionTitleFinalSource::User));
    assert!(!reset_title_after_generation_failure(&mut final_title, 5));
    assert_eq!(final_title.title, Some("mine".to_string()));
    let mut generating = summary(None, SessionTitleState::Generating);
    assert!(reset_title_after_generation_failure(&mut generating, 5));
    assert_eq!(generating.title_state, SessionTitleState::Unset);
    assert_eq!(generating.title, None);
}

#[test]
fn title_needs_and_first_turn_wait() {
    assert!(needs_final_title(SessionTitleState::Unset));
    assert!(needs_final_title(SessionTitleState::Generating));
    assert!(!needs_final_title(SessionTitleState::Provisional));
    assert!(!title_wanted_before_first_turn(SessionTitleState::Final(SessionTitleFinalSource::ModelGenerated), "hi"));
    assert!(!title_wanted_before_first_turn(SessionTitleState::Unset, ""));
    assert!(title_wanted_before_first_turn(SessionTitleState::Unset, "hi"));
}

#[test]
fn a_failed_generation_returns_an_untitled_session_to_unset() {
    let mut session = summary(None, SessionTitleState::Unset);
    assert!(mark_title_generating(&mut session, 10));
    assert!(reset_title_after_generation_failure(&mut session, 20));
    assert_eq!(session.title_state, SessionTitleState::Unset);
    assert_eq!(session.title, None);
    assert_eq!(session.updated_at, 20);

    let mut named = summary(Some("mine"), SessionTitleState::Final(SessionTitleFinalSource::User));
    assert!(!mark_title_generating(&mut named, 10));
    assert!(!reset_title_after_generation_failure(&mut named, 20));
    assert_eq!(named.title, Some("mine".to_string()));
    assert_eq!(named.title_state, SessionTitleState::Final(SessionTitleFinalSource::User));
    assert_eq!(named.updated_at, 0);
}

#[test]
fn client_responses_without_an_integer_id_are_dropped() {
    let mut runtime = ServerRuntime::new();
    let connection = runtime.register_connection(ClientTransportKind::WebSocket);
    let request = runtime.begin_client_request(connection).expect("registered connection");
    assert!(!runtime.resolve_client_response(connection, None));
    assert!(runtime.resolve_client_response(connection, Some(request)));
    assert!(!runtime.resolve_client_response(connection, Some(request)));
}
