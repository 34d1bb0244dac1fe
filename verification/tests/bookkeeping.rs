use devo_server::compaction::{completed_compaction_turn_notices, CompactionTurnNotice};
use devo_server::context_budget::{occupancy_categories_after_compaction, ContextCategoryTokens};
use devo_server::delivery::{acp_route_registry, AcpRoute, ClientTransportKind};
use devo_server::goals::{goal_continues, goal_is_readable, native_goal_status, GoalStatus, NativeGoalStatus};
use devo_server::incoming::{IncomingResponse, PostResponseAction};
use devo_server::interaction::{
    approval_target, decided_approval_item, file_change_item, settled_item, waiting_item, ApprovalTarget,
    ItemHeader, ItemState, LivingItem,
};
use devo_server::items::{
    actor_item_seq_or_first, item_sequence_source, next_fallback_item_seq, FallbackItemSeq, InputItem,
    ItemSeqSource,
};
use devo_server::message_edit::{admit_message_edit, edit_entry, superseding_revision, MessageEditMode, UserMessageEntry};
use devo_server::protocol::ProtocolErrorCode;
use devo_server::provider::{provider_adapter_plan, provider_route_wire_apis, ProviderWireApi};
use devo_server::queue::{
    canonical_turn_from_metadata, queue_input_items, CanonicalTurnKind, CanonicalTurnStatus,
    PendingInputItem, PendingInputKind, QueueInputRequest, UserInput,
};
use devo_server::session_state::{TurnKind, TurnMetadata, TurnStatus};
use devo_server::queue_store::{
    next_event_log_seq, pending_kind_tag, upsert_rewrites_created_at, PendingKindTag,
    SessionUpsertSource,
};
use devo_server::runtime::ServerRuntime;
use devo_server::text::{concat_text, preview_of, text_equals, trim_text};
use devo_server::turn_start::{enqueue_turn_start, requested_or_session, turn_already_running_error, QueuedTurnStart};
use devo_server::workspace::{turn_view_read, TurnViewRead};

#[test]
fn queue_push_and_update_convert_canonical_input() {
    let input = vec![
        UserInput::Text { text: "hello".to_string() },
        UserInput::Mention { uri: "src/lib.rs".to_string() },
    ];
    let items = queue_input_items(QueueInputRequest::Push, &input).expect("supported input");
    assert_eq!(items.len(), 2);
    assert!(matches!(&items[0], InputItem::Text { text } if text == "hello"));
    assert!(matches!(&items[1], InputItem::Mention { path, name: None } if path == "src/lib.rs"));
}

#[test]
fn empty_queue_input_is_refused_by_request() {
    let push = queue_input_items(QueueInputRequest::Push, &Vec::new()).err().expect("empty push");
    assert_eq!(push.code, ProtocolErrorCode::EmptyInput);
    assert_eq!(push.message, "queue push input is empty");
    let update = queue_input_items(QueueInputRequest::Update, &Vec::new()).err().expect("empty update");
    assert_eq!(update.code, ProtocolErrorCode::EmptyInput);
    assert_eq!(update.message, "queue update input is empty");
}

#[test]
fn audio_queue_input_is_an_invalid_parameter() {
    let input = vec![
        UserInput::Text { text: "listen".to_string() },
        UserInput::Audio { uri: "file:///a.wav".to_string() },
        UserInput::Image { uri: "file:///b.png".to_string() },
    ];
    let error = queue_input_items(QueueInputRequest::Update, &input).err().expect("refused");
    assert_eq!(error.code, ProtocolErrorCode::InvalidParams);
    assert_eq!(error.message, "unsupported input modality for queue: file:///a.wav");
}

#[test]
fn pending_kinds_have_storage_tags_that_read_back() {
    let kinds = vec![
        (PendingInputKind::UserText { text: "hi".to_string() }, PendingKindTag::UserText),
        (
            PendingInputKind::UserInput {
                input: Vec::new(),
                display_text: String::new(),
                prompt_text: String::new(),
            },
            PendingKindTag::UserInput,
        ),
        (
            PendingInputKind::ToolCallBlockedByHook { tool_use_id: "t".to_string(), reason: "r".to_string() },
            PendingKindTag::ToolCallBlocked,
        ),
        (PendingInputKind::BudgetLimitSteering, PendingKindTag::BudgetLimit),
    ];
    for (kind, tag) in kinds {
        assert_eq!(pending_kind_tag(&kind), tag);
        assert_eq!(PendingKindTag::parse(tag.as_str()), tag);
    }
    assert_eq!(PendingKindTag::UserInput.as_str(), "user_input");
    assert_eq!(PendingKindTag::ToolCallBlocked.as_str(), "tool_call_blocked");
    assert_eq!(PendingKindTag::parse("something_else"), PendingKindTag::UserText);
}

#[test]
fn event_log_sequences_start_at_one_and_follow_the_maximum() {
    assert_eq!(next_event_log_seq(None), 1);
    assert_eq!(next_event_log_seq(Some(1)), 2);
    assert_eq!(next_event_log_seq(Some(41)), 42);
}

#[test]
fn only_rollout_index_upserts_rewrite_creation_time() {
    assert!(upsert_rewrites_created_at(SessionUpsertSource::RolloutIndex));
    assert!(!upsert_rewrites_created_at(SessionUpsertSource::RuntimeLive));
}

#[test]
fn goal_statuses_on_the_wire() {
    assert_eq!(native_goal_status(GoalStatus::BudgetLimited), NativeGoalStatus::BudgetLimited);
    assert_eq!(native_goal_status(GoalStatus::Canceled), NativeGoalStatus::Canceled);
    assert!(goal_is_readable(GoalStatus::Paused));
    assert!(!goal_is_readable(GoalStatus::Cleared));
    assert!(goal_continues(GoalStatus::Active));
    assert!(!goal_continues(GoalStatus::Paused));
    assert!(!goal_continues(GoalStatus::BudgetLimited));
}

#[test]
fn occupancy_after_compaction_replaces_only_the_conversation() {
    let previous = ContextCategoryTokens { base: 1, skills: 2, tools_builtin: 3, tools_mcp: 4, conversation: 500 };
    let raw = ContextCategoryTokens { base: 10, skills: 20, tools_builtin: 30, tools_mcp: 40, conversation: 900 };
    assert_eq!(
        occupancy_categories_after_compaction(Some(previous), 50, Some(raw)),
        ContextCategoryTokens { conversation: 50, ..previous }
    );
    assert_eq!(
        occupancy_categories_after_compaction(None, 60, Some(raw)),
        ContextCategoryTokens { conversation: 60, ..raw }
    );
    assert_eq!(
        occupancy_categories_after_compaction(None, 70, None),
        ContextCategoryTokens { base: 0, skills: 0, tools_builtin: 0, tools_mcp: 0, conversation: 70 }
    );
}

#[test]
fn provider_adapters_default_their_base_urls() {
    let anthropic =
        provider_adapter_plan(ProviderWireApi::AnthropicMessages, None, Some("key".to_string())).expect("keyed");
    assert_eq!(anthropic.base_url, "https://api.anthropic.com");
    assert_eq!(anthropic.api_key, Some("key".to_string()));
    let openai = provider_adapter_plan(ProviderWireApi::OpenAIResponses, None, None).expect("keyless openai");
    assert_eq!(openai.base_url, "https://api.openai.com/v1");
    assert_eq!(openai.wire_api, ProviderWireApi::OpenAIResponses);
    let custom = provider_adapter_plan(
        ProviderWireApi::OpenAIChatCompletions,
        Some("https://llm.example.com/".to_string()),
        None,
    )
    .expect("custom host");
    assert_eq!(custom.base_url, "https://llm.example.com/v1");
}

#[test]
fn anthropic_adapter_needs_a_key() {
    assert!(provider_adapter_plan(ProviderWireApi::AnthropicMessages, None, None).is_err());
}

#[test]
fn provider_routes_list_each_wire_api_once() {
    let models = vec![
        Some(ProviderWireApi::OpenAIResponses),
        None,
        Some(ProviderWireApi::AnthropicMessages),
        Some(ProviderWireApi::OpenAIResponses),
    ];
    assert_eq!(
        provider_route_wire_apis(None, Some(ProviderWireApi::AnthropicMessages), &models),
        vec![ProviderWireApi::AnthropicMessages, ProviderWireApi::OpenAIResponses]
    );
    assert_eq!(
        provider_route_wire_apis(Some(true), None, &models),
        vec![ProviderWireApi::OpenAIResponses, ProviderWireApi::AnthropicMessages]
    );
    assert_eq!(
        provider_route_wire_apis(None, None, &Vec::new()),
        vec![ProviderWireApi::OpenAIChatCompletions]
    );
    assert_eq!(provider_route_wire_apis(Some(false), None, &models), Vec::<ProviderWireApi>::new());
}

#[test]
fn item_sequence_sources_and_fallbacks() {
    assert_eq!(item_sequence_source(false, true), ItemSeqSource::Actor);
    assert_eq!(item_sequence_source(true, true), ItemSeqSource::Inline);
    assert_eq!(item_sequence_source(true, false), ItemSeqSource::Fallback);
    assert_eq!(actor_item_seq_or_first(Some(9)), 9);
    assert_eq!(actor_item_seq_or_first(None), 1);
    let mut counter = FallbackItemSeq::new();
    assert_eq!(next_fallback_item_seq(&mut counter), 1u64 << 32);
    assert_eq!(next_fallback_item_seq(&mut counter), (1u64 << 32) + 1);
}

#[test]
fn turn_start_settings_and_refusal() {
    let session = Some("session-model".to_string());
    assert_eq!(requested_or_session(Some("asked".to_string()), &session), Some("asked".to_string()));
    assert_eq!(requested_or_session(None, &session), session);
    assert_eq!(requested_or_session(None, &None), None);
    let error = turn_already_running_error();
    assert_eq!(error.code, ProtocolErrorCode::TurnAlreadyRunning);
    assert_eq!(error.message, "session already has an active prompt turn");
}

#[test]
fn message_edits_enter_by_mode_and_bump_the_revision() {
    assert_eq!(edit_entry(MessageEditMode::Normal), UserMessageEntry::TurnStart);
    assert_eq!(edit_entry(MessageEditMode::QueuedOnly), UserMessageEntry::Queue);
    assert_eq!(superseding_revision(0), 1);
    assert_eq!(superseding_revision(41), 42);
}

#[test]
fn completed_compaction_turns_announce_in_order() {
    let names = |notices: Vec<CompactionTurnNotice>| -> Vec<&'static str> {
        notices
            .iter()
            .map(|notice| match notice {
                CompactionTurnNotice::ContextUsageUpdated => "usage",
                CompactionTurnNotice::SessionCompactionCompleted => "compacted",
                CompactionTurnNotice::SessionCompactionFailed { .. } => "compaction-failed",
                CompactionTurnNotice::TurnFailed => "turn-failed",
                CompactionTurnNotice::TurnInterrupted => "turn-interrupted",
                CompactionTurnNotice::TurnCompleted => "turn-completed",
                CompactionTurnNotice::SessionIdle => "idle",
            })
            .collect()
    };
    assert_eq!(
        names(completed_compaction_turn_notices(true)),
        vec!["usage", "compacted", "turn-completed", "idle"]
    );
    assert_eq!(names(completed_compaction_turn_notices(false)), vec!["compacted", "turn-completed", "idle"]);
}

#[test]
fn post_response_actions_queue_in_order() {
    let response = IncomingResponse::new("ok", true, false)
        .with_post_response_action(PostResponseAction::SendAcpSessionStateSnapshot { connection_id: 1, session_id: 2 })
        .with_post_response_action(PostResponseAction::SendAcpSessionStateSnapshot { connection_id: 3, session_id: 4 });
    let (document, actions) = response.into_parts();
    assert_eq!(document, "ok");
    assert_eq!(
        actions.0,
        vec![
            PostResponseAction::SendAcpSessionStateSnapshot { connection_id: 1, session_id: 2 },
            PostResponseAction::SendAcpSessionStateSnapshot { connection_id: 3, session_id: 4 },
        ]
    );
}

#[test]
fn acp_route_registry_lists_the_session_methods() {
    let routes = acp_route_registry();
    assert_eq!(routes.len(), 10);
    assert_eq!(routes[0], ("session/cancel", AcpRoute::CancelSession));
    assert_eq!(routes[6], ("session/prompt", AcpRoute::PromptSession));
    assert_eq!(routes[9], ("session/set_mode", AcpRoute::SetModeSession));
}

#[test]
fn owner_streams_number_each_connection_separately() {
    let mut runtime = ServerRuntime::new();
    let a = runtime.register_connection(ClientTransportKind::Stdio);
    let b = runtime.register_connection(ClientTransportKind::WebSocket);
    assert_eq!(runtime.owner_stream_seq(a, "item/agentMessage/delta"), Some(1));
    assert_eq!(runtime.owner_stream_seq(a, "item/agentMessage/delta"), Some(2));
    assert_eq!(runtime.owner_stream_seq(b, "item/agentMessage/delta"), Some(1));
    assert_eq!(runtime.owner_stream_seq(b + 100, "item/agentMessage/delta"), None);
}

#[test]
fn workspace_turn_views_read_live_or_finalized() {
    assert_eq!(turn_view_read(true), TurnViewRead::ActiveBaseline);
    assert_eq!(turn_view_read(false), TurnViewRead::Finalized);
}

#[test]
fn text_helpers() {
    assert!(text_equals("steer", "steer"));
    assert!(!text_equals("steer", "turn"));
    assert_eq!(trim_text("  padded \n"), "padded");
    assert_eq!(concat_text("queue ", "push"), "queue push");
    assert_eq!(preview_of("short"), "short");
    let long: String = "x".repeat(100);
    assert_eq!(preview_of(&long).chars().count(), 80);
}

fn turn_metadata(kind: TurnKind, status: TurnStatus, request_model: &str, binding: Option<&str>) -> TurnMetadata {
    TurnMetadata {
        turn_id: 11,
        session_id: 22,
        sequence: 3,
        kind,
        status,
        model: "resolved-model".to_string(),
        request_model: request_model.to_string(),
        model_binding_id: binding.map(str::to_string),
        reasoning_effort_selection: Some("high".to_string()),
        started_at: 1_700_000_000,
        completed_at: None,
        usage: None,
    }
}

#[test]
fn started_turns_are_shown_to_clients() {
    let turn = canonical_turn_from_metadata(&turn_metadata(TurnKind::Review, TurnStatus::WaitingApproval, "asked-model", Some("openai")));
    assert_eq!(turn.id, 11);
    assert_eq!(turn.session_id, 22);
    assert_eq!(turn.sequence, 3);
    assert_eq!(turn.kind, CanonicalTurnKind::Regular);
    assert_eq!(turn.status, CanonicalTurnStatus::InProgress);
    assert_eq!(turn.model.provider, "openai");
    assert_eq!(turn.model.model, "asked-model");
    assert_eq!(turn.model.reasoning_effort_selection, Some("high".to_string()));
    assert_eq!(turn.started_at, 1_700_000_000);

    let compaction = canonical_turn_from_metadata(&turn_metadata(TurnKind::ManualCompaction, TurnStatus::Interrupted, "", None));
    assert_eq!(compaction.kind, CanonicalTurnKind::Compaction);
    assert_eq!(compaction.status, CanonicalTurnStatus::Interrupted);
    assert_eq!(compaction.model.provider, "unknown");
    assert_eq!(compaction.model.model, "resolved-model");
}

#[test]
fn waiting_items_settle_under_the_same_identity() {
    let (first, living) = waiting_item(5, 9, 1_000);
    assert_eq!(first, ItemHeader { item_id: 5, seq: 9, revision: 1, created_at: 1_000, updated_at: 1_000, state: ItemState::Waiting });
    assert_eq!(living, LivingItem { item_id: 5, seq: 9, created_at: 1_000 });
    let settled = settled_item(&living, ItemState::Completed, 2_500);
    assert_eq!(settled, ItemHeader { item_id: 5, seq: 9, revision: 2, created_at: 1_000, updated_at: 2_500, state: ItemState::Completed });
    assert_eq!(decided_approval_item(6, 10, 3_000).revision, 1);
    assert_eq!(decided_approval_item(6, 10, 3_000).state, ItemState::Completed);
    assert_eq!(file_change_item(7, 11, 4_000).revision, 2);
}

#[test]
fn approval_targets_prefer_path_then_host_then_command() {
    let s = |v: &str| Some(v.to_string());
    assert!(matches!(approval_target(s("/tmp/a"), s("example.com"), s("ls")), Some(ApprovalTarget::Path { path }) if path == "/tmp/a"));
    assert!(matches!(approval_target(None, s("example.com"), s("ls")), Some(ApprovalTarget::Host { host }) if host == "example.com"));
    assert!(matches!(approval_target(None, None, s("ls")), Some(ApprovalTarget::Command { command }) if command == "ls"));
    assert!(approval_target(None, None, None).is_none());
}

#[test]
fn client_requests_settle_once() {
    let mut connection = devo_server::delivery::ConnectionRuntime::new(ClientTransportKind::WebSocket);
    let first = connection.begin_client_request();
    let second = connection.begin_client_request();
    assert_ne!(first, second);
    assert!(connection.take_pending_request(first));
    assert!(!connection.take_pending_request(first));
    assert_eq!(connection.pending_client_requests, vec![second]);
    assert_eq!(connection.drain_pending_requests(), vec![second]);
    assert!(!connection.take_pending_request(second));
}

#[test]
fn requests_before_the_handshake_are_refused() {
    let error = devo_server::incoming::not_initialized_error();
    assert_eq!(error.code, ProtocolErrorCode::NotInitialized);
    assert_eq!(error.message, "connection has not completed initialize");
}

#[test]
fn message_edits_are_refused_in_order() {
    let text = vec![InputItem::Text { text: "again".to_string() }];
    let blank = vec![InputItem::Text { text: "   ".to_string() }];
    let empty = admit_message_edit(&blank, false, true).err().expect("empty content");
    assert_eq!(empty.code, ProtocolErrorCode::InvalidContentParts);
    assert_eq!(empty.message, "session/message/edit content is empty");
    let unknown = admit_message_edit(&text, false, true).err().expect("unknown session");
    assert_eq!(unknown.code, ProtocolErrorCode::SessionNotFound);
    assert_eq!(unknown.message, "session does not exist");
    let busy = admit_message_edit(&text, true, true).err().expect("turn running");
    assert_eq!(busy.code, ProtocolErrorCode::ActiveTurnEditRejected);
    assert_eq!(busy.message, "cannot edit the previous message while a turn is active");
    assert_eq!(admit_message_edit(&text, true, false).expect("admitted"), "again");
}

#[test]
fn queued_turn_starts_join_the_end_of_the_queue() {
    let mut queue = vec![PendingInputItem {
        id: 1,
        kind: PendingInputKind::UserText { text: "first".to_string() },
        metadata: None,
        created_at: 5,
    }];
    let answer = enqueue_turn_start(
        &mut queue,
        77,
        2,
        vec![InputItem::Text { text: "next".to_string() }],
        "next".to_string(),
        "next prompt".to_string(),
        Some("{\"model\":\"m\"}".to_string()),
        9,
    );
    assert_eq!(answer, QueuedTurnStart { active_turn_id: 77, queued_input_id: 2, accepted_at: 9 });
    assert_eq!(queue.len(), 2);
    assert_eq!(queue[0].id, 1);
    assert_eq!(queue[1].id, 2);
    assert_eq!(queue[1].created_at, 9);
    assert_eq!(queue[1].metadata, Some("{\"model\":\"m\"}".to_string()));
    assert!(matches!(&queue[1].kind, PendingInputKind::UserInput { display_text, prompt_text, input }
        if display_text == "next" && prompt_text == "next prompt" && input.len() == 1));
}
