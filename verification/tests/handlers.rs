use devo_server::control::{
    approval_decision_from_native, fork_history_writes, fork_keeps_compaction,
    ApprovalDecisionValue, FanoutStep, ForkWrite, NativeApprovalScope, NativeDecisionKind,
    PermissionFanout,
};
use devo_server::approval::ApprovalScopeValue;
use devo_server::goals::{
    check_goal_update_target, editable_goal_status, goal_followup, goal_transition,
    native_goal_from_internal, pause_interrupts_continuation, patched_token_budget,
    set_interrupts_continuation, status_change_record, stops_budget_limited_wrap_up, only_pauses,
    Goal, GoalStatus, GoalTransition, NativeGoalStatus, PatchField, ThreadGoalStatus,
};
use devo_server::incoming::{incoming_disposition, IncomingDisposition, IncomingResponse, IncomingShape, PostResponseAction};
use devo_server::delivery::AcpRoute;
use devo_server::items::InputItem;
use devo_server::journal::{PersistedTurnItem, TurnItem};
use devo_server::mcp::{
    mcp_server_name, mcp_tools_need_refresh, mcp_tools_status, sorted_server_infos,
    sorted_tool_entries, startup_state_label, McpNamedRequest, McpServerStatus, McpStartupState,
    McpToolDescriptor,
};
use devo_server::message_edit::{
    check_edit_mode, check_expected_revision, edit_state_from_text, edited_display_input,
    find_edit_target, rebuild_edited_branch, MessageEditMode, MessageEditState,
};
use devo_server::protocol::ProtocolErrorCode;
use devo_server::session_state::TurnKind;
use devo_server::turn_failure::{
    next_post_turn_step, turn_error_payload_from_error, turn_failure_reason_from_error,
    AgentErrorKind, AgentFailure, PostTurnStep, TurnFailureReason,
};
use devo_server::turn_start::{
    cwd_change, model_binding_error, pending_turn_metadata, skill_error_code, turn_admission,
    turn_display_input, CollaborationMode, ModelBindingConfig, ProviderEntry, SkillErrorKind,
    TurnAdmission, TurnStartQueuePolicy,
};
use devo_server::workspace::{unreferenced_outputs, workspace_view_plan, WorkspaceChangeScope, WorkspaceViewSource};

fn status_with(startup_state: McpStartupState, tool_count: usize) -> McpServerStatus {
    McpServerStatus {
        server_id: "docs".to_string(),
        startup_state,
        tools: (0..tool_count)
            .map(|index| McpToolDescriptor { name: format!("tool_{index}"), description: String::new() })
            .collect(),
    }
}

#[test]
fn mcp_tools_refresh_skips_disabled_and_filled_ready_servers() {
    assert_eq!(
        [
            mcp_tools_need_refresh(None),
            mcp_tools_need_refresh(Some(&status_with(McpStartupState::Disabled, 0))),
            mcp_tools_need_refresh(Some(&status_with(McpStartupState::NotStarted, 0))),
            mcp_tools_need_refresh(Some(&status_with(McpStartupState::Ready, 0))),
            mcp_tools_need_refresh(Some(&status_with(McpStartupState::Ready, 2))),
            mcp_tools_need_refresh(Some(&status_with(McpStartupState::Failed, 0))),
        ],
        [true, false, true, true, false, true]
    );
}

#[test]
fn mcp_labels_names_and_unknown_servers() {
    assert_eq!(startup_state_label(McpStartupState::AuthRequired), "auth_required");
    assert_eq!(startup_state_label(McpStartupState::NotStarted), "not_started");
    assert_eq!(mcp_server_name(McpNamedRequest::Tools, "  docs ").ok(), Some("docs".to_string()));
    let blank = mcp_server_name(McpNamedRequest::SetEnabled, "   ").err().expect("blank name");
    assert_eq!(blank.code, ProtocolErrorCode::InvalidParams);
    assert_eq!(blank.message, "mcp/set_enabled requires a non-empty name");
    let missing = mcp_tools_status("docs", None, None).err().expect("unknown server");
    assert_eq!(missing.message, "mcp server `docs` not found");
    let kept = mcp_tools_status("docs", Some(status_with(McpStartupState::Ready, 1)), None).ok().expect("known");
    assert_eq!(kept.tools.len(), 1);
}

#[test]
fn mcp_listings_are_ordered_by_name() {
    let tools = vec![
        McpToolDescriptor { name: "search".to_string(), description: "s".to_string() },
        McpToolDescriptor { name: "fetch".to_string(), description: "f".to_string() },
        McpToolDescriptor { name: "fetch_all".to_string(), description: "a".to_string() },
    ];
    let names: Vec<String> = sorted_tool_entries(tools).into_iter().map(|t| t.name).collect();
    assert_eq!(names, vec!["fetch", "fetch_all", "search"]);
    let servers = vec![status_with(McpStartupState::Ready, 2), McpServerStatus { server_id: "alpha".to_string(), startup_state: McpStartupState::Disabled, tools: Vec::new() }];
    let infos = sorted_server_infos(servers);
    assert_eq!(infos[0].name, "alpha");
    assert_eq!(infos[0].status, "disabled");
    assert_eq!(infos[1].tool_count, 2);
}

#[test]
fn preserves_structured_provider_error_code() {
    let error = AgentFailure {
        kind: AgentErrorKind::Provider,
        message: "model provider error: provider server error (Some(500)): Internal server error".to_string(),
        provider_error_code: Some("PROVIDER_SERVER_ERROR".to_string()),
        recovery_hint: None,
    };
    let payload = turn_error_payload_from_error(&error);
    assert_eq!(payload.code, "PROVIDER_SERVER_ERROR");
    assert_eq!(payload.message, "model provider error: provider server error (Some(500)): Internal server error");
    assert_eq!(payload.recovery_hint, None);
}

#[test]
fn provider_timeout_includes_network_recovery_hint() {
    let hint = "check your network proxy settings".to_string();
    let error = AgentFailure {
        kind: AgentErrorKind::Provider,
        message: "model provider error: provider timeout: stream idle timeout".to_string(),
        provider_error_code: Some("PROVIDER_TIMEOUT_ERROR".to_string()),
        recovery_hint: Some(hint.clone()),
    };
    let payload = turn_error_payload_from_error(&error);
    assert_eq!(payload.code, "PROVIDER_TIMEOUT_ERROR");
    assert_eq!(payload.recovery_hint, Some(hint));
}

#[test]
fn non_provider_failures_have_fixed_codes_and_no_hint() {
    let error = AgentFailure { kind: AgentErrorKind::ContextTooLong, message: "too long".to_string(), provider_error_code: None, recovery_hint: Some("ignored".to_string()) };
    let payload = turn_error_payload_from_error(&error);
    assert_eq!(payload.code, "CONTEXT_TOO_LONG");
    assert_eq!(payload.recovery_hint, None);
    let generic = AgentFailure { kind: AgentErrorKind::Provider, message: String::new(), provider_error_code: None, recovery_hint: None };
    assert_eq!(turn_error_payload_from_error(&generic).code, "PROVIDER_ERROR");
    assert_eq!(turn_failure_reason_from_error(AgentErrorKind::MaxTurnsExceeded), Some(TurnFailureReason::MaxTurnRequests));
    assert_eq!(turn_failure_reason_from_error(AgentErrorKind::Aborted), None);
}

#[test]
fn post_turn_work_stops_at_the_first_step_that_starts_work() {
    assert_eq!(next_post_turn_step(PostTurnStep::ScheduleTitle, false, true), PostTurnStep::ChainFollowup);
    assert_eq!(next_post_turn_step(PostTurnStep::ChainFollowup, true, true), PostTurnStep::Done);
    assert_eq!(next_post_turn_step(PostTurnStep::SpawnFromQueue, false, true), PostTurnStep::DrainChildMailbox);
    assert_eq!(next_post_turn_step(PostTurnStep::DrainChildMailbox, false, true), PostTurnStep::ContinueGoal);
    assert_eq!(next_post_turn_step(PostTurnStep::DrainChildMailbox, false, false), PostTurnStep::Done);
}

fn goal(status: GoalStatus) -> Goal {
    Goal {
        durable_goal_id: "g1".to_string(),
        session_id: 3,
        prompt: "ship it".to_string(),
        status,
        max_tokens: Some(-1),
        tokens_used: 12,
        duration_seconds: 4,
        progress_summary: None,
        created_at: 1,
        updated_at: 2,
    }
}

#[test]
fn goals_read_on_the_wire() {
    let native = native_goal_from_internal(&goal(GoalStatus::Cleared));
    assert_eq!(native.id, "goal_g1");
    assert_eq!(native.status, NativeGoalStatus::Canceled);
    assert_eq!(native.token_budget, None);
    assert_eq!(native.tokens_used, 12);
    let mut budgeted = goal(GoalStatus::Active);
    budgeted.max_tokens = Some(500);
    budgeted.tokens_used = -5;
    let native = native_goal_from_internal(&budgeted);
    assert_eq!(native.token_budget, Some(500));
    assert_eq!(native.tokens_used, 0);
}

#[test]
fn goal_patches_edit_only_client_statuses() {
    assert_eq!(editable_goal_status(Some(NativeGoalStatus::Completed)).ok(), Some(Some(ThreadGoalStatus::Complete)));
    assert_eq!(editable_goal_status(None).ok(), Some(None));
    let refused = editable_goal_status(Some(NativeGoalStatus::Blocked)).err().expect("system status");
    assert_eq!(refused.message, "goal status Blocked is system-computed, not editable");
    assert_eq!(patched_token_budget(PatchField::Value(9)).ok(), Some(Some(9)));
    assert_eq!(patched_token_budget(PatchField::Missing).ok(), Some(None));
    assert_eq!(patched_token_budget(PatchField::Null).err().expect("clear").message, "clearing the token budget is not in the vocabulary");
}

#[test]
fn goal_update_and_transition_preconditions() {
    assert!(check_goal_update_target(Some("goal_g1"), Some("goal_g1")).is_ok());
    assert!(check_goal_update_target(Some("goal_g1"), None).is_ok());
    assert_eq!(check_goal_update_target(None, None).err().expect("none").message, "no active goal to update");
    assert_eq!(check_goal_update_target(Some("goal_g1"), Some("goal_g2")).err().expect("replaced").code, ProtocolErrorCode::GoalNotFound);
    assert_eq!(goal_transition("session/goal/pause", Some("g1"), "goal_g1").ok(), Some(GoalTransition::Pause));
    assert_eq!(goal_transition("session/goal/clear", Some("g1"), "goal_g1").ok(), Some(GoalTransition::Clear));
    assert_eq!(goal_transition("session/goal/pause", None, "goal_g1").err().expect("no goal").message, "session has no goal");
    assert_eq!(
        goal_transition("session/goal/pause", Some("g1"), "goal_g2").err().expect("other").message,
        "expected goal id does not match the session's current goal"
    );
    assert_eq!(goal_transition("session/goal/jump", Some("g1"), "goal_g1").err().expect("unknown").message, "unknown goal transition method 'session/goal/jump'");
}

#[test]
fn goal_lifecycle_decisions() {
    assert!(only_pauses(Some(ThreadGoalStatus::Paused), false, false));
    assert!(!only_pauses(Some(ThreadGoalStatus::Paused), true, false));
    assert!(stops_budget_limited_wrap_up(Some(GoalStatus::BudgetLimited), true));
    assert!(!stops_budget_limited_wrap_up(Some(GoalStatus::Active), true));
    assert!(set_interrupts_continuation(Some(GoalStatus::Active), GoalStatus::Paused));
    assert!(!set_interrupts_continuation(Some(GoalStatus::Active), GoalStatus::Active));
    assert!(!set_interrupts_continuation(None, GoalStatus::Paused));
    assert!(pause_interrupts_continuation(Some(GoalStatus::BudgetLimited)));
    assert!(!pause_interrupts_continuation(Some(GoalStatus::Paused)));
    assert_eq!(status_change_record(None, GoalStatus::Paused), Some((GoalStatus::Active, GoalStatus::Paused)));
    assert_eq!(status_change_record(Some(GoalStatus::Paused), GoalStatus::Paused), None);
    let followup = goal_followup(true, true, true);
    assert!(followup.title && followup.title_in_background && !followup.start_continuation);
    let idle = goal_followup(false, true, false);
    assert!(!idle.title && idle.start_continuation);
}

#[test]
fn incoming_messages_pass_handshake_then_authentication() {
    let shape = |method: Option<&str>, has_id: bool| IncomingShape {
        method: method.map(|m| m.to_string()),
        has_method: method.is_some(),
        has_id,
        has_result: false,
        has_error: false,
    };
    let response = IncomingShape { method: None, has_method: false, has_id: true, has_result: true, has_error: false };
    assert_eq!(incoming_disposition(&response, false, false), IncomingDisposition::ResolveClientResponse);
    assert_eq!(incoming_disposition(&shape(None, true), true, true), IncomingDisposition::Drop);
    assert_eq!(incoming_disposition(&shape(Some("initialize"), true), false, false), IncomingDisposition::Initialize);
    assert_eq!(incoming_disposition(&shape(Some("turn/start"), true), false, false), IncomingDisposition::NotInitialized);
    assert_eq!(incoming_disposition(&shape(Some("turn/start"), false), false, false), IncomingDisposition::Drop);
    assert_eq!(incoming_disposition(&shape(Some("authenticate"), true), true, false), IncomingDisposition::Authenticate);
    assert_eq!(incoming_disposition(&shape(Some("turn/start"), true), true, false), IncomingDisposition::AuthRequired);
    assert_eq!(incoming_disposition(&shape(Some("session/prompt"), true), true, true), IncomingDisposition::Acp(AcpRoute::PromptSession));
    assert_eq!(incoming_disposition(&shape(Some("turn/start"), true), true, true), IncomingDisposition::Dispatch);
}

#[test]
fn acp_state_snapshot_follows_successful_responses_only() {
    let ok = IncomingResponse::new("ok", true, false).with_acp_session_state_snapshot_after_success(4, Some(9));
    assert!(ok.is_success());
    let (response, actions) = ok.into_parts();
    assert_eq!(response, "ok");
    assert_eq!(actions.0, vec![PostResponseAction::SendAcpSessionStateSnapshot { connection_id: 4, session_id: 9 }]);
    let failed = IncomingResponse::new("err", true, true).with_acp_session_state_snapshot_after_success(4, Some(9));
    assert!(failed.into_parts().1 .0.is_empty());
    let no_session = IncomingResponse::new("ok", true, false).with_acp_session_state_snapshot_after_success(4, None);
    assert!(no_session.into_parts().1 .0.is_empty());
}

fn journal_item(turn_id: u128, item_id: u128, user: bool) -> PersistedTurnItem {
    PersistedTurnItem {
        turn_id,
        turn_kind: TurnKind::Regular,
        item_id,
        prompt_visible: true,
        turn_item: if user { TurnItem::UserMessage { text: format!("u{item_id}") } } else { TurnItem::AgentMessage { text: format!("a{item_id}") } },
    }
}

#[test]
fn message_edit_targets_the_last_user_message() {
    let items = vec![journal_item(1, 10, true), journal_item(1, 11, false), journal_item(2, 20, true), journal_item(2, 21, false)];
    assert_eq!(find_edit_target(&items, None).ok(), Some((20, 2)));
    assert_eq!(find_edit_target(&items, Some(20)).ok(), Some((20, 2)));
    let mismatch = find_edit_target(&items, Some(10)).err().expect("older message");
    assert_eq!(mismatch.code, ProtocolErrorCode::ExpectedTargetMessageMismatch);
    let none = find_edit_target(&vec![journal_item(1, 11, false)], None).err().expect("no user message");
    assert_eq!(none.code, ProtocolErrorCode::OlderMessageRequiresFork);
}

#[test]
fn message_edit_rebuilds_the_branch() {
    let mut items = vec![journal_item(1, 10, true), journal_item(1, 11, false), journal_item(2, 20, true), journal_item(2, 21, false)];
    let count = rebuild_edited_branch(&mut items, 2, journal_item(3, 30, true));
    assert_eq!(items.iter().map(|i| i.item_id).collect::<Vec<_>>(), vec![10, 11, 30]);
    assert_eq!(count, 1);
}

#[test]
fn message_edit_checks() {
    assert_eq!(edited_display_input(&vec![InputItem::Text { text: " new ".to_string() }]).ok(), Some("new".to_string()));
    assert_eq!(edited_display_input(&Vec::new()).err().expect("empty").message, "session/message/edit content is empty");
    assert!(check_edit_mode(MessageEditMode::Normal).is_ok());
    assert_eq!(check_edit_mode(MessageEditMode::QueuedOnly).err().expect("queued").code, ProtocolErrorCode::WorkspaceRestoreFailedToStart);
    assert!(check_expected_revision(0, None).is_ok());
    assert!(check_expected_revision(3, Some(3)).is_ok());
    assert_eq!(check_expected_revision(3, Some(4)).err().expect("changed").code, ProtocolErrorCode::WorkspaceVersionConflict);
    assert_eq!(check_expected_revision(3, None).err().expect("missing").code, ProtocolErrorCode::InvalidContentParts);
    assert_eq!(edit_state_from_text("queued"), MessageEditState::Queued);
    assert_eq!(edit_state_from_text("accepted"), MessageEditState::Accepted);
}

#[test]
fn turn_start_admission_and_input() {
    assert_eq!(turn_admission(TurnStartQueuePolicy::Queue, None), TurnAdmission::Start);
    assert_eq!(turn_admission(TurnStartQueuePolicy::Queue, Some(5)), TurnAdmission::Queue { active_turn_id: 5 });
    assert_eq!(turn_admission(TurnStartQueuePolicy::RejectActive, Some(5)), TurnAdmission::RejectBusy);
    assert_eq!(turn_display_input(&Vec::new()).err().expect("empty").message, "turn input is empty");
    assert_eq!(turn_display_input(&vec![InputItem::Text { text: "  ".to_string() }]).err().expect("blank").code, ProtocolErrorCode::EmptyInput);
    assert_eq!(skill_error_code(SkillErrorKind::SkillDisabled), ProtocolErrorCode::InvalidParams);
    assert_eq!(skill_error_code(SkillErrorKind::DuplicateSkillId), ProtocolErrorCode::InternalError);
}

#[test]
fn model_bindings_are_validated_with_their_provider() {
    let bindings = vec![
        ModelBindingConfig { id: "fast".to_string(), enabled: true, provider: "openai".to_string() },
        ModelBindingConfig { id: "off".to_string(), enabled: false, provider: "openai".to_string() },
        ModelBindingConfig { id: "orphan".to_string(), enabled: true, provider: "gone".to_string() },
        ModelBindingConfig { id: "cold".to_string(), enabled: true, provider: "local".to_string() },
    ];
    let providers = vec![ProviderEntry { id: "openai".to_string(), enabled: true }, ProviderEntry { id: "local".to_string(), enabled: false }];
    assert_eq!(model_binding_error("fast", &bindings, &providers), None);
    assert_eq!(model_binding_error("nope", &bindings, &providers), Some("model binding `nope` does not exist".to_string()));
    assert_eq!(model_binding_error("off", &bindings, &providers), Some("model binding `off` is disabled".to_string()));
    assert_eq!(model_binding_error("orphan", &bindings, &providers), Some("model binding `orphan` references missing provider `gone`".to_string()));
    assert_eq!(model_binding_error("cold", &bindings, &providers), Some("model binding `cold` references disabled provider `local`".to_string()));
}

#[test]
fn queued_turn_metadata_and_cwd_changes() {
    assert!(pending_turn_metadata(CollaborationMode::Build, None, None).is_none());
    let plan = pending_turn_metadata(CollaborationMode::Plan, Some("m".to_string()), None).expect("metadata");
    assert_eq!(plan.collaboration_mode, Some(CollaborationMode::Plan));
    assert_eq!(plan.model, Some("m".to_string()));
    assert_eq!(cwd_change(&Some("/b".to_string()), &"/a".to_string()), Some(("/a".to_string(), "/b".to_string())));
    assert_eq!(cwd_change(&Some("/a".to_string()), &"/a".to_string()), None);
    assert_eq!(cwd_change(&None, &"/a".to_string()), None);
}

#[test]
fn native_approval_answers_and_fanout() {
    assert_eq!(
        approval_decision_from_native(NativeDecisionKind::Approved, NativeApprovalScope::PathPrefix),
        (ApprovalDecisionValue::Approve, ApprovalScopeValue::PathPrefix)
    );
    assert_eq!(PermissionFanout::start(0).err(), Some("no client connection is available for permission request".to_string()));
    let mut fanout = PermissionFanout::start(2).ok().expect("controllers");
    assert!(matches!(fanout.answer::<u8>(Err("bad answer".to_string())), FanoutStep::Waiting));
    assert!(matches!(fanout.answer(Ok(7u8)), FanoutStep::Decided(7)));
    assert_eq!(fanout.exhausted(), "bad answer");
    let quiet = PermissionFanout::start(1).ok().expect("controller");
    assert_eq!(quiet.exhausted(), "all permission controllers disconnected");
}

#[test]
fn fork_history_writes_turn_records_before_their_first_item() {
    let writes = fork_history_writes(&vec![1, 1, 2, 3], &vec![1, 3]);
    assert_eq!(
        writes,
        vec![
            ForkWrite::Turn { turn_id: 1 },
            ForkWrite::Item { index: 0, item_seq: 1 },
            ForkWrite::Item { index: 1, item_seq: 2 },
            ForkWrite::Item { index: 2, item_seq: 3 },
            ForkWrite::Turn { turn_id: 3 },
            ForkWrite::Item { index: 3, item_seq: 4 },
        ]
    );
    assert!(fork_keeps_compaction(&vec![1, 2], 2));
    assert!(!fork_keeps_compaction(&vec![1, 2], 4));
}

#[test]
fn workspace_views_follow_requested_scopes() {
    let plan = workspace_view_plan(&vec![WorkspaceChangeScope::Turn, WorkspaceChangeScope::Branch], None, None, Some(8)).ok().expect("plan");
    assert_eq!(plan, vec![WorkspaceViewSource::Turn { turn_id: 8 }, WorkspaceViewSource::Branch]);
    let unavailable = workspace_view_plan(&vec![WorkspaceChangeScope::Turn], None, None, None).ok().expect("plan");
    assert_eq!(unavailable, vec![WorkspaceViewSource::TurnUnavailable]);
    let empty = workspace_view_plan(&Vec::new(), Some(1), None, None).err().expect("no scopes");
    assert_eq!(empty.message, "workspace/changes/read requires at least one scope");
    let requested = workspace_view_plan(&vec![WorkspaceChangeScope::Turn], Some(1), Some(2), Some(3)).ok().expect("plan");
    assert_eq!(requested, vec![WorkspaceViewSource::Turn { turn_id: 1 }]);
}

#[test]
fn unreferenced_outputs_are_the_unmentioned_candidates() {
    let candidates = vec!["/o/a".to_string(), "/o/b".to_string(), "/o/c".to_string()];
    let referenced = vec!["/o/b".to_string()];
    assert_eq!(unreferenced_outputs(&candidates, &referenced), vec![0, 2]);
    assert_eq!(unreferenced_outputs(&candidates, &candidates), Vec::<usize>::new());
}

#[test]
fn tool_listing_keeps_descriptions_and_the_order_of_equal_names() {
    let tool = |name: &str, description: &str| McpToolDescriptor { name: name.to_string(), description: description.to_string() };
    let tools = vec![tool("search", "s1"), tool("fetch", "f1"), tool("search", "s2"), tool("fetch", "f2")];
    let pairs: Vec<(String, String)> = sorted_tool_entries(tools).into_iter().map(|t| (t.name, t.description)).collect();
    let expected: Vec<(String, String)> = [("fetch", "f1"), ("fetch", "f2"), ("search", "s1"), ("search", "s2")]
        .iter()
        .map(|(n, d)| (n.to_string(), d.to_string()))
        .collect();
    assert_eq!(pairs, expected);
}

#[test]
fn a_new_connection_takes_requests_from_one() {
    let mut runtime = devo_server::runtime::ServerRuntime::new();
    let connection = runtime.register_connection(devo_server::delivery::ClientTransportKind::WebSocket);
    assert_eq!(runtime.begin_client_request(connection), Some(1));
}

#[test]
fn server_listing_keeps_the_order_of_equal_names() {
    let server = |name: &str, state: McpStartupState| McpServerStatus { server_id: name.to_string(), startup_state: state, tools: Vec::new() };
    let infos = sorted_server_infos(vec![
        server("zeta", McpStartupState::Ready),
        server("alpha", McpStartupState::Failed),
        server("alpha", McpStartupState::Disabled),
    ]);
    let rows: Vec<(String, String)> = infos.into_iter().map(|i| (i.name, i.status)).collect();
    assert_eq!(rows[0].0, "alpha");
    assert_eq!(rows[1].0, "alpha");
    assert_eq!(rows[0].1, startup_state_label(McpStartupState::Failed));
    assert_eq!(rows[1].1, startup_state_label(McpStartupState::Disabled));
    assert_eq!(rows[2].0, "zeta");
}
