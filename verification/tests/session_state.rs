use devo_server::approval::ApprovalGrantCache;
use devo_server::context_budget::SessionConfig;
use devo_server::session_state::{
    CompactionMark, CoreSession, PermissionPreset, SessionActorState, SessionRecord, SessionSummary,
    TranscriptEntry, TurnInlineState, TurnKind, TurnMetadata, TurnStatus, TurnUsage,
};
use devo_server::titles::{SessionTitleFinalSource, SessionTitleState};

fn config() -> SessionConfig {
    SessionConfig {
        effective_context_window_override: None,
        context_window: 200_000,
        auto_compact_token_limit: Some(150_000),
        sandbox_profile: Some("workspace-write".to_string()),
    }
}

fn summary(model: Option<&str>, title: Option<&str>, total_tokens: u64) -> SessionSummary {
    SessionSummary {
        session_id: 7,
        title: title.map(str::to_string),
        title_state: if title.is_some() {
            SessionTitleState::Final(SessionTitleFinalSource::User)
        } else {
            SessionTitleState::Unset
        },
        model: model.map(str::to_string),
        model_binding_id: None,
        reasoning_effort_selection: None,
        permission_preset: None,
        effective_context_window: None,
        cwd: "/workspace".to_string(),
        ephemeral: false,
        updated_at: 10,
        last_activity_at: 10,
        total_input_tokens: total_tokens / 2,
        total_output_tokens: total_tokens / 2,
        total_tokens,
        total_cache_creation_tokens: 0,
        total_cache_read_tokens: 0,
        last_query_total_tokens: 0,
    }
}

fn turn(turn_id: u128) -> TurnMetadata {
    TurnMetadata {
        turn_id,
        session_id: 7,
        sequence: 1,
        kind: TurnKind::Regular,
        status: TurnStatus::Running,
        model: "gpt".to_string(),
        request_model: "gpt".to_string(),
        model_binding_id: None,
        reasoning_effort_selection: None,
        started_at: 100,
        completed_at: None,
        usage: None,
    }
}

fn actor_state() -> SessionActorState {
    SessionActorState {
        record: None,
        summary: summary(Some("gpt"), Some("Planning"), 40),
        config: config(),
        core: CoreSession {
            config: config(),
            total_input_tokens: 20,
            total_output_tokens: 20,
            total_tokens: 40,
            total_cache_creation_tokens: 0,
            total_cache_read_tokens: 0,
        },
        active_turn: Some(turn(1)),
        latest_turn: None,
        loaded_item_count: 3,
        history_items: vec![TranscriptEntry { turn_id: 0, item_id: 10 }],
        persisted_turn_items: vec![TranscriptEntry { turn_id: 0, item_id: 10 }],
        latest_compaction_snapshot: Some(CompactionMark { turn_id: 0, item_id: 9 }),
        turn_records_by_id: Vec::new(),
        max_turns: Some(50),
        next_item_seq: 4,
        first_user_input: Some("hello".to_string()),
        session_approval_cache: ApprovalGrantCache::new(),
        turn_approval_cache: ApprovalGrantCache::new(),
        session_context_recorded: false,
    }
}

#[test]
fn checkout_copies_the_actor_state() {
    let state = actor_state();
    let working = state.checkout_turn_working_set(&turn(1));
    assert_eq!(working.state.next_item_seq, 4);
    assert_eq!(working.state.loaded_item_count, 3);
    assert_eq!(working.state.history_items, state.history_items);
    assert_eq!(working.state.summary.title, Some("Planning".to_string()));
    assert_eq!(working.state.first_user_input, Some("hello".to_string()));
    assert_eq!(working.state.max_turns, Some(50));
}

#[test]
fn merge_takes_turn_progress_and_keeps_session_plane_settings() {
    let mut state = actor_state();
    let mut working = state.checkout_turn_working_set(&turn(1)).state;
    // The turn made progress and saw an older model and no title.
    working.summary = summary(Some("older-model"), None, 90);
    working.summary.permission_preset = Some(PermissionPreset::ReadOnly);
    working.core.total_tokens = 90;
    working.next_item_seq = 6;
    working.loaded_item_count = 5;
    working.history_items.push(TranscriptEntry { turn_id: 1, item_id: 11 });
    working.latest_compaction_snapshot = None;
    working.first_user_input = None;
    working.max_turns = Some(1);
    working.config.context_window = 1;
    state.merge_turn_working_set(devo_server::session_state::TurnWorkingSet { state: working });

    assert_eq!(state.next_item_seq, 6);
    assert_eq!(state.loaded_item_count, 5);
    assert_eq!(state.history_items.len(), 2);
    assert_eq!(state.summary.total_tokens, 90);
    assert_eq!(state.core.total_tokens, 90);
    // Settings the actor holds win; the ones it lacks come from the turn.
    assert_eq!(state.summary.model, Some("gpt".to_string()));
    assert_eq!(state.summary.title, Some("Planning".to_string()));
    assert_eq!(state.summary.title_state, SessionTitleState::Final(SessionTitleFinalSource::User));
    assert_eq!(state.summary.permission_preset, Some(PermissionPreset::ReadOnly));
    // The actor's configuration and turn limit are never replaced.
    assert_eq!(state.config.context_window, 200_000);
    assert_eq!(state.max_turns, Some(50));
    // A missing compaction mark or first input does not erase the actor's.
    assert_eq!(state.latest_compaction_snapshot, Some(CompactionMark { turn_id: 0, item_id: 9 }));
    assert_eq!(state.first_user_input, Some("hello".to_string()));
}

#[test]
fn merging_an_untouched_checkout_changes_nothing() {
    let mut state = actor_state();
    let working = state.checkout_turn_working_set(&turn(1));
    state.merge_turn_working_set(working);
    let before = actor_state();
    assert_eq!(state.next_item_seq, before.next_item_seq);
    assert_eq!(state.history_items, before.history_items);
    assert_eq!(state.summary.model, before.summary.model);
    assert_eq!(state.summary.title, before.summary.title);
    assert_eq!(state.summary.total_tokens, before.summary.total_tokens);
    assert_eq!(state.latest_compaction_snapshot, before.latest_compaction_snapshot);
}

#[test]
fn merged_records_keep_the_later_update_and_the_actor_title_state() {
    let record = |title: Option<&str>, state: SessionTitleState, updated_at: i64| SessionRecord {
        title: title.map(str::to_string),
        title_state: state,
        permission_preset: None,
        model: None,
        model_binding_id: None,
        reasoning_effort_selection: None,
        updated_at,
    };
    let mut state = actor_state();
    state.record = Some(record(None, SessionTitleState::Generating, 50));
    let mut working = state.checkout_turn_working_set(&turn(1)).state;
    working.record = Some(record(Some("From turn"), SessionTitleState::Unset, 20));
    state.merge_turn_working_set(devo_server::session_state::TurnWorkingSet { state: working });
    let merged = state.record.expect("record kept");
    assert_eq!(merged.title, Some("From turn".to_string()));
    assert_eq!(merged.title_state, SessionTitleState::Generating);
    assert_eq!(merged.updated_at, 50);
}

#[test]
fn inline_state_allocates_records_and_merges_back() {
    let mut state = actor_state();
    let mut inline = TurnInlineState::new(&state, &turn(1));
    assert_eq!(inline.turn_id, 1);
    assert_eq!(inline.next_item_seq, 4);
    assert!(inline.persisted_turn_items.is_empty());

    assert_eq!(inline.allocate_item_seq(), 4);
    assert_eq!(inline.allocate_item_seq(), 5);
    assert_eq!(inline.next_item_seq, 6);
    assert_eq!(inline.loaded_item_count, 5);

    assert!(inline.record_item(1, 20, true));
    assert!(inline.record_item(1, 21, false));
    assert!(!inline.record_item(2, 22, true));
    assert_eq!(inline.persisted_turn_items.len(), 2);
    assert_eq!(inline.history_items, vec![TranscriptEntry { turn_id: 1, item_id: 20 }]);

    inline.summary.total_tokens = 77;
    inline.active_turn_usage = Some(TurnUsage { input_tokens: 30, output_tokens: 47 });
    inline.merge_into(&mut state);
    assert_eq!(state.next_item_seq, 6);
    assert_eq!(state.loaded_item_count, 5);
    assert_eq!(state.persisted_turn_items.len(), 3);
    assert_eq!(state.history_items.len(), 2);
    assert_eq!(state.summary.total_tokens, 77);
    assert_eq!(state.core.total_tokens, 77);
    assert_eq!(
        state.active_turn.as_ref().and_then(|t| t.usage),
        Some(TurnUsage { input_tokens: 30, output_tokens: 47 })
    );
    assert_eq!(state.latest_compaction_snapshot, Some(CompactionMark { turn_id: 0, item_id: 9 }));
}

#[test]
fn item_sequence_saturates_at_the_top() {
    let state = actor_state();
    let mut inline = TurnInlineState::new(&state, &turn(1));
    inline.next_item_seq = u64::MAX;
    assert_eq!(inline.allocate_item_seq(), u64::MAX);
    assert_eq!(inline.next_item_seq, u64::MAX);
}

#[test]
fn only_one_path_claims_the_end_of_a_turn() {
    let mut state = actor_state();
    assert!(!state.clear_active_turn_if_matches(2));
    assert_eq!(state.active_turn.as_ref().map(|t| t.turn_id), Some(1));
    assert!(state.clear_active_turn_if_matches(1));
    assert!(state.active_turn.is_none());
    assert!(!state.clear_active_turn_if_matches(1));
}
