use devo_server::compaction::{
    compacted_messages, compaction_terminal_notices, compaction_terminal_status,
    compaction_turn_outcome, next_turn_sequence, CompactionNotice, CompactionResult,
    CompactionTurnNotice, CompactionTurnOutcome, ContentBlock, ContextCompactionLifecycle,
    Message, MessageRole, ResponseItem,
};
use devo_server::items::{render_input_items, InputItem};
use devo_server::journal::{PersistedTurnItem, ToolOutput, TurnItem};
use devo_server::runtime::ServerRuntime;
use devo_server::session_state::{TurnKind, TurnStatus};

fn assistant(text: &str) -> ResponseItem {
    ResponseItem::Message {
        message: Message { role: MessageRole::Assistant, content: vec![ContentBlock::Text { text: text.to_string() }] },
    }
}

fn user(text: &str) -> ResponseItem {
    ResponseItem::Message {
        message: Message { role: MessageRole::User, content: vec![ContentBlock::Text { text: text.to_string() }] },
    }
}

fn persisted(item_id: u128, turn_item: TurnItem) -> PersistedTurnItem {
    PersistedTurnItem { turn_id: 100, turn_kind: TurnKind::Regular, item_id, prompt_visible: true, turn_item }
}

#[test]
fn preserved_item_ids_match_complete_command_execution_pair() {
    let command_item_id: u128 = 0xabc;
    let command_input = "{\"cmd\":\"printf ok\"}".to_string();
    let persisted_turn_items = vec![persisted(
        command_item_id,
        TurnItem::CommandExecution {
            tool_call_id: "call-1".to_string(),
            tool_name: "exec_command".to_string(),
            command: "printf ok".to_string(),
            input: command_input.clone(),
            output: ToolOutput::Text("ok".to_string()),
            is_error: false,
        },
    )];
    let compacted_items = vec![
        assistant("summary"),
        ResponseItem::ToolCall { id: "call-1".to_string(), name: "exec_command".to_string(), input: command_input },
        ResponseItem::ToolCallOutput { tool_use_id: "call-1".to_string(), content: "ok".to_string(), is_error: false },
    ];

    assert_eq!(
        ServerRuntime::preserved_item_ids_from_compacted(&persisted_turn_items, &compacted_items),
        vec![command_item_id, command_item_id]
    );
}

#[test]
fn preserved_ids_are_the_kept_suffix_of_the_journal() {
    let items = vec![
        persisted(1, TurnItem::UserMessage { text: "first".to_string() }),
        persisted(2, TurnItem::AgentMessage { text: "answer".to_string() }),
        persisted(3, TurnItem::Reasoning),
        persisted(4, TurnItem::UserMessage { text: "second".to_string() }),
    ];
    let compacted = vec![assistant("summary"), user("second")];
    assert_eq!(ServerRuntime::preserved_item_ids_from_compacted(&items, &compacted), vec![4]);
    let kept_two = vec![assistant("summary"), assistant("answer"), user("second")];
    assert_eq!(ServerRuntime::preserved_item_ids_from_compacted(&items, &kept_two), vec![2, 4]);
}

#[test]
fn preserved_ids_are_empty_without_an_exact_suffix() {
    let items = vec![persisted(1, TurnItem::UserMessage { text: "only".to_string() })];
    let summary_only = vec![assistant("summary")];
    assert_eq!(ServerRuntime::preserved_item_ids_from_compacted(&items, &summary_only), Vec::<u128>::new());
    let mismatch = vec![assistant("summary"), user("different")];
    assert_eq!(ServerRuntime::preserved_item_ids_from_compacted(&items, &mismatch), Vec::<u128>::new());
    let too_long = vec![assistant("summary"), user("a"), user("only")];
    assert_eq!(ServerRuntime::preserved_item_ids_from_compacted(&items, &too_long), Vec::<u128>::new());
    let mut hidden = persisted(1, TurnItem::UserMessage { text: "only".to_string() });
    hidden.prompt_visible = false;
    let kept = vec![assistant("summary"), user("only")];
    assert_eq!(ServerRuntime::preserved_item_ids_from_compacted(&vec![hidden], &kept), Vec::<u128>::new());
}

#[test]
fn summary_item_takes_the_first_text_block() {
    let compacted = vec![
        ResponseItem::Message {
            message: Message {
                role: MessageRole::Assistant,
                content: vec![
                    ContentBlock::Other { payload: "{}".to_string() },
                    ContentBlock::Text { text: "the summary".to_string() },
                    ContentBlock::Text { text: "later".to_string() },
                ],
            },
        },
        user("kept"),
    ];
    match ServerRuntime::summary_turn_item_from_compacted(&compacted) {
        TurnItem::ContextCompaction { text } => assert_eq!(text, "the summary"),
        _ => panic!("expected a context compaction item"),
    }
    let reason = vec![ResponseItem::Reason { text: "why".to_string() }];
    match ServerRuntime::summary_turn_item_from_compacted(&reason) {
        TurnItem::ContextCompaction { text } => assert_eq!(text, "why"),
        _ => panic!("expected a context compaction item"),
    }
    match ServerRuntime::summary_turn_item_from_compacted(&Vec::new()) {
        TurnItem::ContextCompaction { text } => assert_eq!(text, ""),
        _ => panic!("expected a context compaction item"),
    }
}

fn notice_text(notice: &CompactionNotice) -> String {
    match notice {
        CompactionNotice::ItemStarted { item_id, summary } => format!("started {item_id} {summary}"),
        CompactionNotice::ItemCompleted { item_id, summary } => format!("completed {item_id} {summary}"),
        CompactionNotice::ItemFailed { item_id, summary } => format!("failed {item_id} {summary}"),
        CompactionNotice::SessionCompactionFailed { message } => format!("session {message}"),
    }
}

#[test]
fn compaction_lifecycle_ends_every_started_item_once() {
    let mut lifecycle = ContextCompactionLifecycle::new();
    let started: Vec<String> = lifecycle.start(1).iter().map(notice_text).collect();
    assert_eq!(started, vec!["started 1 Compaction started".to_string()]);
    let restarted: Vec<String> = lifecycle.start(2).iter().map(notice_text).collect();
    assert_eq!(
        restarted,
        vec![
            "failed 1 Compaction failed: compaction restarted before the previous lifecycle completed".to_string(),
            "session compaction restarted before the previous lifecycle completed".to_string(),
            "started 2 Compaction started".to_string(),
        ]
    );
    let completed = lifecycle.complete().map(|n| notice_text(&n));
    assert_eq!(completed, Some("completed 2 Context compacted".to_string()));
    assert!(lifecycle.complete().is_none());
    assert!(lifecycle.close_if_open().is_empty());
    assert_eq!(lifecycle.current_item(), None);
}

#[test]
fn closing_an_open_compaction_fails_its_item() {
    let mut lifecycle = ContextCompactionLifecycle::new();
    lifecycle.start(7);
    let closed: Vec<String> = lifecycle.close_if_open().iter().map(notice_text).collect();
    assert_eq!(
        closed,
        vec![
            "failed 7 Compaction failed: compaction lifecycle ended before completion".to_string(),
            "session compaction lifecycle ended before completion".to_string(),
        ]
    );
    let failed: Vec<String> = lifecycle.fail("boom".to_string()).iter().map(notice_text).collect();
    assert_eq!(failed, vec!["session boom".to_string()]);
}

#[test]
fn compaction_results_map_to_turn_outcomes() {
    assert!(compaction_turn_outcome(&CompactionResult::Replaced, false).is_none());
    assert!(matches!(compaction_turn_outcome(&CompactionResult::Replaced, true), Some(CompactionTurnOutcome::Canceled)));
    assert!(matches!(compaction_turn_outcome(&CompactionResult::Skipped, false), Some(CompactionTurnOutcome::Skipped)));
    match compaction_turn_outcome(&CompactionResult::Error { message: "timeout".to_string() }, false) {
        Some(CompactionTurnOutcome::Failed { message }) => assert_eq!(message, "compaction failed: timeout"),
        _ => panic!("expected a failure"),
    }
    assert_eq!(compaction_terminal_status(&CompactionTurnOutcome::Skipped), TurnStatus::Completed);
    assert_eq!(compaction_terminal_status(&CompactionTurnOutcome::Canceled), TurnStatus::Interrupted);
    assert_eq!(
        compaction_terminal_status(&CompactionTurnOutcome::Failed { message: String::new() }),
        TurnStatus::Failed
    );
}

fn turn_notice_name(notice: &CompactionTurnNotice) -> String {
    match notice {
        CompactionTurnNotice::ContextUsageUpdated => "usage".to_string(),
        CompactionTurnNotice::SessionCompactionCompleted => "compacted".to_string(),
        CompactionTurnNotice::SessionCompactionFailed { message } => format!("failed: {message}"),
        CompactionTurnNotice::TurnFailed => "turn failed".to_string(),
        CompactionTurnNotice::TurnInterrupted => "turn interrupted".to_string(),
        CompactionTurnNotice::TurnCompleted => "turn completed".to_string(),
        CompactionTurnNotice::SessionIdle => "idle".to_string(),
    }
}

#[test]
fn manual_compaction_terminal_announcements() {
    let canceled: Vec<String> =
        compaction_terminal_notices(CompactionTurnOutcome::Canceled, true, true).iter().map(turn_notice_name).collect();
    assert_eq!(canceled, vec!["failed: compaction canceled", "turn interrupted", "turn completed", "idle"]);
    let skipped: Vec<String> =
        compaction_terminal_notices(CompactionTurnOutcome::Skipped, true, true).iter().map(turn_notice_name).collect();
    assert_eq!(skipped, vec!["usage", "compacted", "turn completed", "idle"]);
    let skipped_blind: Vec<String> =
        compaction_terminal_notices(CompactionTurnOutcome::Skipped, false, true).iter().map(turn_notice_name).collect();
    assert_eq!(skipped_blind, vec!["turn completed", "idle"]);
}

#[test]
fn compacted_prompt_keeps_only_messages() {
    let items = vec![
        assistant("summary"),
        ResponseItem::ToolCall { id: "c".to_string(), name: "n".to_string(), input: "{}".to_string() },
        user("kept"),
    ];
    let messages = compacted_messages(items);
    assert_eq!(messages.len(), 2);
    assert_eq!(messages[0].role, MessageRole::Assistant);
    assert_eq!(messages[1].role, MessageRole::User);
}

#[test]
fn next_turn_sequence_counts_from_one() {
    assert_eq!(next_turn_sequence(None), 1);
    assert_eq!(next_turn_sequence(Some(4)), 5);
}

#[test]
fn render_input_items_trims_text_and_preserves_item_markers() {
    let input = vec![
        InputItem::Text { text: "  hello  ".to_string() },
        InputItem::Text { text: "   ".to_string() },
        InputItem::Skill { name: "writer".to_string(), path: "writer.md".to_string() },
        InputItem::LocalImage { path: "photo.png".to_string() },
        InputItem::Mention { path: "src/lib.rs".to_string(), name: None },
        InputItem::Mention { path: "src/main.rs".to_string(), name: Some("main".to_string()) },
    ];
    assert_eq!(
        render_input_items(&input),
        Some("hello\n[skill:writer @ writer.md]\n[image:photo.png]\n[mention:src/lib.rs]\n[mention:main]".to_string())
    );
}

#[test]
fn render_input_items_returns_none_for_empty_text_only_input() {
    assert_eq!(render_input_items(&vec![InputItem::Text { text: " \n\t ".to_string() }]), None);
}
