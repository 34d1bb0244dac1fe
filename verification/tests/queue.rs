use devo_server::items::InputItem;
use devo_server::protocol::ProtocolErrorCode;
use devo_server::queue::{
    canonical_queue_entries, canonical_user_input_from_input_item, input_preview,
    legacy_input_items, parse_queue_item_id, pushed_entry_position, queue_index_of,
    remove_queue_entry, steer_queue_entry, update_queue_entry, ActiveTurnRef, PendingInputItem,
    PendingInputKind, QueueError, UserInput,
};
use devo_server::queue_store::QueueType;
use devo_server::session_state::TurnKind;

const TURN: u128 = 0x550e8400_e29b_41d4_a716_446655440000;
const TURN_TEXT: &str = "550e8400-e29b-41d4-a716-446655440000";

fn text_item(id: u128, text: &str) -> PendingInputItem {
    PendingInputItem { id, kind: PendingInputKind::UserText { text: text.to_string() }, metadata: None, created_at: 10 + id as i64 }
}

fn ids(queue: &Vec<PendingInputItem>) -> Vec<u128> {
    queue.iter().map(|item| item.id).collect()
}

#[test]
fn queue_entries_have_one_based_positions_and_previews() {
    let queue = vec![
        text_item(1, "first line\nsecond line"),
        PendingInputItem {
            id: 2,
            kind: PendingInputKind::UserInput {
                input: vec![InputItem::Text { text: "hi".to_string() }, InputItem::Mention { path: "a.rs".to_string(), name: Some("a".to_string()) }],
                display_text: "hi\n[mention:a]".to_string(),
                prompt_text: "hi".to_string(),
            },
            metadata: None,
            created_at: 20,
        },
        PendingInputItem { id: 3, kind: PendingInputKind::BudgetLimitSteering, metadata: None, created_at: 30 },
    ];
    let entries = canonical_queue_entries(&queue);
    assert_eq!(entries.iter().map(|e| e.position).collect::<Vec<_>>(), vec![1, 2, 3]);
    assert_eq!(entries.iter().map(|e| e.queue_item_id).collect::<Vec<_>>(), vec![1, 2, 3]);
    assert_eq!(entries[0].preview, "first line");
    assert_eq!(entries[1].preview, "hi");
    assert_eq!(entries[2].preview, "");
    assert_eq!(entries[1].input.len(), 2);
    assert!(matches!(&entries[1].input[1], UserInput::Mention { uri } if uri == "a.rs"));
    assert!(entries[2].input.is_empty());
    assert_eq!(entries[1].enqueued_at, 20);
}

#[test]
fn preview_is_cut_at_eighty_characters() {
    let long: String = std::iter::repeat('x').take(100).collect();
    let entries = canonical_queue_entries(&vec![text_item(1, &long)]);
    assert_eq!(entries[0].preview.chars().count(), 80);
    let crlf = canonical_queue_entries(&vec![text_item(1, "windows\r\nnext")]);
    assert_eq!(crlf[0].preview, "windows");
}

#[test]
fn update_replaces_content_and_moves_entry() {
    let mut queue = vec![text_item(1, "a"), text_item(2, "b"), text_item(3, "c")];
    let entry = update_queue_entry(&mut queue, 3, Some(PendingInputKind::UserText { text: "c2".to_string() }), Some(1))
        .expect("entry is queued");
    assert_eq!(ids(&queue), vec![3, 1, 2]);
    assert_eq!(entry.position, 1);
    assert_eq!(entry.preview, "c2");
    let entry = update_queue_entry(&mut queue, 3, None, Some(99)).expect("entry is queued");
    assert_eq!(ids(&queue), vec![1, 2, 3]);
    assert_eq!(entry.position, 3);
    let entry = update_queue_entry(&mut queue, 2, None, Some(0)).expect("entry is queued");
    assert_eq!(ids(&queue), vec![2, 1, 3]);
    assert_eq!(entry.position, 1);
    let entry = update_queue_entry(&mut queue, 1, None, None).expect("entry is queued");
    assert_eq!(ids(&queue), vec![2, 1, 3]);
    assert_eq!(entry.position, 2);
}

#[test]
fn update_of_an_unknown_entry_is_refused_and_changes_nothing() {
    let mut queue = vec![text_item(1, "a")];
    let result = update_queue_entry(&mut queue, 9, None, Some(1));
    assert!(matches!(result, Err(QueueError::QueueItemNotFound)));
    assert_eq!(ids(&queue), vec![1]);
    assert_eq!(QueueError::QueueItemNotFound.code(), ProtocolErrorCode::QueueItemNotFound);
    assert_eq!(QueueError::QueueItemNotFound.message(), "queue item is no longer queued");
}

#[test]
fn remove_takes_the_entry_out() {
    let mut queue = vec![text_item(1, "a"), text_item(2, "b")];
    let removed = remove_queue_entry(&mut queue, 1).expect("entry is queued");
    assert_eq!(removed.id, 1);
    assert_eq!(ids(&queue), vec![2]);
    assert!(matches!(remove_queue_entry(&mut queue, 1), Err(QueueError::QueueItemNotFound)));
    assert_eq!(queue_index_of(&queue, 2), Some(0));
    assert_eq!(queue_index_of(&queue, 1), None);
}

#[test]
fn steer_promotes_user_input_into_the_running_turn() {
    let mut queue = vec![text_item(1, "a"), text_item(2, "steer me")];
    let mut steer = Vec::new();
    let active = Some(ActiveTurnRef { turn_id: TURN, kind: TurnKind::Regular });
    let (turn_id, display) = steer_queue_entry(&mut queue, &mut steer, 2, active, TURN_TEXT).expect("steered");
    assert_eq!(turn_id, TURN);
    assert_eq!(display, "steer me");
    assert_eq!(ids(&queue), vec![1]);
    assert_eq!(ids(&steer), vec![2]);
}

#[test]
fn steering_moves_one_entry_between_the_queues() {
    let mut queue = vec![text_item(1, "a"), text_item(2, "b"), text_item(3, "c")];
    let mut steer = vec![text_item(7, "earlier")];
    let active = Some(ActiveTurnRef { turn_id: TURN, kind: TurnKind::Regular });
    steer_queue_entry(&mut queue, &mut steer, 2, active, TURN_TEXT).expect("steered");
    assert_eq!(ids(&queue), vec![1, 3]);
    assert_eq!(ids(&steer), vec![7, 2]);
    assert_eq!(queue.len() + steer.len(), 4);
}

#[test]
fn steer_refusals_leave_both_queues_alone() {
    let mut queue = vec![text_item(1, "a"), PendingInputItem { id: 2, kind: PendingInputKind::BudgetLimitSteering, metadata: None, created_at: 0 }];
    let mut steer = Vec::new();
    let regular = Some(ActiveTurnRef { turn_id: TURN, kind: TurnKind::Regular });
    assert!(matches!(steer_queue_entry(&mut queue, &mut steer, 1, None, TURN_TEXT), Err(QueueError::TurnEnded)));
    assert!(matches!(steer_queue_entry(&mut queue, &mut steer, 1, regular, "other"), Err(QueueError::ExpectedTurnMismatch)));
    let review = Some(ActiveTurnRef { turn_id: TURN, kind: TurnKind::Review });
    assert!(matches!(steer_queue_entry(&mut queue, &mut steer, 1, review, TURN_TEXT), Err(QueueError::NonRegularTurn)));
    assert!(matches!(steer_queue_entry(&mut queue, &mut steer, 9, regular, TURN_TEXT), Err(QueueError::QueueItemNotFound)));
    assert!(matches!(steer_queue_entry(&mut queue, &mut steer, 2, regular, TURN_TEXT), Err(QueueError::NotSteerable)));
    assert_eq!(ids(&queue), vec![1, 2]);
    assert!(steer.is_empty());
    assert_eq!(QueueError::TurnEnded.code(), ProtocolErrorCode::ActiveTurnNotSteerable);
    assert_eq!(QueueError::NotSteerable.code(), ProtocolErrorCode::InvalidParams);
}

#[test]
fn queue_item_ids_are_uuids() {
    assert_eq!(parse_queue_item_id(TURN_TEXT), Ok(TURN));
    assert_eq!(parse_queue_item_id("not-a-uuid"), Err(QueueError::InvalidQueueItemId));
    assert_eq!(QueueError::InvalidQueueItemId.message(), "invalid queueItemId");
}

#[test]
fn canonical_input_converts_to_queue_items_and_back() {
    let input = vec![
        UserInput::Text { text: "hello".to_string() },
        UserInput::Skill { name: "writer".to_string() },
        UserInput::LocalImage { path: "p.png".to_string(), detail: Some("high".to_string()) },
        UserInput::Mention { uri: "src/lib.rs".to_string() },
    ];
    let items = legacy_input_items(&input).expect("supported input");
    assert!(matches!(&items[1], InputItem::Skill { name, path } if name == "writer" && path.is_empty()));
    assert!(matches!(&items[3], InputItem::Mention { path, name: None } if path == "src/lib.rs"));
    let back: Vec<UserInput> = items.iter().map(canonical_user_input_from_input_item).collect();
    assert!(matches!(&back[0], UserInput::Text { text } if text == "hello"));
    assert!(matches!(&back[2], UserInput::LocalImage { path, detail: None } if path == "p.png"));
    assert!(matches!(&back[3], UserInput::Mention { uri } if uri == "src/lib.rs"));
}

#[test]
fn image_and_audio_input_cannot_be_queued() {
    let input = vec![UserInput::Text { text: "x".to_string() }, UserInput::Audio { uri: "a.wav".to_string() }, UserInput::Image { uri: "i.png".to_string() }];
    assert_eq!(legacy_input_items(&input).err(), Some("unsupported input modality for queue: a.wav".to_string()));
}

#[test]
fn pushed_input_preview_and_position() {
    let input = vec![UserInput::Skill { name: "s".to_string() }, UserInput::Text { text: "line one\nline two".to_string() }];
    assert_eq!(input_preview(&input), "line one");
    assert_eq!(input_preview(&Vec::new()), "");
    assert_eq!(pushed_entry_position(Some(3)), 3);
    assert_eq!(pushed_entry_position(None), 1);
}

#[test]
fn queue_types_have_storage_tags() {
    assert_eq!(QueueType::Turn.as_str(), "turn");
    assert_eq!(QueueType::Steer.as_str(), "steer");
}
