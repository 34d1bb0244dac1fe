//! The session turn queue behind `session/queue/*`: queued pre-items
//! addressed by a stable id, their canonical view (1-based positions and
//! one-line previews), and the update, remove and steer operations.

use vstd::prelude::*;

use crate::items::InputItem;
use crate::protocol::{parse_uuid, uuid_hyphenated, uuid_parse, uuid_text, ProtocolError, ProtocolErrorCode};
use crate::grants::copy_opt_text;
use crate::session_state::{TurnKind, TurnMetadata, TurnStatus};
use crate::text::{concat_text, preview_of, preview_view, text_equals};

verus! {

/// One part of a canonical (wire) user input.
#[allow(inconsistent_fields)]
pub enum UserInput {
    Text { text: String },
    Skill { name: String },
    LocalImage { path: String, detail: Option<String> },
    Mention { uri: String },
    Image { uri: String },
    Audio { uri: String },
}

/// Whether `item` is the turn-machinery form of the canonical part `part`.
/// Skills carry no path (resolution stays name-based) and mentions no
/// name; image and audio parts have no such form.
pub open spec fn legacy_matches(part: UserInput, item: InputItem) -> bool {
    match part {
        UserInput::Text { text } => item matches InputItem::Text { text: t } && t == text,
        UserInput::Skill { name } => item matches InputItem::Skill { name: n, path } && n == name
            && path@.len() == 0,
        UserInput::LocalImage { path, .. } => item matches InputItem::LocalImage { path: p } && p == path,
        UserInput::Mention { uri } => item matches InputItem::Mention { path, name } && path == uri
            && name is None,
        UserInput::Image { .. } => false,
        UserInput::Audio { .. } => false,
    }
}

/// The address of a part that has no turn-machinery form.
pub open spec fn unsupported_uri(part: UserInput) -> Option<Seq<char>> {
    match part {
        UserInput::Image { uri } => Some(uri@),
        UserInput::Audio { uri } => Some(uri@),
        _ => None,
    }
}

/// Whether `part` is the canonical form of the queued item `item`.
pub open spec fn canonical_matches(item: InputItem, part: UserInput) -> bool {
    match item {
        InputItem::Text { text } => part matches UserInput::Text { text: t } && t == text,
        InputItem::Skill { name, .. } => part matches UserInput::Skill { name: n } && n == name,
        InputItem::LocalImage { path } => part matches UserInput::LocalImage { path: p, detail } && p == path
            && detail is None,
        InputItem::Mention { path, .. } => part matches UserInput::Mention { uri } && uri == path,
    }
}

/// The message of the refusal of an unsupported input part.
pub open spec fn unsupported_modality_message(uri: Seq<char>) -> Seq<char> {
    "unsupported input modality for queue: "@ + uri
}

/// Converts canonical input parts into the items the turn machinery runs.
/// Image and audio parts have no such form: the first one refuses the
/// whole input.
pub fn legacy_input_items(input: &Vec<UserInput>) -> (items: Result<Vec<InputItem>, String>)
    ensures
        match items {
            Ok(items) => {
                &&& forall|k: int| 0 <= k < input@.len() ==> unsupported_uri(#[trigger] input@[k]) is None
                &&& items@.len() == input@.len()
                &&& forall|k: int| 0 <= k < input@.len() ==> legacy_matches(input@[k], #[trigger] items@[k])
            },
            Err(message) => exists|k: int| 0 <= k < input@.len()
                && unsupported_uri(#[trigger] input@[k]) is Some
                && (forall|j: int| 0 <= j < k ==> unsupported_uri(#[trigger] input@[j]) is None)
                && message@ == unsupported_modality_message(unsupported_uri(input@[k])->0),
        },
{
    let mut items: Vec<InputItem> = Vec::new();
    let mut i: usize = 0;
    while i < input.len()
        invariant
            i <= input@.len(),
            items@.len() == i,
            forall|k: int| 0 <= k < i ==> unsupported_uri(#[trigger] input@[k]) is None,
            forall|k: int| 0 <= k < i ==> legacy_matches(input@[k], #[trigger] items@[k]),
        decreases input.len() - i,
    {
        let item = match &input[i] {
            UserInput::Text { text } => InputItem::Text { text: text.clone() },
            UserInput::Skill { name } => InputItem::Skill { name: name.clone(), path: String::new() },
            UserInput::LocalImage { path, .. } => InputItem::LocalImage { path: path.clone() },
            UserInput::Mention { uri } => InputItem::Mention { path: uri.clone(), name: None },
            UserInput::Image { uri } => {
                proof {
                    reveal_strlit("unsupported input modality for queue: ");
                }
                return Err(concat_text("unsupported input modality for queue: ", uri.as_str()));
            },
            UserInput::Audio { uri } => {
                proof {
                    reveal_strlit("unsupported input modality for queue: ");
                }
                return Err(concat_text("unsupported input modality for queue: ", uri.as_str()));
            },
        };
        items.push(item);
        i += 1;
    }
    Ok(items)
}

/// The canonical part of one queued input item.
pub fn canonical_user_input_from_input_item(item: &InputItem) -> (part: UserInput)
    ensures
        canonical_matches(*item, part),
{
    match item {
        InputItem::Text { text } => UserInput::Text { text: text.clone() },
        InputItem::Skill { name, .. } => UserInput::Skill { name: name.clone() },
        InputItem::LocalImage { path } => UserInput::LocalImage { path: path.clone(), detail: None },
        InputItem::Mention { path, .. } => UserInput::Mention { uri: path.clone() },
    }
}

/// A canonical part that is queued and listed again comes back as it was,
/// but for the detail level of a local image, which the queue does not
/// keep.
pub proof fn lemma_queued_input_round_trip(part: UserInput, item: InputItem, back: UserInput)
    requires
        legacy_matches(part, item),
        canonical_matches(item, back),
    ensures
        match part {
            UserInput::LocalImage { path, .. } => back == (UserInput::LocalImage { path, detail: None }),
            _ => back == part,
        },
{
}

/// What a queued pre-item carries.
#[allow(inconsistent_fields)]
pub enum PendingInputKind {
    /// Plain user text.
    UserText { text: String },
    /// Structured user input with its display and resolved prompt text.
    UserInput { input: Vec<InputItem>, display_text: String, prompt_text: String },
    /// A tool call that a hook blocked, fed back to the model.
    ToolCallBlockedByHook { tool_use_id: String, reason: String },
    /// A steering note sent when the budget limit is reached.
    BudgetLimitSteering,
}

/// One queued pre-item: editable, not yet in history.
pub struct PendingInputItem {
    /// Stable queue item id.
    pub id: u128,
    pub kind: PendingInputKind,
    /// Metadata JSON text, when any was attached.
    pub metadata: Option<String>,
    /// Enqueue time, in seconds since the epoch.
    pub created_at: i64,
}

/// One entry of the canonical queue view.
pub struct QueueEntry {
    pub queue_item_id: u128,
    /// 1-based position in current queue order.
    pub position: u32,
    pub input: Vec<UserInput>,
    /// The first 80 characters of the first line of the display text.
    pub preview: String,
    pub enqueued_at: i64,
}

/// The display text of a queued kind: the text or display text of user
/// input, nothing for the other kinds.
pub open spec fn display_text_of(kind: PendingInputKind) -> Seq<char> {
    match kind {
        PendingInputKind::UserText { text } => text@,
        PendingInputKind::UserInput { display_text, .. } => display_text@,
        _ => Seq::empty(),
    }
}

/// Whether `input` is the canonical input of a queued kind.
pub open spec fn canonical_input_of(kind: PendingInputKind, input: Seq<UserInput>) -> bool {
    match kind {
        PendingInputKind::UserText { text } => input.len() == 1 && input[0] == (UserInput::Text { text }),
        PendingInputKind::UserInput { input: items, .. } => input.len() == items@.len()
            && forall|k: int| 0 <= k < input.len() ==> canonical_matches(items@[k], #[trigger] input[k]),
        _ => input.len() == 0,
    }
}

/// Whether `entry` is the canonical view of `item` at 0-based `index`.
pub open spec fn entry_of(item: PendingInputItem, index: int, entry: QueueEntry) -> bool {
    &&& entry.queue_item_id == item.id
    &&& entry.position == (index + 1) as u32
    &&& canonical_input_of(item.kind, entry.input@)
    &&& entry.preview@ == preview_view(display_text_of(item.kind))
    &&& entry.enqueued_at == item.created_at
}

fn display_text(kind: &PendingInputKind) -> (text: &str)
    ensures
        text@ == display_text_of(*kind),
{
    match kind {
        PendingInputKind::UserText { text } => text.as_str(),
        PendingInputKind::UserInput { display_text, .. } => display_text.as_str(),
        _ => {
            proof {
                reveal_strlit("");
            }
            ""
        },
    }
}

fn canonical_input(kind: &PendingInputKind) -> (input: Vec<UserInput>)
    ensures
        canonical_input_of(*kind, input@),
{
    match kind {
        PendingInputKind::UserText { text } => vec![UserInput::Text { text: text.clone() }],
        PendingInputKind::UserInput { input, .. } => {
            let mut parts: Vec<UserInput> = Vec::new();
            let mut k: usize = 0;
            while k < input.len()
                invariant
                    k <= input@.len(),
                    parts@.len() == k,
                    forall|j: int| 0 <= j < k ==> canonical_matches(input@[j], #[trigger] parts@[j]),
                decreases input.len() - k,
            {
                parts.push(canonical_user_input_from_input_item(&input[k]));
                k += 1;
            }
            parts
        },
        _ => Vec::new(),
    }
}

/// The canonical view of the queued item `item` at 0-based `index`.
fn queue_entry(item: &PendingInputItem, index: usize) -> (entry: QueueEntry)
    requires
        index < usize::MAX,
    ensures
        entry_of(*item, index as int, entry),
{
    QueueEntry {
        queue_item_id: item.id,
        position: #[verifier::truncate] ((index + 1) as u32),
        input: canonical_input(&item.kind),
        preview: preview_of(display_text(&item.kind)),
        enqueued_at: item.created_at,
    }
}

/// The canonical queue view: one entry per queued item, in queue order,
/// positions counted from 1.
pub fn canonical_queue_entries(queue: &Vec<PendingInputItem>) -> (entries: Vec<QueueEntry>)
    ensures
        entries@.len() == queue@.len(),
        forall|i: int| 0 <= i < queue@.len() ==> entry_of(queue@[i], i, #[trigger] entries@[i]),
{
    let mut entries: Vec<QueueEntry> = Vec::new();
    let mut i: usize = 0;
    while i < queue.len()
        invariant
            i <= queue@.len(),
            entries@.len() == i,
            forall|k: int| 0 <= k < i ==> entry_of(queue@[k], k, #[trigger] entries@[k]),
        decreases queue.len() - i,
    {
        entries.push(queue_entry(&queue[i], i));
        i += 1;
    }
    entries
}

/// Why a queue operation was refused.
#[derive(Debug, Clone, Copy, PartialEq, Eq, Structural)]
pub enum QueueError {
    /// The queue item id is no UUID.
    InvalidQueueItemId,
    /// No queued item has the id (it may have been consumed already).
    QueueItemNotFound,
    /// No turn is running; the entry stays queued.
    TurnEnded,
    /// The running turn is not the one the client expected.
    ExpectedTurnMismatch,
    /// The running turn is not a regular turn.
    NonRegularTurn,
    /// The queued item is not user input.
    NotSteerable,
}

impl QueueError {
    /// The protocol error code of this refusal.
    pub fn code(&self) -> (code: ProtocolErrorCode)
        ensures
            code == match *self {
                QueueError::InvalidQueueItemId => ProtocolErrorCode::InvalidParams,
                QueueError::QueueItemNotFound => ProtocolErrorCode::QueueItemNotFound,
                QueueError::TurnEnded => ProtocolErrorCode::ActiveTurnNotSteerable,
                QueueError::ExpectedTurnMismatch => ProtocolErrorCode::ExpectedTurnMismatch,
                QueueError::NonRegularTurn => ProtocolErrorCode::ActiveTurnNotSteerable,
                QueueError::NotSteerable => ProtocolErrorCode::InvalidParams,
            },
    {
        match self {
            QueueError::InvalidQueueItemId => ProtocolErrorCode::InvalidParams,
            QueueError::QueueItemNotFound => ProtocolErrorCode::QueueItemNotFound,
            QueueError::TurnEnded => ProtocolErrorCode::ActiveTurnNotSteerable,
            QueueError::ExpectedTurnMismatch => ProtocolErrorCode::ExpectedTurnMismatch,
            QueueError::NonRegularTurn => ProtocolErrorCode::ActiveTurnNotSteerable,
            QueueError::NotSteerable => ProtocolErrorCode::InvalidParams,
        }
    }

    /// The message sent with this refusal.
    pub fn message(&self) -> (message: &'static str)
        ensures
            message@ == queue_error_message(*self),
    {
        proof {
            reveal_strlit("invalid queueItemId");
            reveal_strlit("queue item is no longer queued");
            reveal_strlit("turn already ended; the entry remains queued");
            reveal_strlit("active turn did not match expectedTurnId");
            reveal_strlit("cannot steer a non-regular turn");
            reveal_strlit("queued input cannot be steered");
        }
        match self {
            QueueError::InvalidQueueItemId => "invalid queueItemId",
            QueueError::QueueItemNotFound => "queue item is no longer queued",
            QueueError::TurnEnded => "turn already ended; the entry remains queued",
            QueueError::ExpectedTurnMismatch => "active turn did not match expectedTurnId",
            QueueError::NonRegularTurn => "cannot steer a non-regular turn",
            QueueError::NotSteerable => "queued input cannot be steered",
        }
    }
}

/// The message of each queue refusal.
pub open spec fn queue_error_message(error: QueueError) -> Seq<char> {
    match error {
        QueueError::InvalidQueueItemId => "invalid queueItemId"@,
        QueueError::QueueItemNotFound => "queue item is no longer queued"@,
        QueueError::TurnEnded => "turn already ended; the entry remains queued"@,
        QueueError::ExpectedTurnMismatch => "active turn did not match expectedTurnId"@,
        QueueError::NonRegularTurn => "cannot steer a non-regular turn"@,
        QueueError::NotSteerable => "queued input cannot be steered"@,
    }
}

/// Reads a client's queue item id.
pub fn parse_queue_item_id(text: &str) -> (id: Result<u128, QueueError>)
    ensures
        id == match uuid_parse(text@) {
            Some(v) => Ok(v),
            None => Err(QueueError::InvalidQueueItemId),
        },
{
    match parse_uuid(text) {
        Some(v) => Ok(v),
        None => Err(QueueError::InvalidQueueItemId),
    }
}

/// Whether `i` is the first index of the item with id `id`.
pub open spec fn is_first_index(queue: Seq<PendingInputItem>, id: u128, i: int) -> bool {
    &&& 0 <= i < queue.len()
    &&& queue[i].id == id
    &&& forall|k: int| 0 <= k < i ==> queue[k].id != id
}

/// Whether some queued item has id `id`.
pub open spec fn is_queued(queue: Seq<PendingInputItem>, id: u128) -> bool {
    exists|k: int| 0 <= k < queue.len() && queue[k].id == id
}

/// The first index of the item with id `id`, if one is queued.
pub fn queue_index_of(queue: &Vec<PendingInputItem>, id: u128) -> (index: Option<usize>)
    ensures
        match index {
            Some(i) => is_first_index(queue@, id, i as int),
            None => !is_queued(queue@, id),
        },
{
    let mut i: usize = 0;
    while i < queue.len()
        invariant
            i <= queue@.len(),
            forall|k: int| 0 <= k < i ==> queue@[k].id != id,
        decreases queue.len() - i,
    {
        if queue[i].id == id {
            return Some(i);
        }
        i += 1;
    }
    None
}

/// `item` with its kind replaced by `kind` when one is given.
pub open spec fn with_kind(item: PendingInputItem, kind: Option<PendingInputKind>) -> PendingInputItem {
    PendingInputItem {
        id: item.id,
        kind: match kind {
            Some(k) => k,
            None => item.kind,
        },
        metadata: item.metadata,
        created_at: item.created_at,
    }
}

/// Where a repositioned item lands: 1-based `position` counted in the
/// queue without it, clamped to its end.
pub open spec fn reposition_target(position: u32, rest_len: nat) -> int {
    let wanted: int = if position == 0 { 0 } else { position - 1 };
    if wanted < rest_len {
        wanted
    } else {
        rest_len as int
    }
}

/// The queue after updating item `i`: its kind replaced when given, and
/// moved to `position` when given.
pub open spec fn updated_queue(
    queue: Seq<PendingInputItem>,
    i: int,
    kind: Option<PendingInputKind>,
    position: Option<u32>,
) -> Seq<PendingInputItem> {
    let updated = with_kind(queue[i], kind);
    match position {
        None => queue.update(i, updated),
        Some(p) => {
            let rest = queue.remove(i);
            rest.insert(reposition_target(p, rest.len()), updated)
        },
    }
}

/// Updates one queued item (`session/queue/update`): replaces its content
/// and/or moves it, and returns its entry in the updated queue view.
pub fn update_queue_entry(
    queue: &mut Vec<PendingInputItem>,
    id: u128,
    kind: Option<PendingInputKind>,
    position: Option<u32>,
) -> (entry: Result<QueueEntry, QueueError>)
    ensures
        entry is Ok <==> is_queued(old(queue)@, id),
        match entry {
            Ok(e) => exists|i: int| #[trigger] is_first_index(old(queue)@, id, i)
                && final(queue)@ == updated_queue(old(queue)@, i, kind, position)
                && exists|j: int| #[trigger] is_first_index(final(queue)@, id, j)
                    && entry_of(final(queue)@[j], j, e),
            Err(error) => error == QueueError::QueueItemNotFound && final(queue)@ == old(queue)@,
        },
{
    let i = match queue_index_of(queue, id) {
        None => return Err(QueueError::QueueItemNotFound),
        Some(i) => i,
    };
    let ghost before = queue@;
    let mut item = queue.remove(i);
    proof {
        assert(item == before[i as int]);
    }
    match kind {
        Some(k) => {
            item.kind = k;
        },
        None => {},
    }
    proof {
        assert(item == with_kind(before[i as int], kind));
    }
    let ghost landed: int;
    let ghost moved = item;
    match position {
        None => {
            queue.insert(i, item);
            proof {
                landed = i as int;
                assert(queue@ =~= updated_queue(before, i as int, kind, position));
            }
        },
        Some(p) => {
            let wanted: usize = if p == 0 { 0 } else { (p - 1) as usize };
            let target = if wanted < queue.len() { wanted } else { queue.len() };
            queue.insert(target, item);
            proof {
                landed = target as int;
                assert(target == reposition_target(p, before.remove(i as int).len()));
                assert(queue@ =~= updated_queue(before, i as int, kind, position));
            }
        },
    }
    proof {
        assert(is_first_index(before, id, i as int));
        assert(queue@[landed] == moved);
        assert(queue@.contains(with_kind(before[i as int], kind)));
    }
    let n = queue.len();
    let j = match queue_index_of(queue, id) {
        Some(j) => j,
        None => {
            proof {
                let w = choose|w: int| 0 <= w < queue@.len() && queue@[w] == with_kind(before[i as int], kind);
                assert(queue@[w].id == id);
            }
            return Err(QueueError::QueueItemNotFound);
        },
    };
    Ok(queue_entry(&queue[j], j))
}

/// Removes one queued item (`session/queue/remove`) and hands it back.
pub fn remove_queue_entry(queue: &mut Vec<PendingInputItem>, id: u128) -> (removed: Result<PendingInputItem, QueueError>)
    ensures
        removed is Ok <==> is_queued(old(queue)@, id),
        match removed {
            Ok(item) => exists|i: int| #[trigger] is_first_index(old(queue)@, id, i)
                && item == old(queue)@[i]
                && final(queue)@ == old(queue)@.remove(i),
            Err(error) => error == QueueError::QueueItemNotFound && final(queue)@ == old(queue)@,
        },
{
    match queue_index_of(queue, id) {
        None => Err(QueueError::QueueItemNotFound),
        Some(i) => {
            let ghost before = queue@;
            let item = queue.remove(i);
            proof {
                assert(is_first_index(before, id, i as int));
            }
            Ok(item)
        },
    }
}

/// The running turn a steer request targets.
#[derive(Debug, Clone, Copy, PartialEq, Eq, Structural)]
pub struct ActiveTurnRef {
    pub turn_id: u128,
    pub kind: TurnKind,
}

/// Whether a queued kind can be steered into a running turn.
pub open spec fn is_user_input_kind(kind: PendingInputKind) -> bool {
    kind is UserText || kind is UserInput
}

/// The refusal a steer request gets before the queue is looked at, if
/// any: no running turn, another turn than expected, or a turn that is
/// not regular.
pub open spec fn steer_turn_refusal(active_turn: Option<ActiveTurnRef>, expected_turn_id: Seq<char>) -> Option<QueueError> {
    match active_turn {
        None => Some(QueueError::TurnEnded),
        Some(turn) => if uuid_hyphenated(turn.turn_id) != expected_turn_id {
            Some(QueueError::ExpectedTurnMismatch)
        } else if turn.kind != TurnKind::Regular {
            Some(QueueError::NonRegularTurn)
        } else {
            None
        },
    }
}

/// Promotes one queued item into the running turn (`session/queue/steer`):
/// it leaves the turn queue and joins the back of the steer queue. Returns
/// the running turn's id and the item's display text, which the caller
/// materializes as the steering user message.
pub fn steer_queue_entry(
    queue: &mut Vec<PendingInputItem>,
    steer_queue: &mut Vec<PendingInputItem>,
    id: u128,
    active_turn: Option<ActiveTurnRef>,
    expected_turn_id: &str,
) -> (steered: Result<(u128, String), QueueError>)
    ensures
        match steered {
            Ok((turn_id, display)) => {
                &&& steer_turn_refusal(active_turn, expected_turn_id@) is None
                &&& turn_id == active_turn->0.turn_id
                &&& exists|i: int| #[trigger] is_first_index(old(queue)@, id, i)
                    && is_user_input_kind(old(queue)@[i].kind)
                    && display@ == display_text_of(old(queue)@[i].kind)
                    && final(queue)@ == old(queue)@.remove(i)
                    && final(steer_queue)@ == old(steer_queue)@.push(old(queue)@[i])
            },
            Err(error) => {
                &&& final(queue)@ == old(queue)@
                &&& final(steer_queue)@ == old(steer_queue)@
                &&& error == match steer_turn_refusal(active_turn, expected_turn_id@) {
                    Some(refusal) => refusal,
                    None => if !is_queued(old(queue)@, id) {
                        QueueError::QueueItemNotFound
                    } else {
                        QueueError::NotSteerable
                    },
                }
                &&& steer_turn_refusal(active_turn, expected_turn_id@) is None && is_queued(old(queue)@, id)
                    ==> forall|i: int| #[trigger] is_first_index(old(queue)@, id, i)
                        ==> !is_user_input_kind(old(queue)@[i].kind)
            },
        },
{
    let turn = match active_turn {
        None => return Err(QueueError::TurnEnded),
        Some(turn) => turn,
    };
    let turn_text = uuid_text(turn.turn_id);
    if !text_equals(turn_text.as_str(), expected_turn_id) {
        return Err(QueueError::ExpectedTurnMismatch);
    }
    if turn.kind != TurnKind::Regular {
        return Err(QueueError::NonRegularTurn);
    }
    let i = match queue_index_of(queue, id) {
        None => return Err(QueueError::QueueItemNotFound),
        Some(i) => i,
    };
    let display = match &queue[i].kind {
        PendingInputKind::UserText { text } => text.clone(),
        PendingInputKind::UserInput { display_text, .. } => display_text.clone(),
        _ => {
            proof {
                assert forall|k: int| #[trigger] is_first_index(queue@, id, k) implies
                    !is_user_input_kind(queue@[k].kind) by {
                    if k != i {
                        if k < i {
                            assert(queue@[k].id != id);
                        } else {
                            assert(queue@[i as int].id == id);
                        }
                    }
                }
            }
            return Err(QueueError::NotSteerable);
        },
    };
    let ghost before = queue@;
    let item = queue.remove(i);
    steer_queue.push(item);
    proof {
        assert(is_first_index(before, id, i as int));
    }
    Ok((turn.turn_id, display))
}

/// Steering moves one entry from the turn queue to the end of the steer
/// queue: together the two queues hold the same entries as before, none
/// lost and none doubled.
pub proof fn lemma_steer_moves_one_entry(queue: Seq<PendingInputItem>, steer: Seq<PendingInputItem>, i: int)
    requires
        0 <= i < queue.len(),
    ensures
        queue.remove(i).to_multiset().add(steer.push(queue[i]).to_multiset())
            == queue.to_multiset().add(steer.to_multiset()),
        queue.remove(i).len() + steer.push(queue[i]).len() == queue.len() + steer.len(),
{
    broadcast use vstd::multiset::group_multiset_axioms;
    vstd::seq_lib::to_multiset_remove(queue, i);
    vstd::seq_lib::to_multiset_build(steer, queue[i]);
    vstd::seq_lib::to_multiset_contains(queue, queue[i]);
    assert(queue.remove(i).to_multiset().add(steer.push(queue[i]).to_multiset())
        =~= queue.to_multiset().add(steer.to_multiset()));
}

/// Updating a queued item touches only that item: without a new position
/// every other item stays where it was; with one, the queue without the
/// moved item is the old queue without it, in the same order, and the
/// item lands at the clamped target.
pub proof fn lemma_update_moves_only_the_item(
    queue: Seq<PendingInputItem>,
    i: int,
    kind: Option<PendingInputKind>,
    position: Option<u32>,
)
    requires
        0 <= i < queue.len(),
    ensures
        updated_queue(queue, i, kind, position).len() == queue.len(),
        match position {
            None => forall|k: int| 0 <= k < queue.len() && k != i
                ==> #[trigger] updated_queue(queue, i, kind, position)[k] == queue[k],
            Some(p) => {
                let target = reposition_target(p, (queue.len() - 1) as nat);
                &&& updated_queue(queue, i, kind, position)[target] == with_kind(queue[i], kind)
                &&& updated_queue(queue, i, kind, position).remove(target) == queue.remove(i)
            },
        },
{
    match position {
        None => {},
        Some(p) => {
            let rest = queue.remove(i);
            let target = reposition_target(p, rest.len());
            assert(rest.insert(target, with_kind(queue[i], kind)).remove(target) =~= rest);
        },
    }
}

/// The text of the first text part of a canonical input, if any.
pub open spec fn first_text_part(input: Seq<UserInput>) -> Option<Seq<char>>
    decreases input.len(),
{
    if input.len() == 0 {
        None
    } else {
        match input[0] {
            UserInput::Text { text } => Some(text@),
            _ => first_text_part(input.skip(1)),
        }
    }
}

/// The preview of pushed input: the preview of its first text part, or
/// nothing.
pub fn input_preview(input: &Vec<UserInput>) -> (preview: String)
    ensures
        preview@ == match first_text_part(input@) {
            Some(t) => preview_view(t),
            None => Seq::empty(),
        },
{
    let mut k: usize = 0;
    proof {
        assert(input@.skip(0) =~= input@);
    }
    while k < input.len()
        invariant
            k <= input@.len(),
            first_text_part(input@) == first_text_part(input@.skip(k as int)),
        decreases input.len() - k,
    {
        match &input[k] {
            UserInput::Text { text } => {
                proof {
                    assert(input@.skip(k as int)[0] == input@[k as int]);
                }
                return preview_of(text.as_str());
            },
            _ => {
                proof {
                    assert(input@.skip(k as int).skip(1) =~= input@.skip(k + 1));
                }
            },
        }
        k += 1;
    }
    proof {
        assert(input@.skip(k as int).len() == 0);
    }
    String::new()
}

/// The position of an entry just pushed to the back of the queue: the
/// queue's length (1 when the queue cannot be read).
pub fn pushed_entry_position(queue_len: Option<usize>) -> (position: u32)
    ensures
        position == match queue_len {
            Some(n) => n as u32,
            None => 1u32,
        },
{
    match queue_len {
        Some(n) => #[verifier::truncate] (n as u32),
        None => 1,
    }
}

/// The queue operations that take new input.
#[derive(Debug, Clone, Copy, PartialEq, Eq, Structural)]
pub enum QueueInputRequest {
    Push,
    Update,
}

/// The refusal of empty input for a queue operation.
pub open spec fn empty_queue_input_message(request: QueueInputRequest) -> Seq<char> {
    match request {
        QueueInputRequest::Push => "queue push input is empty"@,
        QueueInputRequest::Update => "queue update input is empty"@,
    }
}

/// The turn-machinery items of the input a queue push or update carries:
/// an unsupported part is refused as invalid, empty input as empty.
pub fn queue_input_items(request: QueueInputRequest, input: &Vec<UserInput>) -> (items: Result<Vec<InputItem>, ProtocolError>)
    ensures
        match items {
            Ok(items) => {
                &&& input@.len() > 0
                &&& forall|k: int| 0 <= k < input@.len() ==> unsupported_uri(#[trigger] input@[k]) is None
                &&& items@.len() == input@.len()
                &&& forall|k: int| 0 <= k < input@.len() ==> legacy_matches(input@[k], #[trigger] items@[k])
            },
            Err(e) => {
                ||| (exists|k: int| 0 <= k < input@.len() && unsupported_uri(#[trigger] input@[k]) is Some
                    && (forall|j: int| 0 <= j < k ==> unsupported_uri(#[trigger] input@[j]) is None)
                    && e.code == ProtocolErrorCode::InvalidParams
                    && e.message@ == unsupported_modality_message(unsupported_uri(input@[k])->0))
                ||| input@.len() == 0 && e.code == ProtocolErrorCode::EmptyInput
                    && e.message@ == empty_queue_input_message(request)
            },
        },
{
    let items = match legacy_input_items(input) {
        Ok(items) => items,
        Err(message) => return Err(ProtocolError { code: ProtocolErrorCode::InvalidParams, message }),
    };
    if items.len() == 0 {
        proof {
            reveal_strlit("queue push input is empty");
            reveal_strlit("queue update input is empty");
        }
        let message = match request {
            QueueInputRequest::Push => "queue push input is empty",
            QueueInputRequest::Update => "queue update input is empty",
        };
        return Err(ProtocolError { code: ProtocolErrorCode::EmptyInput, message: message.to_string() });
    }
    Ok(items)
}

/// Kind of a turn as clients see it.
#[derive(Debug, Clone, Copy, PartialEq, Eq, Structural)]
pub enum CanonicalTurnKind {
    Regular,
    Compaction,
}

/// Status of a turn as clients see it.
#[derive(Debug, Clone, Copy, PartialEq, Eq, Structural)]
pub enum CanonicalTurnStatus {
    InProgress,
    Completed,
    Interrupted,
    Failed,
}

/// The model a turn runs on, as clients see it.
pub struct TurnModelBinding {
    /// The model binding id, or `unknown`.
    pub provider: String,
    pub model: String,
    /// The reasoning-effort selection text, for the protocol to read.
    pub reasoning_effort_selection: Option<String>,
}

/// The snapshot of a running turn that `session/queue/push` answers with
/// when the push started a turn; it carries no error and no usage.
pub struct CanonicalTurn {
    pub id: u128,
    pub session_id: u128,
    pub sequence: u64,
    pub kind: CanonicalTurnKind,
    pub status: CanonicalTurnStatus,
    pub model: TurnModelBinding,
    pub started_at: i64,
    pub completed_at: Option<i64>,
}

/// The client-facing kind of a turn kind: only manual compaction is a
/// compaction turn.
pub open spec fn canonical_turn_kind(kind: TurnKind) -> CanonicalTurnKind {
    if kind == TurnKind::ManualCompaction {
        CanonicalTurnKind::Compaction
    } else {
        CanonicalTurnKind::Regular
    }
}

/// The client-facing status of a turn status: every unfinished status is
/// in progress.
pub open spec fn canonical_turn_status(status: TurnStatus) -> CanonicalTurnStatus {
    match status {
        TurnStatus::Pending | TurnStatus::Running | TurnStatus::WaitingApproval => CanonicalTurnStatus::InProgress,
        TurnStatus::Completed => CanonicalTurnStatus::Completed,
        TurnStatus::Interrupted => CanonicalTurnStatus::Interrupted,
        TurnStatus::Failed => CanonicalTurnStatus::Failed,
    }
}

/// Converts runtime turn metadata into the client-facing turn snapshot:
/// the model is the requested one unless that is empty, and the provider
/// is the binding id, `unknown` without one.
pub fn canonical_turn_from_metadata(turn: &TurnMetadata) -> (canonical: CanonicalTurn)
    ensures
        canonical.id == turn.turn_id,
        canonical.session_id == turn.session_id,
        canonical.sequence == turn.sequence,
        canonical.kind == canonical_turn_kind(turn.kind),
        canonical.status == canonical_turn_status(turn.status),
        canonical.model.provider@ == match turn.model_binding_id {
            Some(id) => id@,
            None => "unknown"@,
        },
        canonical.model.model@ == if turn.request_model@.len() == 0 { turn.model@ } else { turn.request_model@ },
        canonical.model.reasoning_effort_selection == turn.reasoning_effort_selection,
        canonical.started_at == turn.started_at,
        canonical.completed_at == turn.completed_at,
{
    let kind = match turn.kind {
        TurnKind::ManualCompaction => CanonicalTurnKind::Compaction,
        TurnKind::Regular | TurnKind::Review | TurnKind::Other => CanonicalTurnKind::Regular,
    };
    let status = match turn.status {
        TurnStatus::Pending | TurnStatus::Running | TurnStatus::WaitingApproval => CanonicalTurnStatus::InProgress,
        TurnStatus::Completed => CanonicalTurnStatus::Completed,
        TurnStatus::Interrupted => CanonicalTurnStatus::Interrupted,
        TurnStatus::Failed => CanonicalTurnStatus::Failed,
    };
    let provider = match &turn.model_binding_id {
        Some(id) => id.clone(),
        None => {
            proof {
                reveal_strlit("unknown");
            }
            String::from_str("unknown")
        },
    };
    let model = if turn.request_model.as_str().is_empty() {
        turn.model.clone()
    } else {
        turn.request_model.clone()
    };
    CanonicalTurn {
        id: turn.turn_id,
        session_id: turn.session_id,
        sequence: turn.sequence,
        kind,
        status,
        model: TurnModelBinding {
            provider,
            model,
            reasoning_effort_selection: copy_opt_text(&turn.reasoning_effort_selection),
        },
        started_at: turn.started_at,
        completed_at: turn.completed_at,
    }
}

} // verus!
