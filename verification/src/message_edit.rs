//! Editing the previous user message: which message may be edited, the
//! checks an edit passes before anything is written, and the branch the
//! replacement turn continues from.

use vstd::prelude::*;

use crate::items::{render_input_items, rendered_items, InputItem};
use crate::journal::{PersistedTurnItem, TurnItem};
use crate::protocol::{ProtocolError, ProtocolErrorCode};

verus! {

/// An error answer with a fixed message.
pub open spec fn error_is(error: ProtocolError, code: ProtocolErrorCode, message: Seq<char>) -> bool {
    error.code == code && error.message@ == message
}

fn protocol_error(code: ProtocolErrorCode, message: &str) -> (error: ProtocolError)
    ensures
        error.code == code,
        error.message@ == message@,
{
    ProtocolError { code, message: message.to_string() }
}

/// The one-line display of the edited content; empty content is refused.
pub fn edited_display_input(edited_input: &Vec<InputItem>) -> (display: Result<String, ProtocolError>)
    ensures
        match display {
            Ok(d) => d@ == rendered_items(edited_input@) && d@.len() > 0,
            Err(e) => rendered_items(edited_input@).len() == 0
                && error_is(e, ProtocolErrorCode::InvalidContentParts, "session/message/edit content is empty"@),
        },
{
    match render_input_items(edited_input) {
        Some(d) => Ok(d),
        None => {
            proof {
                reveal_strlit("session/message/edit content is empty");
            }
            Err(protocol_error(ProtocolErrorCode::InvalidContentParts, "session/message/edit content is empty"))
        },
    }
}

/// The first refusal an edit meets before anything is written, in the
/// order the checks run: empty content, then an unknown session, then a
/// session with a turn running.
pub open spec fn edit_admission_refusal(
    edited_input: Seq<InputItem>,
    session_exists: bool,
    turn_active: bool,
) -> Option<(ProtocolErrorCode, Seq<char>)> {
    if rendered_items(edited_input).len() == 0 {
        Some((ProtocolErrorCode::InvalidContentParts, "session/message/edit content is empty"@))
    } else if !session_exists {
        Some((ProtocolErrorCode::SessionNotFound, "session does not exist"@))
    } else if turn_active {
        Some((ProtocolErrorCode::ActiveTurnEditRejected, "cannot edit the previous message while a turn is active"@))
    } else {
        None
    }
}

/// Admits an edit of the previous user message: the display of the edited
/// content when every check passes, else the first refusal that applies.
pub fn admit_message_edit(
    edited_input: &Vec<InputItem>,
    session_exists: bool,
    turn_active: bool,
) -> (admitted: Result<String, ProtocolError>)
    ensures
        match admitted {
            Ok(d) => edit_admission_refusal(edited_input@, session_exists, turn_active) is None
                && d@ == rendered_items(edited_input@),
            Err(e) => edit_admission_refusal(edited_input@, session_exists, turn_active)
                == Some((e.code, e.message@)),
        },
{
    let display = match edited_display_input(edited_input) {
        Ok(d) => d,
        Err(e) => return Err(e),
    };
    if !session_exists {
        proof {
            reveal_strlit("session does not exist");
        }
        return Err(protocol_error(ProtocolErrorCode::SessionNotFound, "session does not exist"));
    }
    if turn_active {
        proof {
            reveal_strlit("cannot edit the previous message while a turn is active");
        }
        return Err(protocol_error(
            ProtocolErrorCode::ActiveTurnEditRejected,
            "cannot edit the previous message while a turn is active",
        ));
    }
    Ok(display)
}

/// How an edit asks the server to proceed.
#[derive(Debug, Clone, Copy, PartialEq, Eq, Structural)]
pub enum MessageEditMode {
    /// Replace the message and run the replacement turn.
    Normal,
    /// Only edit a queued message.
    QueuedOnly,
}

/// Only normal edits are served; queued-only edits are refused.
pub fn check_edit_mode(mode: MessageEditMode) -> (checked: Result<(), ProtocolError>)
    ensures
        match checked {
            Ok(_) => mode == MessageEditMode::Normal,
            Err(e) => mode != MessageEditMode::Normal && error_is(
                e,
                ProtocolErrorCode::WorkspaceRestoreFailedToStart,
                "session/message/edit queued-only edits are not implemented"@,
            ),
        },
{
    if mode != MessageEditMode::Normal {
        proof {
            reveal_strlit("session/message/edit queued-only edits are not implemented");
        }
        return Err(protocol_error(
            ProtocolErrorCode::WorkspaceRestoreFailedToStart,
            "session/message/edit queued-only edits are not implemented",
        ));
    }
    Ok(())
}

/// Whether a journal item is a user message.
pub open spec fn is_user_message(item: PersistedTurnItem) -> bool {
    item.turn_item is UserMessage
}

/// Whether `i` is the index of the last user message of the journal.
pub open spec fn is_last_user_message(items: Seq<PersistedTurnItem>, i: int) -> bool {
    &&& 0 <= i < items.len()
    &&& is_user_message(items[i])
    &&& forall|k: int| i < k < items.len() ==> !is_user_message(#[trigger] items[k])
}

/// The message an edit replaces: the last user message of the journal,
/// which must be the one the client expected when it names one. Returns
/// its item id and turn id.
pub fn find_edit_target(
    items: &Vec<PersistedTurnItem>,
    expected_target_message_id: Option<u128>,
) -> (target: Result<(u128, u128), ProtocolError>)
    ensures
        match target {
            Ok((item_id, turn_id)) => exists|i: int| #[trigger] is_last_user_message(items@, i)
                && items@[i].item_id == item_id
                && items@[i].turn_id == turn_id
                && (expected_target_message_id matches Some(e) ==> e == item_id),
            Err(e) => {
                ||| (forall|k: int| 0 <= k < items@.len() ==> !is_user_message(#[trigger] items@[k]))
                    && error_is(e, ProtocolErrorCode::OlderMessageRequiresFork,
                        "no immediately previous user message is available to edit"@)
                ||| (exists|i: int| #[trigger] is_last_user_message(items@, i)
                    && (expected_target_message_id matches Some(x) && x != items@[i].item_id))
                    && error_is(e, ProtocolErrorCode::ExpectedTargetMessageMismatch,
                        "expected target message does not match the current editable message"@)
            },
        },
{
    let mut i: usize = items.len();
    let mut found: Option<usize> = None;
    while i > 0 && found.is_none()
        invariant
            i <= items@.len(),
            found is None ==> forall|k: int| i <= k < items@.len() ==> !is_user_message(#[trigger] items@[k]),
            found matches Some(j) ==> is_last_user_message(items@, j as int),
        decreases i, if found is None { 1int } else { 0int },
    {
        let k = i - 1;
        match &items[k].turn_item {
            TurnItem::UserMessage { .. } => {
                found = Some(k);
            },
            _ => {
                i = k;
            },
        }
    }
    match found {
        None => {
            proof {
                reveal_strlit("no immediately previous user message is available to edit");
            }
            Err(protocol_error(
                ProtocolErrorCode::OlderMessageRequiresFork,
                "no immediately previous user message is available to edit",
            ))
        },
        Some(j) => {
            let item_id = items[j].item_id;
            if let Some(expected) = expected_target_message_id {
                if expected != item_id {
                    proof {
                        reveal_strlit("expected target message does not match the current editable message");
                        assert(is_last_user_message(items@, j as int));
                    }
                    return Err(protocol_error(
                        ProtocolErrorCode::ExpectedTargetMessageMismatch,
                        "expected target message does not match the current editable message",
                    ));
                }
            }
            proof {
                assert(is_last_user_message(items@, j as int));
            }
            Ok((item_id, items[j].turn_id))
        },
    }
}

/// The journal without the items of turn `turn_id`, in order.
pub open spec fn without_turn(items: Seq<PersistedTurnItem>, turn_id: u128) -> Seq<PersistedTurnItem> {
    items.filter(|item: PersistedTurnItem| item.turn_id != turn_id)
}

/// How many user messages a journal holds.
pub open spec fn user_message_count(items: Seq<PersistedTurnItem>) -> nat {
    items.filter(|item: PersistedTurnItem| is_user_message(item)).len()
}

/// Drops the superseded turn's items from the journal, appends the
/// replacement message, and returns how many turns the branch keeps
/// before the replacement (its user messages, less the replacement).
pub fn rebuild_edited_branch(
    items: &mut Vec<PersistedTurnItem>,
    superseded_turn_id: u128,
    replacement: PersistedTurnItem,
) -> (branch_turn_count: usize)
    requires
        replacement.turn_item is UserMessage,
    ensures
        final(items)@ == without_turn(old(items)@, superseded_turn_id).push(replacement),
        branch_turn_count == user_message_count(without_turn(old(items)@, superseded_turn_id)),
{
    let ghost initial = items@;
    let mut kept: Vec<PersistedTurnItem> = Vec::new();
    let mut users: usize = 0;
    let mut rest: Vec<PersistedTurnItem> = Vec::new();
    std::mem::swap(&mut rest, items);
    let ghost mut taken: int = 0;
    proof {
        assert(rest@ =~= initial.skip(0));
    }
    while rest.len() > 0
        invariant
            0 <= taken <= initial.len(),
            rest@ == initial.skip(taken),
            kept@ == without_turn(initial.take(taken), superseded_turn_id),
            users == user_message_count(kept@),
            users <= kept@.len(),
        decreases rest.len(),
    {
        let item = rest.remove(0);
        proof {
            assert(item == initial[taken]);
            assert(rest@ =~= initial.skip(taken + 1));
            let t0 = initial.take(taken);
            assert(initial.take(taken + 1) =~= t0.push(item));
            t0.lemma_filter_push(item, |x: PersistedTurnItem| x.turn_id != superseded_turn_id);
        }
        if item.turn_id != superseded_turn_id {
            let is_user = match &item.turn_item {
                TurnItem::UserMessage { .. } => true,
                _ => false,
            };
            let ghost before = kept@;
            kept.push(item);
            proof {
                before.lemma_filter_push(item, |x: PersistedTurnItem| is_user_message(x));
            }
            let n = kept.len();
            if is_user {
                users = users + 1;
            }
            proof {
                assert(users <= n);
            }
        }
        proof {
            taken = taken + 1;
        }
    }
    proof {
        assert(initial.take(initial.len() as int) =~= initial);
    }
    kept.push(replacement);
    *items = kept;
    users
}

/// Checks the revision a client based its edit on: `0` skips the check;
/// otherwise the item must exist with exactly that revision.
pub fn check_expected_revision(expected_revision: u32, current_revision: Option<u32>) -> (checked: Result<(), ProtocolError>)
    ensures
        match checked {
            Ok(_) => expected_revision == 0 || current_revision == Some(expected_revision),
            Err(e) => expected_revision > 0 && match current_revision {
                Some(r) => r != expected_revision && error_is(
                    e,
                    ProtocolErrorCode::WorkspaceVersionConflict,
                    "item revision changed; refetch before editing"@,
                ),
                None => error_is(e, ProtocolErrorCode::InvalidContentParts,
                    "item does not exist in the canonical history"@),
            },
        },
{
    if expected_revision == 0 {
        return Ok(());
    }
    match current_revision {
        Some(r) => {
            if r == expected_revision {
                Ok(())
            } else {
                proof {
                    reveal_strlit("item revision changed; refetch before editing");
                }
                Err(protocol_error(
                    ProtocolErrorCode::WorkspaceVersionConflict,
                    "item revision changed; refetch before editing",
                ))
            }
        },
        None => {
            proof {
                reveal_strlit("item does not exist in the canonical history");
            }
            Err(protocol_error(ProtocolErrorCode::InvalidContentParts, "item does not exist in the canonical history"))
        },
    }
}

/// Where an edited message enters the conversation.
#[derive(Debug, Clone, Copy, PartialEq, Eq, Structural)]
pub enum UserMessageEntry {
    TurnStart,
    Queue,
}

/// The state an accepted edit reports.
#[derive(Debug, Clone, Copy, PartialEq, Eq, Structural)]
pub enum MessageEditState {
    Accepted,
    Queued,
}

/// The entry of the superseding message: a normal edit starts a turn, a
/// queued-only edit goes through the queue.
pub fn edit_entry(mode: MessageEditMode) -> (entry: UserMessageEntry)
    ensures
        entry == match mode {
            MessageEditMode::Normal => UserMessageEntry::TurnStart,
            MessageEditMode::QueuedOnly => UserMessageEntry::Queue,
        },
{
    match mode {
        MessageEditMode::Normal => UserMessageEntry::TurnStart,
        MessageEditMode::QueuedOnly => UserMessageEntry::Queue,
    }
}

/// Reads the reported edit state: "queued" is queued, anything else
/// accepted.
pub fn edit_state_from_text(state: &str) -> (parsed: MessageEditState)
    ensures
        parsed == if state@ == "queued"@ {
            MessageEditState::Queued
        } else {
            MessageEditState::Accepted
        },
{
    if crate::text::text_equals(state, "queued") {
        MessageEditState::Queued
    } else {
        MessageEditState::Accepted
    }
}

/// The revision of the superseding message: one past the revision the
/// client edited.
pub fn superseding_revision(expected_revision: u32) -> (revision: u32)
    requires
        expected_revision < u32::MAX,
    ensures
        revision == expected_revision + 1,
{
    expected_revision + 1
}

} // verus!
