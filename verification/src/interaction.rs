//! Interaction items of a running turn (approvals, user-input questions,
//! file changes): the header each persisted revision carries, and the
//! target an approval names.
//!
//! A waiting item is written first as revision 1; when it settles, revision
//! 2 is written under the same id, sequence number and creation time.

use vstd::prelude::*;

verus! {

/// Lifecycle state of an interaction item.
#[derive(Debug, Clone, Copy, PartialEq, Eq, Structural)]
pub enum ItemState {
    Waiting,
    Completed,
}

/// What the runtime keeps of a waiting item so it can settle it later.
#[derive(Debug, Clone, Copy, PartialEq, Eq, Structural)]
pub struct LivingItem {
    pub item_id: u128,
    pub seq: u64,
    /// Creation time, in milliseconds since the epoch.
    pub created_at: i64,
}

/// The envelope fields of one persisted item revision.
#[derive(Debug, Clone, Copy, PartialEq, Eq, Structural)]
pub struct ItemHeader {
    pub item_id: u128,
    pub seq: u64,
    pub revision: u32,
    pub created_at: i64,
    pub updated_at: i64,
    pub state: ItemState,
}

/// The first revision of an item that waits for an answer.
pub open spec fn waiting_header(item_id: u128, seq: u64, now: i64) -> ItemHeader {
    ItemHeader { item_id, seq, revision: 1, created_at: now, updated_at: now, state: ItemState::Waiting }
}

/// The revision that settles a waiting item in `state` at `now`.
pub open spec fn settled_header(living: LivingItem, state: ItemState, now: i64) -> ItemHeader {
    ItemHeader {
        item_id: living.item_id,
        seq: living.seq,
        revision: 2,
        created_at: living.created_at,
        updated_at: now,
        state,
    }
}

/// The header of a waiting item, with what is kept of it to settle it.
pub fn waiting_item(item_id: u128, seq: u64, now: i64) -> (parts: (ItemHeader, LivingItem))
    ensures
        parts.0 == waiting_header(item_id, seq, now),
        parts.1 == (LivingItem { item_id, seq, created_at: now }),
{
    (
        ItemHeader { item_id, seq, revision: 1, created_at: now, updated_at: now, state: ItemState::Waiting },
        LivingItem { item_id, seq, created_at: now },
    )
}

/// The header that settles a waiting item: an approval that was decided,
/// a question that was answered, or one that ended otherwise.
pub fn settled_item(living: &LivingItem, state: ItemState, now: i64) -> (header: ItemHeader)
    ensures
        header == settled_header(*living, state, now),
{
    ItemHeader {
        item_id: living.item_id,
        seq: living.seq,
        revision: 2,
        created_at: living.created_at,
        updated_at: now,
        state,
    }
}

/// The header of an approval decided without waiting: one completed
/// revision.
pub fn decided_approval_item(item_id: u128, seq: u64, now: i64) -> (header: ItemHeader)
    ensures
        header == (ItemHeader { item_id, seq, revision: 1, created_at: now, updated_at: now, state: ItemState::Completed }),
{
    ItemHeader { item_id, seq, revision: 1, created_at: now, updated_at: now, state: ItemState::Completed }
}

/// The header of a file-change item, written once when the change is
/// applied, as its second, completed revision.
pub fn file_change_item(item_id: u128, seq: u64, now: i64) -> (header: ItemHeader)
    ensures
        header == (ItemHeader { item_id, seq, revision: 2, created_at: now, updated_at: now, state: ItemState::Completed }),
{
    ItemHeader { item_id, seq, revision: 2, created_at: now, updated_at: now, state: ItemState::Completed }
}

/// Settling a waiting item writes its next revision under the same id,
/// sequence number and creation time, in the state it settles in.
pub proof fn lemma_settling_keeps_identity(item_id: u128, seq: u64, created: i64, state: ItemState, now: i64)
    ensures
        ({
            let first = waiting_header(item_id, seq, created);
            let living = LivingItem { item_id, seq, created_at: created };
            let settled = settled_header(living, state, now);
            &&& settled.item_id == first.item_id
            &&& settled.seq == first.seq
            &&& settled.created_at == first.created_at
            &&& settled.revision == first.revision + 1
            &&& settled.state == state
        }),
{
}

/// What an approval asks about.
pub enum ApprovalTarget {
    Path { path: String },
    Host { host: String },
    Command { command: String },
}

/// The target of an approval request: its path when it has one, else its
/// host, else its command.
pub fn approval_target(path: Option<String>, host: Option<String>, command: Option<String>) -> (target: Option<ApprovalTarget>)
    ensures
        target == match path {
            Some(p) => Some(ApprovalTarget::Path { path: p }),
            None => match host {
                Some(h) => Some(ApprovalTarget::Host { host: h }),
                None => match command {
                    Some(c) => Some(ApprovalTarget::Command { command: c }),
                    None => None,
                },
            },
        },
{
    match path {
        Some(path) => Some(ApprovalTarget::Path { path }),
        None => match host {
            Some(host) => Some(ApprovalTarget::Host { host }),
            None => match command {
                Some(command) => Some(ApprovalTarget::Command { command }),
                None => None,
            },
        },
    }
}

} // verus!
