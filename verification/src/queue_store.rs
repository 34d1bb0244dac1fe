//! Storage-side types of the session index: pending-queue selectors and
//! kind tags, upsert sources, token statistics and event-log rows.

use vstd::prelude::*;

use crate::queue::PendingInputKind;
use crate::text::text_equals;

verus! {

/// Queue type for pending messages.
#[derive(Debug, Clone, Copy, PartialEq, Eq, Structural)]
pub enum QueueType {
    /// Pending turn inputs (from turn/start while a turn is active).
    Turn,
    /// Inputs injected into the active turn by `turn/steer`.
    Steer,
}

/// The storage tag of a queue, as written in the `queue_type` column.
pub open spec fn queue_type_tag(queue: QueueType) -> Seq<char> {
    match queue {
        QueueType::Turn => seq!['t', 'u', 'r', 'n'],
        QueueType::Steer => seq!['s', 't', 'e', 'e', 'r'],
    }
}

impl QueueType {
    /// The storage tag of this queue.
    pub fn as_str(&self) -> (tag: &'static str)
        ensures
            tag@ == queue_type_tag(*self),
    {
        match self {
            QueueType::Turn => {
                proof {
                    reveal_strlit("turn");
                }
                "turn"
            },
            QueueType::Steer => {
                proof {
                    reveal_strlit("steer");
                }
                "steer"
            },
        }
    }
}

/// Source of a session metadata upsert.
#[derive(Debug, Clone, Copy, PartialEq, Eq, Structural)]
pub enum SessionUpsertSource {
    /// Live runtime writes should preserve existing non-null fields when the update omits them.
    RuntimeLive,
    /// Rollout index writes rebuild SQLite from canonical rollout metadata.
    RolloutIndex,
}

/// Whether an upsert also rewrites the session's creation time: only a
/// rebuild from the rollout index does.
pub fn upsert_rewrites_created_at(source: SessionUpsertSource) -> (rewrites: bool)
    ensures
        rewrites == (source == SessionUpsertSource::RolloutIndex),
{
    match source {
        SessionUpsertSource::RuntimeLive => false,
        SessionUpsertSource::RolloutIndex => true,
    }
}

/// Session-level token statistics.
#[derive(Debug, Clone, Copy, PartialEq, Eq, Structural)]
pub struct SessionStats {
    pub total_input_tokens: usize,
    pub total_output_tokens: usize,
    pub total_tokens: usize,
    pub total_cache_creation_tokens: usize,
    pub total_cache_read_tokens: usize,
    pub last_input_tokens: usize,
    pub turn_count: usize,
    pub prompt_token_estimate: usize,
}

/// One derived event row before per-stream sequencing.
pub struct NewEventLogRow {
    /// Stable identity of the rollout fact: `<rollout_path>#<line_index>`.
    pub source_fact_id: String,
    /// Notification method, e.g. `item/started`.
    pub event_kind: String,
    pub stream_id: String,
    pub event_id: String,
    /// `EventEnvelope` JSON (meta + notification).
    pub payload: String,
    pub created_at: String,
}

/// A stored event row including its per-stream sequence number.
pub struct EventLogRow {
    pub source_fact_id: String,
    pub event_kind: String,
    pub stream_id: String,
    pub event_id: String,
    pub seq: u64,
    pub payload: String,
    pub created_at: String,
}

/// The sequence number a new row of a stream gets: one past the stream's
/// highest stored sequence (1 for an empty stream).
pub fn next_event_log_seq(max_seq: Option<u64>) -> (seq: u64)
    requires
        max_seq matches Some(m) ==> m < u64::MAX,
    ensures
        seq == match max_seq {
            Some(m) => m + 1,
            None => 1,
        },
{
    match max_seq {
        Some(m) => m + 1,
        None => 1,
    }
}

/// Current index schema version recorded in `schema_meta`.
pub const CURRENT_SCHEMA_VERSION: u32 = 3;

/// The storage tags of queued pre-item kinds.
#[derive(Debug, Clone, Copy, PartialEq, Eq, Structural)]
pub enum PendingKindTag {
    UserText,
    UserInput,
    ToolCallBlocked,
    BudgetLimit,
}

/// The storage tag of a queued kind.
pub fn pending_kind_tag(kind: &PendingInputKind) -> (tag: PendingKindTag)
    ensures
        tag == match *kind {
            PendingInputKind::UserText { .. } => PendingKindTag::UserText,
            PendingInputKind::UserInput { .. } => PendingKindTag::UserInput,
            PendingInputKind::ToolCallBlockedByHook { .. } => PendingKindTag::ToolCallBlocked,
            PendingInputKind::BudgetLimitSteering => PendingKindTag::BudgetLimit,
        },
{
    match kind {
        PendingInputKind::UserText { .. } => PendingKindTag::UserText,
        PendingInputKind::UserInput { .. } => PendingKindTag::UserInput,
        PendingInputKind::ToolCallBlockedByHook { .. } => PendingKindTag::ToolCallBlocked,
        PendingInputKind::BudgetLimitSteering => PendingKindTag::BudgetLimit,
    }
}

/// The text of a storage tag, as written in the `kind` column.
pub open spec fn pending_tag_text(tag: PendingKindTag) -> Seq<char> {
    match tag {
        PendingKindTag::UserText => "user_text"@,
        PendingKindTag::UserInput => "user_input"@,
        PendingKindTag::ToolCallBlocked => "tool_call_blocked"@,
        PendingKindTag::BudgetLimit => "budget_limit"@,
    }
}

impl PendingKindTag {
    /// The text of this tag.
    pub fn as_str(&self) -> (text: &'static str)
        ensures
            text@ == pending_tag_text(*self),
    {
        proof {
            reveal_strlit("user_text");
            reveal_strlit("user_input");
            reveal_strlit("tool_call_blocked");
            reveal_strlit("budget_limit");
        }
        match self {
            PendingKindTag::UserText => "user_text",
            PendingKindTag::UserInput => "user_input",
            PendingKindTag::ToolCallBlocked => "tool_call_blocked",
            PendingKindTag::BudgetLimit => "budget_limit",
        }
    }

    /// Reads a stored tag; an unknown tag reads as plain user text.
    pub fn parse(text: &str) -> (tag: Self)
        ensures
            tag == if text@ == "user_input"@ {
                PendingKindTag::UserInput
            } else if text@ == "tool_call_blocked"@ {
                PendingKindTag::ToolCallBlocked
            } else if text@ == "budget_limit"@ {
                PendingKindTag::BudgetLimit
            } else {
                PendingKindTag::UserText
            },
    {
        if text_equals(text, "user_input") {
            PendingKindTag::UserInput
        } else if text_equals(text, "tool_call_blocked") {
            PendingKindTag::ToolCallBlocked
        } else if text_equals(text, "budget_limit") {
            PendingKindTag::BudgetLimit
        } else {
            PendingKindTag::UserText
        }
    }
}

/// Reading back the tag a kind is stored under gives that tag.
pub proof fn lemma_pending_tag_round_trip(tag: PendingKindTag)
    ensures
        (if pending_tag_text(tag) == "user_input"@ {
            PendingKindTag::UserInput
        } else if pending_tag_text(tag) == "tool_call_blocked"@ {
            PendingKindTag::ToolCallBlocked
        } else if pending_tag_text(tag) == "budget_limit"@ {
            PendingKindTag::BudgetLimit
        } else {
            PendingKindTag::UserText
        }) == tag,
{
    reveal_strlit("user_text");
    reveal_strlit("user_input");
    reveal_strlit("tool_call_blocked");
    reveal_strlit("budget_limit");
    assert("user_text"@ != "user_input"@) by {
        assert("user_text"@[5] != "user_input"@[5]);
    }
    assert("user_text"@.len() != "tool_call_blocked"@.len());
    assert("user_text"@.len() != "budget_limit"@.len());
    assert("user_input"@.len() != "tool_call_blocked"@.len());
    assert("user_input"@.len() != "budget_limit"@.len());
    assert("tool_call_blocked"@.len() != "budget_limit"@.len());
}

} // verus!
