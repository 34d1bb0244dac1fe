//! The turn journal: the items a session's turns persisted, in order.

use vstd::prelude::*;

use crate::session_state::TurnKind;

verus! {

/// The output of a tool: text, or any other JSON value by its JSON text.
pub enum ToolOutput {
    Text(String),
    Json(String),
}

impl ToolOutput {
    /// The text a tool result message carries: the text itself, or the
    /// JSON text of another value.
    pub open spec fn content(self) -> Seq<char> {
        match self {
            ToolOutput::Text(t) => t@,
            ToolOutput::Json(j) => j@,
        }
    }
}

/// One journal item of a turn, as far as the server reads it.
#[allow(inconsistent_fields)]
pub enum TurnItem {
    UserMessage { text: String },
    SteerInput { text: String },
    AgentMessage { text: String },
    Plan { text: String },
    WebSearch { text: String },
    ImageGeneration { text: String },
    ContextCompaction { text: String },
    HookPrompt { text: String },
    Reasoning,
    ToolCall { tool_call_id: String, tool_name: String, input: String },
    ToolResult { tool_call_id: String, output: ToolOutput, is_error: bool },
    CommandExecution {
        tool_call_id: String,
        tool_name: String,
        command: String,
        input: String,
        output: ToolOutput,
        is_error: bool,
    },
    ToolProgress,
    ApprovalRequest,
    ApprovalDecision,
    TurnSummary,
}

/// A persisted journal item with its turn and id; `prompt_visible` says whether the
/// item is part of what the model sees.
pub struct PersistedTurnItem {
    pub turn_id: u128,
    pub turn_kind: TurnKind,
    pub item_id: u128,
    pub prompt_visible: bool,
    pub turn_item: TurnItem,
}

} // verus!
