//! How a failed turn is reported, and what runs after a turn merged.

use vstd::prelude::*;

verus! {

/// The kinds of agent failure a turn can end with.
#[derive(Debug, Clone, Copy, PartialEq, Eq, Structural)]
pub enum AgentErrorKind {
    /// The model provider failed.
    Provider,
    /// The turn made more model requests than allowed.
    MaxTurnsExceeded,
    /// The context no longer fits the model.
    ContextTooLong,
    /// The turn was aborted.
    Aborted,
}

/// An agent failure as the turn reports it: its kind, its message, and,
/// for a provider failure, the provider's own error code and recovery
/// hint when it gave them.
pub struct AgentFailure {
    pub kind: AgentErrorKind,
    pub message: String,
    pub provider_error_code: Option<String>,
    pub recovery_hint: Option<String>,
}

/// Why a turn failed, when the failure has a reason of its own.
#[derive(Debug, Clone, Copy, PartialEq, Eq, Structural)]
pub enum TurnFailureReason {
    MaxTurnRequests,
}

/// The failure reason of a turn: only exceeding the request limit has one.
pub fn turn_failure_reason_from_error(kind: AgentErrorKind) -> (reason: Option<TurnFailureReason>)
    ensures
        reason == if kind == AgentErrorKind::MaxTurnsExceeded {
            Some(TurnFailureReason::MaxTurnRequests)
        } else {
            None
        },
{
    match kind {
        AgentErrorKind::MaxTurnsExceeded => Some(TurnFailureReason::MaxTurnRequests),
        _ => None,
    }
}

/// The error a failed turn reports.
pub struct TurnErrorPayload {
    pub code: String,
    pub message: String,
    pub recovery_hint: Option<String>,
}

/// The error code of a failure: a provider failure carries the provider's
/// code (or a generic one), the others a fixed code.
pub open spec fn failure_code(failure: AgentFailure) -> Seq<char> {
    match failure.kind {
        AgentErrorKind::Provider => match failure.provider_error_code {
            Some(c) => c@,
            None => "PROVIDER_ERROR"@,
        },
        AgentErrorKind::MaxTurnsExceeded => "MAX_TURNS_EXCEEDED"@,
        AgentErrorKind::ContextTooLong => "CONTEXT_TOO_LONG"@,
        AgentErrorKind::Aborted => "ABORTED"@,
    }
}

/// The error a failed turn reports: its code, its message, and the
/// provider's recovery hint for a provider failure.
pub fn turn_error_payload_from_error(failure: &AgentFailure) -> (payload: TurnErrorPayload)
    ensures
        payload.code@ == failure_code(*failure),
        payload.message@ == failure.message@,
        payload.recovery_hint == if failure.kind == AgentErrorKind::Provider {
            failure.recovery_hint
        } else {
            None
        },
{
    proof {
        reveal_strlit("PROVIDER_ERROR");
        reveal_strlit("MAX_TURNS_EXCEEDED");
        reveal_strlit("CONTEXT_TOO_LONG");
        reveal_strlit("ABORTED");
    }
    let code = match failure.kind {
        AgentErrorKind::Provider => match &failure.provider_error_code {
            Some(c) => c.clone(),
            None => "PROVIDER_ERROR".to_string(),
        },
        AgentErrorKind::MaxTurnsExceeded => "MAX_TURNS_EXCEEDED".to_string(),
        AgentErrorKind::ContextTooLong => "CONTEXT_TOO_LONG".to_string(),
        AgentErrorKind::Aborted => "ABORTED".to_string(),
    };
    let recovery_hint = match failure.kind {
        AgentErrorKind::Provider => failure.recovery_hint.clone(),
        _ => None,
    };
    TurnErrorPayload { code, message: failure.message.clone(), recovery_hint }
}

/// The steps of the work scheduled after a turn merged, in the order they
/// are tried.
#[derive(Debug, Clone, Copy, PartialEq, Eq, Structural)]
pub enum PostTurnStep {
    /// Schedule the final title generation.
    ScheduleTitle,
    /// Chain a follow-up turn queued by the finished turn.
    ChainFollowup,
    /// Start the next turn from the pending queue.
    SpawnFromQueue,
    /// Feed a child agent's mailbox into user turns.
    DrainChildMailbox,
    /// Continue the session's goal.
    ContinueGoal,
    /// Nothing left to do.
    Done,
}

/// The step after `step`, given whether it started work (`took`; for the
/// child mailbox, whether the session is a child able to take a turn) and
/// whether the goal should auto-continue: the first step that starts work
/// ends the sequence.
pub fn next_post_turn_step(step: PostTurnStep, took: bool, auto_continue_goal: bool) -> (next: PostTurnStep)
    ensures
        next == match step {
            PostTurnStep::ScheduleTitle => PostTurnStep::ChainFollowup,
            PostTurnStep::ChainFollowup => if took { PostTurnStep::Done } else { PostTurnStep::SpawnFromQueue },
            PostTurnStep::SpawnFromQueue => if took { PostTurnStep::Done } else { PostTurnStep::DrainChildMailbox },
            PostTurnStep::DrainChildMailbox => if took {
                PostTurnStep::Done
            } else if auto_continue_goal {
                PostTurnStep::ContinueGoal
            } else {
                PostTurnStep::Done
            },
            _ => PostTurnStep::Done,
        },
{
    match step {
        PostTurnStep::ScheduleTitle => PostTurnStep::ChainFollowup,
        PostTurnStep::ChainFollowup => {
            if took {
                PostTurnStep::Done
            } else {
                PostTurnStep::SpawnFromQueue
            }
        },
        PostTurnStep::SpawnFromQueue => {
            if took {
                PostTurnStep::Done
            } else {
                PostTurnStep::DrainChildMailbox
            }
        },
        PostTurnStep::DrainChildMailbox => {
            if took {
                PostTurnStep::Done
            } else if auto_continue_goal {
                PostTurnStep::ContinueGoal
            } else {
                PostTurnStep::Done
            }
        },
        _ => PostTurnStep::Done,
    }
}

} // verus!
