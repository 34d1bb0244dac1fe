//! Session goals: how internal goal states read on the wire, what a client
//! may edit, and the decisions around a goal's lifecycle (interrupting
//! its continuation turn, recording status changes, scheduling follow-up
//! work).

use vstd::prelude::*;

use crate::message_edit::error_is;
use crate::protocol::{ProtocolError, ProtocolErrorCode};
use crate::text::{concat_text, text_equals};

verus! {

fn protocol_error(code: ProtocolErrorCode, message: &str) -> (error: ProtocolError)
    ensures
        error.code == code,
        error.message@ == message@,
{
    ProtocolError { code, message: message.to_string() }
}

/// Where a goal stands inside the server.
#[derive(Debug, Clone, Copy, PartialEq, Eq, Structural)]
pub enum GoalStatus {
    Active,
    Paused,
    Blocked,
    BudgetLimited,
    Completed,
    Failed,
    Canceled,
    Cleared,
}

/// The status of a goal on the wire.
#[derive(Debug, Clone, Copy, PartialEq, Eq, Structural)]
pub enum NativeGoalStatus {
    Active,
    Paused,
    Blocked,
    BudgetLimited,
    Completed,
    Failed,
    Canceled,
}

/// A goal status a client asks for in the legacy protocol.
#[derive(Debug, Clone, Copy, PartialEq, Eq, Structural)]
pub enum ThreadGoalStatus {
    Active,
    Paused,
    Complete,
}

/// The wire status of an internal status: a cleared goal reads as
/// canceled.
pub open spec fn native_status_of(status: GoalStatus) -> NativeGoalStatus {
    match status {
        GoalStatus::Active => NativeGoalStatus::Active,
        GoalStatus::Paused => NativeGoalStatus::Paused,
        GoalStatus::Blocked => NativeGoalStatus::Blocked,
        GoalStatus::BudgetLimited => NativeGoalStatus::BudgetLimited,
        GoalStatus::Completed => NativeGoalStatus::Completed,
        GoalStatus::Failed => NativeGoalStatus::Failed,
        GoalStatus::Canceled | GoalStatus::Cleared => NativeGoalStatus::Canceled,
    }
}

/// The wire status of an internal status.
pub fn native_goal_status(status: GoalStatus) -> (native: NativeGoalStatus)
    ensures
        native == native_status_of(status),
{
    match status {
        GoalStatus::Active => NativeGoalStatus::Active,
        GoalStatus::Paused => NativeGoalStatus::Paused,
        GoalStatus::Blocked => NativeGoalStatus::Blocked,
        GoalStatus::BudgetLimited => NativeGoalStatus::BudgetLimited,
        GoalStatus::Completed => NativeGoalStatus::Completed,
        GoalStatus::Failed => NativeGoalStatus::Failed,
        GoalStatus::Canceled | GoalStatus::Cleared => NativeGoalStatus::Canceled,
    }
}

/// A goal as the server holds it, as far as the wire view reads it.
pub struct Goal {
    pub durable_goal_id: String,
    pub session_id: u128,
    pub prompt: String,
    pub status: GoalStatus,
    pub max_tokens: Option<i64>,
    pub tokens_used: i64,
    pub duration_seconds: u64,
    pub progress_summary: Option<String>,
    pub created_at: i64,
    pub updated_at: i64,
}

/// A goal on the wire.
pub struct NativeGoal {
    pub id: String,
    pub session_id: u128,
    pub objective: String,
    pub status: NativeGoalStatus,
    pub token_budget: Option<u64>,
    pub tokens_used: u64,
    pub time_used_seconds: u64,
    pub progress_summary: Option<String>,
    pub created_at: i64,
    pub updated_at: i64,
}

/// The wire id of a goal: `goal_` followed by its durable id.
pub open spec fn native_goal_id(durable_goal_id: Seq<char>) -> Seq<char> {
    "goal_"@ + durable_goal_id
}

/// The wire view of a goal: its wire id and status; a budget that is not
/// a count reads as none, a usage that is not a count as zero.
pub fn native_goal_from_internal(goal: &Goal) -> (native: NativeGoal)
    ensures
        native.id@ == native_goal_id(goal.durable_goal_id@),
        native.session_id == goal.session_id,
        native.objective@ == goal.prompt@,
        native.status == native_status_of(goal.status),
        native.token_budget == match goal.max_tokens {
            Some(b) => if b >= 0 { Some(b as u64) } else { None },
            None => None,
        },
        native.tokens_used == if goal.tokens_used >= 0 { goal.tokens_used as u64 } else { 0 },
        native.time_used_seconds == goal.duration_seconds,
        native.progress_summary == goal.progress_summary,
        native.created_at == goal.created_at,
        native.updated_at == goal.updated_at,
{
    proof {
        reveal_strlit("goal_");
    }
    let token_budget = match goal.max_tokens {
        Some(b) => {
            if b >= 0 {
                Some(b as u64)
            } else {
                None
            }
        },
        None => None,
    };
    let tokens_used = if goal.tokens_used >= 0 {
        goal.tokens_used as u64
    } else {
        0
    };
    NativeGoal {
        id: concat_text("goal_", goal.durable_goal_id.as_str()),
        session_id: goal.session_id,
        objective: goal.prompt.clone(),
        status: native_goal_status(goal.status),
        token_budget,
        tokens_used,
        time_used_seconds: goal.duration_seconds,
        progress_summary: goal.progress_summary.clone(),
        created_at: goal.created_at,
        updated_at: goal.updated_at,
    }
}

/// Whether a goal shows in `session/goal/read`: a cleared goal does not.
pub fn goal_is_readable(status: GoalStatus) -> (readable: bool)
    ensures
        readable == (status != GoalStatus::Cleared),
{
    status != GoalStatus::Cleared
}

/// The name of a wire status, as refusals quote it.
pub open spec fn native_status_name(status: NativeGoalStatus) -> Seq<char> {
    match status {
        NativeGoalStatus::Active => "Active"@,
        NativeGoalStatus::Paused => "Paused"@,
        NativeGoalStatus::Blocked => "Blocked"@,
        NativeGoalStatus::BudgetLimited => "BudgetLimited"@,
        NativeGoalStatus::Completed => "Completed"@,
        NativeGoalStatus::Failed => "Failed"@,
        NativeGoalStatus::Canceled => "Canceled"@,
    }
}

/// The status a client's goal patch asks for: only active, paused and
/// completed are the client's to set; the others are computed by the
/// system and refused.
pub fn editable_goal_status(requested: Option<NativeGoalStatus>) -> (status: Result<Option<ThreadGoalStatus>, ProtocolError>)
    ensures
        match status {
            Ok(s) => s == match requested {
                None => None,
                Some(NativeGoalStatus::Active) => Some(ThreadGoalStatus::Active),
                Some(NativeGoalStatus::Paused) => Some(ThreadGoalStatus::Paused),
                Some(NativeGoalStatus::Completed) => Some(ThreadGoalStatus::Complete),
                Some(_) => None,
            } && !(requested matches Some(r) && r != NativeGoalStatus::Active && r != NativeGoalStatus::Paused
                && r != NativeGoalStatus::Completed),
            Err(e) => requested matches Some(r) && r != NativeGoalStatus::Active && r != NativeGoalStatus::Paused
                && r != NativeGoalStatus::Completed && error_is(
                    e,
                    ProtocolErrorCode::InvalidParams,
                    "goal status "@ + native_status_name(r) + " is system-computed, not editable"@,
                ),
        },
{
    match requested {
        None => Ok(None),
        Some(NativeGoalStatus::Active) => Ok(Some(ThreadGoalStatus::Active)),
        Some(NativeGoalStatus::Paused) => Ok(Some(ThreadGoalStatus::Paused)),
        Some(NativeGoalStatus::Completed) => Ok(Some(ThreadGoalStatus::Complete)),
        Some(other) => {
            proof {
                reveal_strlit("goal status ");
                reveal_strlit(" is system-computed, not editable");
                reveal_strlit("Blocked");
                reveal_strlit("BudgetLimited");
                reveal_strlit("Failed");
                reveal_strlit("Canceled");
            }
            let name = match other {
                NativeGoalStatus::Blocked => "Blocked",
                NativeGoalStatus::BudgetLimited => "BudgetLimited",
                NativeGoalStatus::Failed => "Failed",
                _ => "Canceled",
            };
            let head = concat_text("goal status ", name);
            Err(ProtocolError {
                code: ProtocolErrorCode::InvalidParams,
                message: concat_text(head.as_str(), " is system-computed, not editable"),
            })
        },
    }
}

/// A patch field: absent, explicitly null, or a value.
pub enum PatchField<T> {
    Missing,
    Null,
    Value(T),
}

/// The token budget a goal patch sets: absent leaves it, a value sets it;
/// clearing it is refused.
pub fn patched_token_budget(field: PatchField<u64>) -> (budget: Result<Option<u64>, ProtocolError>)
    ensures
        match field {
            PatchField::Missing => budget == Ok::<Option<u64>, ProtocolError>(None),
            PatchField::Value(b) => budget == Ok::<Option<u64>, ProtocolError>(Some(b)),
            PatchField::Null => budget matches Err(e) && error_is(
                e,
                ProtocolErrorCode::InvalidParams,
                "clearing the token budget is not in the vocabulary"@,
            ),
        },
{
    match field {
        PatchField::Missing => Ok(None),
        PatchField::Null => {
            proof {
                reveal_strlit("clearing the token budget is not in the vocabulary");
            }
            Err(protocol_error(ProtocolErrorCode::InvalidParams, "clearing the token budget is not in the vocabulary"))
        },
        PatchField::Value(b) => Ok(Some(b)),
    }
}

/// Checks a goal update against the session's current goal (by wire id):
/// there must be one, and it must be the one the client expected when it
/// names one.
pub fn check_goal_update_target(
    current_goal_id: Option<&str>,
    expected_goal_id: Option<&str>,
) -> (checked: Result<(), ProtocolError>)
    ensures
        match checked {
            Ok(_) => current_goal_id matches Some(c) && (expected_goal_id matches Some(e) ==> e@ == c@),
            Err(e) => match current_goal_id {
                None => error_is(e, ProtocolErrorCode::GoalNotFound, "no active goal to update"@),
                Some(c) => expected_goal_id matches Some(x) && x@ != c@
                    && error_is(e, ProtocolErrorCode::GoalNotFound, "goal was replaced; refetch before editing"@),
            },
        },
{
    let current = match current_goal_id {
        None => {
            proof {
                reveal_strlit("no active goal to update");
            }
            return Err(protocol_error(ProtocolErrorCode::GoalNotFound, "no active goal to update"));
        },
        Some(c) => c,
    };
    if let Some(expected) = expected_goal_id {
        if !text_equals(expected, current) {
            proof {
                reveal_strlit("goal was replaced; refetch before editing");
            }
            return Err(protocol_error(ProtocolErrorCode::GoalNotFound, "goal was replaced; refetch before editing"));
        }
    }
    Ok(())
}

/// The goal lifecycle methods of the native protocol.
#[derive(Debug, Clone, Copy, PartialEq, Eq, Structural)]
pub enum GoalTransition {
    Pause,
    Resume,
    Complete,
    Cancel,
    Clear,
}

/// The method a client sends to request a transition.
pub open spec fn transition_method(t: GoalTransition) -> Seq<char> {
    match t {
        GoalTransition::Pause => "session/goal/pause"@,
        GoalTransition::Resume => "session/goal/resume"@,
        GoalTransition::Complete => "session/goal/complete"@,
        GoalTransition::Cancel => "session/goal/cancel"@,
        GoalTransition::Clear => "session/goal/clear"@,
    }
}

impl GoalTransition {
    /// The method a client sends to request this transition.
    pub fn method(&self) -> (method: &'static str)
        ensures
            method@ == transition_method(*self),
    {
        match self {
            GoalTransition::Pause => "session/goal/pause",
            GoalTransition::Resume => "session/goal/resume",
            GoalTransition::Complete => "session/goal/complete",
            GoalTransition::Cancel => "session/goal/cancel",
            GoalTransition::Clear => "session/goal/clear",
        }
    }
}

/// Each transition method names its own transition: the transition a
/// method yields is the one requested by that very method, and every
/// transition is reached by its method. So distinct methods yield distinct
/// transitions (completing is never cancelling).
pub proof fn lemma_each_method_names_its_own_transition(method: Seq<char>, t: GoalTransition)
    ensures
        transition_of(method) == Some(t) ==> transition_method(t) == method,
        transition_of(transition_method(t)) == Some(t),
{
    reveal_strlit("session/goal/pause");
    reveal_strlit("session/goal/resume");
    reveal_strlit("session/goal/complete");
    reveal_strlit("session/goal/cancel");
    reveal_strlit("session/goal/clear");
    let pause = "session/goal/pause"@;
    let resume = "session/goal/resume"@;
    let complete = "session/goal/complete"@;
    let cancel = "session/goal/cancel"@;
    let clear = "session/goal/clear"@;
    assert(pause[13] == 'p' && resume[13] == 'r' && complete[13] == 'c' && cancel[13] == 'c' && clear[13] == 'c');
    assert(complete[14] == 'o' && cancel[14] == 'a' && clear[14] == 'l');
    assert(pause != resume && pause != complete && pause != cancel && pause != clear);
    assert(resume != complete && resume != cancel && resume != clear);
    assert(complete != cancel && complete != clear && cancel != clear);
}

/// The transition a method names.
pub open spec fn transition_of(method: Seq<char>) -> Option<GoalTransition> {
    if method == "session/goal/pause"@ {
        Some(GoalTransition::Pause)
    } else if method == "session/goal/resume"@ {
        Some(GoalTransition::Resume)
    } else if method == "session/goal/complete"@ {
        Some(GoalTransition::Complete)
    } else if method == "session/goal/cancel"@ {
        Some(GoalTransition::Cancel)
    } else if method == "session/goal/clear"@ {
        Some(GoalTransition::Clear)
    } else {
        None
    }
}

/// Checks a goal transition request: the session must have a goal, the
/// client must name it (by wire id), and the method must be a transition.
pub fn goal_transition(
    method: &str,
    current_durable_goal_id: Option<&str>,
    expected_goal_id: &str,
) -> (transition: Result<GoalTransition, ProtocolError>)
    ensures
        match transition {
            Ok(t) => current_durable_goal_id matches Some(c) && expected_goal_id@ == native_goal_id(c@)
                && transition_of(method@) == Some(t),
            Err(e) => match current_durable_goal_id {
                None => error_is(e, ProtocolErrorCode::GoalNotFound, "session has no goal"@),
                Some(c) => if expected_goal_id@ != native_goal_id(c@) {
                    error_is(e, ProtocolErrorCode::GoalNotFound,
                        "expected goal id does not match the session's current goal"@)
                } else {
                    transition_of(method@) is None && e.code == ProtocolErrorCode::InvalidParams
                        && e.message@ == "unknown goal transition method '"@ + method@ + "'"@
                },
            },
        },
{
    proof {
        reveal_strlit("session has no goal");
        reveal_strlit("goal_");
        reveal_strlit("expected goal id does not match the session's current goal");
        reveal_strlit("session/goal/pause");
        reveal_strlit("session/goal/resume");
        reveal_strlit("session/goal/complete");
        reveal_strlit("session/goal/cancel");
        reveal_strlit("session/goal/clear");
        reveal_strlit("unknown goal transition method '");
        reveal_strlit("'");
    }
    let current = match current_durable_goal_id {
        None => return Err(protocol_error(ProtocolErrorCode::GoalNotFound, "session has no goal")),
        Some(c) => c,
    };
    let wire_id = concat_text("goal_", current);
    if !text_equals(expected_goal_id, wire_id.as_str()) {
        return Err(protocol_error(
            ProtocolErrorCode::GoalNotFound,
            "expected goal id does not match the session's current goal",
        ));
    }
    if text_equals(method, "session/goal/pause") {
        Ok(GoalTransition::Pause)
    } else if text_equals(method, "session/goal/resume") {
        Ok(GoalTransition::Resume)
    } else if text_equals(method, "session/goal/complete") {
        Ok(GoalTransition::Complete)
    } else if text_equals(method, "session/goal/cancel") {
        Ok(GoalTransition::Cancel)
    } else if text_equals(method, "session/goal/clear") {
        Ok(GoalTransition::Clear)
    } else {
        let head = concat_text("unknown goal transition method '", method);
        Err(ProtocolError { code: ProtocolErrorCode::InvalidParams, message: concat_text(head.as_str(), "'") })
    }
}

/// Whether a goal in this status has a continuation turn that may be
/// running.
pub open spec fn runs_continuation(status: GoalStatus) -> bool {
    status == GoalStatus::Active || status == GoalStatus::BudgetLimited
}

/// Whether a `goal/set` only asks to pause: the status requested is paused
/// and neither objective nor budget changes.
pub fn only_pauses(requested: Option<ThreadGoalStatus>, objective_given: bool, budget_given: bool) -> (pause_only: bool)
    ensures
        pause_only == (requested == Some(ThreadGoalStatus::Paused) && !objective_given && !budget_given),
{
    requested == Some(ThreadGoalStatus::Paused) && !objective_given && !budget_given
}

/// Whether a pause request stops a budget-limited goal's wrap-up instead
/// of changing the goal: the goal is budget-limited and the request only
/// pauses.
pub fn stops_budget_limited_wrap_up(previous: Option<GoalStatus>, pause_only: bool) -> (stops: bool)
    ensures
        stops == (previous == Some(GoalStatus::BudgetLimited) && pause_only),
{
    previous == Some(GoalStatus::BudgetLimited) && pause_only
}

/// Whether setting a goal interrupts its continuation turn: the goal was
/// running one and no longer continues.
pub fn set_interrupts_continuation(previous: Option<GoalStatus>, updated: GoalStatus) -> (interrupts: bool)
    ensures
        interrupts == (previous matches Some(p) && runs_continuation(p) && updated != GoalStatus::Active),
{
    let was_running = match previous {
        Some(p) => p == GoalStatus::Active || p == GoalStatus::BudgetLimited,
        None => false,
    };
    was_running && updated != GoalStatus::Active
}

/// Whether pausing interrupts the continuation turn: the goal was running
/// one.
pub fn pause_interrupts_continuation(previous: Option<GoalStatus>) -> (interrupts: bool)
    ensures
        interrupts == (previous matches Some(p) && runs_continuation(p)),
{
    match previous {
        Some(p) => p == GoalStatus::Active || p == GoalStatus::BudgetLimited,
        None => false,
    }
}

/// The status change a `goal/set` records, if any: from the previous
/// status (active for a new goal) to the new one, when they differ.
pub fn status_change_record(previous: Option<GoalStatus>, updated: GoalStatus) -> (record: Option<(GoalStatus, GoalStatus)>)
    ensures
        record == {
            let base = match previous {
                Some(p) => p,
                None => GoalStatus::Active,
            };
            if base != updated { Some((base, updated)) } else { None }
        },
{
    let base = match previous {
        Some(p) => p,
        None => GoalStatus::Active,
    };
    if base != updated {
        Some((base, updated))
    } else {
        None
    }
}

/// The follow-up work after a goal changed.
#[derive(Debug, Clone, Copy, PartialEq, Eq, Structural)]
pub struct GoalFollowup {
    /// Start title generation from the objective.
    pub title: bool,
    /// Run title generation on a task of its own (a turn holds the actor).
    pub title_in_background: bool,
    /// Start the goal's continuation turn now.
    pub start_continuation: bool,
}

/// Plans the follow-up work: titles run in the background while a turn
/// runs, and a continuation turn starts only for a continuing goal on an
/// idle session.
pub fn goal_followup(has_title_input: bool, should_continue: bool, turn_active: bool) -> (followup: GoalFollowup)
    ensures
        followup.title == has_title_input,
        followup.title_in_background == (has_title_input && turn_active),
        followup.start_continuation == (should_continue && !turn_active),
{
    GoalFollowup {
        title: has_title_input,
        title_in_background: has_title_input && turn_active,
        start_continuation: should_continue && !turn_active,
    }
}

/// Whether a goal keeps going on its own after a change: it is active.
pub fn goal_continues(status: GoalStatus) -> (continues: bool)
    ensures
        continues == (status == GoalStatus::Active),
{
    status == GoalStatus::Active
}

} // verus!
