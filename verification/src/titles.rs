//! Session title lifecycle: the title state machine and the retry schedule
//! of model-generated titles.

use vstd::prelude::*;
use vstd::string::StrSliceExecFns;

use crate::runtime::{title_retry_delay, ServerRuntime, MAX_TITLE_RETRIES};
use crate::session_state::SessionSummary;

verus! {

/// Who settled a final title.
#[derive(Debug, Clone, Copy, PartialEq, Eq, Structural)]
pub enum SessionTitleFinalSource {
    ModelGenerated,
    User,
}

/// Where a session's display title stands.
#[derive(Debug, Clone, Copy, PartialEq, Eq, Structural)]
pub enum SessionTitleState {
    Unset,
    Provisional,
    Generating,
    Final(SessionTitleFinalSource),
}

/// Whether a title state still wants a model-generated title.
pub open spec fn wants_final_title(state: SessionTitleState) -> bool {
    state == SessionTitleState::Unset || state == SessionTitleState::Generating
}

/// Whether the post-turn fallback should schedule a title generation:
/// the title is still unset or generating.
pub fn needs_final_title(state: SessionTitleState) -> (needed: bool)
    ensures
        needed == wants_final_title(state),
{
    match state {
        SessionTitleState::Unset | SessionTitleState::Generating => true,
        _ => false,
    }
}

/// Whether the first turn should wait for a title: the title is not final
/// yet and there is user input to title the session after.
pub fn title_wanted_before_first_turn(state: SessionTitleState, user_input: &str) -> (wanted: bool)
    ensures
        wanted == (!(state is Final) && user_input@.len() > 0),
{
    let is_final = match state {
        SessionTitleState::Final(_) => true,
        _ => false,
    };
    !is_final && user_input.unicode_len() > 0
}

/// `after` is `before` with only the title, its state and the update time
/// possibly changed.
pub open spec fn same_but_title(before: SessionSummary, after: SessionSummary) -> bool {
    &&& after.session_id == before.session_id
    &&& after.model == before.model
    &&& after.model_binding_id == before.model_binding_id
    &&& after.reasoning_effort_selection == before.reasoning_effort_selection
    &&& after.permission_preset == before.permission_preset
    &&& after.effective_context_window == before.effective_context_window
    &&& after.cwd == before.cwd
    &&& after.ephemeral == before.ephemeral
    &&& after.last_activity_at == before.last_activity_at
    &&& after.total_input_tokens == before.total_input_tokens
    &&& after.total_output_tokens == before.total_output_tokens
    &&& after.total_tokens == before.total_tokens
    &&& after.total_cache_creation_tokens == before.total_cache_creation_tokens
    &&& after.total_cache_read_tokens == before.total_cache_read_tokens
    &&& after.last_query_total_tokens == before.last_query_total_tokens
}

/// The summary after marking it as generating its title at `now`: only an
/// unset, untitled session moves.
pub open spec fn marked_generating(s: SessionSummary, now: i64) -> SessionSummary {
    if s.title_state == SessionTitleState::Unset && s.title is None {
        SessionSummary { title_state: SessionTitleState::Generating, updated_at: now, ..s }
    } else {
        s
    }
}

/// The summary after a failed generation at `now`: a final title stays,
/// anything else goes back to unset without a title.
pub open spec fn reset_after_failure(s: SessionSummary, now: i64) -> SessionSummary {
    if s.title_state is Final {
        s
    } else {
        SessionSummary { title: None, title_state: SessionTitleState::Unset, updated_at: now, ..s }
    }
}

/// Marks an untitled session as generating its title. Only a session whose
/// title state is unset and which has no title moves; the result says
/// whether it did (and the update then needs persisting and announcing).
pub fn mark_title_generating(summary: &mut SessionSummary, now: i64) -> (changed: bool)
    ensures
        changed == (old(summary).title_state == SessionTitleState::Unset && old(summary).title is None),
        changed ==> final(summary).title_state == SessionTitleState::Generating
            && final(summary).title is None
            && final(summary).updated_at == now
            && same_but_title(*old(summary), *final(summary)),
        !changed ==> *final(summary) == *old(summary),
        *final(summary) == marked_generating(*old(summary), now),
{
    if summary.title_state != SessionTitleState::Unset || summary.title.is_some() {
        return false;
    }
    summary.title_state = SessionTitleState::Generating;
    summary.updated_at = now;
    true
}

/// After every title attempt failed: a session whose title is not final
/// drops back to no title, state unset; a final title is left alone. The
/// result says whether the summary changed.
pub fn reset_title_after_generation_failure(summary: &mut SessionSummary, now: i64) -> (changed: bool)
    ensures
        changed == !(old(summary).title_state is Final),
        changed ==> final(summary).title_state == SessionTitleState::Unset
            && final(summary).title is None
            && final(summary).updated_at == now
            && same_but_title(*old(summary), *final(summary)),
        !changed ==> *final(summary) == *old(summary),
        *final(summary) == reset_after_failure(*old(summary), now),
{
    if let SessionTitleState::Final(_) = summary.title_state {
        return false;
    }
    summary.title = None;
    summary.title_state = SessionTitleState::Unset;
    summary.updated_at = now;
    true
}

/// What one title attempt came to.
#[derive(Debug, Clone, Copy, PartialEq, Eq, Structural)]
pub enum TitleAttemptOutcome {
    /// The session's title was already final when the attempt began.
    AlreadyFinal,
    /// The model call failed or returned no usable title.
    Failed,
    /// The model produced a title.
    Generated,
}

/// What the title generator does after an attempt.
#[derive(Debug, Clone, Copy, PartialEq, Eq, Structural)]
pub enum TitleRetryAction {
    /// Nothing more to do.
    Stop,
    /// Store the generated title as final.
    ApplyGeneratedTitle,
    /// Wait this many seconds, then make the next attempt.
    RetryAfter(u64),
    /// Every attempt failed: reset the title to unset.
    ResetTitle,
}

/// The action after attempt `attempt` (counted from 1) ended in `outcome`.
pub open spec fn title_retry_action(attempt: nat, outcome: TitleAttemptOutcome) -> TitleRetryAction {
    match outcome {
        TitleAttemptOutcome::AlreadyFinal => TitleRetryAction::Stop,
        TitleAttemptOutcome::Generated => TitleRetryAction::ApplyGeneratedTitle,
        TitleAttemptOutcome::Failed => if attempt < MAX_TITLE_RETRIES {
            TitleRetryAction::RetryAfter(title_retry_delay(attempt) as u64)
        } else {
            TitleRetryAction::ResetTitle
        },
    }
}

/// Decides what follows title attempt `attempt` (counted from 1, at most
/// the retry limit).
pub fn next_title_action(attempt: usize, outcome: TitleAttemptOutcome) -> (action: TitleRetryAction)
    requires
        1 <= attempt <= MAX_TITLE_RETRIES,
    ensures
        action == title_retry_action(attempt as nat, outcome),
{
    match outcome {
        TitleAttemptOutcome::AlreadyFinal => TitleRetryAction::Stop,
        TitleAttemptOutcome::Generated => TitleRetryAction::ApplyGeneratedTitle,
        TitleAttemptOutcome::Failed => {
            if attempt < MAX_TITLE_RETRIES {
                TitleRetryAction::RetryAfter(ServerRuntime::title_retry_backoff_secs(attempt))
            } else {
                TitleRetryAction::ResetTitle
            }
        },
    }
}

/// A title generation that fails puts an untitled session back where it
/// was, but for the time of the failure; a final title survives both the
/// attempt and its failure.
pub proof fn lemma_failed_generation_restores_the_title_state(s: SessionSummary, started: i64, failed: i64)
    ensures
        s.title_state == SessionTitleState::Unset && s.title is None
            ==> reset_after_failure(marked_generating(s, started), failed) == (SessionSummary { updated_at: failed, ..s }),
        s.title_state is Final ==> reset_after_failure(marked_generating(s, started), failed) == s,
{
}

} // verus!
