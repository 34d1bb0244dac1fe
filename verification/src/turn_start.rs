//! Admitting a `turn/start`: input checks, model binding validation, the
//! start-or-queue decision, the metadata a queued turn carries, and the
//! error codes of input resolution failures.

use vstd::prelude::*;

use crate::items::{render_input_items, rendered_items, InputItem};
use crate::message_edit::error_is;
use crate::protocol::{ProtocolError, ProtocolErrorCode};
use crate::queue::{PendingInputItem, PendingInputKind};
use crate::text::{concat_text, text_equals};

verus! {

fn protocol_error(code: ProtocolErrorCode, message: &str) -> (error: ProtocolError)
    ensures
        error.code == code,
        error.message@ == message@,
{
    ProtocolError { code, message: message.to_string() }
}

/// The display line of a turn's input; empty input, or input that renders
/// to nothing, is refused.
pub fn turn_display_input(input: &Vec<InputItem>) -> (display: Result<String, ProtocolError>)
    ensures
        match display {
            Ok(d) => input@.len() > 0 && d@ == rendered_items(input@) && d@.len() > 0,
            Err(e) => (input@.len() == 0 || rendered_items(input@).len() == 0)
                && error_is(e, ProtocolErrorCode::EmptyInput, "turn input is empty"@),
        },
{
    proof {
        reveal_strlit("turn input is empty");
    }
    if input.len() == 0 {
        return Err(protocol_error(ProtocolErrorCode::EmptyInput, "turn input is empty"));
    }
    match render_input_items(input) {
        Some(d) => Ok(d),
        None => Err(protocol_error(ProtocolErrorCode::EmptyInput, "turn input is empty")),
    }
}

/// Why skill resolution of a turn's input failed.
#[derive(Debug, Clone, Copy, PartialEq, Eq, Structural)]
pub enum SkillErrorKind {
    SkillNotFound,
    AmbiguousSkillName,
    SkillDisabled,
    SkillParseFailed,
    SkillRootUnavailable,
    DuplicateSkillId,
}

/// The error code of a skill resolution failure: the client named a skill
/// it cannot use (invalid params), or the server's skills are broken
/// (internal error).
pub fn skill_error_code(kind: SkillErrorKind) -> (code: ProtocolErrorCode)
    ensures
        code == match kind {
            SkillErrorKind::SkillNotFound | SkillErrorKind::AmbiguousSkillName | SkillErrorKind::SkillDisabled
                => ProtocolErrorCode::InvalidParams,
            _ => ProtocolErrorCode::InternalError,
        },
{
    match kind {
        SkillErrorKind::SkillNotFound | SkillErrorKind::AmbiguousSkillName | SkillErrorKind::SkillDisabled => {
            ProtocolErrorCode::InvalidParams
        },
        _ => ProtocolErrorCode::InternalError,
    }
}

/// A configured model binding.
pub struct ModelBindingConfig {
    pub id: String,
    pub enabled: bool,
    pub provider: String,
}

/// A configured provider, as far as binding validation reads it.
pub struct ProviderEntry {
    pub id: String,
    pub enabled: bool,
}

/// The first binding with id `id`.
pub open spec fn binding_index(bindings: Seq<ModelBindingConfig>, id: Seq<char>) -> Option<int> {
    if exists|i: int| 0 <= i < bindings.len() && bindings[i].id@ == id {
        Some(choose|i: int| 0 <= i < bindings.len() && bindings[i].id@ == id
            && forall|k: int| 0 <= k < i ==> bindings[k].id@ != id)
    } else {
        None
    }
}

/// The first provider with id `id`.
pub open spec fn provider_index(providers: Seq<ProviderEntry>, id: Seq<char>) -> Option<int> {
    if exists|i: int| 0 <= i < providers.len() && providers[i].id@ == id {
        Some(choose|i: int| 0 <= i < providers.len() && providers[i].id@ == id
            && forall|k: int| 0 <= k < i ==> providers[k].id@ != id)
    } else {
        None
    }
}

/// Why a requested model binding cannot serve a turn, if it cannot: it
/// does not exist, is disabled, or its provider is missing or disabled.
pub open spec fn binding_problem(
    binding_id: Seq<char>,
    bindings: Seq<ModelBindingConfig>,
    providers: Seq<ProviderEntry>,
) -> Option<Seq<char>> {
    let quoted = "model binding `"@ + binding_id + "`"@;
    match binding_index(bindings, binding_id) {
        None => Some(quoted + " does not exist"@),
        Some(b) => if !bindings[b].enabled {
            Some(quoted + " is disabled"@)
        } else {
            let provider = bindings[b].provider@;
            match provider_index(providers, provider) {
                None => Some(quoted + " references missing provider `"@ + provider + "`"@),
                Some(p) => if !providers[p].enabled {
                    Some(quoted + " references disabled provider `"@ + provider + "`"@)
                } else {
                    None
                },
            }
        },
    }
}

fn find_binding(bindings: &Vec<ModelBindingConfig>, id: &str) -> (index: Option<usize>)
    ensures
        match index {
            Some(i) => binding_index(bindings@, id@) == Some(i as int) && i < bindings@.len(),
            None => binding_index(bindings@, id@) is None,
        },
{
    let mut i: usize = 0;
    while i < bindings.len()
        invariant
            i <= bindings@.len(),
            forall|k: int| 0 <= k < i ==> bindings@[k].id@ != id@,
        decreases bindings.len() - i,
    {
        if text_equals(bindings[i].id.as_str(), id) {
            proof {
                let c = choose|c: int| 0 <= c < bindings@.len() && bindings@[c].id@ == id@
                    && forall|k: int| 0 <= k < c ==> bindings@[k].id@ != id@;
                assert(c == i) by {
                    if c < i {
                        assert(bindings@[c].id@ != id@);
                    }
                    if c > i {
                        assert(bindings@[i as int].id@ == id@);
                    }
                }
            }
            return Some(i);
        }
        i += 1;
    }
    None
}

fn find_provider(providers: &Vec<ProviderEntry>, id: &str) -> (index: Option<usize>)
    ensures
        match index {
            Some(i) => provider_index(providers@, id@) == Some(i as int) && i < providers@.len(),
            None => provider_index(providers@, id@) is None,
        },
{
    let mut i: usize = 0;
    while i < providers.len()
        invariant
            i <= providers@.len(),
            forall|k: int| 0 <= k < i ==> providers@[k].id@ != id@,
        decreases providers.len() - i,
    {
        if text_equals(providers[i].id.as_str(), id) {
            proof {
                let c = choose|c: int| 0 <= c < providers@.len() && providers@[c].id@ == id@
                    && forall|k: int| 0 <= k < c ==> providers@[k].id@ != id@;
                assert(c == i) by {
                    if c < i {
                        assert(providers@[c].id@ != id@);
                    }
                    if c > i {
                        assert(providers@[i as int].id@ == id@);
                    }
                }
            }
            return Some(i);
        }
        i += 1;
    }
    None
}

/// Checks that a requested model binding can serve a turn; the message
/// says why not.
pub fn model_binding_error(
    binding_id: &str,
    bindings: &Vec<ModelBindingConfig>,
    providers: &Vec<ProviderEntry>,
) -> (error: Option<String>)
    ensures
        match error {
            Some(m) => binding_problem(binding_id@, bindings@, providers@) == Some(m@),
            None => binding_problem(binding_id@, bindings@, providers@) is None,
        },
{
    proof {
        reveal_strlit("model binding `");
        reveal_strlit("`");
        reveal_strlit(" does not exist");
        reveal_strlit(" is disabled");
        reveal_strlit(" references missing provider `");
        reveal_strlit(" references disabled provider `");
    }
    let opened = concat_text("model binding `", binding_id);
    let quoted = concat_text(opened.as_str(), "`");
    match find_binding(bindings, binding_id) {
        None => Some(concat_text(quoted.as_str(), " does not exist")),
        Some(b) => {
            if !bindings[b].enabled {
                return Some(concat_text(quoted.as_str(), " is disabled"));
            }
            let provider = bindings[b].provider.as_str();
            match find_provider(providers, provider) {
                None => {
                    let head = concat_text(quoted.as_str(), " references missing provider `");
                    let named = concat_text(head.as_str(), provider);
                    Some(concat_text(named.as_str(), "`"))
                },
                Some(p) => {
                    if !providers[p].enabled {
                        let head = concat_text(quoted.as_str(), " references disabled provider `");
                        let named = concat_text(head.as_str(), provider);
                        Some(concat_text(named.as_str(), "`"))
                    } else {
                        None
                    }
                },
            }
        },
    }
}

/// Whether a session with a running turn queues or refuses a new one.
#[derive(Debug, Clone, Copy, PartialEq, Eq, Structural)]
pub enum TurnStartQueuePolicy {
    /// Legacy `turn/start`: queue behind the running turn.
    Queue,
    /// Native `turn/start`: refuse while a turn runs.
    RejectActive,
}

/// What becomes of a `turn/start`.
#[derive(Debug, Clone, Copy, PartialEq, Eq, Structural)]
pub enum TurnAdmission {
    /// Start a new turn now.
    Start,
    /// Queue the input behind the running turn.
    Queue { active_turn_id: u128 },
    /// Refuse: a turn is already running.
    RejectBusy,
}

/// Decides a `turn/start` from the running turn, if any, and the policy.
pub fn turn_admission(policy: TurnStartQueuePolicy, active_turn_id: Option<u128>) -> (admission: TurnAdmission)
    ensures
        admission == match active_turn_id {
            None => TurnAdmission::Start,
            Some(t) => if policy == TurnStartQueuePolicy::RejectActive {
                TurnAdmission::RejectBusy
            } else {
                TurnAdmission::Queue { active_turn_id: t }
            },
        },
{
    match active_turn_id {
        None => TurnAdmission::Start,
        Some(t) => {
            if policy == TurnStartQueuePolicy::RejectActive {
                TurnAdmission::RejectBusy
            } else {
                TurnAdmission::Queue { active_turn_id: t }
            }
        },
    }
}

/// The refusal of a `turn/start` on a busy session.
pub fn turn_already_running_error() -> (error: ProtocolError)
    ensures
        error_is(error, ProtocolErrorCode::TurnAlreadyRunning, "session already has an active prompt turn"@),
{
    proof {
        reveal_strlit("session already has an active prompt turn");
    }
    protocol_error(ProtocolErrorCode::TurnAlreadyRunning, "session already has an active prompt turn")
}

/// The collaboration mode of a turn.
#[derive(Debug, Clone, Copy, PartialEq, Eq, Structural)]
pub enum CollaborationMode {
    Build,
    Plan,
}

/// What a queued turn remembers of its request: the collaboration mode
/// unless it is the default build mode, and the model and binding it was
/// queued with.
pub struct PendingTurnMetadata {
    pub collaboration_mode: Option<CollaborationMode>,
    pub model_binding_id: Option<String>,
    pub model: Option<String>,
}

/// The metadata of a queued turn, or `None` when there is nothing to
/// remember.
pub fn pending_turn_metadata(
    collaboration_mode: CollaborationMode,
    model: Option<String>,
    model_binding_id: Option<String>,
) -> (metadata: Option<PendingTurnMetadata>)
    ensures
        match metadata {
            Some(m) => {
                &&& m.collaboration_mode == if collaboration_mode == CollaborationMode::Build {
                    None
                } else {
                    Some(collaboration_mode)
                }
                &&& m.model == model
                &&& m.model_binding_id == model_binding_id
                &&& (m.collaboration_mode is Some || m.model is Some || m.model_binding_id is Some)
            },
            None => collaboration_mode == CollaborationMode::Build && model is None && model_binding_id is None,
        },
{
    let mode = if collaboration_mode == CollaborationMode::Build {
        None
    } else {
        Some(collaboration_mode)
    };
    if mode.is_none() && model.is_none() && model_binding_id.is_none() {
        return None;
    }
    Some(PendingTurnMetadata { collaboration_mode: mode, model_binding_id, model })
}

/// The requested value, or the session's when none was requested.
pub fn requested_or_session(requested: Option<String>, session: &Option<String>) -> (chosen: Option<String>)
    ensures
        chosen == match requested {
            Some(r) => Some(r),
            None => *session,
        },
{
    match requested {
        Some(r) => Some(r),
        None => session.clone(),
    }
}

/// A change of working directory a turn asks for: the old and new
/// directory when the requested one differs from the session's.
pub fn cwd_change(requested_cwd: &Option<String>, session_cwd: &String) -> (change: Option<(String, String)>)
    ensures
        match change {
            Some((old_cwd, new_cwd)) => requested_cwd matches Some(c) && c@ != session_cwd@
                && old_cwd@ == session_cwd@ && new_cwd@ == c@,
            None => requested_cwd matches Some(c) ==> c@ == session_cwd@,
        },
{
    match requested_cwd {
        Some(c) => {
            if text_equals(c.as_str(), session_cwd.as_str()) {
                None
            } else {
                Some((session_cwd.clone(), c.clone()))
            }
        },
        None => None,
    }
}

/// The answer to a `turn/start` that was queued behind the running turn;
/// the queued input is pending.
#[derive(Debug, Clone, Copy, PartialEq, Eq, Structural)]
pub struct QueuedTurnStart {
    pub active_turn_id: u128,
    pub queued_input_id: u128,
    /// When the input was accepted, in seconds since the epoch.
    pub accepted_at: i64,
}

/// Queues the input of a `turn/start` behind the running turn: appends it,
/// as user input with its display and prompt text and its metadata (the
/// serialized [`PendingTurnMetadata`], if any), to the end of the
/// session's turn queue, and answers that it was queued.
pub fn enqueue_turn_start(
    queue: &mut Vec<PendingInputItem>,
    active_turn_id: u128,
    queued_input_id: u128,
    input: Vec<InputItem>,
    display_text: String,
    prompt_text: String,
    metadata: Option<String>,
    now: i64,
) -> (answer: QueuedTurnStart)
    ensures
        final(queue)@ == old(queue)@.push(PendingInputItem {
            id: queued_input_id,
            kind: PendingInputKind::UserInput { input, display_text, prompt_text },
            metadata,
            created_at: now,
        }),
        answer == (QueuedTurnStart { active_turn_id, queued_input_id, accepted_at: now }),
{
    queue.push(PendingInputItem {
        id: queued_input_id,
        kind: PendingInputKind::UserInput { input, display_text, prompt_text },
        metadata,
        created_at: now,
    });
    QueuedTurnStart { active_turn_id, queued_input_id, accepted_at: now }
}

} // verus!
