//! Per-session actor state and the turn working copy checked out of it.
//!
//! A running turn owns a copy of the session state; durable conversation
//! state returns to the actor only through [`SessionActorState::merge_turn_working_set`],
//! which keeps the session-plane settings (config, permission preset,
//! model, effort, context window, title) that landed on the actor while
//! the turn ran. Shared handles (event stream, pending queues, file-read
//! ledger, runtime context) are shared by reference between the two and
//! are not part of this state.

use vstd::prelude::*;

use crate::approval::ApprovalGrantCache;
use crate::context_budget::SessionConfig;
use crate::grants::copy_opt_text;
use crate::titles::SessionTitleState;

verus! {

/// Permission preset of a session.
#[derive(Debug, Clone, Copy, PartialEq, Eq, Structural)]
pub enum PermissionPreset {
    ReadOnly,
    Default,
    AutoApprove,
    FullAccess,
}

/// Session metadata held by the actor (the fields the runtime reads).
pub struct SessionSummary {
    pub session_id: u128,
    pub title: Option<String>,
    pub title_state: SessionTitleState,
    pub model: Option<String>,
    pub model_binding_id: Option<String>,
    pub reasoning_effort_selection: Option<String>,
    pub permission_preset: Option<PermissionPreset>,
    pub effective_context_window: Option<u64>,
    pub cwd: String,
    pub ephemeral: bool,
    pub updated_at: i64,
    pub last_activity_at: i64,
    pub total_input_tokens: u64,
    pub total_output_tokens: u64,
    pub total_tokens: u64,
    pub total_cache_creation_tokens: u64,
    pub total_cache_read_tokens: u64,
    pub last_query_total_tokens: u64,
}

impl SessionSummary {
    /// A copy of this summary.
    pub fn snapshot(&self) -> (copy: Self)
        ensures
            copy == *self,
    {
        SessionSummary {
            session_id: self.session_id,
            title: copy_opt_text(&self.title),
            title_state: self.title_state,
            model: copy_opt_text(&self.model),
            model_binding_id: copy_opt_text(&self.model_binding_id),
            reasoning_effort_selection: copy_opt_text(&self.reasoning_effort_selection),
            permission_preset: self.permission_preset,
            effective_context_window: self.effective_context_window,
            cwd: self.cwd.clone(),
            ephemeral: self.ephemeral,
            updated_at: self.updated_at,
            last_activity_at: self.last_activity_at,
            total_input_tokens: self.total_input_tokens,
            total_output_tokens: self.total_output_tokens,
            total_tokens: self.total_tokens,
            total_cache_creation_tokens: self.total_cache_creation_tokens,
            total_cache_read_tokens: self.total_cache_read_tokens,
            last_query_total_tokens: self.last_query_total_tokens,
        }
    }
}

/// The durable rollout record header of a session.
pub struct SessionRecord {
    pub title: Option<String>,
    pub title_state: SessionTitleState,
    pub permission_preset: Option<PermissionPreset>,
    pub model: Option<String>,
    pub model_binding_id: Option<String>,
    pub reasoning_effort_selection: Option<String>,
    pub updated_at: i64,
}

impl SessionRecord {
    /// A copy of this record.
    pub fn snapshot(&self) -> (copy: Self)
        ensures
            copy == *self,
    {
        SessionRecord {
            title: copy_opt_text(&self.title),
            title_state: self.title_state,
            permission_preset: self.permission_preset,
            model: copy_opt_text(&self.model),
            model_binding_id: copy_opt_text(&self.model_binding_id),
            reasoning_effort_selection: copy_opt_text(&self.reasoning_effort_selection),
            updated_at: self.updated_at,
        }
    }
}

/// Token totals and configuration of the core conversation engine.
pub struct CoreSession {
    pub config: SessionConfig,
    pub total_input_tokens: u64,
    pub total_output_tokens: u64,
    pub total_tokens: u64,
    pub total_cache_creation_tokens: u64,
    pub total_cache_read_tokens: u64,
}

impl CoreSession {
    /// A copy of this core state.
    pub fn snapshot(&self) -> (copy: Self)
        ensures
            copy == *self,
    {
        CoreSession {
            config: self.config.snapshot(),
            total_input_tokens: self.total_input_tokens,
            total_output_tokens: self.total_output_tokens,
            total_tokens: self.total_tokens,
            total_cache_creation_tokens: self.total_cache_creation_tokens,
            total_cache_read_tokens: self.total_cache_read_tokens,
        }
    }
}

/// Kind of a turn.
#[derive(Debug, Clone, Copy, PartialEq, Eq, Structural)]
pub enum TurnKind {
    Regular,
    Review,
    ManualCompaction,
    Other,
}

/// Lifecycle status of a turn.
#[derive(Debug, Clone, Copy, PartialEq, Eq, Structural)]
pub enum TurnStatus {
    Pending,
    Running,
    WaitingApproval,
    Completed,
    Interrupted,
    Failed,
}

/// Token usage of one turn.
#[derive(Debug, Clone, Copy, PartialEq, Eq, Structural)]
pub struct TurnUsage {
    pub input_tokens: u64,
    pub output_tokens: u64,
}

/// Runtime metadata of one turn.
pub struct TurnMetadata {
    pub turn_id: u128,
    pub session_id: u128,
    pub sequence: u64,
    pub kind: TurnKind,
    pub status: TurnStatus,
    pub model: String,
    pub request_model: String,
    pub model_binding_id: Option<String>,
    pub reasoning_effort_selection: Option<String>,
    pub started_at: i64,
    pub completed_at: Option<i64>,
    pub usage: Option<TurnUsage>,
}

impl TurnMetadata {
    /// A copy of this turn's metadata.
    pub fn snapshot(&self) -> (copy: Self)
        ensures
            copy == *self,
    {
        TurnMetadata {
            turn_id: self.turn_id,
            session_id: self.session_id,
            sequence: self.sequence,
            kind: self.kind,
            status: self.status,
            model: self.model.clone(),
            request_model: self.request_model.clone(),
            model_binding_id: copy_opt_text(&self.model_binding_id),
            reasoning_effort_selection: copy_opt_text(&self.reasoning_effort_selection),
            started_at: self.started_at,
            completed_at: self.completed_at,
            usage: self.usage,
        }
    }
}

/// A copy of an optional turn.
pub fn copy_opt_turn(turn: &Option<TurnMetadata>) -> (copy: Option<TurnMetadata>)
    ensures
        copy == *turn,
{
    match turn {
        Some(t) => Some(t.snapshot()),
        None => None,
    }
}

/// A copy of a list of turns.
pub fn copy_turns(turns: &Vec<TurnMetadata>) -> (copy: Vec<TurnMetadata>)
    ensures
        copy@ == turns@,
{
    let mut copy: Vec<TurnMetadata> = Vec::new();
    let mut i: usize = 0;
    while i < turns.len()
        invariant
            i <= turns.len(),
            copy@ == turns@.subrange(0, i as int),
        decreases turns.len() - i,
    {
        copy.push(turns[i].snapshot());
        proof {
            assert(turns@.subrange(0, i + 1) =~= turns@.subrange(0, i as int).push(turns@[i as int]));
        }
        i += 1;
    }
    proof {
        assert(turns@.subrange(0, turns@.len() as int) =~= turns@);
    }
    copy
}

/// One transcript entry, identified by its turn and item.
#[derive(Debug, Clone, Copy, PartialEq, Eq, Structural)]
pub struct TranscriptEntry {
    pub turn_id: u128,
    pub item_id: u128,
}

/// A copy of a list of transcript entries.
pub fn copy_entries(entries: &Vec<TranscriptEntry>) -> (copy: Vec<TranscriptEntry>)
    ensures
        copy@ == entries@,
{
    let mut copy: Vec<TranscriptEntry> = Vec::new();
    let mut i: usize = 0;
    while i < entries.len()
        invariant
            i <= entries.len(),
            copy@ == entries@.subrange(0, i as int),
        decreases entries.len() - i,
    {
        copy.push(entries[i]);
        proof {
            assert(entries@.subrange(0, i + 1) =~= entries@.subrange(0, i as int).push(entries@[i as int]));
        }
        i += 1;
    }
    proof {
        assert(entries@.subrange(0, entries@.len() as int) =~= entries@);
    }
    copy
}

/// The latest compaction snapshot recorded in the rollout.
#[derive(Debug, Clone, Copy, PartialEq, Eq, Structural)]
pub struct CompactionMark {
    pub turn_id: u128,
    pub item_id: u128,
}

/// Durable per-session state owned by the session actor.
pub struct SessionActorState {
    pub record: Option<SessionRecord>,
    pub summary: SessionSummary,
    pub config: SessionConfig,
    pub core: CoreSession,
    pub active_turn: Option<TurnMetadata>,
    pub latest_turn: Option<TurnMetadata>,
    pub loaded_item_count: u64,
    pub history_items: Vec<TranscriptEntry>,
    pub persisted_turn_items: Vec<TranscriptEntry>,
    pub latest_compaction_snapshot: Option<CompactionMark>,
    pub turn_records_by_id: Vec<TurnMetadata>,
    pub max_turns: Option<usize>,
    pub next_item_seq: u64,
    pub first_user_input: Option<String>,
    pub session_approval_cache: ApprovalGrantCache,
    pub turn_approval_cache: ApprovalGrantCache,
    pub session_context_recorded: bool,
}

/// Turn-owned session state for one in-flight execution.
pub struct TurnWorkingSet {
    pub state: SessionActorState,
}

/// Two states agree: every field is equal, the grant caches by their grants.
pub open spec fn same_state(a: SessionActorState, b: SessionActorState) -> bool {
    &&& a.record == b.record
    &&& a.summary == b.summary
    &&& a.config == b.config
    &&& a.core == b.core
    &&& a.active_turn == b.active_turn
    &&& a.latest_turn == b.latest_turn
    &&& a.loaded_item_count == b.loaded_item_count
    &&& a.history_items@ == b.history_items@
    &&& a.persisted_turn_items@ == b.persisted_turn_items@
    &&& a.latest_compaction_snapshot == b.latest_compaction_snapshot
    &&& a.turn_records_by_id@ == b.turn_records_by_id@
    &&& a.max_turns == b.max_turns
    &&& a.next_item_seq == b.next_item_seq
    &&& a.first_user_input == b.first_user_input
    &&& a.session_approval_cache@ == b.session_approval_cache@
    &&& a.turn_approval_cache@ == b.turn_approval_cache@
    &&& a.session_context_recorded == b.session_context_recorded
}

/// `preferred` when it is set, else `fallback`.
pub open spec fn or_else<T>(preferred: Option<T>, fallback: Option<T>) -> Option<T> {
    if preferred is Some {
        preferred
    } else {
        fallback
    }
}

/// The summary after a merge: the turn's summary, with the session-plane
/// settings that are set on the actor kept from the actor.
pub open spec fn merged_summary(actor: SessionSummary, turn: SessionSummary) -> SessionSummary {
    SessionSummary {
        permission_preset: or_else(actor.permission_preset, turn.permission_preset),
        model: if actor.model is Some { actor.model } else { turn.model },
        model_binding_id: if actor.model is Some || actor.model_binding_id is Some {
            actor.model_binding_id
        } else {
            turn.model_binding_id
        },
        reasoning_effort_selection: or_else(actor.reasoning_effort_selection, turn.reasoning_effort_selection),
        effective_context_window: or_else(actor.effective_context_window, turn.effective_context_window),
        title: if actor.title is Some { actor.title } else { turn.title },
        title_state: if actor.title is Some { actor.title_state } else { turn.title_state },
        ..turn
    }
}

/// The record after a merge: with both present, the turn's record with the
/// actor's title state, its title when set, its settings when set and the
/// later of the two update times; otherwise whichever is present, the
/// turn's first.
pub open spec fn merged_record(actor: Option<SessionRecord>, turn: Option<SessionRecord>) -> Option<SessionRecord> {
    match (actor, turn) {
        (Some(a), Some(t)) => Some(SessionRecord {
            title: or_else(a.title, t.title),
            title_state: a.title_state,
            permission_preset: or_else(a.permission_preset, t.permission_preset),
            model: if a.model is Some { a.model } else { t.model },
            model_binding_id: if a.model is Some || a.model_binding_id is Some {
                a.model_binding_id
            } else {
                t.model_binding_id
            },
            reasoning_effort_selection: or_else(a.reasoning_effort_selection, t.reasoning_effort_selection),
            updated_at: if t.updated_at >= a.updated_at { t.updated_at } else { a.updated_at },
        }),
        (a, t) => or_else(t, a),
    }
}

/// The actor state after merging back a turn's working copy.
pub open spec fn merged_state(actor: SessionActorState, turn: SessionActorState) -> SessionActorState {
    SessionActorState {
        record: merged_record(actor.record, turn.record),
        summary: merged_summary(actor.summary, turn.summary),
        config: actor.config,
        core: CoreSession { config: actor.core.config, ..turn.core },
        active_turn: turn.active_turn,
        latest_turn: turn.latest_turn,
        loaded_item_count: turn.loaded_item_count,
        history_items: turn.history_items,
        persisted_turn_items: turn.persisted_turn_items,
        latest_compaction_snapshot: or_else(turn.latest_compaction_snapshot, actor.latest_compaction_snapshot),
        turn_records_by_id: turn.turn_records_by_id,
        max_turns: actor.max_turns,
        next_item_seq: turn.next_item_seq,
        first_user_input: or_else(turn.first_user_input, actor.first_user_input),
        session_approval_cache: turn.session_approval_cache,
        turn_approval_cache: turn.turn_approval_cache,
        session_context_recorded: turn.session_context_recorded,
    }
}

/// The active turn after a claim of turn `turn_id`, and whether the claim
/// won: it wins only while that turn is still the active one, and then
/// clears it.
pub open spec fn claim_active_turn(active: Option<TurnMetadata>, turn_id: u128) -> (Option<TurnMetadata>, bool) {
    match active {
        Some(t) => if t.turn_id == turn_id { (None, true) } else { (active, false) },
        None => (None, false),
    }
}

/// A turn's end is announced by exactly one of the paths that race to end
/// it (the interrupt and the task running the turn): of two claims of the
/// same turn, in either order, the first wins when the turn is active and
/// the second never does; when it is not active, neither wins.
pub proof fn lemma_one_claimer_per_turn(active: Option<TurnMetadata>, turn_id: u128)
    ensures
        ({
            let (after_first, first) = claim_active_turn(active, turn_id);
            let (_, second) = claim_active_turn(after_first, turn_id);
            &&& first == (active matches Some(t) && t.turn_id == turn_id)
            &&& !second
        }),
{
}

impl SessionActorState {
    /// Claims the end of turn `turn_id`: when it is still the active turn,
    /// clears it and returns `true` (the caller then announces the turn's
    /// end); otherwise changes nothing and returns `false` (another path
    /// already claimed it).
    pub fn clear_active_turn_if_matches(&mut self, turn_id: u128) -> (claimed: bool)
        ensures
            (final(self).active_turn, claimed) == claim_active_turn(old(self).active_turn, turn_id),
            final(self).latest_turn == old(self).latest_turn,
            final(self).summary == old(self).summary,
            final(self).record == old(self).record,
            final(self).history_items == old(self).history_items,
            final(self).persisted_turn_items == old(self).persisted_turn_items,
            final(self).next_item_seq == old(self).next_item_seq,
            final(self).session_approval_cache == old(self).session_approval_cache,
            final(self).turn_approval_cache == old(self).turn_approval_cache,
    {
        let matches = match &self.active_turn {
            Some(t) => t.turn_id == turn_id,
            None => false,
        };
        if matches {
            self.active_turn = None;
        }
        matches
    }

    /// The grant caches are well formed.
    pub open spec fn wf(&self) -> bool {
        self.session_approval_cache.wf() && self.turn_approval_cache.wf()
    }

    /// Builds a working copy for turn execution without removing actor state.
    pub fn checkout_turn_working_set(&self, turn: &TurnMetadata) -> (working: TurnWorkingSet)
        requires
            self.wf(),
        ensures
            working.state.wf(),
            same_state(working.state, *self),
    {
        let record = match &self.record {
            Some(r) => Some(r.snapshot()),
            None => None,
        };
        TurnWorkingSet {
            state: SessionActorState {
                record,
                summary: self.summary.snapshot(),
                config: self.config.snapshot(),
                core: self.core.snapshot(),
                active_turn: copy_opt_turn(&self.active_turn),
                latest_turn: copy_opt_turn(&self.latest_turn),
                loaded_item_count: self.loaded_item_count,
                history_items: copy_entries(&self.history_items),
                persisted_turn_items: copy_entries(&self.persisted_turn_items),
                latest_compaction_snapshot: self.latest_compaction_snapshot,
                turn_records_by_id: copy_turns(&self.turn_records_by_id),
                max_turns: self.max_turns,
                next_item_seq: self.next_item_seq,
                first_user_input: copy_opt_text(&self.first_user_input),
                session_approval_cache: self.session_approval_cache.snapshot(),
                turn_approval_cache: self.turn_approval_cache.snapshot(),
                session_context_recorded: self.session_context_recorded,
            },
        }
    }

    /// Installs turn-owned fields from a completed working copy.
    ///
    /// Session-plane config/settings that may have landed via persist-first
    /// updates during the turn are preserved on the actor.
    pub fn merge_turn_working_set(&mut self, working: TurnWorkingSet)
        ensures
            *final(self) == merged_state(*old(self), working.state),
    {
        let working = working.state;
        let summary = merge_summary(&self.summary, working.summary);
        let record = merge_record(&self.record, working.record);
        let core_config = self.core.config.snapshot();

        self.core = working.core;
        self.core.config = core_config;
        self.summary = summary;
        self.record = record;
        self.active_turn = working.active_turn;
        self.latest_turn = working.latest_turn;
        self.history_items = working.history_items;
        self.persisted_turn_items = working.persisted_turn_items;
        self.next_item_seq = working.next_item_seq;
        self.loaded_item_count = working.loaded_item_count;
        self.session_approval_cache = working.session_approval_cache;
        self.turn_approval_cache = working.turn_approval_cache;
        if working.latest_compaction_snapshot.is_some() {
            self.latest_compaction_snapshot = working.latest_compaction_snapshot;
        }
        self.session_context_recorded = working.session_context_recorded;
        self.turn_records_by_id = working.turn_records_by_id;
        if working.first_user_input.is_some() {
            self.first_user_input = working.first_user_input;
        }
    }
}

/// The turn's summary with the actor's session-plane settings kept where
/// the actor has them.
fn merge_summary(actor: &SessionSummary, turn: SessionSummary) -> (merged: SessionSummary)
    ensures
        merged == merged_summary(*actor, turn),
{
    let mut merged = turn;
    if actor.permission_preset.is_some() {
        merged.permission_preset = actor.permission_preset;
    }
    if actor.model.is_some() {
        merged.model = copy_opt_text(&actor.model);
        merged.model_binding_id = copy_opt_text(&actor.model_binding_id);
    } else if actor.model_binding_id.is_some() {
        merged.model_binding_id = copy_opt_text(&actor.model_binding_id);
    }
    if actor.reasoning_effort_selection.is_some() {
        merged.reasoning_effort_selection = copy_opt_text(&actor.reasoning_effort_selection);
    }
    if actor.effective_context_window.is_some() {
        merged.effective_context_window = actor.effective_context_window;
    }
    if actor.title.is_some() {
        merged.title = copy_opt_text(&actor.title);
        merged.title_state = actor.title_state;
    }
    merged
}

/// The merged session record (see [`merged_record`]).
fn merge_record(actor: &Option<SessionRecord>, turn: Option<SessionRecord>) -> (merged: Option<SessionRecord>)
    ensures
        merged == merged_record(*actor, turn),
{
    match (actor, turn) {
        (Some(actor_record), Some(mut turn_record)) => {
            if actor_record.title.is_some() {
                turn_record.title = copy_opt_text(&actor_record.title);
            }
            turn_record.title_state = actor_record.title_state;
            if actor_record.permission_preset.is_some() {
                turn_record.permission_preset = actor_record.permission_preset;
            }
            if actor_record.model.is_some() {
                turn_record.model = copy_opt_text(&actor_record.model);
                turn_record.model_binding_id = copy_opt_text(&actor_record.model_binding_id);
            } else if actor_record.model_binding_id.is_some() {
                turn_record.model_binding_id = copy_opt_text(&actor_record.model_binding_id);
            }
            if actor_record.reasoning_effort_selection.is_some() {
                turn_record.reasoning_effort_selection = copy_opt_text(&actor_record.reasoning_effort_selection);
            }
            if actor_record.updated_at > turn_record.updated_at {
                turn_record.updated_at = actor_record.updated_at;
            }
            Some(turn_record)
        },
        (Some(actor_record), None) => Some(actor_record.snapshot()),
        (None, turn_record) => turn_record,
    }
}


/// Merging back a working copy that the turn left untouched leaves the
/// actor's state as it was.
pub proof fn lemma_merge_of_untouched_checkout_keeps_state(actor: SessionActorState, working: SessionActorState)
    requires
        same_state(working, actor),
    ensures
        same_state(merged_state(actor, working), actor),
{
    let m = merged_state(actor, working);
    match (actor.record, working.record) {
        (Some(a), Some(t)) => {
            assert(m.record == Some(a));
        },
        _ => {},
    }
    assert(m.summary == actor.summary);
    assert(m.core == actor.core);
}

/// Session-plane settings that are set on the actor survive a merge, and
/// the session configuration is always the actor's.
pub proof fn lemma_merge_keeps_session_plane_settings(actor: SessionActorState, working: SessionActorState)
    ensures
        merged_state(actor, working).config == actor.config,
        merged_state(actor, working).core.config == actor.core.config,
        actor.summary.permission_preset is Some
            ==> merged_state(actor, working).summary.permission_preset == actor.summary.permission_preset,
        actor.summary.model is Some ==> merged_state(actor, working).summary.model == actor.summary.model
            && merged_state(actor, working).summary.model_binding_id == actor.summary.model_binding_id,
        actor.summary.reasoning_effort_selection is Some
            ==> merged_state(actor, working).summary.reasoning_effort_selection
            == actor.summary.reasoning_effort_selection,
        actor.summary.effective_context_window is Some
            ==> merged_state(actor, working).summary.effective_context_window
            == actor.summary.effective_context_window,
        actor.summary.title is Some ==> merged_state(actor, working).summary.title == actor.summary.title
            && merged_state(actor, working).summary.title_state == actor.summary.title_state,
{
}

/// A compaction the turn made, and the first user input it recorded, come
/// back from the working copy; what the turn did not set stays the actor's.
pub proof fn lemma_merge_keeps_the_newest_compaction(actor: SessionActorState, working: SessionActorState)
    ensures
        working.latest_compaction_snapshot is Some
            ==> merged_state(actor, working).latest_compaction_snapshot == working.latest_compaction_snapshot,
        working.latest_compaction_snapshot is None
            ==> merged_state(actor, working).latest_compaction_snapshot == actor.latest_compaction_snapshot,
        working.first_user_input is Some
            ==> merged_state(actor, working).first_user_input == working.first_user_input,
        working.first_user_input is None
            ==> merged_state(actor, working).first_user_input == actor.first_user_input,
{
}

/// Conversation progress made by the turn (transcript, item sequence,
/// turns, grants, token totals) comes back from the working copy.
pub proof fn lemma_merge_takes_turn_progress(actor: SessionActorState, working: SessionActorState)
    ensures
        merged_state(actor, working).history_items == working.history_items,
        merged_state(actor, working).persisted_turn_items == working.persisted_turn_items,
        merged_state(actor, working).next_item_seq == working.next_item_seq,
        merged_state(actor, working).loaded_item_count == working.loaded_item_count,
        merged_state(actor, working).active_turn == working.active_turn,
        merged_state(actor, working).latest_turn == working.latest_turn,
        merged_state(actor, working).session_approval_cache == working.session_approval_cache,
        merged_state(actor, working).turn_approval_cache == working.turn_approval_cache,
        merged_state(actor, working).core.total_tokens == working.core.total_tokens,
        merged_state(actor, working).summary.total_tokens == working.summary.total_tokens,
{
}

/// Mutable session fields updated during an active turn without going
/// through the actor; merged into the actor when the turn completes.
pub struct TurnInlineState {
    pub turn_id: u128,
    pub turn_kind: TurnKind,
    pub next_item_seq: u64,
    pub loaded_item_count: u64,
    pub persisted_turn_items: Vec<TranscriptEntry>,
    pub history_items: Vec<TranscriptEntry>,
    pub session_approval_cache: ApprovalGrantCache,
    pub turn_approval_cache: ApprovalGrantCache,
    pub summary: SessionSummary,
    pub active_turn_usage: Option<TurnUsage>,
    pub latest_compaction_snapshot: Option<CompactionMark>,
    pub sandbox_profile: Option<String>,
}

impl TurnInlineState {
    /// Inline state for `turn`, seeded from the actor's state.
    pub fn new(state: &SessionActorState, turn: &TurnMetadata) -> (inline: Self)
        requires
            state.wf(),
        ensures
            inline.turn_id == turn.turn_id,
            inline.turn_kind == turn.kind,
            inline.next_item_seq == state.next_item_seq,
            inline.loaded_item_count == state.loaded_item_count,
            inline.persisted_turn_items@ == Seq::<TranscriptEntry>::empty(),
            inline.history_items@ == Seq::<TranscriptEntry>::empty(),
            inline.session_approval_cache.wf(),
            inline.turn_approval_cache.wf(),
            inline.session_approval_cache@ == state.session_approval_cache@,
            inline.turn_approval_cache@ == state.turn_approval_cache@,
            inline.summary == state.summary,
            inline.active_turn_usage == match state.active_turn {
                Some(t) => t.usage,
                None => None,
            },
            inline.latest_compaction_snapshot is None,
            inline.sandbox_profile == state.config.sandbox_profile,
    {
        TurnInlineState {
            turn_id: turn.turn_id,
            turn_kind: turn.kind,
            next_item_seq: state.next_item_seq,
            loaded_item_count: state.loaded_item_count,
            persisted_turn_items: Vec::new(),
            history_items: Vec::new(),
            session_approval_cache: state.session_approval_cache.snapshot(),
            turn_approval_cache: state.turn_approval_cache.snapshot(),
            summary: state.summary.snapshot(),
            active_turn_usage: match &state.active_turn {
                Some(t) => t.usage,
                None => None,
            },
            latest_compaction_snapshot: None,
            sandbox_profile: copy_opt_text(&state.config.sandbox_profile),
        }
    }

    /// Allocates the next item sequence number (saturating), counting one
    /// more loaded item.
    pub fn allocate_item_seq(&mut self) -> (item_seq: u64)
        ensures
            item_seq == old(self).next_item_seq,
            final(self).next_item_seq == if old(self).next_item_seq == u64::MAX {
                u64::MAX as int
            } else {
                old(self).next_item_seq + 1
            },
            final(self).loaded_item_count == if old(self).loaded_item_count == u64::MAX {
                u64::MAX as int
            } else {
                old(self).loaded_item_count + 1
            },
            final(self).turn_id == old(self).turn_id,
            final(self).persisted_turn_items == old(self).persisted_turn_items,
            final(self).history_items == old(self).history_items,
    {
        let item_seq = self.next_item_seq;
        self.next_item_seq = self.next_item_seq.saturating_add(1);
        self.loaded_item_count = self.loaded_item_count.saturating_add(1);
        item_seq
    }

    /// Records an item persisted while the turn runs: an item of this turn
    /// joins the turn's transcript, and its history when it has a history
    /// form; an item of another turn is not recorded here.
    pub fn record_item(&mut self, turn_id: u128, item_id: u128, in_history: bool) -> (recorded: bool)
        ensures
            recorded == (old(self).turn_id == turn_id),
            final(self).turn_id == old(self).turn_id,
            final(self).next_item_seq == old(self).next_item_seq,
            final(self).loaded_item_count == old(self).loaded_item_count,
            final(self).persisted_turn_items@ == if recorded {
                old(self).persisted_turn_items@.push(TranscriptEntry { turn_id, item_id })
            } else {
                old(self).persisted_turn_items@
            },
            final(self).history_items@ == if recorded && in_history {
                old(self).history_items@.push(TranscriptEntry { turn_id, item_id })
            } else {
                old(self).history_items@
            },
    {
        if self.turn_id != turn_id {
            return false;
        }
        if in_history {
            self.history_items.push(TranscriptEntry { turn_id, item_id });
        }
        self.persisted_turn_items.push(TranscriptEntry { turn_id, item_id });
        true
    }

    /// Folds this turn's inline progress into the actor state: sequence
    /// counters, appended transcript entries, grant caches, token totals,
    /// the latest compaction snapshot when one was taken, and the active
    /// turn's usage when it is still this turn.
    pub fn merge_into(self, state: &mut SessionActorState)
        ensures
            final(state).next_item_seq == self.next_item_seq,
            final(state).loaded_item_count == self.loaded_item_count,
            final(state).persisted_turn_items@ == old(state).persisted_turn_items@ + self.persisted_turn_items@,
            final(state).history_items@ == old(state).history_items@ + self.history_items@,
            final(state).session_approval_cache == self.session_approval_cache,
            final(state).turn_approval_cache == self.turn_approval_cache,
            final(state).summary == (SessionSummary {
                total_input_tokens: self.summary.total_input_tokens,
                total_output_tokens: self.summary.total_output_tokens,
                total_tokens: self.summary.total_tokens,
                total_cache_creation_tokens: self.summary.total_cache_creation_tokens,
                total_cache_read_tokens: self.summary.total_cache_read_tokens,
                last_query_total_tokens: self.summary.last_query_total_tokens,
                ..old(state).summary
            }),
            final(state).core == (CoreSession {
                total_input_tokens: self.summary.total_input_tokens,
                total_output_tokens: self.summary.total_output_tokens,
                total_tokens: self.summary.total_tokens,
                total_cache_creation_tokens: self.summary.total_cache_creation_tokens,
                total_cache_read_tokens: self.summary.total_cache_read_tokens,
                ..old(state).core
            }),
            final(state).latest_compaction_snapshot == or_else(
                self.latest_compaction_snapshot,
                old(state).latest_compaction_snapshot,
            ),
            final(state).active_turn == match old(state).active_turn {
                Some(t) => if t.turn_id == self.turn_id {
                    Some(TurnMetadata { usage: self.active_turn_usage, ..t })
                } else {
                    Some(t)
                },
                None => None,
            },
            final(state).record == old(state).record,
            final(state).config == old(state).config,
            final(state).first_user_input == old(state).first_user_input,
    {
        state.next_item_seq = self.next_item_seq;
        state.loaded_item_count = self.loaded_item_count;
        let mut persisted = self.persisted_turn_items;
        state.persisted_turn_items.append(&mut persisted);
        let mut history = self.history_items;
        state.history_items.append(&mut history);
        state.session_approval_cache = self.session_approval_cache;
        state.turn_approval_cache = self.turn_approval_cache;
        state.summary.total_input_tokens = self.summary.total_input_tokens;
        state.summary.total_output_tokens = self.summary.total_output_tokens;
        state.summary.total_tokens = self.summary.total_tokens;
        state.summary.total_cache_creation_tokens = self.summary.total_cache_creation_tokens;
        state.summary.total_cache_read_tokens = self.summary.total_cache_read_tokens;
        state.summary.last_query_total_tokens = self.summary.last_query_total_tokens;
        state.core.total_input_tokens = self.summary.total_input_tokens;
        state.core.total_output_tokens = self.summary.total_output_tokens;
        state.core.total_tokens = self.summary.total_tokens;
        state.core.total_cache_creation_tokens = self.summary.total_cache_creation_tokens;
        state.core.total_cache_read_tokens = self.summary.total_cache_read_tokens;
        if self.latest_compaction_snapshot.is_some() {
            state.latest_compaction_snapshot = self.latest_compaction_snapshot;
        }
        let active = state.active_turn.take();
        state.active_turn = match active {
            Some(mut turn) => {
                if turn.turn_id == self.turn_id {
                    turn.usage = self.active_turn_usage;
                }
                Some(turn)
            },
            None => None,
        };
    }
}

} // verus!
