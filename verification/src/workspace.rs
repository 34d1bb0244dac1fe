//! Reading workspace changes: which view answers each requested scope,
//! and which outputs a deleted rollout leaves without a reference.

use vstd::prelude::*;

use crate::message_edit::error_is;
use crate::protocol::{ProtocolError, ProtocolErrorCode};
use crate::text::text_equals;

verus! {

/// A scope of workspace changes a client asks for.
#[derive(Debug, Clone, Copy, PartialEq, Eq, Structural)]
pub enum WorkspaceChangeScope {
    Branch,
    Uncommitted,
    Turn,
}

/// Where the view of one scope comes from.
#[derive(Debug, Clone, Copy, PartialEq, Eq, Structural)]
pub enum WorkspaceViewSource {
    /// The branch diff against the base branch.
    Branch,
    /// The uncommitted changes.
    Uncommitted,
    /// The changes of one turn.
    Turn { turn_id: u128 },
    /// No turn to show: the view says the turn id is not available.
    TurnUnavailable,
}

/// The source of a scope's view: a turn scope shows the requested turn,
/// else the running one, else the latest one.
pub open spec fn view_source_of(
    scope: WorkspaceChangeScope,
    requested_turn: Option<u128>,
    active_turn: Option<u128>,
    latest_turn: Option<u128>,
) -> WorkspaceViewSource {
    match scope {
        WorkspaceChangeScope::Branch => WorkspaceViewSource::Branch,
        WorkspaceChangeScope::Uncommitted => WorkspaceViewSource::Uncommitted,
        WorkspaceChangeScope::Turn => match requested_turn {
            Some(t) => WorkspaceViewSource::Turn { turn_id: t },
            None => match active_turn {
                Some(t) => WorkspaceViewSource::Turn { turn_id: t },
                None => match latest_turn {
                    Some(t) => WorkspaceViewSource::Turn { turn_id: t },
                    None => WorkspaceViewSource::TurnUnavailable,
                },
            },
        },
    }
}

/// Plans `workspace/changes/read`: one view per requested scope, in
/// order; a request without scopes is refused.
pub fn workspace_view_plan(
    scopes: &Vec<WorkspaceChangeScope>,
    requested_turn: Option<u128>,
    active_turn: Option<u128>,
    latest_turn: Option<u128>,
) -> (plan: Result<Vec<WorkspaceViewSource>, ProtocolError>)
    ensures
        match plan {
            Ok(p) => scopes@.len() > 0 && p@.len() == scopes@.len()
                && forall|i: int| 0 <= i < scopes@.len()
                    ==> #[trigger] p@[i] == view_source_of(scopes@[i], requested_turn, active_turn, latest_turn),
            Err(e) => scopes@.len() == 0 && error_is(
                e,
                ProtocolErrorCode::InvalidParams,
                "workspace/changes/read requires at least one scope"@,
            ),
        },
{
    if scopes.len() == 0 {
        proof {
            reveal_strlit("workspace/changes/read requires at least one scope");
        }
        return Err(ProtocolError {
            code: ProtocolErrorCode::InvalidParams,
            message: "workspace/changes/read requires at least one scope".to_string(),
        });
    }
    let turn = match requested_turn {
        Some(t) => Some(t),
        None => match active_turn {
            Some(t) => Some(t),
            None => latest_turn,
        },
    };
    let mut plan: Vec<WorkspaceViewSource> = Vec::new();
    let mut i: usize = 0;
    while i < scopes.len()
        invariant
            i <= scopes@.len(),
            plan@.len() == i,
            turn == match requested_turn {
                Some(t) => Some(t),
                None => match active_turn {
                    Some(t) => Some(t),
                    None => latest_turn,
                },
            },
            forall|k: int| 0 <= k < i
                ==> #[trigger] plan@[k] == view_source_of(scopes@[k], requested_turn, active_turn, latest_turn),
        decreases scopes.len() - i,
    {
        let source = match scopes[i] {
            WorkspaceChangeScope::Branch => WorkspaceViewSource::Branch,
            WorkspaceChangeScope::Uncommitted => WorkspaceViewSource::Uncommitted,
            WorkspaceChangeScope::Turn => match turn {
                Some(t) => WorkspaceViewSource::Turn { turn_id: t },
                None => WorkspaceViewSource::TurnUnavailable,
            },
        };
        plan.push(source);
        i += 1;
    }
    Ok(plan)
}

/// How a turn's changes are read.
#[derive(Debug, Clone, Copy, PartialEq, Eq, Structural)]
pub enum TurnViewRead {
    /// The turn is running: diff against its live baseline.
    ActiveBaseline,
    /// The turn finished: read its finalized record.
    Finalized,
}

/// A running turn (one with a live baseline) is diffed live; any other is
/// read from its finalized record.
pub fn turn_view_read(has_live_baseline: bool) -> (read: TurnViewRead)
    ensures
        read == if has_live_baseline { TurnViewRead::ActiveBaseline } else { TurnViewRead::Finalized },
{
    if has_live_baseline {
        TurnViewRead::ActiveBaseline
    } else {
        TurnViewRead::Finalized
    }
}

/// Whether `path` is among `paths`.
pub open spec fn mentioned(paths: Seq<String>, path: Seq<char>) -> bool {
    exists|k: int| 0 <= k < paths.len() && paths[k]@ == path
}

fn is_mentioned(paths: &Vec<String>, path: &str) -> (found: bool)
    ensures
        found == mentioned(paths@, path@),
{
    let mut k: usize = 0;
    while k < paths.len()
        invariant
            k <= paths@.len(),
            forall|j: int| 0 <= j < k ==> paths@[j]@ != path@,
        decreases paths.len() - k,
    {
        if text_equals(paths[k].as_str(), path) {
            return true;
        }
        k += 1;
    }
    false
}

/// The candidate output artifacts no remaining rollout references, in
/// candidate order: these are the ones to delete after a rollout is
/// deleted.
pub fn unreferenced_outputs(candidates: &Vec<String>, referenced: &Vec<String>) -> (unreferenced: Vec<usize>)
    ensures
        forall|j: int| 0 <= j < unreferenced@.len() ==> #[trigger] unreferenced@[j] < candidates@.len(),
        forall|a: int, b: int| 0 <= a < b < unreferenced@.len() ==> unreferenced@[a] < unreferenced@[b],
        forall|i: int| 0 <= i < candidates@.len()
            ==> (unreferenced@.contains(i as usize) <==> !mentioned(referenced@, candidates@[i]@)),
{
    let mut unreferenced: Vec<usize> = Vec::new();
    let mut i: usize = 0;
    while i < candidates.len()
        invariant
            i <= candidates@.len(),
            forall|j: int| 0 <= j < unreferenced@.len() ==> #[trigger] unreferenced@[j] < i,
            forall|a: int, b: int| 0 <= a < b < unreferenced@.len() ==> unreferenced@[a] < unreferenced@[b],
            forall|k: int| 0 <= k < i
                ==> (unreferenced@.contains(k as usize) <==> !mentioned(referenced@, candidates@[k]@)),
        decreases candidates.len() - i,
    {
        let keep = is_mentioned(referenced, candidates[i].as_str());
        if !keep {
            let ghost before = unreferenced@;
            unreferenced.push(i);
            proof {
                assert forall|k: int| 0 <= k < i + 1
                    implies (unreferenced@.contains(k as usize) <==> !mentioned(referenced@, candidates@[k]@)) by {
                    if k < i {
                        if unreferenced@.contains(k as usize) {
                            let w = choose|w: int| 0 <= w < unreferenced@.len() && unreferenced@[w] == k as usize;
                            if w == before.len() {
                                assert(unreferenced@[w] == i);
                            } else {
                                assert(before[w] == k as usize);
                            }
                        }
                        if before.contains(k as usize) {
                            let w = choose|w: int| 0 <= w < before.len() && before[w] == k as usize;
                            assert(unreferenced@[w] == k as usize);
                        }
                    } else {
                        assert(unreferenced@[before.len() as int] == i);
                    }
                }
            }
        } else {
            proof {
                assert(!unreferenced@.contains(i)) by {
                    if unreferenced@.contains(i) {
                        let w = choose|w: int| 0 <= w < unreferenced@.len() && unreferenced@[w] == i;
                        assert(unreferenced@[w] < i);
                    }
                }
            }
        }
        i += 1;
    }
    unreferenced
}

} // verus!
