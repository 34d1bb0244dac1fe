//! Control requests sent to the clients controlling a session (the first
//! valid answer wins), the decisions they come back with, and the write
//! plan of a forked session's kept history.

use vstd::prelude::*;

use crate::approval::ApprovalScopeValue;

verus! {

/// What a client decided on an approval request.
#[derive(Debug, Clone, Copy, PartialEq, Eq, Structural)]
pub enum ApprovalDecisionValue {
    Approve,
    Deny,
    Cancel,
}

/// A decision kind of the native protocol.
#[derive(Debug, Clone, Copy, PartialEq, Eq, Structural)]
pub enum NativeDecisionKind {
    Approved,
    Denied,
    Cancelled,
}

/// An approval scope of the native protocol.
#[derive(Debug, Clone, Copy, PartialEq, Eq, Structural)]
pub enum NativeApprovalScope {
    Once,
    Turn,
    Session,
    PathPrefix,
    Host,
    Tool,
    CommandPrefix,
    CommandPrefixPersist,
}

/// Reads a native approval answer as the internal decision and scope.
pub fn approval_decision_from_native(
    decision: NativeDecisionKind,
    scope: NativeApprovalScope,
) -> (answer: (ApprovalDecisionValue, ApprovalScopeValue))
    ensures
        answer.0 == match decision {
            NativeDecisionKind::Approved => ApprovalDecisionValue::Approve,
            NativeDecisionKind::Denied => ApprovalDecisionValue::Deny,
            NativeDecisionKind::Cancelled => ApprovalDecisionValue::Cancel,
        },
        answer.1 == match scope {
            NativeApprovalScope::Once => ApprovalScopeValue::Once,
            NativeApprovalScope::Turn => ApprovalScopeValue::Turn,
            NativeApprovalScope::Session => ApprovalScopeValue::Session,
            NativeApprovalScope::PathPrefix => ApprovalScopeValue::PathPrefix,
            NativeApprovalScope::Host => ApprovalScopeValue::Host,
            NativeApprovalScope::Tool => ApprovalScopeValue::Tool,
            NativeApprovalScope::CommandPrefix => ApprovalScopeValue::CommandPrefix,
            NativeApprovalScope::CommandPrefixPersist => ApprovalScopeValue::CommandPrefixPersist,
        },
{
    let value = match decision {
        NativeDecisionKind::Approved => ApprovalDecisionValue::Approve,
        NativeDecisionKind::Denied => ApprovalDecisionValue::Deny,
        NativeDecisionKind::Cancelled => ApprovalDecisionValue::Cancel,
    };
    let scope_value = match scope {
        NativeApprovalScope::Once => ApprovalScopeValue::Once,
        NativeApprovalScope::Turn => ApprovalScopeValue::Turn,
        NativeApprovalScope::Session => ApprovalScopeValue::Session,
        NativeApprovalScope::PathPrefix => ApprovalScopeValue::PathPrefix,
        NativeApprovalScope::Host => ApprovalScopeValue::Host,
        NativeApprovalScope::Tool => ApprovalScopeValue::Tool,
        NativeApprovalScope::CommandPrefix => ApprovalScopeValue::CommandPrefix,
        NativeApprovalScope::CommandPrefixPersist => ApprovalScopeValue::CommandPrefixPersist,
    };
    (value, scope_value)
}

/// The permission request fanned out to the controlling connections: the
/// first valid decision wins; failures only remember the latest error.
pub struct PermissionFanout {
    last_error: Option<String>,
}

/// What the fan-out does with one controller's answer.
pub enum FanoutStep<T> {
    /// A valid decision: it answers the request.
    Decided(T),
    /// Keep waiting for the other controllers.
    Waiting,
}

impl PermissionFanout {
    /// The latest error any controller produced.
    pub closed spec fn latest_error(&self) -> Option<Seq<char>> {
        match self.last_error {
            Some(e) => Some(e@),
            None => None,
        }
    }

    /// A fan-out to at least one controller; with none the request fails
    /// at once.
    pub fn start(controller_count: usize) -> (fanout: Result<Self, String>)
        ensures
            match fanout {
                Ok(f) => controller_count > 0 && f.latest_error() is None,
                Err(m) => controller_count == 0 && m@ == "no client connection is available for permission request"@,
            },
    {
        if controller_count == 0 {
            proof {
                reveal_strlit("no client connection is available for permission request");
            }
            return Err("no client connection is available for permission request".to_string());
        }
        Ok(PermissionFanout { last_error: None })
    }

    /// Takes one controller's answer: a decision settles the request, an
    /// error (transport failure or malformed answer) becomes the latest
    /// error.
    pub fn answer<T>(&mut self, answer: Result<T, String>) -> (step: FanoutStep<T>)
        ensures
            match answer {
                Ok(d) => step == FanoutStep::Decided(d) && final(self).latest_error() == old(self).latest_error(),
                Err(e) => step == FanoutStep::<T>::Waiting && final(self).latest_error() == Some(e@),
            },
    {
        match answer {
            Ok(d) => FanoutStep::Decided(d),
            Err(e) => {
                self.last_error = Some(e);
                FanoutStep::Waiting
            },
        }
    }

    /// The failure once every controller answered without a decision: the
    /// latest error, or that all controllers disconnected.
    pub fn exhausted(self) -> (message: String)
        ensures
            message@ == match self.latest_error() {
                Some(e) => e,
                None => "all permission controllers disconnected"@,
            },
    {
        match self.last_error {
            Some(e) => e,
            None => {
                proof {
                    reveal_strlit("all permission controllers disconnected");
                }
                "all permission controllers disconnected".to_string()
            },
        }
    }
}

/// One write of a forked session's kept history.
#[derive(Debug, Clone, Copy, PartialEq, Eq, Structural)]
pub enum ForkWrite {
    /// The turn record of a kept turn, before its first item.
    Turn { turn_id: u128 },
    /// The kept item at this index, with its new item sequence number.
    Item { index: usize, item_seq: u64 },
}

/// Whether `turn_id` occurs among the first `n` kept items' turns.
pub open spec fn seen_before(turn_ids: Seq<u128>, n: int, turn_id: u128) -> bool {
    exists|k: int| 0 <= k < n && turn_ids[k] == turn_id
}

/// The writes of the first `n` kept items: each item is written in order
/// with sequence numbers counted from 1; before the first item of a turn
/// comes that turn's record, when the source has one.
pub open spec fn fork_writes(turn_ids: Seq<u128>, recorded: Seq<u128>, n: int) -> Seq<ForkWrite>
    decreases n,
{
    if n <= 0 {
        Seq::empty()
    } else {
        let t = turn_ids[n - 1];
        let before = fork_writes(turn_ids, recorded, n - 1);
        let turn_write = if !seen_before(turn_ids, n - 1, t) && recorded.contains(t) {
            seq![ForkWrite::Turn { turn_id: t }]
        } else {
            Seq::empty()
        };
        before + turn_write + seq![ForkWrite::Item { index: (n - 1) as usize, item_seq: n as u64 }]
    }
}

fn contains_id(ids: &Vec<u128>, id: u128) -> (found: bool)
    ensures
        found == ids@.contains(id),
{
    let mut k: usize = 0;
    while k < ids.len()
        invariant
            k <= ids@.len(),
            forall|j: int| 0 <= j < k ==> ids@[j] != id,
        decreases ids.len() - k,
    {
        if ids[k] == id {
            proof {
                assert(ids@[k as int] == id);
            }
            return true;
        }
        k += 1;
    }
    false
}

/// Plans the writes of a fork's kept history (`turn_ids` has the turn of
/// each kept item, `recorded` the turns the source has records of).
pub fn fork_history_writes(turn_ids: &Vec<u128>, recorded: &Vec<u128>) -> (writes: Vec<ForkWrite>)
    requires
        turn_ids@.len() < u64::MAX,
    ensures
        writes@ == fork_writes(turn_ids@, recorded@, turn_ids@.len() as int),
{
    let mut writes: Vec<ForkWrite> = Vec::new();
    let mut written: Vec<u128> = Vec::new();
    let mut i: usize = 0;
    while i < turn_ids.len()
        invariant
            i <= turn_ids@.len(),
            turn_ids@.len() < u64::MAX,
            writes@ == fork_writes(turn_ids@, recorded@, i as int),
            forall|t: u128| written@.contains(t) <==> seen_before(turn_ids@, i as int, t),
        decreases turn_ids.len() - i,
    {
        let t = turn_ids[i];
        let first = !contains_id(&written, t);
        let ghost before = writes@;
        let ghost w0 = written@;
        if first {
            written.push(t);
            if contains_id(recorded, t) {
                writes.push(ForkWrite::Turn { turn_id: t });
            }
        }
        writes.push(ForkWrite::Item { index: i, item_seq: (i + 1) as u64 });
        proof {
            assert(writes@ =~= fork_writes(turn_ids@, recorded@, i + 1));
            assert forall|x: u128| written@.contains(x) <==> seen_before(turn_ids@, i + 1, x) by {
                assert(w0.contains(x) <==> seen_before(turn_ids@, i as int, x));
                if x == t {
                    assert(turn_ids@[i as int] == x);
                    if first {
                        assert(written@[written@.len() - 1] == x);
                    }
                } else {
                    if seen_before(turn_ids@, i + 1, x) {
                        let k = choose|k: int| 0 <= k < i + 1 && turn_ids@[k] == x;
                        assert(k < i);
                        assert(seen_before(turn_ids@, i as int, x));
                        assert(w0.contains(x));
                        if first {
                            let m = choose|m: int| 0 <= m < w0.len() && w0[m] == x;
                            assert(written@[m] == x);
                        }
                    }
                    if written@.contains(x) {
                        if first {
                            let m = choose|m: int| 0 <= m < written@.len() && written@[m] == x;
                            assert(m < w0.len());
                            assert(w0[m] == x);
                        }
                        assert(w0.contains(x));
                        let k = choose|k: int| 0 <= k < i && turn_ids@[k] == x;
                        assert(0 <= k < i + 1 && turn_ids@[k] == x);
                    }
                }
            }
        }
        i += 1;
    }
    writes
}

/// Whether a fork keeps the source's latest compaction snapshot: its turn
/// is among the kept turns.
pub fn fork_keeps_compaction(turn_ids: &Vec<u128>, snapshot_turn_id: u128) -> (keeps: bool)
    ensures
        keeps == turn_ids@.contains(snapshot_turn_id),
{
    contains_id(turn_ids, snapshot_turn_id)
}

} // verus!
