//! MCP administration: server state labels, when `mcp/tools` refreshes a
//! server first, which status answers it, and the name-ordered listings.

use vstd::prelude::*;

use crate::protocol::{ProtocolError, ProtocolErrorCode};
use crate::text::{chars_of, concat_text, trim_text, trim_view};

verus! {

/// Where an MCP server stands in its startup.
#[derive(Debug, Clone, Copy, PartialEq, Eq, Structural)]
pub enum McpStartupState {
    Disabled,
    NotStarted,
    Starting,
    Ready,
    Failed,
    AuthRequired,
    Degraded,
    Stopped,
}

/// The wire label of a startup state.
pub open spec fn startup_label(state: McpStartupState) -> Seq<char> {
    match state {
        McpStartupState::Disabled => "disabled"@,
        McpStartupState::NotStarted => "not_started"@,
        McpStartupState::Starting => "starting"@,
        McpStartupState::Ready => "ready"@,
        McpStartupState::Failed => "failed"@,
        McpStartupState::AuthRequired => "auth_required"@,
        McpStartupState::Degraded => "degraded"@,
        McpStartupState::Stopped => "stopped"@,
    }
}

/// The wire label of a startup state.
pub fn startup_state_label(state: McpStartupState) -> (label: &'static str)
    ensures
        label@ == startup_label(state),
{
    proof {
        reveal_strlit("disabled");
        reveal_strlit("not_started");
        reveal_strlit("starting");
        reveal_strlit("ready");
        reveal_strlit("failed");
        reveal_strlit("auth_required");
        reveal_strlit("degraded");
        reveal_strlit("stopped");
    }
    match state {
        McpStartupState::Disabled => "disabled",
        McpStartupState::NotStarted => "not_started",
        McpStartupState::Starting => "starting",
        McpStartupState::Ready => "ready",
        McpStartupState::Failed => "failed",
        McpStartupState::AuthRequired => "auth_required",
        McpStartupState::Degraded => "degraded",
        McpStartupState::Stopped => "stopped",
    }
}

/// One tool an MCP server offers.
pub struct McpToolDescriptor {
    pub name: String,
    pub description: String,
}

/// The status of one MCP server.
pub struct McpServerStatus {
    pub server_id: String,
    pub startup_state: McpStartupState,
    pub tools: Vec<McpToolDescriptor>,
}

/// Whether `mcp/tools` refreshes a server before answering: an unknown
/// server, one that is not running or failed, and a running one that has
/// listed no tools yet are refreshed; a disabled server never is.
pub open spec fn tools_need_refresh(status: Option<McpServerStatus>) -> bool {
    match status {
        None => true,
        Some(s) => match s.startup_state {
            McpStartupState::Disabled => false,
            McpStartupState::NotStarted | McpStartupState::Stopped | McpStartupState::Failed => true,
            _ => s.tools@.len() == 0,
        },
    }
}

/// Whether `mcp/tools` refreshes a server before answering.
pub fn mcp_tools_need_refresh(status: Option<&McpServerStatus>) -> (refresh: bool)
    ensures
        refresh == tools_need_refresh(match status {
            Some(s) => Some(*s),
            None => None,
        }),
{
    let status = match status {
        None => return true,
        Some(s) => s,
    };
    match status.startup_state {
        McpStartupState::Disabled => false,
        McpStartupState::NotStarted | McpStartupState::Stopped | McpStartupState::Failed => true,
        _ => status.tools.len() == 0,
    }
}

/// The MCP admin requests that name a server.
#[derive(Debug, Clone, Copy, PartialEq, Eq, Structural)]
pub enum McpNamedRequest {
    Tools,
    SetEnabled,
}

/// The refusal of a request whose server name is blank.
pub open spec fn blank_name_message(request: McpNamedRequest) -> Seq<char> {
    match request {
        McpNamedRequest::Tools => "mcp/tools requires a non-empty name"@,
        McpNamedRequest::SetEnabled => "mcp/set_enabled requires a non-empty name"@,
    }
}

/// The server name a request names, trimmed; a blank name is refused.
pub fn mcp_server_name(request: McpNamedRequest, raw: &str) -> (name: Result<String, ProtocolError>)
    ensures
        match name {
            Ok(n) => n@ == trim_view(raw@) && n@.len() > 0,
            Err(e) => trim_view(raw@).len() == 0 && e.code == ProtocolErrorCode::InvalidParams
                && e.message@ == blank_name_message(request),
        },
{
    let name = trim_text(raw);
    if name.as_str().unicode_len() == 0 {
        proof {
            reveal_strlit("mcp/tools requires a non-empty name");
            reveal_strlit("mcp/set_enabled requires a non-empty name");
        }
        let message = match request {
            McpNamedRequest::Tools => "mcp/tools requires a non-empty name",
            McpNamedRequest::SetEnabled => "mcp/set_enabled requires a non-empty name",
        };
        return Err(ProtocolError { code: ProtocolErrorCode::InvalidParams, message: message.to_string() });
    }
    Ok(name)
}

/// The refusal of `mcp/tools` for an unknown server.
pub open spec fn server_not_found_message(name: Seq<char>) -> Seq<char> {
    "mcp server `"@ + name + "` not found"@
}

/// The status `mcp/tools` answers with: the refreshed one when a refresh
/// succeeded, else the one already known; with neither the server is
/// unknown.
pub fn mcp_tools_status(
    name: &str,
    existing: Option<McpServerStatus>,
    refreshed: Option<McpServerStatus>,
) -> (status: Result<McpServerStatus, ProtocolError>)
    ensures
        match status {
            Ok(s) => match refreshed {
                Some(r) => s == r,
                None => existing == Some(s),
            },
            Err(e) => refreshed is None && existing is None && e.code == ProtocolErrorCode::InvalidParams
                && e.message@ == server_not_found_message(name@),
        },
{
    match refreshed {
        Some(r) => Ok(r),
        None => match existing {
            Some(s) => Ok(s),
            None => {
                proof {
                    reveal_strlit("mcp server `");
                    reveal_strlit("` not found");
                }
                let head = concat_text("mcp server `", name);
                Err(ProtocolError {
                    code: ProtocolErrorCode::InvalidParams,
                    message: concat_text(head.as_str(), "` not found"),
                })
            },
        },
    }
}

/// Whether `a` orders strictly before `b`: at the first position where
/// they differ `a` has the smaller character, or `a` is a proper prefix of
/// `b`.
pub open spec fn text_lt(a: Seq<char>, b: Seq<char>) -> bool
    decreases a.len(),
{
    if b.len() == 0 {
        false
    } else if a.len() == 0 {
        true
    } else if a[0] != b[0] {
        (a[0] as u32) < (b[0] as u32)
    } else {
        text_lt(a.skip(1), b.skip(1))
    }
}

proof fn lemma_text_lt_asymmetric(a: Seq<char>, b: Seq<char>)
    ensures
        text_lt(a, b) ==> !text_lt(b, a),
    decreases a.len(),
{
    if a.len() > 0 && b.len() > 0 && a[0] == b[0] {
        lemma_text_lt_asymmetric(a.skip(1), b.skip(1));
    }
}

fn chars_lt(a: &Vec<char>, b: &Vec<char>) -> (lt: bool)
    ensures
        lt == text_lt(a@, b@),
{
    let mut i: usize = 0;
    proof {
        assert(a@.skip(0) =~= a@);
        assert(b@.skip(0) =~= b@);
    }
    while i < a.len() && i < b.len() && a[i] == b[i]
        invariant
            i <= a@.len(),
            i <= b@.len(),
            text_lt(a@, b@) == text_lt(a@.skip(i as int), b@.skip(i as int)),
        decreases a.len() - i,
    {
        proof {
            assert(a@.skip(i as int).skip(1) =~= a@.skip(i + 1));
            assert(b@.skip(i as int).skip(1) =~= b@.skip(i + 1));
        }
        i += 1;
    }
    if i == b.len() {
        return false;
    }
    if i == a.len() {
        return true;
    }
    (a[i] as u32) < (b[i] as u32)
}

/// A tool in the `mcp/tools` answer.
pub struct McpToolEntry {
    pub name: String,
    pub description: String,
}

/// A server in the `mcp/list` answer.
pub struct McpServerInfo {
    pub name: String,
    pub status: String,
    pub tool_count: u32,
}

/// Whether names ascend: no name orders strictly before its predecessor.
pub open spec fn names_ascend(names: Seq<Seq<char>>) -> bool {
    forall|i: int, j: int| 0 <= i && j == i + 1 && j < names.len() ==> !text_lt(#[trigger] names[j], #[trigger] names[i])
}

/// The names of tool entries.
pub open spec fn tool_names(entries: Seq<McpToolEntry>) -> Seq<Seq<char>> {
    entries.map_values(|e: McpToolEntry| e.name@)
}

/// The names of server entries.
pub open spec fn server_names(entries: Seq<McpServerInfo>) -> Seq<Seq<char>> {
    entries.map_values(|e: McpServerInfo| e.name@)
}

/// The names of tool descriptors.
pub open spec fn descriptor_names(tools: Seq<McpToolDescriptor>) -> Seq<Seq<char>> {
    tools.map_values(|t: McpToolDescriptor| t.name@)
}

/// The (name, description) pairs of tool entries.
pub open spec fn tool_pairs(entries: Seq<McpToolEntry>) -> Seq<(Seq<char>, Seq<char>)> {
    entries.map_values(|e: McpToolEntry| (e.name@, e.description@))
}

/// The (name, description) pairs of tool descriptors.
pub open spec fn descriptor_pairs(tools: Seq<McpToolDescriptor>) -> Seq<(Seq<char>, Seq<char>)> {
    tools.map_values(|t: McpToolDescriptor| (t.name@, t.description@))
}

/// Whether a pair is named `name`.
pub open spec fn has_name<T>(name: Seq<char>) -> spec_fn((Seq<char>, T)) -> bool {
    |p: (Seq<char>, T)| p.0 == name
}

/// The pairs named `name`, in their order.
pub open spec fn named<T>(pairs: Seq<(Seq<char>, T)>, name: Seq<char>) -> Seq<(Seq<char>, T)> {
    pairs.filter(has_name(name))
}

/// Filtering a sequence with an element inserted at `j`, and without it,
/// splits at `j`.
proof fn lemma_named_insert<T>(s: Seq<(Seq<char>, T)>, j: int, x: (Seq<char>, T), name: Seq<char>)
    requires
        0 <= j <= s.len(),
    ensures
        named(s.insert(j, x), name) == named(s.subrange(0, j), name) + named(seq![x], name)
            + named(s.subrange(j, s.len() as int), name),
        named(s, name) == named(s.subrange(0, j), name) + named(s.subrange(j, s.len() as int), name),
{
    let pred = has_name::<T>(name);
    let pre = s.subrange(0, j);
    let post = s.subrange(j, s.len() as int);
    assert(s.insert(j, x) =~= pre + seq![x] + post);
    assert(s =~= pre + post);
    Seq::filter_distributes_over_add(pre + seq![x], post, pred);
    Seq::filter_distributes_over_add(pre, seq![x], pred);
    Seq::filter_distributes_over_add(pre, post, pred);
}

/// A sequence none of whose elements is named `name` has nothing named so.
proof fn lemma_named_none<T>(s: Seq<(Seq<char>, T)>, name: Seq<char>)
    requires
        forall|k: int| 0 <= k < s.len() ==> (#[trigger] s[k]).0 != name,
    ensures
        named(s, name).len() == 0,
{
    let pred = has_name::<T>(name);
    if named(s, name).len() > 0 {
        let e = named(s, name)[0];
        s.lemma_filter_pred(pred, 0);
        assert(named(s, name).contains(e));
        s.lemma_filter_contains_rev(pred, e);
    }
}

/// The pairs named `name` of a single pair.
proof fn lemma_named_single<T>(x: (Seq<char>, T), name: Seq<char>)
    ensures
        named(seq![x], name) == if x.0 == name { seq![x] } else { Seq::empty() },
{
    reveal_with_fuel(Seq::filter, 2);
    assert(seq![x].drop_last() =~= Seq::<(Seq<char>, T)>::empty());
}

/// Inserting `x` at `j` into `old`, where every element from `j` on orders
/// strictly after `x`'s name, adds `x` to the end of the elements named
/// like it and leaves the others as they were: what the insertion sort
/// step needs to keep equal names in input order.
proof fn lemma_named_after_insert<T>(
    old: Seq<(Seq<char>, T)>,
    j: int,
    x: (Seq<char>, T),
    done: Seq<(Seq<char>, T)>,
    name: Seq<char>,
)
    requires
        0 <= j <= old.len(),
        forall|k: int| j <= k < old.len() ==> text_lt(x.0, (#[trigger] old[k]).0),
        named(old, name) == named(done, name),
    ensures
        named(old.insert(j, x), name) == named(done + seq![x], name),
{
    lemma_named_insert(old, j, x, name);
    lemma_named_single(x, name);
    Seq::filter_distributes_over_add(done, seq![x], has_name::<T>(name));
    let post = old.subrange(j, old.len() as int);
    if x.0 == name {
        assert forall|k: int| 0 <= k < post.len() implies (#[trigger] post[k]).0 != name by {
            assert(post[k] == old[j + k]);
            assert(text_lt(x.0, old[j + k].0));
            lemma_text_lt_asymmetric(x.0, x.0);
        }
        lemma_named_none(post, name);
        assert(named(post, name) =~= Seq::<(Seq<char>, T)>::empty());
        assert(named(old, name) =~= named(old.subrange(0, j), name));
        assert(named(old.insert(j, x), name) =~= named(old.subrange(0, j), name) + seq![x]);
    } else {
        assert(named(old.insert(j, x), name) =~= named(old, name));
        assert(named(done + seq![x], name) =~= named(done, name));
    }
}

/// The tools of a status as answer entries, ordered by name; tools with
/// the same name keep their order, with their descriptions.
pub fn sorted_tool_entries(tools: Vec<McpToolDescriptor>) -> (entries: Vec<McpToolEntry>)
    ensures
        entries@.len() == tools@.len(),
        names_ascend(tool_names(entries@)),
        tool_names(entries@).to_multiset() == descriptor_names(tools@).to_multiset(),
        forall|name: Seq<char>| #[trigger] named(tool_pairs(entries@), name) == named(descriptor_pairs(tools@), name),
{
    let ghost input = descriptor_names(tools@);
    let ghost tools_all = tools@;
    let ghost all_pairs = descriptor_pairs(tools@);
    let mut entries: Vec<McpToolEntry> = Vec::new();
    let mut rest = tools;
    let ghost mut taken: int = 0;
    proof {
        assert(descriptor_names(rest@) =~= input.skip(0));
        assert(tool_names(entries@) =~= Seq::<Seq<char>>::empty());
        assert(input.take(0) =~= Seq::<Seq<char>>::empty());
    }
    while rest.len() > 0
        invariant
            0 <= taken <= input.len(),
            descriptor_names(rest@) == input.skip(taken),
            entries@.len() == taken,
            names_ascend(tool_names(entries@)),
            tool_names(entries@).to_multiset() == input.take(taken).to_multiset(),
            rest@ == tools_all.skip(taken),
            tools_all.len() == input.len(),
            all_pairs == descriptor_pairs(tools_all),
            forall|name: Seq<char>| #[trigger] named(tool_pairs(entries@), name) == named(all_pairs.take(taken), name),
        decreases rest.len(),
    {
        let ghost rest_before = rest@;
        let tool = rest.remove(0);
        proof {
            assert(tool == rest_before[0]);
            assert(descriptor_names(rest_before)[0] == rest_before[0].name@);
            assert(descriptor_names(rest_before)[0] == input.skip(taken)[0]);
            assert(rest_before.len() > 0);
            assert(descriptor_names(rest_before).len() == rest_before.len());
            assert(input.skip(taken).len() > 0);
            assert(taken < input.len());
            assert(input.skip(taken)[0] == input[taken]);
            assert(tool.name@ == input[taken]);
            assert forall|k: int| 0 <= k < descriptor_names(rest@).len()
                implies descriptor_names(rest@)[k] == input.skip(taken + 1)[k] by {
                assert(rest@[k] == rest_before[k + 1]);
                assert(descriptor_names(rest_before)[k + 1] == input.skip(taken)[k + 1]);
            }
            assert(descriptor_names(rest@) =~= input.skip(taken + 1));
        }
        let key = chars_of(tool.name.as_str());
        let mut j: usize = entries.len();
        while j > 0
            invariant
                j <= entries@.len(),
                key@ == tool.name@,
                forall|k: int| j <= k < entries@.len() ==> text_lt(key@, #[trigger] entries@[k].name@),
            ensures
                j <= entries@.len(),
                forall|k: int| j <= k < entries@.len() ==> text_lt(key@, #[trigger] entries@[k].name@),
                j == 0 || !text_lt(key@, entries@[j - 1].name@),
            decreases j,
        {
            let previous = chars_of(entries[j - 1].name.as_str());
            if !chars_lt(&key, &previous) {
                break;
            }
            j -= 1;
        }
        let ghost before = entries@;
        entries.insert(j, McpToolEntry { name: tool.name, description: tool.description });
        proof {
            let names = tool_names(entries@);
            let old_names = tool_names(before);
            assert(names =~= old_names.insert(j as int, key@));
            assert forall|a: int, b: int| 0 <= a && b == a + 1 && b < names.len()
                implies !text_lt(#[trigger] names[b], #[trigger] names[a]) by {
                if b < j {
                    assert(names[a] == old_names[a] && names[b] == old_names[b]);
                } else if b == j {
                    assert(names[b] == key@);
                    assert(names[a] == old_names[a]);
                    assert(old_names[a] == before[a].name@);
                } else if a == j {
                    assert(names[a] == key@);
                    assert(names[b] == old_names[a]);
                    assert(text_lt(key@, before[a].name@));
                    lemma_text_lt_asymmetric(key@, old_names[a]);
                } else {
                    assert(names[a] == old_names[a - 1] && names[b] == old_names[a]);
                }
            }
            assert(input.take(taken + 1) =~= input.take(taken).push(key@));
            input.take(taken).to_multiset_ensures();
            names.to_multiset_ensures();
            assert(names.remove(j as int) =~= old_names);
            assert(names[j as int] == key@);
            assert(names.contains(key@));
            assert(names.to_multiset() =~= old_names.to_multiset().insert(key@));
            assert(rest_before == tools_all.skip(taken));
            assert(tools_all.skip(taken)[0] == tools_all[taken]);
            assert(tool == tools_all[taken]);
            assert forall|k: int| 0 <= k < rest@.len() implies rest@[k] == tools_all.skip(taken + 1)[k] by {
                assert(rest@[k] == rest_before[k + 1]);
                assert(tools_all.skip(taken)[k + 1] == tools_all[taken + 1 + k]);
            }
            assert(rest@ =~= tools_all.skip(taken + 1));
            let x = (key@, tool.description@);
            assert(x == all_pairs[taken]);
            let pairs = tool_pairs(entries@);
            let old_pairs = tool_pairs(before);
            assert(pairs =~= old_pairs.insert(j as int, x));
            assert(all_pairs.take(taken + 1) =~= all_pairs.take(taken) + seq![x]);
            assert forall|name: Seq<char>| #[trigger] named(pairs, name) == named(all_pairs.take(taken + 1), name) by {
                assert forall|k: int| j <= k < old_pairs.len() implies text_lt(x.0, (#[trigger] old_pairs[k]).0) by {
                    assert(old_pairs[k].0 == before[k].name@);
                }
                lemma_named_after_insert(old_pairs, j as int, x, all_pairs.take(taken), name);
            }
            taken = taken + 1;
        }
    }
    proof {
        assert(input.take(input.len() as int) =~= input);
        assert(all_pairs.take(all_pairs.len() as int) =~= all_pairs);
    }
    entries
}

/// The names of server statuses.
pub open spec fn status_names(statuses: Seq<McpServerStatus>) -> Seq<Seq<char>> {
    statuses.map_values(|s: McpServerStatus| s.server_id@)
}

/// Whether `entry` is the listing of server `status`: its name, startup
/// label and tool count.
pub open spec fn describes(entry: McpServerInfo, status: McpServerStatus) -> bool {
    &&& entry.name@ == status.server_id@
    &&& entry.status@ == startup_label(status.startup_state)
    &&& entry.tool_count == status.tools@.len() as u32
}

/// Whether `entry` lists one of `statuses`.
pub open spec fn describes_some(entry: McpServerInfo, statuses: Seq<McpServerStatus>) -> bool {
    exists|k: int| 0 <= k < statuses.len() && #[trigger] describes(entry, statuses[k])
}

/// What the `mcp/list` answer shows of each entry: its name, with its
/// status label and tool count.
pub open spec fn info_rows(entries: Seq<McpServerInfo>) -> Seq<(Seq<char>, (Seq<char>, u32))> {
    entries.map_values(|e: McpServerInfo| (e.name@, (e.status@, e.tool_count)))
}

/// The listing row of each server status: its id, with its startup label
/// and its tool count.
pub open spec fn status_rows(statuses: Seq<McpServerStatus>) -> Seq<(Seq<char>, (Seq<char>, u32))> {
    statuses.map_values(|s: McpServerStatus| (s.server_id@, (startup_label(s.startup_state), s.tools@.len() as u32)))
}

/// The `mcp/list` entries of the known servers, ordered by name: each
/// with its startup label and tool count; servers with the same name keep
/// their order.
pub fn sorted_server_infos(tools: Vec<McpServerStatus>) -> (entries: Vec<McpServerInfo>)
    ensures
        entries@.len() == tools@.len(),
        names_ascend(server_names(entries@)),
        server_names(entries@).to_multiset() == status_names(tools@).to_multiset(),
        forall|i: int| 0 <= i < entries@.len() ==> #[trigger] describes_some(entries@[i], tools@),
        forall|name: Seq<char>| #[trigger] named(info_rows(entries@), name) == named(status_rows(tools@), name),
{
    let ghost input = status_names(tools@);
    let ghost tools_all = tools@;
    let ghost all_rows = status_rows(tools@);
    proof {
        assert(tools_all == tools@);
    }
    let mut entries: Vec<McpServerInfo> = Vec::new();
    let mut rest = tools;
    let ghost mut taken: int = 0;
    proof {
        assert(status_names(rest@) =~= input.skip(0));
        assert(server_names(entries@) =~= Seq::<Seq<char>>::empty());
        assert(input.take(0) =~= Seq::<Seq<char>>::empty());
    }
    while rest.len() > 0
        invariant
            0 <= taken <= input.len(),
            status_names(rest@) == input.skip(taken),
            entries@.len() == taken,
            names_ascend(server_names(entries@)),
            forall|i: int| 0 <= i < entries@.len() ==> #[trigger] describes_some(entries@[i], tools_all),
            rest@ == tools_all.skip(taken),
            tools_all.len() == input.len(),
            server_names(entries@).to_multiset() == input.take(taken).to_multiset(),
            all_rows == status_rows(tools_all),
            forall|name: Seq<char>| #[trigger] named(info_rows(entries@), name) == named(all_rows.take(taken), name),
        decreases rest.len(),
    {
        let ghost rest_before = rest@;
        let tool = rest.remove(0);
        proof {
            assert(tool == rest_before[0]);
            assert(status_names(rest_before)[0] == rest_before[0].server_id@);
            assert(status_names(rest_before)[0] == input.skip(taken)[0]);
            assert(rest_before.len() > 0);
            assert(status_names(rest_before).len() == rest_before.len());
            assert(input.skip(taken).len() > 0);
            assert(taken < input.len());
            assert(input.skip(taken)[0] == input[taken]);
            assert(tool.server_id@ == input[taken]);
            assert forall|k: int| 0 <= k < status_names(rest@).len()
                implies status_names(rest@)[k] == input.skip(taken + 1)[k] by {
                assert(rest@[k] == rest_before[k + 1]);
                assert(status_names(rest_before)[k + 1] == input.skip(taken)[k + 1]);
            }
            assert(status_names(rest@) =~= input.skip(taken + 1));
        }
        let key = chars_of(tool.server_id.as_str());
        let mut j: usize = entries.len();
        while j > 0
            invariant
                j <= entries@.len(),
                key@ == tool.server_id@,
                forall|k: int| j <= k < entries@.len() ==> text_lt(key@, #[trigger] entries@[k].name@),
            ensures
                j <= entries@.len(),
                forall|k: int| j <= k < entries@.len() ==> text_lt(key@, #[trigger] entries@[k].name@),
                j == 0 || !text_lt(key@, entries@[j - 1].name@),
            decreases j,
        {
            let previous = chars_of(entries[j - 1].name.as_str());
            if !chars_lt(&key, &previous) {
                break;
            }
            j -= 1;
        }
        let ghost before = entries@;
        let count = tool.tools.len();
        let label = startup_state_label(tool.startup_state);
        entries.insert(j, McpServerInfo {
            name: tool.server_id,
            status: label.to_string(),
            tool_count: #[verifier::truncate] (count as u32),
        });
        proof {
            let names = server_names(entries@);
            let old_names = server_names(before);
            assert(names =~= old_names.insert(j as int, key@));
            assert forall|a: int, b: int| 0 <= a && b == a + 1 && b < names.len()
                implies !text_lt(#[trigger] names[b], #[trigger] names[a]) by {
                if b < j {
                    assert(names[a] == old_names[a] && names[b] == old_names[b]);
                } else if b == j {
                    assert(names[b] == key@);
                    assert(names[a] == old_names[a]);
                    assert(old_names[a] == before[a].name@);
                } else if a == j {
                    assert(names[a] == key@);
                    assert(names[b] == old_names[a]);
                    assert(text_lt(key@, before[a].name@));
                    lemma_text_lt_asymmetric(key@, old_names[a]);
                } else {
                    assert(names[a] == old_names[a - 1] && names[b] == old_names[a]);
                }
            }
            assert(input.take(taken + 1) =~= input.take(taken).push(key@));
            input.take(taken).to_multiset_ensures();
            names.to_multiset_ensures();
            assert(names.remove(j as int) =~= old_names);
            assert(names[j as int] == key@);
            assert(names.contains(key@));
            assert(names.to_multiset() =~= old_names.to_multiset().insert(key@));
            assert(rest_before == tools_all.skip(taken));
            assert(rest_before.len() == tools_all.len() - taken);
            assert(tools_all.skip(taken)[0] == tools_all[taken]);
            assert(tool == tools_all[taken]);
            assert forall|k: int| 0 <= k < rest@.len() implies rest@[k] == tools_all.skip(taken + 1)[k] by {
                assert(rest@[k] == rest_before[k + 1]);
                assert(tools_all.skip(taken)[k + 1] == tools_all[taken + 1 + k]);
            }
            assert(rest@ =~= tools_all.skip(taken + 1));
            assert forall|i: int| 0 <= i < entries@.len() implies #[trigger] describes_some(entries@[i], tools_all) by {
                if i < j {
                    assert(entries@[i] == before[i]);
                    assert(describes_some(before[i], tools_all));
                } else if i == j {
                    assert(describes(entries@[i], tools_all[taken]));
                } else {
                    assert(entries@[i] == before[i - 1]);
                    assert(describes_some(before[i - 1], tools_all));
                }
            }
            let x = all_rows[taken];
            assert(x == (key@, (entries@[j as int].status@, entries@[j as int].tool_count)));
            let rows = info_rows(entries@);
            let old_rows = info_rows(before);
            assert(rows =~= old_rows.insert(j as int, x));
            assert(all_rows.take(taken + 1) =~= all_rows.take(taken) + seq![x]);
            assert forall|name: Seq<char>| #[trigger] named(rows, name) == named(all_rows.take(taken + 1), name) by {
                assert forall|k: int| j <= k < old_rows.len() implies text_lt(x.0, (#[trigger] old_rows[k]).0) by {
                    assert(old_rows[k].0 == before[k].name@);
                }
                lemma_named_after_insert(old_rows, j as int, x, all_rows.take(taken), name);
            }
            taken = taken + 1;
        }
    }
    proof {
        assert(input.take(input.len() as int) =~= input);
        assert(all_rows.take(all_rows.len() as int) =~= all_rows);
    }
    entries
}

} // verus!
