//! Approval scopes: how one answered approval request widens the session
//! and turn grant caches and the runtime permission profile.

use vstd::prelude::*;

use crate::grants::{copy_words, words_view, GrantSet};

verus! {

/// How long an approval answer applies.
#[derive(Debug, Clone, Copy, PartialEq, Eq, Structural)]
pub enum ApprovalScopeValue {
    Once,
    Turn,
    Session,
    PathPrefix,
    Host,
    Tool,
    CommandPrefix,
    CommandPrefixPersist,
}

/// The resource an approval request is about.
#[derive(Debug, Clone, Copy, PartialEq, Eq, Structural)]
pub enum ResourceKind {
    FileRead,
    FileWrite,
    Network,
    ShellExec,
}

/// Where an authorization decision came from.
#[derive(Debug, Clone, Copy, PartialEq, Eq, Structural)]
pub enum ApprovalDecisionSource {
    StaticPolicy,
    ExecPolicy,
    Hook,
    User,
}

/// One authorization-layer decision before it is converted into an execution
/// grant or an interactive control request.
#[derive(Debug)]
pub enum AuthorizationDecision {
    Allow { source: ApprovalDecisionSource },
    Ask { source: ApprovalDecisionSource },
    Deny { source: ApprovalDecisionSource, reason: String },
}

impl AuthorizationDecision {
    /// The explicit source every outcome carries.
    pub fn source(&self) -> (source: ApprovalDecisionSource)
        ensures
            source == match *self {
                AuthorizationDecision::Allow { source } => source,
                AuthorizationDecision::Ask { source } => source,
                AuthorizationDecision::Deny { source, .. } => source,
            },
    {
        match self {
            AuthorizationDecision::Allow { source } => *source,
            AuthorizationDecision::Ask { source } => *source,
            AuthorizationDecision::Deny { source, .. } => *source,
        }
    }
}

/// An approval request waiting for (or just given) an answer.
pub struct PendingApproval {
    pub owner_session_id: u128,
    pub turn_id: u128,
    pub tool_name: String,
    pub resource: Option<ResourceKind>,
    pub path: Option<String>,
    pub host: Option<String>,
    pub command_prefix: Option<Vec<String>>,
    pub command_pattern: Option<Vec<String>>,
    pub requests_escalation: bool,
    pub command: Option<String>,
    pub cwd: String,
    pub sandbox_permissions: String,
}

/// Grants remembered for a session or for a turn.
pub struct ApprovalGrantCache {
    /// Whole-tool grants, keyed `[tool]`.
    pub tools: GrantSet,
    /// Exact commands, keyed `[command, cwd]`.
    pub exact_commands: GrantSet,
    /// Generalized command patterns, keyed by their words.
    pub command_patterns: GrantSet,
    /// Command prefixes, keyed by their words.
    pub command_prefixes: GrantSet,
    /// Network hosts, keyed `[host]`.
    pub hosts: GrantSet,
    /// Readable path roots, keyed `[root]`.
    pub read_path_prefixes: GrantSet,
    /// Writable path roots, keyed `[root]`.
    pub write_path_prefixes: GrantSet,
    /// Sandbox escalations, keyed `[command, cwd, sandbox_permissions]`.
    pub sandbox_bypass_commands: GrantSet,
}

/// The abstract value of a grant cache: one set of keys per grant kind.
pub struct GrantCacheView {
    pub tools: Set<Seq<Seq<char>>>,
    pub exact_commands: Set<Seq<Seq<char>>>,
    pub command_patterns: Set<Seq<Seq<char>>>,
    pub command_prefixes: Set<Seq<Seq<char>>>,
    pub hosts: Set<Seq<Seq<char>>>,
    pub read_path_prefixes: Set<Seq<Seq<char>>>,
    pub write_path_prefixes: Set<Seq<Seq<char>>>,
    pub sandbox_bypass_commands: Set<Seq<Seq<char>>>,
}

impl View for ApprovalGrantCache {
    type V = GrantCacheView;

    open spec fn view(&self) -> GrantCacheView {
        GrantCacheView {
            tools: self.tools@,
            exact_commands: self.exact_commands@,
            command_patterns: self.command_patterns@,
            command_prefixes: self.command_prefixes@,
            hosts: self.hosts@,
            read_path_prefixes: self.read_path_prefixes@,
            write_path_prefixes: self.write_path_prefixes@,
            sandbox_bypass_commands: self.sandbox_bypass_commands@,
        }
    }
}

/// A cache view with no grants at all.
pub open spec fn empty_grant_view() -> GrantCacheView {
    GrantCacheView {
        tools: Set::empty(),
        exact_commands: Set::empty(),
        command_patterns: Set::empty(),
        command_prefixes: Set::empty(),
        hosts: Set::empty(),
        read_path_prefixes: Set::empty(),
        write_path_prefixes: Set::empty(),
        sandbox_bypass_commands: Set::empty(),
    }
}

/// A one-word key.
pub open spec fn key1(a: Seq<char>) -> Seq<Seq<char>> {
    seq![a]
}

/// A two-word key.
pub open spec fn key2(a: Seq<char>, b: Seq<char>) -> Seq<Seq<char>> {
    seq![a, b]
}

/// A three-word key.
pub open spec fn key3(a: Seq<char>, b: Seq<char>, c: Seq<char>) -> Seq<Seq<char>> {
    seq![a, b, c]
}

/// The abstract value of an optional string.
pub open spec fn opt_text(s: Option<String>) -> Option<Seq<char>> {
    match s {
        Some(s) => Some(s@),
        None => None,
    }
}

/// The abstract value of an optional list of strings.
pub open spec fn opt_words(w: Option<Vec<String>>) -> Option<Seq<Seq<char>>> {
    match w {
        Some(w) => Some(words_view(w@)),
        None => None,
    }
}

/// Inserts `key` into `set` when `cond` holds.
pub open spec fn insert_if(cond: bool, set: Set<Seq<Seq<char>>>, key: Seq<Seq<char>>) -> Set<Seq<Seq<char>>> {
    if cond {
        set.insert(key)
    } else {
        set
    }
}

/// Whether a scope records the approved path's root.
pub open spec fn scope_grants_path(scope: ApprovalScopeValue) -> bool {
    scope == ApprovalScopeValue::Session || scope == ApprovalScopeValue::PathPrefix
}

/// The sandbox-escalation key of a request: its command in its directory
/// under the requested sandbox permissions; none without a command.
pub open spec fn bypass_key(p: PendingApproval) -> Option<Seq<Seq<char>>> {
    match p.command {
        Some(command) => Some(key3(command@, p.cwd@, p.sandbox_permissions@)),
        None => None,
    }
}

/// The session cache after applying `scope` for request `p`, where `root`
/// is the grant root of the request's path.
pub open spec fn session_after_scope(
    s: GrantCacheView,
    scope: ApprovalScopeValue,
    p: PendingApproval,
    root: Seq<char>,
) -> GrantCacheView {
    let session = scope == ApprovalScopeValue::Session;
    let path_grant = scope_grants_path(scope) && p.path is Some;
    let write = p.resource == Some(ResourceKind::FileWrite);
    let prefix_scope = scope == ApprovalScopeValue::CommandPrefix
        || scope == ApprovalScopeValue::CommandPrefixPersist;
    GrantCacheView {
        tools: insert_if(
            session && p.command is None && p.command_pattern is None,
            s.tools,
            key1(p.tool_name@),
        ),
        exact_commands: insert_if(
            session && p.command is Some,
            s.exact_commands,
            key2(opt_text(p.command)->0, p.cwd@),
        ),
        command_patterns: insert_if(
            session && p.command is None && p.command_pattern is Some,
            s.command_patterns,
            opt_words(p.command_pattern)->0,
        ),
        command_prefixes: insert_if(
            prefix_scope && p.command_prefix is Some,
            s.command_prefixes,
            opt_words(p.command_prefix)->0,
        ),
        hosts: insert_if(
            scope == ApprovalScopeValue::Host && p.host is Some,
            s.hosts,
            key1(opt_text(p.host)->0),
        ),
        read_path_prefixes: insert_if(path_grant && !write, s.read_path_prefixes, key1(root)),
        write_path_prefixes: insert_if(path_grant && write, s.write_path_prefixes, key1(root)),
        sandbox_bypass_commands: insert_if(
            p.requests_escalation && session && bypass_key(p) is Some,
            s.sandbox_bypass_commands,
            bypass_key(p)->0,
        ),
    }
}

/// The turn cache after applying `scope` for request `p`.
pub open spec fn turn_after_scope(
    t: GrantCacheView,
    scope: ApprovalScopeValue,
    p: PendingApproval,
) -> GrantCacheView {
    GrantCacheView {
        tools: insert_if(
            scope == ApprovalScopeValue::Turn || scope == ApprovalScopeValue::Tool,
            t.tools,
            key1(p.tool_name@),
        ),
        ..t
    }
}

/// The parent of a path as the standard library computes it.
pub uninterp spec fn std_path_parent(path: Seq<char>) -> Option<Seq<char>>;

/// `std::path::Path::parent`, converted back to a string. Claims that the
/// result is what that function computes for the path and, as its
/// documentation says ("the `Path` without its final component"), that a
/// parent is the path with its end cut off: a prefix of its text.
#[verifier::external_body]
fn path_parent(path: &str) -> (parent: Option<String>)
    ensures
        opt_text(parent) == std_path_parent(path@),
        parent matches Some(p) ==> p@.is_prefix_of(path@),
{
    std::path::Path::new(path).parent().map(|p| p.to_string_lossy().into_owned())
}

/// `std::path::Path::is_dir`: whether the path names a directory on disk
/// now. Nothing is claimed of the answer.
#[verifier::external_body]
fn path_is_dir(path: &str) -> (is_dir: bool) {
    std::path::Path::new(path).is_dir()
}

/// The grant root of `path`: the path itself when it is a directory, else
/// its parent (the path itself when it has none).
pub open spec fn grant_root(path: Seq<char>, is_dir: bool) -> Seq<char> {
    if is_dir {
        path
    } else {
        match std_path_parent(path) {
            Some(parent) => parent,
            None => path,
        }
    }
}

/// The grant root of `path`, given whether it is a directory.
pub fn grant_root_for(path: &str, is_dir: bool) -> (root: String)
    ensures
        root@ == grant_root(path@, is_dir),
        root@.is_prefix_of(path@),
{
    if is_dir {
        path.to_owned()
    } else {
        match path_parent(path) {
            Some(parent) => parent,
            None => path.to_owned(),
        }
    }
}

/// The grant root of `path` as it stands on disk now: the path itself for
/// a directory, else its parent.
pub fn path_prefix_grant_root(path: &str) -> (root: String)
    ensures
        root@ == grant_root(path@, true) || root@ == grant_root(path@, false),
        root@.is_prefix_of(path@),
{
    let is_dir = path_is_dir(path);
    grant_root_for(path, is_dir)
}

impl ApprovalGrantCache {
    /// A cache with no grants.
    pub fn new() -> (cache: Self)
        ensures
            cache.wf(),
            cache@ == empty_grant_view(),
    {
        ApprovalGrantCache {
            tools: GrantSet::new(),
            exact_commands: GrantSet::new(),
            command_patterns: GrantSet::new(),
            command_prefixes: GrantSet::new(),
            hosts: GrantSet::new(),
            read_path_prefixes: GrantSet::new(),
            write_path_prefixes: GrantSet::new(),
            sandbox_bypass_commands: GrantSet::new(),
        }
    }

    /// Every grant set is duplicate-free.
    pub open spec fn wf(&self) -> bool {
        &&& self.tools.wf()
        &&& self.exact_commands.wf()
        &&& self.command_patterns.wf()
        &&& self.command_prefixes.wf()
        &&& self.hosts.wf()
        &&& self.read_path_prefixes.wf()
        &&& self.write_path_prefixes.wf()
        &&& self.sandbox_bypass_commands.wf()
    }

    /// A deep copy holding the same grants.
    pub fn snapshot(&self) -> (copy: Self)
        requires
            self.wf(),
        ensures
            copy.wf(),
            copy@ == self@,
    {
        ApprovalGrantCache {
            tools: self.tools.snapshot(),
            exact_commands: self.exact_commands.snapshot(),
            command_patterns: self.command_patterns.snapshot(),
            command_prefixes: self.command_prefixes.snapshot(),
            hosts: self.hosts.snapshot(),
            read_path_prefixes: self.read_path_prefixes.snapshot(),
            write_path_prefixes: self.write_path_prefixes.snapshot(),
            sandbox_bypass_commands: self.sandbox_bypass_commands.snapshot(),
        }
    }
}

fn one_word(a: &String) -> (key: Vec<String>)
    ensures
        words_view(key@) == key1(a@),
{
    let mut key: Vec<String> = Vec::new();
    key.push(a.clone());
    proof {
        assert(words_view(key@) =~= key1(a@));
    }
    key
}

fn two_words(a: &String, b: &String) -> (key: Vec<String>)
    ensures
        words_view(key@) == key2(a@, b@),
{
    let mut key: Vec<String> = Vec::new();
    key.push(a.clone());
    key.push(b.clone());
    proof {
        assert(words_view(key@) =~= key2(a@, b@));
    }
    key
}

fn three_words(a: &String, b: &String, c: &String) -> (key: Vec<String>)
    ensures
        words_view(key@) == key3(a@, b@, c@),
{
    let mut key: Vec<String> = Vec::new();
    key.push(a.clone());
    key.push(b.clone());
    key.push(c.clone());
    proof {
        assert(words_view(key@) =~= key3(a@, b@, c@));
    }
    key
}

/// Records the grant root of an approved path: writable for file writes,
/// readable for reads and every other resource.
fn insert_path_prefix_grant(cache: &mut ApprovalGrantCache, resource: Option<ResourceKind>, root: &String)
    requires
        old(cache).wf(),
    ensures
        final(cache).wf(),
        final(cache)@ == (GrantCacheView {
            read_path_prefixes: insert_if(
                resource != Some(ResourceKind::FileWrite),
                old(cache)@.read_path_prefixes,
                key1(root@),
            ),
            write_path_prefixes: insert_if(
                resource == Some(ResourceKind::FileWrite),
                old(cache)@.write_path_prefixes,
                key1(root@),
            ),
            ..old(cache)@
        }),
{
    match resource {
        Some(ResourceKind::FileWrite) => {
            cache.write_path_prefixes.insert(one_word(root));
        },
        _ => {
            cache.read_path_prefixes.insert(one_word(root));
        },
    }
}

/// Applies an approval scope into the session and turn grant caches, with
/// the grant root of the request's path already resolved (`root` is used
/// only by scopes that grant a path, and only when the request has one).
pub fn apply_approval_scope_with_root(
    session_cache: &mut ApprovalGrantCache,
    turn_cache: &mut ApprovalGrantCache,
    scope: ApprovalScopeValue,
    pending: &PendingApproval,
    root: &String,
)
    requires
        old(session_cache).wf(),
        old(turn_cache).wf(),
    ensures
        final(session_cache).wf(),
        final(turn_cache).wf(),
        final(session_cache)@ == session_after_scope(old(session_cache)@, scope, *pending, root@),
        final(turn_cache)@ == turn_after_scope(old(turn_cache)@, scope, *pending),
{
    match scope {
        ApprovalScopeValue::Once => {},
        ApprovalScopeValue::Turn => {
            turn_cache.tools.insert(one_word(&pending.tool_name));
        },
        ApprovalScopeValue::Session => {
            // Prefer exact command + cwd, then a generalized pattern, then a
            // whole-tool grant for non-shell tools.
            if let Some(command) = &pending.command {
                session_cache.exact_commands.insert(two_words(command, &pending.cwd));
            } else if let Some(pattern) = &pending.command_pattern {
                session_cache.command_patterns.insert(copy_words(pattern));
            } else {
                session_cache.tools.insert(one_word(&pending.tool_name));
            }
            if pending.path.is_some() {
                insert_path_prefix_grant(session_cache, pending.resource, root);
            }
        },
        ApprovalScopeValue::PathPrefix => {
            if pending.path.is_some() {
                insert_path_prefix_grant(session_cache, pending.resource, root);
            }
        },
        ApprovalScopeValue::Host => {
            if let Some(host) = &pending.host {
                session_cache.hosts.insert(one_word(host));
            }
        },
        ApprovalScopeValue::Tool => {
            turn_cache.tools.insert(one_word(&pending.tool_name));
        },
        ApprovalScopeValue::CommandPrefix => {
            if let Some(prefix) = &pending.command_prefix {
                session_cache.command_prefixes.insert(copy_words(prefix));
            }
        },
        ApprovalScopeValue::CommandPrefixPersist => {
            if let Some(prefix) = &pending.command_prefix {
                session_cache.command_prefixes.insert(copy_words(prefix));
            }
        },
    }
    if pending.requests_escalation && scope == ApprovalScopeValue::Session {
        if let Some(command) = &pending.command {
            session_cache.sandbox_bypass_commands.insert(
                three_words(command, &pending.cwd, &pending.sandbox_permissions),
            );
        }
    }
    proof {
        let s = session_after_scope(old(session_cache)@, scope, *pending, root@);
        assert(session_cache@.tools =~= s.tools);
        assert(session_cache@ == s);
        assert(turn_cache@ == turn_after_scope(old(turn_cache)@, scope, *pending));
    }
}

/// Applies an approval scope into the session and turn grant caches. A
/// path grant is rooted at the path itself when it is a directory on disk,
/// else at its parent.
pub fn apply_approval_scope_to_state(
    session_cache: &mut ApprovalGrantCache,
    turn_cache: &mut ApprovalGrantCache,
    scope: ApprovalScopeValue,
    pending: &PendingApproval,
)
    requires
        old(session_cache).wf(),
        old(turn_cache).wf(),
    ensures
        final(session_cache).wf(),
        final(turn_cache).wf(),
        exists|is_dir: bool|
            final(session_cache)@ == session_after_scope(
                old(session_cache)@,
                scope,
                *pending,
                grant_root(opt_text(pending.path)->0, is_dir),
            ),
        final(turn_cache)@ == turn_after_scope(old(turn_cache)@, scope, *pending),
{
    let root = match &pending.path {
        Some(path) => {
            if scope == ApprovalScopeValue::Session || scope == ApprovalScopeValue::PathPrefix {
                let is_dir = path_is_dir(path.as_str());
                let root = grant_root_for(path.as_str(), is_dir);
                proof {
                    assert(root@ == grant_root(opt_text(pending.path)->0, is_dir));
                }
                root
            } else {
                path.clone()
            }
        },
        None => String::new(),
    };
    let ghost choice: bool = if pending.path is Some && scope_grants_path(scope) {
        root@ == grant_root(opt_text(pending.path)->0, true)
    } else {
        true
    };
    apply_approval_scope_with_root(session_cache, turn_cache, scope, pending, &root);
    proof {
        let s = session_after_scope(old(session_cache)@, scope, *pending, grant_root(opt_text(pending.path)->0, choice));
        assert(session_cache@ == s);
    }
}


/// The filesystem roots a session's tools may read and write.
pub struct RuntimePermissionProfile {
    /// Readable roots, keyed `[root]`.
    pub readable_roots: GrantSet,
    /// Writable roots, keyed `[root]`.
    pub writable_roots: GrantSet,
}

/// The profile roots after a path-granting approval: writable for file
/// writes, readable for every other resource; unchanged for other scopes or
/// requests without a path.
pub open spec fn profile_after_scope(
    readable: Set<Seq<Seq<char>>>,
    writable: Set<Seq<Seq<char>>>,
    scope: ApprovalScopeValue,
    p: PendingApproval,
    root: Seq<char>,
) -> (Set<Seq<Seq<char>>>, Set<Seq<Seq<char>>>) {
    let grant = scope_grants_path(scope) && p.path is Some;
    let write = p.resource == Some(ResourceKind::FileWrite);
    (insert_if(grant && !write, readable, key1(root)), insert_if(grant && write, writable, key1(root)))
}

impl RuntimePermissionProfile {
    /// Both root sets are duplicate-free.
    pub open spec fn wf(&self) -> bool {
        self.readable_roots.wf() && self.writable_roots.wf()
    }
}

/// Grants the root of an approved path onto the permission profile, with
/// the root already resolved.
pub fn apply_path_scope_with_root(
    profile: &mut RuntimePermissionProfile,
    scope: ApprovalScopeValue,
    pending: &PendingApproval,
    root: &String,
)
    requires
        old(profile).wf(),
    ensures
        final(profile).wf(),
        (final(profile).readable_roots@, final(profile).writable_roots@) == profile_after_scope(
            old(profile).readable_roots@,
            old(profile).writable_roots@,
            scope,
            *pending,
            root@,
        ),
{
    if !(scope == ApprovalScopeValue::PathPrefix || scope == ApprovalScopeValue::Session) {
        return;
    }
    if pending.path.is_none() {
        return;
    }
    match pending.resource {
        Some(ResourceKind::FileWrite) => {
            profile.writable_roots.insert(one_word(root));
        },
        _ => {
            // Read (and unknown) approvals must not elevate write roots.
            profile.readable_roots.insert(one_word(root));
        },
    }
}

/// Grants PathPrefix/Session path roots onto a runtime permission profile;
/// the root is the path itself when it is a directory on disk, else its
/// parent.
pub fn apply_path_scope_to_permission_profile(
    profile: &mut RuntimePermissionProfile,
    scope: ApprovalScopeValue,
    pending: &PendingApproval,
)
    requires
        old(profile).wf(),
    ensures
        final(profile).wf(),
        exists|is_dir: bool|
            (final(profile).readable_roots@, final(profile).writable_roots@) == profile_after_scope(
                old(profile).readable_roots@,
                old(profile).writable_roots@,
                scope,
                *pending,
                grant_root(opt_text(pending.path)->0, is_dir),
            ),
{
    if !(scope == ApprovalScopeValue::PathPrefix || scope == ApprovalScopeValue::Session) {
        proof {
            let r = grant_root(opt_text(pending.path)->0, true);
            assert(profile_after_scope(old(profile).readable_roots@, old(profile).writable_roots@, scope, *pending, r)
                == (profile.readable_roots@, profile.writable_roots@));
        }
        return;
    }
    match &pending.path {
        None => {
            proof {
                let r = grant_root(opt_text(pending.path)->0, true);
                assert(profile_after_scope(old(profile).readable_roots@, old(profile).writable_roots@, scope, *pending, r)
                    == (profile.readable_roots@, profile.writable_roots@));
            }
        },
        Some(path) => {
            let is_dir = path_is_dir(path.as_str());
            let root = grant_root_for(path.as_str(), is_dir);
            apply_path_scope_with_root(profile, scope, pending, &root);
            proof {
                assert(root@ == grant_root(opt_text(pending.path)->0, is_dir));
            }
        },
    }
}

/// Answering with `Once` grants nothing beyond the request itself.
pub proof fn lemma_once_scope_grants_nothing(
    s: GrantCacheView,
    t: GrantCacheView,
    p: PendingApproval,
    root: Seq<char>,
)
    ensures
        session_after_scope(s, ApprovalScopeValue::Once, p, root) == s,
        turn_after_scope(t, ApprovalScopeValue::Once, p) == t,
{
}

/// Applying the same approval answer twice leaves the caches as applying it
/// once does.
pub proof fn lemma_scope_application_is_idempotent(
    s: GrantCacheView,
    t: GrantCacheView,
    scope: ApprovalScopeValue,
    p: PendingApproval,
    root: Seq<char>,
)
    ensures
        session_after_scope(session_after_scope(s, scope, p, root), scope, p, root)
            == session_after_scope(s, scope, p, root),
        turn_after_scope(turn_after_scope(t, scope, p), scope, p) == turn_after_scope(t, scope, p),
{
    let once = session_after_scope(s, scope, p, root);
    let twice = session_after_scope(once, scope, p, root);
    assert(twice.tools =~= once.tools);
    assert(twice.exact_commands =~= once.exact_commands);
    assert(twice.command_patterns =~= once.command_patterns);
    assert(twice.command_prefixes =~= once.command_prefixes);
    assert(twice.hosts =~= once.hosts);
    assert(twice.read_path_prefixes =~= once.read_path_prefixes);
    assert(twice.write_path_prefixes =~= once.write_path_prefixes);
    assert(twice.sandbox_bypass_commands =~= once.sandbox_bypass_commands);
    let t1 = turn_after_scope(t, scope, p);
    assert(turn_after_scope(t1, scope, p).tools =~= t1.tools);
}

/// Read approvals, and approvals of any resource other than a file write,
/// never add a writable root, to the caches or to the profile.
pub proof fn lemma_only_file_writes_widen_write_roots(
    s: GrantCacheView,
    readable: Set<Seq<Seq<char>>>,
    writable: Set<Seq<Seq<char>>>,
    scope: ApprovalScopeValue,
    p: PendingApproval,
    root: Seq<char>,
)
    requires
        p.resource != Some(ResourceKind::FileWrite),
    ensures
        session_after_scope(s, scope, p, root).write_path_prefixes == s.write_path_prefixes,
        profile_after_scope(readable, writable, scope, p, root).1 == writable,
{
}

/// `Turn` and `Tool` answers touch only the turn cache; every other answer
/// touches only the session cache.
pub proof fn lemma_scope_targets_one_cache(
    s: GrantCacheView,
    t: GrantCacheView,
    scope: ApprovalScopeValue,
    p: PendingApproval,
    root: Seq<char>,
)
    ensures
        (scope == ApprovalScopeValue::Turn || scope == ApprovalScopeValue::Tool)
            ==> session_after_scope(s, scope, p, root) == s,
        !(scope == ApprovalScopeValue::Turn || scope == ApprovalScopeValue::Tool)
            ==> turn_after_scope(t, scope, p) == t,
{
}

/// Each answer grants what it names, for later requests to find, and takes
/// nothing away:
/// - `CommandPrefix` and `CommandPrefixPersist` grant the request's command
///   prefix for the session;
/// - `Host` grants the request's host for the session;
/// - `Session` grants the exact command in its directory when there is one,
///   else the command pattern, else the whole tool, for the session;
/// - `Session` and `PathPrefix` grant the path's root, writable for a file
///   write and readable otherwise, for the session;
/// - `Turn` and `Tool` grant the tool for the turn;
/// - a `Session` answer to a request for escalation grants the command in
///   its directory under its sandbox permissions; no other answer grants an
///   escalation;
/// - every grant held before is still held after.
pub proof fn lemma_scope_grants_what_it_names(
    s: GrantCacheView,
    t: GrantCacheView,
    scope: ApprovalScopeValue,
    p: PendingApproval,
    root: Seq<char>,
)
    ensures
        ({
            let s2 = session_after_scope(s, scope, p, root);
            let t2 = turn_after_scope(t, scope, p);
            &&& (scope == ApprovalScopeValue::CommandPrefix || scope == ApprovalScopeValue::CommandPrefixPersist)
                ==> (p.command_prefix matches Some(w) ==> s2.command_prefixes.contains(words_view(w@)))
            &&& scope == ApprovalScopeValue::Host ==> (p.host matches Some(h) ==> s2.hosts.contains(seq![h@]))
            &&& scope == ApprovalScopeValue::Session ==> match p.command {
                Some(c) => s2.exact_commands.contains(seq![c@, p.cwd@]),
                None => match p.command_pattern {
                    Some(w) => s2.command_patterns.contains(words_view(w@)),
                    None => s2.tools.contains(seq![p.tool_name@]),
                },
            }
            &&& (scope == ApprovalScopeValue::Session || scope == ApprovalScopeValue::PathPrefix) && p.path is Some
                ==> if p.resource == Some(ResourceKind::FileWrite) {
                    s2.write_path_prefixes.contains(seq![root])
                } else {
                    s2.read_path_prefixes.contains(seq![root])
                }
            &&& (scope == ApprovalScopeValue::Turn || scope == ApprovalScopeValue::Tool)
                ==> t2.tools.contains(seq![p.tool_name@])
            &&& (scope == ApprovalScopeValue::Session && p.requests_escalation && p.command is Some)
                ==> s2.sandbox_bypass_commands.contains(seq![p.command->0@, p.cwd@, p.sandbox_permissions@])
            &&& scope != ApprovalScopeValue::Session ==> s2.sandbox_bypass_commands == s.sandbox_bypass_commands
            &&& s.tools.subset_of(s2.tools) && s.exact_commands.subset_of(s2.exact_commands)
            &&& s.command_patterns.subset_of(s2.command_patterns)
            &&& s.command_prefixes.subset_of(s2.command_prefixes) && s.hosts.subset_of(s2.hosts)
            &&& s.read_path_prefixes.subset_of(s2.read_path_prefixes)
            &&& s.write_path_prefixes.subset_of(s2.write_path_prefixes)
            &&& s.sandbox_bypass_commands.subset_of(s2.sandbox_bypass_commands)
            &&& t.tools.subset_of(t2.tools)
        }),
{
    let s2 = session_after_scope(s, scope, p, root);
    assert(key1(root) =~= seq![root]);
    assert(key1(p.tool_name@) =~= seq![p.tool_name@]);
    if let Some(h) = p.host {
        assert(key1(h@) =~= seq![h@]);
    }
    if let Some(c) = p.command {
        assert(key2(c@, p.cwd@) =~= seq![c@, p.cwd@]);
        assert(key3(c@, p.cwd@, p.sandbox_permissions@) =~= seq![c@, p.cwd@, p.sandbox_permissions@]);
    }
}

} // verus!
