use devo_server::approval::{
    apply_approval_scope_to_state, apply_path_scope_to_permission_profile, path_prefix_grant_root,
    ApprovalDecisionSource, ApprovalGrantCache, ApprovalScopeValue, AuthorizationDecision,
    PendingApproval, ResourceKind, RuntimePermissionProfile,
};
use devo_server::grants::GrantSet;

fn words(items: &[&str]) -> Vec<String> {
    items.iter().map(|s| s.to_string()).collect()
}

fn assert_empty(set: &GrantSet) {
    assert_eq!(set.len(), 0);
}

fn assert_only(set: &GrantSet, key: &[&str]) {
    assert_eq!(set.len(), 1);
    assert!(set.contains(&words(key)));
}

fn assert_cache_empty(cache: &ApprovalGrantCache) {
    assert_empty(&cache.tools);
    assert_empty(&cache.exact_commands);
    assert_empty(&cache.command_patterns);
    assert_empty(&cache.command_prefixes);
    assert_empty(&cache.hosts);
    assert_empty(&cache.read_path_prefixes);
    assert_empty(&cache.write_path_prefixes);
    assert_empty(&cache.sandbox_bypass_commands);
}

fn pending_approval_with_escalation(
    command_pattern: Option<Vec<String>>,
    requests_escalation: bool,
    command: Option<String>,
) -> PendingApproval {
    PendingApproval {
        owner_session_id: 1,
        turn_id: 2,
        tool_name: "shell_command".to_string(),
        resource: Some(ResourceKind::ShellExec),
        path: None,
        host: None,
        command_prefix: None,
        command_pattern,
        requests_escalation,
        command,
        cwd: "/workspace".to_string(),
        sandbox_permissions: if requests_escalation { "require_escalated".to_string() } else { String::new() },
    }
}

fn pending_approval(command_pattern: Option<Vec<String>>) -> PendingApproval {
    pending_approval_with_escalation(command_pattern, false, None)
}

#[test]
fn command_prefix_persist_scope_stores_prefix_in_session_cache() {
    let mut session_cache = ApprovalGrantCache::new();
    let mut turn_cache = ApprovalGrantCache::new();
    let mut pending = pending_approval(None);
    pending.command_prefix = Some(words(&["git", "pull"]));

    apply_approval_scope_to_state(&mut session_cache, &mut turn_cache, ApprovalScopeValue::CommandPrefixPersist, &pending);

    assert_only(&session_cache.command_prefixes, &["git", "pull"]);
    assert_empty(&session_cache.tools);
    assert_empty(&session_cache.hosts);
    assert_cache_empty(&turn_cache);
}

#[test]
fn host_scope_stores_host_in_session_cache() {
    let mut session_cache = ApprovalGrantCache::new();
    let mut turn_cache = ApprovalGrantCache::new();
    let pending = PendingApproval {
        owner_session_id: 1,
        turn_id: 2,
        tool_name: "fetch".to_string(),
        resource: Some(ResourceKind::Network),
        path: None,
        host: Some("api.example.com".to_string()),
        command_prefix: None,
        command_pattern: None,
        requests_escalation: false,
        command: None,
        cwd: "/workspace".to_string(),
        sandbox_permissions: String::new(),
    };

    apply_approval_scope_to_state(&mut session_cache, &mut turn_cache, ApprovalScopeValue::Host, &pending);

    assert_only(&session_cache.hosts, &["api.example.com"]);
    assert_empty(&session_cache.tools);
    assert_cache_empty(&turn_cache);
}

#[test]
fn path_prefix_scope_stores_parent_directory_for_files() {
    let mut session_cache = ApprovalGrantCache::new();
    let mut turn_cache = ApprovalGrantCache::new();
    let pending = PendingApproval {
        owner_session_id: 1,
        turn_id: 2,
        tool_name: "write".to_string(),
        resource: Some(ResourceKind::FileWrite),
        path: Some("/workspace/src/main.rs".to_string()),
        host: None,
        command_prefix: None,
        command_pattern: None,
        requests_escalation: false,
        command: None,
        cwd: "/workspace".to_string(),
        sandbox_permissions: String::new(),
    };

    apply_approval_scope_to_state(&mut session_cache, &mut turn_cache, ApprovalScopeValue::PathPrefix, &pending);

    assert_only(&session_cache.write_path_prefixes, &["/workspace/src"]);
    assert_empty(&session_cache.read_path_prefixes);
    assert_cache_empty(&turn_cache);
}

#[test]
fn path_prefix_scope_stores_read_grants_separately() {
    let mut session_cache = ApprovalGrantCache::new();
    let mut turn_cache = ApprovalGrantCache::new();
    let pending = PendingApproval {
        owner_session_id: 1,
        turn_id: 2,
        tool_name: "read".to_string(),
        resource: Some(ResourceKind::FileRead),
        path: Some("/workspace/src/main.rs".to_string()),
        host: None,
        command_prefix: None,
        command_pattern: None,
        requests_escalation: false,
        command: None,
        cwd: "/workspace".to_string(),
        sandbox_permissions: String::new(),
    };

    apply_approval_scope_to_state(&mut session_cache, &mut turn_cache, ApprovalScopeValue::PathPrefix, &pending);

    assert_only(&session_cache.read_path_prefixes, &["/workspace/src"]);
    assert_empty(&session_cache.write_path_prefixes);
}

#[test]
fn session_scope_stores_sandbox_bypass_for_escalation() {
    let mut session_cache = ApprovalGrantCache::new();
    let mut turn_cache = ApprovalGrantCache::new();
    let pending = pending_approval_with_escalation(None, true, Some("npm install".to_string()));

    apply_approval_scope_to_state(&mut session_cache, &mut turn_cache, ApprovalScopeValue::Session, &pending);

    assert_only(&session_cache.exact_commands, &["npm install", "/workspace"]);
    assert_only(&session_cache.sandbox_bypass_commands, &["npm install", "/workspace", "require_escalated"]);
    assert_empty(&session_cache.tools);
    assert_cache_empty(&turn_cache);
}

#[test]
fn session_scope_with_exact_command_prefers_exact_over_pattern() {
    let mut session_cache = ApprovalGrantCache::new();
    let mut turn_cache = ApprovalGrantCache::new();
    let mut pending = pending_approval(Some(words(&["git", "add", "*"])));
    pending.command = Some("git add file.txt".to_string());

    apply_approval_scope_to_state(&mut session_cache, &mut turn_cache, ApprovalScopeValue::Session, &pending);

    assert_only(&session_cache.exact_commands, &["git add file.txt", "/workspace"]);
    assert_empty(&session_cache.command_patterns);
    assert_empty(&session_cache.sandbox_bypass_commands);
    assert_cache_empty(&turn_cache);
}

#[test]
fn session_scope_with_pattern_stores_pattern_not_tool_name() {
    let mut session_cache = ApprovalGrantCache::new();
    let mut turn_cache = ApprovalGrantCache::new();
    let pending = pending_approval(Some(words(&["git", "add", "*"])));

    apply_approval_scope_to_state(&mut session_cache, &mut turn_cache, ApprovalScopeValue::Session, &pending);

    assert_only(&session_cache.command_patterns, &["git", "add", "*"]);
    assert_empty(&session_cache.tools);
    assert_cache_empty(&turn_cache);
}

#[test]
fn session_scope_without_pattern_keeps_tool_grant() {
    let mut session_cache = ApprovalGrantCache::new();
    let mut turn_cache = ApprovalGrantCache::new();
    let pending = pending_approval(None);

    apply_approval_scope_to_state(&mut session_cache, &mut turn_cache, ApprovalScopeValue::Session, &pending);

    assert_only(&session_cache.tools, &["shell_command"]);
    assert_empty(&session_cache.command_patterns);
    assert_cache_empty(&turn_cache);
}

#[test]
fn path_prefix_scope_updates_inline_cache_and_profile_for_child_path() {
    let dir = "/tmp".to_string();
    let mut session_cache = ApprovalGrantCache::new();
    let mut turn_cache = ApprovalGrantCache::new();
    let mut profile = RuntimePermissionProfile { readable_roots: GrantSet::new(), writable_roots: GrantSet::new() };
    let pending = PendingApproval {
        owner_session_id: 1,
        turn_id: 2,
        tool_name: "read".to_string(),
        resource: Some(ResourceKind::FileRead),
        path: Some(dir.clone()),
        host: None,
        command_prefix: None,
        command_pattern: None,
        requests_escalation: false,
        command: None,
        cwd: "/".to_string(),
        sandbox_permissions: String::new(),
    };

    apply_approval_scope_to_state(&mut session_cache, &mut turn_cache, ApprovalScopeValue::PathPrefix, &pending);
    apply_path_scope_to_permission_profile(&mut profile, ApprovalScopeValue::PathPrefix, &pending);

    let grant_root = path_prefix_grant_root(&dir);
    assert_eq!(grant_root, dir);
    assert!(session_cache.read_path_prefixes.contains(&vec![grant_root.clone()]));
    assert!(profile.readable_roots.contains(&vec![grant_root.clone()]));
    assert!("/tmp/helper.rs".starts_with(grant_root.as_str()));
    assert_empty(&profile.writable_roots);
}

#[test]
fn every_authorization_outcome_has_an_explicit_source() {
    let decisions = [
        AuthorizationDecision::Allow { source: ApprovalDecisionSource::StaticPolicy },
        AuthorizationDecision::Ask { source: ApprovalDecisionSource::ExecPolicy },
        AuthorizationDecision::Deny { source: ApprovalDecisionSource::Hook, reason: "blocked".to_string() },
    ];
    assert_eq!(
        decisions.map(|decision| decision.source()),
        [ApprovalDecisionSource::StaticPolicy, ApprovalDecisionSource::ExecPolicy, ApprovalDecisionSource::Hook]
    );
}

#[test]
fn once_scope_grants_nothing() {
    let mut session_cache = ApprovalGrantCache::new();
    let mut turn_cache = ApprovalGrantCache::new();
    let pending = pending_approval(Some(words(&["ls"])));
    apply_approval_scope_to_state(&mut session_cache, &mut turn_cache, ApprovalScopeValue::Once, &pending);
    assert_cache_empty(&session_cache);
    assert_cache_empty(&turn_cache);
}

#[test]
fn turn_scope_grants_the_tool_for_the_turn_only() {
    let mut session_cache = ApprovalGrantCache::new();
    let mut turn_cache = ApprovalGrantCache::new();
    let pending = pending_approval(None);
    apply_approval_scope_to_state(&mut session_cache, &mut turn_cache, ApprovalScopeValue::Turn, &pending);
    assert_cache_empty(&session_cache);
    assert_only(&turn_cache.tools, &["shell_command"]);
}

#[test]
fn applying_a_scope_twice_changes_nothing_more() {
    let mut session_cache = ApprovalGrantCache::new();
    let mut turn_cache = ApprovalGrantCache::new();
    let pending = pending_approval(Some(words(&["git", "add", "*"])));
    apply_approval_scope_to_state(&mut session_cache, &mut turn_cache, ApprovalScopeValue::Session, &pending);
    apply_approval_scope_to_state(&mut session_cache, &mut turn_cache, ApprovalScopeValue::Session, &pending);
    assert_only(&session_cache.command_patterns, &["git", "add", "*"]);
}

#[test]
fn grant_root_of_a_file_is_its_parent() {
    assert_eq!(path_prefix_grant_root("/workspace/src/main.rs"), "/workspace/src");
    assert_eq!(path_prefix_grant_root("/"), "/");
}

#[test]
fn write_approvals_widen_writable_roots_only() {
    let mut profile = RuntimePermissionProfile { readable_roots: GrantSet::new(), writable_roots: GrantSet::new() };
    let mut pending = pending_approval(None);
    pending.resource = Some(ResourceKind::FileWrite);
    pending.path = Some("/workspace/out/report.txt".to_string());
    apply_path_scope_to_permission_profile(&mut profile, ApprovalScopeValue::PathPrefix, &pending);
    assert_only(&profile.writable_roots, &["/workspace/out"]);
    assert_empty(&profile.readable_roots);
    apply_path_scope_to_permission_profile(&mut profile, ApprovalScopeValue::Host, &pending);
    assert_only(&profile.writable_roots, &["/workspace/out"]);
}
