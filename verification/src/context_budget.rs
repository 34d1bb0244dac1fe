//! Context-window budgets: the applied compaction limit of a model and the
//! token-budget fields of a session configuration.

use vstd::prelude::*;

verus! {

/// The context-window figures of a model that the budget logic reads.
#[derive(Debug, Clone, Copy, PartialEq, Eq, Structural)]
pub struct ModelWindow {
    /// Hard context window of the model.
    pub context_window: u32,
    /// Effective (usable) context window of the model.
    pub effective_context_window: u32,
}

/// Session configuration fields that carry the token budget.
pub struct SessionConfig {
    pub effective_context_window_override: Option<usize>,
    /// `token_budget.context_window`.
    pub context_window: usize,
    /// `token_budget.auto_compact_token_limit`.
    pub auto_compact_token_limit: Option<usize>,
    pub sandbox_profile: Option<String>,
}

impl SessionConfig {
    /// A copy of this configuration.
    pub fn snapshot(&self) -> (copy: Self)
        ensures
            copy == *self,
    {
        SessionConfig {
            effective_context_window_override: self.effective_context_window_override,
            context_window: self.context_window,
            auto_compact_token_limit: self.auto_compact_token_limit,
            sandbox_profile: crate::grants::copy_opt_text(&self.sandbox_profile),
        }
    }
}

/// The larger of two integers.
pub open spec fn max_int(a: int, b: int) -> int {
    if a >= b {
        a
    } else {
        b
    }
}

/// The smaller of two integers.
pub open spec fn min_int(a: int, b: int) -> int {
    if a <= b {
        a
    } else {
        b
    }
}

/// The applied compaction limit: a positive global limit clamped to the
/// model's hard window, otherwise the model's effective window (itself
/// clamped to the hard window); never below 1.
pub open spec fn compaction_limit(global: Option<u64>, model: ModelWindow) -> int {
    let window = max_int(model.context_window as int, 1);
    match global {
        Some(limit) if limit > 0 => max_int(min_int(limit as int, window), 1),
        _ => max_int(min_int(model.effective_context_window as int, window), 1),
    }
}

/// Resolve the applied compaction / effective-context limit for a model.
///
/// When a global `compaction_token_limit` is set, clamp it to the model's hard
/// `context_window`. Otherwise use the model's effective context window.
pub fn resolved_compaction_limit(global: Option<u64>, model: &ModelWindow) -> (limit: u64)
    ensures
        limit == compaction_limit(global, *model),
        1 <= limit <= max_int(model.context_window as int, 1),
{
    let model_window: u64 = if model.context_window > 1 {
        model.context_window as u64
    } else {
        1
    };
    let effective = model.effective_context_window as u64;
    let clamped = if effective < model_window {
        effective
    } else {
        model_window
    };
    let model_effective = if clamped > 1 {
        clamped
    } else {
        1
    };
    match global {
        Some(limit) if limit > 0 => {
            let clamped = if limit < model_window {
                limit
            } else {
                model_window
            };
            if clamped > 1 {
                clamped
            } else {
                1
            }
        },
        _ => model_effective,
    }
}

/// Apply an absolute compaction limit onto session token-budget fields.
pub fn apply_resolved_compaction_limit(config: &mut SessionConfig, limit: usize)
    ensures
        final(config).effective_context_window_override == Some(limit),
        final(config).context_window == limit,
        final(config).auto_compact_token_limit == Some(limit),
        final(config).sandbox_profile == old(config).sandbox_profile,
{
    config.effective_context_window_override = Some(limit);
    config.context_window = limit;
    config.auto_compact_token_limit = Some(limit);
}

/// The context window reported by `context/usage/read` for a session that
/// has no measured occupancy yet: the resolved limit of its model, or the
/// global limit (0 when unset) when the model is unknown.
pub fn context_usage_window(global: Option<u64>, model: Option<&ModelWindow>) -> (window: u64)
    ensures
        window == match model {
            Some(m) => compaction_limit(global, *m),
            None => match global {
                Some(g) => g as int,
                None => 0,
            },
        },
{
    match model {
        Some(model) => resolved_compaction_limit(global, model),
        None => match global {
            Some(g) => g,
            None => 0,
        },
    }
}

/// Token counts per context category.
#[derive(Debug, Clone, Copy, PartialEq, Eq, Structural)]
pub struct ContextCategoryTokens {
    pub base: u64,
    pub skills: u64,
    pub tools_builtin: u64,
    pub tools_mcp: u64,
    pub conversation: u64,
}

/// The category split after a compaction: the fixed categories (base,
/// skills, built-in and MCP tools) carry over from the previous snapshot,
/// else from the raw breakdown, else are zero; the conversation takes the
/// compacted size.
pub fn occupancy_categories_after_compaction(
    previous: Option<ContextCategoryTokens>,
    conversation_tokens: u64,
    fallback_raw: Option<ContextCategoryTokens>,
) -> (split: ContextCategoryTokens)
    ensures
        split.conversation == conversation_tokens,
        previous is Some ==> split == (ContextCategoryTokens {
            conversation: conversation_tokens,
            ..previous->0
        }),
        previous is None && fallback_raw is Some ==> split == (ContextCategoryTokens {
            conversation: conversation_tokens,
            ..fallback_raw->0
        }),
        previous is None && fallback_raw is None ==> split == (ContextCategoryTokens {
            base: 0,
            skills: 0,
            tools_builtin: 0,
            tools_mcp: 0,
            conversation: conversation_tokens,
        }),
{
    let source = match previous {
        Some(previous) => previous,
        None => match fallback_raw {
            Some(raw) => raw,
            None => ContextCategoryTokens { base: 0, skills: 0, tools_builtin: 0, tools_mcp: 0, conversation: 0 },
        },
    };
    ContextCategoryTokens { conversation: conversation_tokens, ..source }
}

} // verus!
