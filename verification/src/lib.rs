//! Verified core of the devo session server: queue bookkeeping, event
//! delivery routing, approval grants, turn working-set merging and the
//! small protocol helpers around them.

pub mod approval;
pub mod compaction;
pub mod context_budget;
pub mod control;
pub mod delivery;
pub mod goals;
pub mod grants;
pub mod incoming;
pub mod interaction;
pub mod items;
pub mod journal;
pub mod mcp;
pub mod message_edit;
pub mod protocol;
pub mod provider;
pub mod queue;
pub mod queue_store;
pub mod runtime;
pub mod session_state;
pub mod text;
pub mod titles;
pub mod turn_failure;
pub mod turn_start;
pub mod workspace;
