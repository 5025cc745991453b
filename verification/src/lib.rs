//! Conversation threads, their messages, and the typed event stream of one
//! assistant turn.
//!
//! The store keeps threads and messages with monotonically increasing ids,
//! enforces the role-alternation invariant on request, and supports
//! incremental append of streamed assistant text. The retrieval module turns
//! raw search hits into one polymorphic attachment type. The run module is
//! the state machine that pairs every outward event of a turn with the store
//! write it reports.

pub mod rate_limit;
pub mod retrieval;
pub mod run;
pub mod thread_types;
pub mod threads;

pub use thread_types::Role;
