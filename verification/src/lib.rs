//! Per-guild role configuration and authorization for a rename service.
//!
//! The crate keeps a durable mapping from (guild, role kind) to a stored
//! role name, resolves that name against the guild's live role list, and
//! decides whether a privileged action (renaming a member, opting in or
//! out of renames) may proceed and what is reported back to the invoker.

pub mod actions;
pub mod config;
pub mod gate;
pub mod resolver;
pub mod store;
pub mod types;
