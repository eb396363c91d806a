//! Core runtime logic of the `hi` personal assistant: shell-command risk
//! analysis and approval policy, context budgeting, channel replies,
//! configuration rules, memory keywords and user-visible messages.
pub mod text;
pub mod approval;
pub mod channel;
pub mod messages;
pub mod config;
pub mod error;
pub mod context;
pub mod diff;
pub mod event;
pub mod llm;
pub mod session;
pub mod session_reader;
pub mod tool_budget;
pub mod memory;
pub mod agent;
pub mod store;
