//! Rows of the session database as the library hands them around.
use vstd::prelude::*;
use crate::llm::ChatMessage;
use crate::session::SessionId;

verus! {

/// One context compression: the compressed message range stays stored but
/// leaves the context.
#[derive(Debug, Clone, PartialEq, Eq)]
pub struct SessionCompression {
    pub id: i64,
    pub session_id: SessionId,
    pub message_id_from: i64,
    pub message_id_to: i64,
    pub message_count: u32,
    pub token_estimate: Option<u32>,
    pub summary_text: Option<String>,
    pub created_at: i64,
}

/// A compression about to be recorded.
#[derive(Debug, Clone)]
pub struct NewSessionCompression {
    pub message_id_from: i64,
    pub message_id_to: i64,
    pub message_count: u32,
    pub token_estimate: Option<u32>,
    pub summary_text: Option<String>,
}

/// A stored chat message with its stable id; `in_context` says whether the
/// model still sees it.
#[derive(Debug, Clone)]
pub struct StoredMessage {
    pub id: i64,
    pub message: ChatMessage,
    pub in_context: bool,
}

/// A row of the session listing.
#[derive(Debug, Clone, PartialEq, Eq)]
pub struct SessionSummary {
    pub session_id: SessionId,
    pub working_directory: String,
    pub updated_at: i64,
    pub message_total: u64,
    pub message_in_context: u64,
    pub last_compression_at: Option<i64>,
}

} // verus!
