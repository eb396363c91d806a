//! Read-only access to stored sessions, for listing and history views.
use vstd::prelude::*;
use crate::error::Error;
use crate::session::SessionId;
use crate::store::records::{SessionSummary, StoredMessage};

verus! {

/// What a gateway needs to list sessions and show their history.
pub trait SessionReader: Send + Sync {
    fn list_sessions(&self) -> Result<Vec<SessionSummary>, Error>;

    fn load_all_messages(&self, session_id: &SessionId) -> Result<Vec<StoredMessage>, Error>;
}

} // verus!
