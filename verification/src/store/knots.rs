//! Where an extracted knot came from, how a merge went, and the knot event log.
use vstd::prelude::*;
use crate::session::SessionId;

verus! {

/// Where an extraction came from: a compression or a turn.
#[derive(Debug, Clone)]
pub struct KnotProvenance {
    pub session_id: Option<SessionId>,
    pub compression_id: Option<i64>,
    pub message_id_from: Option<i64>,
    pub message_id_to: Option<i64>,
}

impl Default for KnotProvenance {
    fn default() -> (r: Self)
        ensures
            r.session_id is None,
            r.compression_id is None,
            r.message_id_from is None,
            r.message_id_to is None,
    {
        KnotProvenance {
            session_id: None,
            compression_id: None,
            message_id_from: None,
            message_id_to: None,
        }
    }
}

/// How merging one extracted knot went.
#[derive(Debug, Clone, Copy, PartialEq, Eq, Structural)]
pub enum MergeKnotResult {
    Added,
    Superseded,
    Skipped,
}

/// Entries of the knot event log.
#[derive(Debug, Clone, Copy, PartialEq, Eq, Structural)]
pub enum KnotEventType {
    Created,
    Reinforced,
    Forgot,
    Injected,
    Superseded,
    Extracted,
}

pub open spec fn event_label(e: KnotEventType) -> Seq<char> {
    match e {
        KnotEventType::Created => "created"@,
        KnotEventType::Reinforced => "reinforced"@,
        KnotEventType::Forgot => "forgot"@,
        KnotEventType::Injected => "injected"@,
        KnotEventType::Superseded => "superseded"@,
        KnotEventType::Extracted => "extracted"@,
    }
}

impl KnotEventType {
    /// The stored name of the event.
    pub fn label(self) -> (r: &'static str)
        ensures
            r@ == event_label(self),
    {
        match self {
            KnotEventType::Created => "created",
            KnotEventType::Reinforced => "reinforced",
            KnotEventType::Forgot => "forgot",
            KnotEventType::Injected => "injected",
            KnotEventType::Superseded => "superseded",
            KnotEventType::Extracted => "extracted",
        }
    }
}

} // verus!
