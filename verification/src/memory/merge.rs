//! Tallying how extracted knots were merged into the store.
use vstd::prelude::*;
use crate::memory::extract::ExtractedKnot;
use crate::memory::types::{KnotConfidence, KnotKind, KnotVisibility, TaskStatus};
use crate::store::knots::MergeKnotResult;
use crate::text::{str_trim, trim_spec};

verus! {

/// How many extracted knots were added, superseded an older one, or skipped.
#[derive(Debug, Clone, PartialEq, Eq)]
pub struct MergeOutcome {
    pub added: usize,
    pub superseded: usize,
    pub skipped: usize,
}

impl Default for MergeOutcome {
    fn default() -> (r: Self)
        ensures
            r.added == 0 && r.superseded == 0 && r.skipped == 0,
    {
        MergeOutcome { added: 0, superseded: 0, skipped: 0 }
    }
}

impl MergeOutcome {
    /// Counts one merge: a superseding knot is also an added one.
    pub fn record(&mut self, result: MergeKnotResult)
        requires
            old(self).added < usize::MAX,
            old(self).superseded < usize::MAX,
            old(self).skipped < usize::MAX,
        ensures
            final(self).added == old(self).added + match result {
                MergeKnotResult::Added | MergeKnotResult::Superseded => 1int,
                MergeKnotResult::Skipped => 0int,
            },
            final(self).superseded == old(self).superseded
                + if result == MergeKnotResult::Superseded { 1int } else { 0int },
            final(self).skipped == old(self).skipped
                + if result == MergeKnotResult::Skipped { 1int } else { 0int },
    {
        match result {
            MergeKnotResult::Added => self.added += 1,
            MergeKnotResult::Superseded => {
                self.added += 1;
                self.superseded += 1;
            },
            MergeKnotResult::Skipped => self.skipped += 1,
        }
    }
}

/// Tasks always carry a status (open unless given); other kinds carry none.
pub open spec fn task_status_spec(kind: KnotKind, task_status: Option<TaskStatus>) -> Option<TaskStatus> {
    if kind == KnotKind::Task {
        Some(match task_status { Some(s) => s, None => TaskStatus::Open })
    } else {
        None::<TaskStatus>
    }
}

/// The status a stored knot of this kind carries.
pub fn task_status_for(kind: KnotKind, task_status: Option<TaskStatus>) -> (r: Option<TaskStatus>)
    ensures
        r == task_status_spec(kind, task_status),
{
    if kind == KnotKind::Task {
        match task_status {
            Some(s) => Some(s),
            None => Some(TaskStatus::Open),
        }
    } else {
        None
    }
}

/// What is stored for an extracted knot, but for its clarity.
#[derive(Debug, Clone)]
pub struct KnotDraft {
    pub kind: KnotKind,
    pub content: String,
    pub confidence: KnotConfidence,
    pub permanent: bool,
    pub visibility: KnotVisibility,
    pub task_status: Option<TaskStatus>,
}

/// The knot to store for an extracted one: its content trimmed, permanent when
/// confirmed, injected, with the status its kind carries; `None` when the
/// content is blank (the item is skipped).
pub fn draft_for(item: &ExtractedKnot) -> (r: Option<KnotDraft>)
    ensures
        r is None <==> trim_spec(item.content@).len() == 0,
        r matches Some(d) ==> {
            &&& d.kind == item.kind
            &&& d.content@ == trim_spec(item.content@)
            &&& d.confidence == item.confidence
            &&& d.permanent == (item.confidence == KnotConfidence::Confirmed)
            &&& d.visibility == KnotVisibility::Inject
            &&& d.task_status == task_status_spec(item.kind, item.task_status)
        },
{
    let content = str_trim(item.content.as_str());
    if content.unicode_len() == 0 {
        return None;
    }
    Some(KnotDraft {
        kind: item.kind,
        content: content.to_string(),
        confidence: item.confidence,
        permanent: item.confidence == KnotConfidence::Confirmed,
        visibility: KnotVisibility::Inject,
        task_status: task_status_for(item.kind, item.task_status),
    })
}

} // verus!
