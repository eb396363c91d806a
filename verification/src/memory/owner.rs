//! Who owns a knot.
use vstd::prelude::*;
use crate::session::SessionId;
use crate::text::{chars_of, starts_with_spec, starts_with_str, to_string};

verus! {

/// Memory owner: one person or entity.
#[derive(Debug, Clone, PartialEq, Eq, Hash)]
pub struct OwnerId(pub String);

/// Sessions of message channels own their knots; others use the configured owner.
pub open spec fn owner_spec(session: Seq<char>, configured: Seq<char>) -> Seq<char> {
    if starts_with_spec(session, "wecom:"@) || starts_with_spec(session, "feishu:"@)
        || starts_with_spec(session, "weixin:"@) {
        session
    } else {
        configured
    }
}

/// The owner of knots from `session_id`, with `configured_owner` from `[memory].owner_id`.
pub fn resolve_owner(session_id: &SessionId, configured_owner: &str) -> (r: OwnerId)
    ensures
        r.0@ == owner_spec(session_id.0@, configured_owner@),
{
    let s = chars_of(session_id.0.as_str());
    if starts_with_str(&s, "wecom:") || starts_with_str(&s, "feishu:") || starts_with_str(&s, "weixin:") {
        OwnerId(to_string(&s))
    } else {
        OwnerId(to_string(&chars_of(configured_owner)))
    }
}

} // verus!
