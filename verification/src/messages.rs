//! User-visible messages in the supported locales.
pub mod catalog;
pub mod id;
pub mod locale;

use vstd::prelude::*;
use crate::messages::catalog::message_spec;
use crate::messages::id::MessageId;
use crate::messages::locale::Locale;
use crate::text::views;

verus! {

/// Formats a user-visible message for `locale`.
pub fn t(locale: Locale, id: MessageId, args: &[String]) -> (r: String)
    ensures
        r@ == message_spec(locale, id, views(args@)),
{
    crate::messages::catalog::format(locale, id, args)
}

} // verus!
