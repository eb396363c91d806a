//! The schema version of the session database and the error for a mismatch.
use vstd::prelude::*;
use crate::error::Error;
use crate::messages::id::MessageId;
use crate::text::{chars_of, push_str, to_string};

verus! {

/// The schema version this release reads and writes.
pub const SCHEMA_VERSION: i32 = 1;

/// The explanation given when the database has another schema.
pub open spec fn incompatible_text(db_path: Seq<char>) -> Seq<char> {
    "sessions.db schema 不兼容（需要 version 1）。请备份后删除 "@ + db_path
        + " 并重新运行 hi（将自动重建）。导出全文: hi session export"@
}

/// The error for a database whose schema this release cannot use.
pub fn incompatible_error(db_path: &str) -> (r: Error)
    ensures
        r matches Error::Localized(id, args) && id == MessageId::SchemaIncompatible
            && crate::text::views(args@) == seq![incompatible_text(db_path@)],
{
    let mut v = chars_of("sessions.db schema 不兼容（需要 version 1）。请备份后删除 ");
    push_str(&mut v, db_path);
    push_str(&mut v, " 并重新运行 hi（将自动重建）。导出全文: hi session export");
    Error::with_arg(MessageId::SchemaIncompatible, to_string(&v))
}

} // verus!
