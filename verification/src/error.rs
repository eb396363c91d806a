//! The library's error type.
use vstd::prelude::*;
use crate::messages::catalog::message_spec;
use crate::messages::id::MessageId;
use crate::messages::locale::Locale;
use crate::messages::t;
use crate::text::{string_chars, to_string, views};

verus! {

#[derive(Debug, Clone)]
pub enum Error {
    /// Free-form message.
    Message(String),
    /// Locale-aware message, rendered by `Error::render`.
    Localized(MessageId, Vec<String>),
}

/// The text of an error in `locale`.
pub open spec fn render_spec(e: Error, locale: Locale) -> Seq<char> {
    match e {
        Error::Message(s) => s@,
        Error::Localized(id, args) => message_spec(locale, id, views(args@)),
    }
}

impl Error {
    pub fn localized(id: MessageId) -> (r: Error)
        ensures
            r matches Error::Localized(i, a) && i == id && a@.len() == 0 && views(a@) == Seq::<
                Seq<char>,
            >::empty(),
    {
        let v: Vec<String> = Vec::new();
        assert(views(v@) =~= Seq::<Seq<char>>::empty());
        Error::Localized(id, v)
    }

    pub fn with_arg(id: MessageId, arg: String) -> (r: Error)
        ensures
            r matches Error::Localized(i, a) && i == id && views(a@) == seq![arg@],
    {
        let mut v: Vec<String> = Vec::new();
        let ghost av = arg@;
        v.push(arg);
        assert(views(v@) =~= seq![av]);
        Error::Localized(id, v)
    }

    pub fn with_args(id: MessageId, args: Vec<String>) -> (r: Error)
        ensures
            r matches Error::Localized(i, a) && i == id && views(a@) == views(args@),
    {
        Error::Localized(id, args)
    }

    pub fn render(&self, locale: Locale) -> (r: String)
        ensures
            r@ == render_spec(*self, locale),
    {
        match self {
            Error::Message(s) => to_string(&string_chars(s)),
            Error::Localized(id, args) => t(locale, *id, args.as_slice()),
        }
    }
}

} // verus!
