//! Message texts and the placeholders filled into them.
pub mod en;
pub mod zh;

use vstd::prelude::*;
use crate::messages::catalog::en::{format_en, message_en};
use crate::messages::catalog::zh::{format_zh, message_zh};
use crate::messages::id::MessageId;
use crate::messages::locale::Locale;
use crate::text::{push_all, string_chars, views};

verus! {

/// Argument `i`, empty when missing.
pub open spec fn arg_spec(args: Seq<Seq<char>>, i: int) -> Seq<char> {
    if 0 <= i < args.len() {
        args[i]
    } else {
        seq![]
    }
}

/// Spaces that bring a text of `n` characters up to `w` characters.
pub open spec fn padding(n: int, w: int) -> Seq<char> {
    Seq::new(if n < w { (w - n) as nat } else { 0 }, |i: int| ' ')
}

/// `{:<w}`: left-aligned in a field of `w` characters.
pub open spec fn pad_end_spec(s: Seq<char>, w: int) -> Seq<char> {
    s + padding(s.len() as int, w)
}

/// `{:>w}`: right-aligned in a field of `w` characters.
pub open spec fn pad_start_spec(s: Seq<char>, w: int) -> Seq<char> {
    padding(s.len() as int, w) + s
}

/// What `{:?}` writes for a string: the text in double quotes with escapes.
pub uninterp spec fn debug_str(s: Seq<char>) -> Seq<char>;

/// `format!("{:?}", s)`; the result is named by `debug_str`.
#[verifier::external_body]
fn debug_quoted(s: &str) -> (r: String)
    ensures
        r@ == debug_str(s@),
{
    format!("{:?}", s)
}

/// `format!("{:?}", s)` as a `String`.
pub fn debug_string(s: &str) -> (r: String)
    ensures
        r@ == debug_str(s@),
{
    debug_quoted(s)
}

pub fn arg_is_empty(args: &[String], i: usize) -> (r: bool)
    ensures
        r == (arg_spec(views(args@), i as int).len() == 0),
{
    if i < args.len() {
        assert(views(args@)[i as int] == args@[i as int]@);
        args[i].as_str().unicode_len() == 0
    } else {
        true
    }
}

pub fn push_arg(out: &mut Vec<char>, args: &[String], i: usize)
    ensures
        final(out)@ == old(out)@ + arg_spec(views(args@), i as int),
{
    if i < args.len() {
        assert(views(args@)[i as int] == args@[i as int]@);
        let a = string_chars(&args[i]);
        push_all(out, &a);
    } else {
        assert(old(out)@ + Seq::<char>::empty() =~= old(out)@);
    }
}

pub fn push_debug(out: &mut Vec<char>, args: &[String], i: usize)
    ensures
        final(out)@ == old(out)@ + debug_str(arg_spec(views(args@), i as int)),
{
    let d = if i < args.len() {
        assert(views(args@)[i as int] == args@[i as int]@);
        debug_quoted(args[i].as_str())
    } else {
        proof {
            reveal_strlit("");
        }
        assert(""@ =~= Seq::<char>::empty());
        debug_quoted("")
    };
    let dv = string_chars(&d);
    push_all(out, &dv);
}

pub fn push_padded(out: &mut Vec<char>, args: &[String], i: usize, w: usize, left: bool)
    ensures
        final(out)@ == old(out)@ + if left {
            pad_end_spec(arg_spec(views(args@), i as int), w as int)
        } else {
            pad_start_spec(arg_spec(views(args@), i as int), w as int)
        },
{
    let mut a: Vec<char> = Vec::new();
    push_arg(&mut a, args, i);
    let ghost s = arg_spec(views(args@), i as int);
    assert(a@ =~= s);
    let mut pad: Vec<char> = Vec::new();
    let n = a.len();
    while n + pad.len() < w
        invariant
            n == s.len(),
            pad@.len() <= (if n < w { w - n } else { 0 }),
            forall|k: int| 0 <= k < pad@.len() ==> pad@[k] == ' ',
        decreases w - n - pad.len(),
    {
        pad.push(' ');
    }
    assert(pad@ =~= padding(s.len() as int, w as int));
    if left {
        push_all(out, &a);
        push_all(out, &pad);
        assert(final(out)@ =~= old(out)@ + pad_end_spec(s, w as int)) by {
            assert(out@ =~= old(out)@ + a@ + pad@);
        }
    } else {
        push_all(out, &pad);
        push_all(out, &a);
        assert(out@ =~= old(out)@ + pad@ + a@);
    }
}

/// The text of message `id` in `locale` with `args` filled in.
pub open spec fn message_spec(locale: Locale, id: MessageId, args: Seq<Seq<char>>) -> Seq<char> {
    match locale {
        Locale::Zh => message_zh(id, args),
        Locale::En => message_en(id, args),
    }
}

pub fn format(locale: Locale, id: MessageId, args: &[String]) -> (r: String)
    ensures
        r@ == message_spec(locale, id, views(args@)),
{
    match locale {
        Locale::Zh => format_zh(id, args),
        Locale::En => format_en(id, args),
    }
}

} // verus!
