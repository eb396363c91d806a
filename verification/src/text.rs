//! Character-sequence helpers shared by the whole library.
//!
//! Strings are handled as `Vec<char>` inside the library; their model is the
//! `Seq<char>` view. Public entry points take `&str` and hand back `String`.
use vstd::prelude::*;

verus! {

/// Unicode `White_Space`, the set that `char::is_whitespace` and `str::trim` use.
pub open spec fn is_ws_spec(c: char) -> bool {
    let u = c as u32;
    (0x09 <= u && u <= 0x0D) || u == 0x20 || u == 0x85 || u == 0xA0 || u == 0x1680 || (0x2000
        <= u && u <= 0x200A) || u == 0x2028 || u == 0x2029 || u == 0x202F || u == 0x205F || u
        == 0x3000
}

/// ASCII whitespace as `u8::is_ascii_whitespace` defines it (no vertical tab).
pub open spec fn is_ascii_ws_byte_spec(b: u8) -> bool {
    b == 0x20 || b == 0x09 || b == 0x0A || b == 0x0C || b == 0x0D
}

/// The text without its leading white space (`str::trim_start`).
pub open spec fn trim_start_spec(s: Seq<char>) -> Seq<char>
    decreases s.len(),
{
    if s.len() > 0 && is_ws_spec(s[0]) {
        trim_start_spec(s.drop_first())
    } else {
        s
    }
}

pub open spec fn trim_end_spec(s: Seq<char>) -> Seq<char>
    decreases s.len(),
{
    if s.len() > 0 && is_ws_spec(s.last()) {
        trim_end_spec(s.drop_last())
    } else {
        s
    }
}

/// `str::trim`: whitespace removed at both ends.
pub open spec fn trim_spec(s: Seq<char>) -> Seq<char> {
    trim_end_spec(trim_start_spec(s))
}

pub open spec fn starts_with_spec(s: Seq<char>, p: Seq<char>) -> bool {
    p.len() <= s.len() && s.subrange(0, p.len() as int) == p
}

pub open spec fn ends_with_spec(s: Seq<char>, p: Seq<char>) -> bool {
    p.len() <= s.len() && s.subrange(s.len() - p.len(), s.len() as int) == p
}

/// `p` occurs in `s` at position `i`.
pub open spec fn occurs_at(s: Seq<char>, p: Seq<char>, i: int) -> bool {
    0 <= i && i + p.len() <= s.len() && s.subrange(i, i + p.len()) == p
}

/// `str::contains` with a string pattern.
pub open spec fn contains_spec(s: Seq<char>, p: Seq<char>) -> bool {
    exists|i: int| occurs_at(s, p, i)
}

/// `str::replace`: left-to-right, non-overlapping replacement of a non-empty pattern.
pub open spec fn replace_spec(s: Seq<char>, pat: Seq<char>, rep: Seq<char>) -> Seq<char>
    decreases s.len(),
{
    if pat.len() == 0 || s.len() < pat.len() {
        s
    } else if s.subrange(0, pat.len() as int) == pat {
        rep + replace_spec(s.skip(pat.len() as int), pat, rep)
    } else {
        seq![s[0]] + replace_spec(s.drop_first(), pat, rep)
    }
}

pub open spec fn ascii_lower_char(c: char) -> char {
    if 'A' <= c && c <= 'Z' {
        (((c as u32) as u8 + 32) as u8 as u32) as char
    } else {
        c
    }
}

/// `str::to_ascii_lowercase`.
pub open spec fn ascii_lower_spec(s: Seq<char>) -> Seq<char> {
    Seq::new(s.len(), |i: int| ascii_lower_char(s[i]))
}

/// `str::eq_ignore_ascii_case`.
pub open spec fn eq_ignore_ascii_case_spec(a: Seq<char>, b: Seq<char>) -> bool {
    ascii_lower_spec(a) == ascii_lower_spec(b)
}

/// The parts with `sep` between them (`[..].join(sep)`).
pub open spec fn join_spec(parts: Seq<Seq<char>>, sep: Seq<char>) -> Seq<char>
    decreases parts.len(),
{
    if parts.len() == 0 {
        seq![]
    } else if parts.len() == 1 {
        parts[0]
    } else {
        join_spec(parts.drop_last(), sep) + sep + parts.last()
    }
}

pub open spec fn views(v: Seq<String>) -> Seq<Seq<char>> {
    Seq::new(v.len(), |i: int| v[i]@)
}

pub open spec fn char_views(v: Seq<Vec<char>>) -> Seq<Seq<char>> {
    Seq::new(v.len(), |i: int| v[i]@)
}

pub fn is_ws(c: char) -> (r: bool)
    ensures
        r == is_ws_spec(c),
{
    let u = c as u32;
    (0x09 <= u && u <= 0x0D) || u == 0x20 || u == 0x85 || u == 0xA0 || u == 0x1680 || (0x2000
        <= u && u <= 0x200A) || u == 0x2028 || u == 0x2029 || u == 0x202F || u == 0x205F || u
        == 0x3000
}

pub fn is_ascii_ws_byte(b: u8) -> (r: bool)
    ensures
        r == is_ascii_ws_byte_spec(b),
{
    b == 0x20 || b == 0x09 || b == 0x0A || b == 0x0C || b == 0x0D
}

pub fn byte_char(b: u8) -> (c: char)
    ensures
        c == (b as u32) as char,
{
    b as char
}

/// The characters of a string slice.
pub fn chars_of(s: &str) -> (v: Vec<char>)
    ensures
        v@ == s@,
{
    let mut v: Vec<char> = Vec::new();
    for c in it: s.chars()
        invariant
            v@ == it.seq().take(it.index() as int),
    {
        v.push(c);
    }
    proof {
        broadcast use vstd::string::group_string_axioms;

    }
    assert(v@ =~= s@);
    v
}

/// The characters of an owned string.
pub fn string_chars(s: &String) -> (v: Vec<char>)
    ensures
        v@ == s@,
{
    chars_of(s.as_str())
}

/// `String::push`: appends one character, as the standard library documents.
#[verifier::external_body]
fn string_push(s: &mut String, c: char)
    ensures
        final(s)@ == old(s)@.push(c),
{
    s.push(c)
}

/// The characters as a `String`.
pub(crate) fn to_string(v: &Vec<char>) -> (s: String)
    ensures
        s@ == v@,
{
    let mut s = String::new();
    let mut i: usize = 0;
    while i < v.len()
        invariant
            i <= v.len(),
            s@ == v@.take(i as int),
        decreases v.len() - i,
    {
        string_push(&mut s, v[i]);
        assert(v@.take(i + 1) =~= v@.take(i as int).push(v@[i as int]));
        i += 1;
    }
    assert(v@.take(i as int) =~= v@);
    s
}

/// `char::from_u32`: the character with code `v`; `None` for a surrogate
/// code or one past U+10FFFF, as the standard library documents.
#[verifier::external_body]
pub(crate) fn char_from_u32(v: u32) -> (r: Option<char>)
    ensures
        r is Some <==> (v <= 0x10FFFF && !(0xD800 <= v && v <= 0xDFFF)),
        r is Some ==> r->0 == v as char,
{
    char::from_u32(v)
}

pub fn to_strings(v: &Vec<Vec<char>>) -> (r: Vec<String>)
    ensures
        views(r@) == char_views(v@),
{
    let mut r: Vec<String> = Vec::new();
    let mut i: usize = 0;
    while i < v.len()
        invariant
            i <= v.len(),
            r@.len() == i,
            forall|k: int| 0 <= k < i ==> r@[k]@ == v@[k]@,
        decreases v.len() - i,
    {
        r.push(to_string(&v[i]));
        i += 1;
    }
    assert(views(r@) =~= char_views(v@));
    r
}

pub fn strings_chars(v: &Vec<String>) -> (r: Vec<Vec<char>>)
    ensures
        char_views(r@) == views(v@),
{
    let mut r: Vec<Vec<char>> = Vec::new();
    let mut i: usize = 0;
    while i < v.len()
        invariant
            i <= v.len(),
            r@.len() == i,
            forall|k: int| 0 <= k < i ==> r@[k]@ == v@[k]@,
        decreases v.len() - i,
    {
        r.push(string_chars(&v[i]));
        i += 1;
    }
    assert(char_views(r@) =~= views(v@));
    r
}

pub fn copy_chars(s: &Vec<char>) -> (r: Vec<char>)
    ensures
        r@ == s@,
{
    slice_chars(s, 0, s.len())
}

pub fn slice_chars(s: &Vec<char>, a: usize, b: usize) -> (r: Vec<char>)
    requires
        a <= b <= s.len(),
    ensures
        r@ == s@.subrange(a as int, b as int),
{
    let mut r: Vec<char> = Vec::new();
    let mut i = a;
    while i < b
        invariant
            a <= i <= b <= s.len(),
            r@ == s@.subrange(a as int, i as int),
        decreases b - i,
    {
        r.push(s[i]);
        i += 1;
    }
    r
}

pub fn push_all(dst: &mut Vec<char>, src: &Vec<char>)
    ensures
        final(dst)@ == old(dst)@ + src@,
{
    let ghost d0 = dst@;
    let mut i: usize = 0;
    while i < src.len()
        invariant
            i <= src.len(),
            dst@ == d0 + src@.subrange(0, i as int),
        decreases src.len() - i,
    {
        dst.push(src[i]);
        i += 1;
    }
    assert(src@.subrange(0, src.len() as int) =~= src@);
}

pub fn push_str(dst: &mut Vec<char>, s: &str)
    ensures
        final(dst)@ == old(dst)@ + s@,
{
    let v = chars_of(s);
    push_all(dst, &v);
}

pub fn concat(a: &Vec<char>, b: &Vec<char>) -> (r: Vec<char>)
    ensures
        r@ == a@ + b@,
{
    let mut r = copy_chars(a);
    push_all(&mut r, b);
    r
}

pub fn chars_eq(a: &Vec<char>, b: &Vec<char>) -> (r: bool)
    ensures
        r == (a@ == b@),
{
    if a.len() != b.len() {
        return false;
    }
    let mut i: usize = 0;
    while i < a.len()
        invariant
            i <= a.len() == b.len(),
            a@.subrange(0, i as int) == b@.subrange(0, i as int),
        decreases a.len() - i,
    {
        if a[i] != b[i] {
            assert(a@[i as int] != b@[i as int]);
            return false;
        }
        assert(a@.subrange(0, i + 1) =~= a@.subrange(0, i as int).push(a@[i as int]));
        assert(b@.subrange(0, i + 1) =~= b@.subrange(0, i as int).push(b@[i as int]));
        i += 1;
    }
    assert(a@ =~= a@.subrange(0, a.len() as int));
    assert(b@ =~= b@.subrange(0, b.len() as int));
    true
}

pub fn eq_str(a: &Vec<char>, b: &str) -> (r: bool)
    ensures
        r == (a@ == b@),
{
    let bv = chars_of(b);
    chars_eq(a, &bv)
}

pub fn contains_char(s: &Vec<char>, c: char) -> (r: bool)
    ensures
        r == s@.contains(c),
{
    let mut i: usize = 0;
    while i < s.len()
        invariant
            i <= s.len(),
            forall|k: int| 0 <= k < i ==> s@[k] != c,
        decreases s.len() - i,
    {
        if s[i] == c {
            return true;
        }
        i += 1;
    }
    false
}

/// Whether `p` occurs in `s` starting at index `i`.
pub fn matches_at(s: &Vec<char>, p: &Vec<char>, i: usize) -> (r: bool)
    ensures
        r == occurs_at(s@, p@, i as int),
{
    if i > s.len() || p.len() > s.len() - i {
        return false;
    }
    let mut k: usize = 0;
    while k < p.len()
        invariant
            i + p.len() <= s.len(),
            k <= p.len(),
            forall|j: int| 0 <= j < k ==> s@[i + j] == p@[j],
        decreases p.len() - k,
    {
        if s[i + k] != p[k] {
            assert(s@.subrange(i as int, i + p.len())[k as int] != p@[k as int]);
            return false;
        }
        k += 1;
    }
    assert(s@.subrange(i as int, i + p.len()) =~= p@);
    true
}

pub fn starts_with(s: &Vec<char>, p: &Vec<char>) -> (r: bool)
    ensures
        r == starts_with_spec(s@, p@),
{
    matches_at(s, p, 0)
}

pub fn starts_with_str(s: &Vec<char>, p: &str) -> (r: bool)
    ensures
        r == starts_with_spec(s@, p@),
{
    let pv = chars_of(p);
    starts_with(s, &pv)
}

pub fn ends_with(s: &Vec<char>, p: &Vec<char>) -> (r: bool)
    ensures
        r == ends_with_spec(s@, p@),
{
    if p.len() > s.len() {
        return false;
    }
    matches_at(s, p, s.len() - p.len())
}

pub fn contains(s: &Vec<char>, p: &Vec<char>) -> (r: bool)
    ensures
        r == contains_spec(s@, p@),
{
    if p.len() > s.len() {
        assert forall|i: int| !occurs_at(s@, p@, i) by {}
        return false;
    }
    if p.len() == 0 {
        assert(s@.subrange(0, 0) =~= p@);
        assert(occurs_at(s@, p@, 0));
        return true;
    }
    let mut i: usize = 0;
    while i <= s.len() - p.len()
        invariant
            0 < p.len() <= s.len(),
            i <= s.len() - p.len() + 1,
            forall|j: int| 0 <= j < i ==> !occurs_at(s@, p@, j),
        decreases s.len() - p.len() + 1 - i,
    {
        if matches_at(s, p, i) {
            return true;
        }
        i += 1;
    }
    assert forall|j: int| !occurs_at(s@, p@, j) by {
        if 0 <= j && j + p@.len() <= s@.len() {
            assert(j < i);
        }
    }
    false
}

pub fn contains_str(s: &Vec<char>, p: &str) -> (r: bool)
    ensures
        r == contains_spec(s@, p@),
{
    let pv = chars_of(p);
    contains(s, &pv)
}

pub proof fn lemma_trim_start_skip(s: Seq<char>, i: int)
    requires
        0 <= i <= s.len(),
        forall|k: int| 0 <= k < i ==> is_ws_spec(s[k]),
    ensures
        trim_start_spec(s) == trim_start_spec(s.skip(i)),
    decreases i,
{
    if i > 0 {
        assert(s.drop_first().skip(i - 1) =~= s.skip(i));
        lemma_trim_start_skip(s.drop_first(), i - 1);
    } else {
        assert(s.skip(0) =~= s);
    }
}

pub proof fn lemma_trim_end_take(s: Seq<char>, j: int)
    requires
        0 <= j <= s.len(),
        forall|k: int| j <= k < s.len() ==> is_ws_spec(s[k]),
    ensures
        trim_end_spec(s) == trim_end_spec(s.take(j)),
    decreases s.len() - j,
{
    if j < s.len() {
        assert(s.drop_last().take(j) =~= s.take(j));
        lemma_trim_end_take(s.drop_last(), j);
    } else {
        assert(s.take(j) =~= s);
    }
}

pub fn trim(s: &Vec<char>) -> (r: Vec<char>)
    ensures
        r@ == trim_spec(s@),
{
    let mut i: usize = 0;
    while i < s.len() && is_ws(s[i])
        invariant
            i <= s.len(),
            forall|k: int| 0 <= k < i ==> is_ws_spec(s@[k]),
        decreases s.len() - i,
    {
        i += 1;
    }
    proof {
        lemma_trim_start_skip(s@, i as int);
        let t = s@.skip(i as int);
        if t.len() > 0 {
            assert(t[0] == s@[i as int]);
        }
    }
    let mut j: usize = s.len();
    while j > i && is_ws(s[j - 1])
        invariant
            i <= j <= s.len(),
            forall|k: int| j <= k < s.len() ==> is_ws_spec(s@[k]),
        decreases j - i,
    {
        j -= 1;
    }
    proof {
        let t = s@.skip(i as int);
        assert forall|k: int| j - i <= k < t.len() implies is_ws_spec(t[k]) by {
            assert(t[k] == s@[i + k]);
        }
        lemma_trim_end_take(t, j - i);
        let u = t.take(j - i);
        if u.len() > 0 {
            assert(u.last() == s@[j - 1]);
        }
        assert(u =~= s@.subrange(i as int, j as int));
    }
    slice_chars(s, i, j)
}

/// `s[k..].trim_start()`.
pub fn trim_start_from(s: &Vec<char>, k: usize) -> (r: Vec<char>)
    requires
        k <= s.len(),
    ensures
        r@ == trim_start_spec(s@.skip(k as int)),
        r@.len() <= s@.len() - k,
{
    let mut i: usize = k;
    while i < s.len() && is_ws(s[i])
        invariant
            k <= i <= s.len(),
            forall|m: int| k <= m < i ==> is_ws_spec(s@[m]),
        decreases s.len() - i,
    {
        i += 1;
    }
    proof {
        let t = s@.skip(k as int);
        assert forall|m: int| 0 <= m < i - k implies is_ws_spec(t[m]) by {
            assert(t[m] == s@[k + m]);
        }
        lemma_trim_start_skip(t, i - k);
        assert(t.skip(i - k) =~= s@.subrange(i as int, s@.len() as int));
        let u = t.skip(i - k);
        if u.len() > 0 {
            assert(u[0] == s@[i as int]);
        }
    }
    slice_chars(s, i, s.len())
}

/// `parts.join(sep)`.
pub fn join_chars(parts: &Vec<Vec<char>>, sep: &Vec<char>) -> (r: Vec<char>)
    ensures
        r@ == join_spec(char_views(parts@), sep@),
{
    let mut out: Vec<char> = Vec::new();
    let mut i: usize = 0;
    while i < parts.len()
        invariant
            i <= parts.len(),
            out@ == join_spec(char_views(parts@).take(i as int), sep@),
        decreases parts.len() - i,
    {
        let ghost before = out@;
        if i > 0 {
            push_all(&mut out, sep);
        }
        push_all(&mut out, &parts[i]);
        proof {
            let t = char_views(parts@).take(i + 1);
            assert(t.drop_last() =~= char_views(parts@).take(i as int));
            assert(t.last() == parts@[i as int]@);
            if i == 0 {
                assert(out@ =~= parts@[0]@);
            }
        }
        i += 1;
    }
    assert(char_views(parts@).take(parts.len() as int) =~= char_views(parts@));
    out
}

pub fn trim_str(s: &str) -> (r: Vec<char>)
    ensures
        r@ == trim_spec(s@),
{
    let v = chars_of(s);
    trim(&v)
}

pub fn to_ascii_lower(s: &Vec<char>) -> (r: Vec<char>)
    ensures
        r@ == ascii_lower_spec(s@),
{
    let mut r: Vec<char> = Vec::new();
    let mut i: usize = 0;
    while i < s.len()
        invariant
            i <= s.len(),
            r@ == ascii_lower_spec(s@.subrange(0, i as int)),
        decreases s.len() - i,
    {
        let c = s[i];
        let l = if 'A' <= c && c <= 'Z' {
            ((c as u8) + 32) as char
        } else {
            c
        };
        r.push(l);
        i += 1;
        assert(ascii_lower_spec(s@.subrange(0, i as int)) =~= ascii_lower_spec(
            s@.subrange(0, i - 1),
        ).push(l));
    }
    assert(s@.subrange(0, s.len() as int) =~= s@);
    r
}

pub fn eq_ignore_ascii_case(a: &Vec<char>, b: &Vec<char>) -> (r: bool)
    ensures
        r == eq_ignore_ascii_case_spec(a@, b@),
{
    let la = to_ascii_lower(a);
    let lb = to_ascii_lower(b);
    chars_eq(&la, &lb)
}

pub fn replace(s: &Vec<char>, pat: &Vec<char>, rep: &Vec<char>) -> (r: Vec<char>)
    requires
        pat@.len() > 0,
    ensures
        r@ == replace_spec(s@, pat@, rep@),
{
    let mut out: Vec<char> = Vec::new();
    let mut i: usize = 0;
    assert(s@.skip(0) =~= s@);
    assert(out@ + replace_spec(s@, pat@, rep@) =~= replace_spec(s@, pat@, rep@));
    while i < s.len()
        invariant
            pat@.len() > 0,
            i <= s.len(),
            out@ + replace_spec(s@.skip(i as int), pat@, rep@) == replace_spec(s@, pat@, rep@),
        decreases s.len() - i,
    {
        let ghost t = s@.skip(i as int);
        if matches_at(s, pat, i) {
            proof {
                assert(t.subrange(0, pat@.len() as int) =~= s@.subrange(
                    i as int,
                    i + pat@.len(),
                ));
                assert(t.skip(pat@.len() as int) =~= s@.skip(i + pat@.len()));
            }
            push_all(&mut out, rep);
            i += pat.len();
            proof {
                assert(out@ + replace_spec(s@.skip(i as int), pat@, rep@) =~= (out@.subrange(
                    0,
                    out@.len() - rep@.len(),
                )) + (rep@ + replace_spec(s@.skip(i as int), pat@, rep@)));
            }
        } else {
            proof {
                if t.len() >= pat@.len() {
                    assert(t.subrange(0, pat@.len() as int) =~= s@.subrange(
                        i as int,
                        i + pat@.len(),
                    ));
                }
                assert(t.drop_first() =~= s@.skip(i + 1));
                assert(t[0] == s@[i as int]);
            }
            let ghost before = out@;
            out.push(s[i]);
            i += 1;
            proof {
                assert(out@ + replace_spec(s@.skip(i as int), pat@, rep@) =~= before + (seq![
                    s@[i - 1],
                ] + replace_spec(s@.skip(i as int), pat@, rep@)));
            }
        }
    }
    proof {
        assert(s@.skip(i as int) =~= Seq::<char>::empty());
        assert(out@ + Seq::<char>::empty() =~= out@);
    }
    out
}

} // verus!

verus! {

pub open spec fn utf8_spec(s: Seq<char>) -> Seq<u8> {
    vstd::utf8::encode_utf8(s)
}

pub proof fn lemma_encode_push(s: Seq<char>, c: char)
    ensures
        vstd::utf8::encode_utf8(s.push(c)) == vstd::utf8::encode_utf8(s)
            + vstd::utf8::encode_scalar(c as u32),
    decreases s.len(),
{
    if s.len() == 0 {
        assert(s.push(c).drop_first() =~= Seq::<char>::empty());
        assert(vstd::utf8::encode_utf8(Seq::<char>::empty()) =~= Seq::<u8>::empty());
        assert(vstd::utf8::encode_scalar(c as u32) + Seq::<u8>::empty() =~= vstd::utf8::encode_scalar(c as u32));
    } else {
        assert(s.push(c).drop_first() =~= s.drop_first().push(c));
        lemma_encode_push(s.drop_first(), c);
        assert(s.push(c)[0] == s[0]);
    }
}

/// UTF-8 bytes of a character sequence (`str::as_bytes` on the same text).
pub fn utf8_bytes(s: &Vec<char>) -> (r: Vec<u8>)
    ensures
        r@ == utf8_spec(s@),
{
    let mut r: Vec<u8> = Vec::new();
    let mut i: usize = 0;
    while i < s.len()
        invariant
            i <= s.len(),
            r@ == vstd::utf8::encode_utf8(s@.subrange(0, i as int)),
        decreases s.len() - i,
    {
        let c = s[i];
        let u = c as u32;
        proof {
            vstd::utf8::char_is_scalar(c);
        }
        let ghost before = r@;
        if u <= 0x7F {
            r.push((u & 0x7F) as u8);
        } else if u <= 0x7FF {
            r.push(0xC0 | ((u >> 6) & 0x1F) as u8);
            r.push(0x80 | (u & 0x3F) as u8);
        } else if u <= 0xFFFF {
            r.push(0xE0 | ((u >> 12) & 0x0F) as u8);
            r.push(0x80 | ((u >> 6) & 0x3F) as u8);
            r.push(0x80 | (u & 0x3F) as u8);
        } else {
            r.push(0xF0 | ((u >> 18) & 0x7) as u8);
            r.push(0x80 | ((u >> 12) & 0x3F) as u8);
            r.push(0x80 | ((u >> 6) & 0x3F) as u8);
            r.push(0x80 | (u & 0x3F) as u8);
        }
        proof {
            lemma_encode_push(s@.subrange(0, i as int), c);
            assert(s@.subrange(0, i + 1) =~= s@.subrange(0, i as int).push(c));
            assert(r@ =~= before + vstd::utf8::encode_scalar(u));
        }
        i += 1;
    }
    assert(s@.subrange(0, s.len() as int) =~= s@);
    r
}

pub fn str_utf8_bytes(s: &str) -> (r: Vec<u8>)
    ensures
        r@ == utf8_spec(s@),
{
    let v = chars_of(s);
    utf8_bytes(&v)
}

} // verus!

verus! {

pub open spec fn is_quote_char(c: char) -> bool {
    c == '"' || c == '\''
}

pub open spec fn trim_start_quotes(s: Seq<char>) -> Seq<char>
    decreases s.len(),
{
    if s.len() > 0 && is_quote_char(s[0]) {
        trim_start_quotes(s.drop_first())
    } else {
        s
    }
}

pub open spec fn trim_end_quotes(s: Seq<char>) -> Seq<char>
    decreases s.len(),
{
    if s.len() > 0 && is_quote_char(s.last()) {
        trim_end_quotes(s.drop_last())
    } else {
        s
    }
}

/// `str::trim_matches(['"', '\''])`.
pub open spec fn trim_quotes_spec(s: Seq<char>) -> Seq<char> {
    trim_end_quotes(trim_start_quotes(s))
}

/// `s` with every whitespace character removed (`split_whitespace` joined back).
pub open spec fn remove_ws_spec(s: Seq<char>) -> Seq<char>
    decreases s.len(),
{
    if s.len() == 0 {
        seq![]
    } else if is_ws_spec(s.last()) {
        remove_ws_spec(s.drop_last())
    } else {
        remove_ws_spec(s.drop_last()).push(s.last())
    }
}

pub proof fn lemma_trim_start_quotes_skip(s: Seq<char>, i: int)
    requires
        0 <= i <= s.len(),
        forall|k: int| 0 <= k < i ==> is_quote_char(s[k]),
    ensures
        trim_start_quotes(s) == trim_start_quotes(s.skip(i)),
    decreases i,
{
    if i > 0 {
        assert(s.drop_first().skip(i - 1) =~= s.skip(i));
        lemma_trim_start_quotes_skip(s.drop_first(), i - 1);
    } else {
        assert(s.skip(0) =~= s);
    }
}

pub proof fn lemma_trim_end_quotes_take(s: Seq<char>, j: int)
    requires
        0 <= j <= s.len(),
        forall|k: int| j <= k < s.len() ==> is_quote_char(s[k]),
    ensures
        trim_end_quotes(s) == trim_end_quotes(s.take(j)),
    decreases s.len() - j,
{
    if j < s.len() {
        assert(s.drop_last().take(j) =~= s.take(j));
        lemma_trim_end_quotes_take(s.drop_last(), j);
    } else {
        assert(s.take(j) =~= s);
    }
}

pub fn trim_quotes(s: &Vec<char>) -> (r: Vec<char>)
    ensures
        r@ == trim_quotes_spec(s@),
{
    let mut i: usize = 0;
    while i < s.len() && (s[i] == '"' || s[i] == '\'')
        invariant
            i <= s.len(),
            forall|k: int| 0 <= k < i ==> is_quote_char(s@[k]),
        decreases s.len() - i,
    {
        i += 1;
    }
    proof {
        lemma_trim_start_quotes_skip(s@, i as int);
        let t = s@.skip(i as int);
        if t.len() > 0 {
            assert(t[0] == s@[i as int]);
        }
    }
    let mut j: usize = s.len();
    while j > i && (s[j - 1] == '"' || s[j - 1] == '\'')
        invariant
            i <= j <= s.len(),
            forall|k: int| j <= k < s.len() ==> is_quote_char(s@[k]),
        decreases j - i,
    {
        j -= 1;
    }
    proof {
        let t = s@.skip(i as int);
        assert forall|k: int| j - i <= k < t.len() implies is_quote_char(t[k]) by {
            assert(t[k] == s@[i + k]);
        }
        lemma_trim_end_quotes_take(t, j - i);
        let u = t.take(j - i);
        if u.len() > 0 {
            assert(u.last() == s@[j - 1]);
        }
        assert(u =~= s@.subrange(i as int, j as int));
    }
    slice_chars(s, i, j)
}

pub fn remove_ws(s: &Vec<char>) -> (r: Vec<char>)
    ensures
        r@ == remove_ws_spec(s@),
{
    let mut r: Vec<char> = Vec::new();
    let mut i: usize = 0;
    while i < s.len()
        invariant
            i <= s.len(),
            r@ == remove_ws_spec(s@.subrange(0, i as int)),
        decreases s.len() - i,
    {
        proof {
            assert(s@.subrange(0, i + 1).drop_last() =~= s@.subrange(0, i as int));
        }
        if !is_ws(s[i]) {
            r.push(s[i]);
        }
        i += 1;
    }
    assert(s@.subrange(0, s.len() as int) =~= s@);
    r
}

} // verus!

verus! {

/// Lexicographic order by code point: the order of `str` and `String`.
pub open spec fn seq_lt(a: Seq<char>, b: Seq<char>) -> bool
    decreases a.len(),
{
    if a.len() == 0 {
        b.len() > 0
    } else if b.len() == 0 {
        false
    } else if a[0] != b[0] {
        a[0] < b[0]
    } else {
        seq_lt(a.drop_first(), b.drop_first())
    }
}

/// `seq_lt` is a strict total order.
pub proof fn lemma_seq_lt_trichotomy(a: Seq<char>, b: Seq<char>)
    ensures
        !seq_lt(a, a),
        !(seq_lt(a, b) && seq_lt(b, a)),
        a != b ==> seq_lt(a, b) || seq_lt(b, a),
    decreases a.len(),
{
    if a.len() > 0 {
        lemma_seq_lt_trichotomy(a.drop_first(), a.drop_first());
        if b.len() > 0 {
            lemma_seq_lt_trichotomy(a.drop_first(), b.drop_first());
            if a[0] == b[0] && a.drop_first() == b.drop_first() {
                assert(a =~= seq![a[0]] + a.drop_first());
                assert(b =~= seq![b[0]] + b.drop_first());
            }
        }
    } else if b.len() == 0 {
        assert(a =~= b);
    }
}

pub fn chars_lt(a: &Vec<char>, b: &Vec<char>) -> (r: bool)
    ensures
        r == seq_lt(a@, b@),
{
    let mut i: usize = 0;
    assert(a@.skip(0) =~= a@ && b@.skip(0) =~= b@);
    while i < a.len() && i < b.len() && a[i] == b[i]
        invariant
            i <= a.len(),
            i <= b.len(),
            seq_lt(a@.skip(i as int), b@.skip(i as int)) == seq_lt(a@, b@),
        decreases a.len() - i,
    {
        proof {
            assert(a@.skip(i as int).drop_first() =~= a@.skip(i + 1));
            assert(b@.skip(i as int).drop_first() =~= b@.skip(i + 1));
        }
        i += 1;
    }
    if i < a.len() && i < b.len() {
        proof {
            assert(a@.skip(i as int)[0] == a@[i as int]);
            assert(b@.skip(i as int)[0] == b@[i as int]);
        }
        a[i] < b[i]
    } else {
        i == a.len() && i < b.len()
    }
}

/// Each entry strictly below the next: sorted, without repeats.
pub open spec fn strictly_sorted(s: Seq<Seq<char>>) -> bool {
    forall|i: int| 0 <= i < s.len() - 1 ==> seq_lt(#[trigger] s[i], s[i + 1])
}

/// Inserts `x` into a strictly sorted list unless it is already there.
pub fn insert_sorted_unique(r: &mut Vec<Vec<char>>, x: Vec<char>)
    requires
        strictly_sorted(char_views(old(r)@)),
    ensures
        strictly_sorted(char_views(final(r)@)),
        forall|t: Seq<char>|
            char_views(final(r)@).contains(t) <==> (char_views(old(r)@).contains(t) || t == x@),
{
    let ghost old_v = char_views(r@);
    let mut j: usize = 0;
    while j < r.len() && chars_lt(&r[j], &x)
        invariant
            j <= r.len(),
            old_v == char_views(r@),
            strictly_sorted(old_v),
            j > 0 ==> seq_lt(old_v[j - 1], x@),
        decreases r.len() - j,
    {
        j += 1;
    }
    if j < r.len() && chars_eq(&r[j], &x) {
        proof {
            assert(old_v[j as int] == x@);
            assert forall|t: Seq<char>| old_v.contains(t) <==> (old_v.contains(t) || t == x@) by {
                if t == x@ {
                    assert(old_v[j as int] == t);
                }
            }
        }
        return;
    }
    proof {
        if j < r.len() {
            lemma_seq_lt_trichotomy(old_v[j as int], x@);
            assert(old_v[j as int] == r@[j as int]@);
        }
    }
    let ghost xv = x@;
    r.insert(j, x);
    proof {
        let nv = char_views(r@);
        assert(nv =~= old_v.insert(j as int, xv));
        assert forall|i: int| 0 <= i < nv.len() - 1 implies seq_lt(#[trigger] nv[i], nv[i + 1]) by {
            if i + 1 < j {
                assert(nv[i] == old_v[i] && nv[i + 1] == old_v[i + 1]);
            } else if i + 1 == j {
                assert(nv[i] == old_v[i] && nv[i + 1] == xv);
            } else if i == j {
                assert(nv[i] == xv && nv[i + 1] == old_v[i]);
            } else {
                assert(nv[i] == old_v[i - 1] && nv[i + 1] == old_v[i]);
            }
        }
        assert forall|t: Seq<char>| nv.contains(t) <==> (old_v.contains(t) || t == xv) by {
            if nv.contains(t) {
                let k = choose|k: int| 0 <= k < nv.len() && nv[k] == t;
                if k < j {
                    assert(old_v[k] == t);
                } else if k > j {
                    assert(old_v[k - 1] == t);
                }
            }
            if old_v.contains(t) {
                let k = choose|k: int| 0 <= k < old_v.len() && old_v[k] == t;
                if k < j {
                    assert(nv[k] == t);
                } else {
                    assert(nv[k + 1] == t);
                }
            }
            if t == xv {
                assert(nv[j as int] == t);
            }
        }
    }
}

/// The distinct entries of `v` in ascending order (`sort` then `dedup`).
pub fn sort_dedup(v: &Vec<Vec<char>>) -> (r: Vec<Vec<char>>)
    ensures
        strictly_sorted(char_views(r@)),
        forall|t: Seq<char>| char_views(r@).contains(t) <==> char_views(v@).contains(t),
{
    let mut r: Vec<Vec<char>> = Vec::new();
    let mut i: usize = 0;
    assert(char_views(r@) =~= Seq::<Seq<char>>::empty());
    while i < v.len()
        invariant
            i <= v.len(),
            strictly_sorted(char_views(r@)),
            forall|t: Seq<char>|
                char_views(r@).contains(t) <==> char_views(v@).take(i as int).contains(t),
        decreases v.len() - i,
    {
        let x = copy_chars(&v[i]);
        insert_sorted_unique(&mut r, x);
        proof {
            let a = char_views(v@).take(i as int);
            let b = char_views(v@).take(i + 1);
            assert(b =~= a.push(v@[i as int]@));
            assert forall|t: Seq<char>| b.contains(t) <==> (a.contains(t) || t == v@[i as int]@) by {
                if b.contains(t) {
                    let k = choose|k: int| 0 <= k < b.len() && b[k] == t;
                    if k < i {
                        assert(a[k] == t);
                    }
                }
                if a.contains(t) {
                    let k = choose|k: int| 0 <= k < a.len() && a[k] == t;
                    assert(b[k] == t);
                }
                if t == v@[i as int]@ {
                    assert(b[i as int] == t);
                }
            }
        }
        i += 1;
    }
    assert(char_views(v@).take(v.len() as int) =~= char_views(v@));
    r
}

} // verus!

verus! {

pub proof fn lemma_seq_lt_transitive(a: Seq<char>, b: Seq<char>, c: Seq<char>)
    requires
        seq_lt(a, b),
        seq_lt(b, c),
    ensures
        seq_lt(a, c),
    decreases a.len(),
{
    if a.len() > 0 && b.len() > 0 && c.len() > 0 && a[0] == b[0] && b[0] == c[0] {
        lemma_seq_lt_transitive(a.drop_first(), b.drop_first(), c.drop_first());
    }
}

proof fn lemma_strictly_sorted_pairs(s: Seq<Seq<char>>, i: int, j: int)
    requires
        strictly_sorted(s),
        0 <= i < j < s.len(),
    ensures
        seq_lt(s[i], s[j]),
    decreases j - i,
{
    if j > i + 1 {
        lemma_strictly_sorted_pairs(s, i, j - 1);
        assert(seq_lt(s[j - 1], s[j]));
        lemma_seq_lt_transitive(s[i], s[j - 1], s[j]);
    }
}

/// A strictly sorted list is fixed by the set of its entries.
pub proof fn lemma_strictly_sorted_unique(a: Seq<Seq<char>>, b: Seq<Seq<char>>)
    requires
        strictly_sorted(a),
        strictly_sorted(b),
        forall|t: Seq<char>| a.contains(t) <==> b.contains(t),
    ensures
        a == b,
    decreases a.len(),
{
    if a.len() == 0 {
        if b.len() > 0 {
            assert(b.contains(b[0]));
        }
        assert(a =~= b);
    } else {
        assert(a.contains(a[0]));
        assert(b.len() > 0);
        assert(b.contains(b[0]));
        let ka = choose|k: int| 0 <= k < a.len() && a[k] == b[0];
        let kb = choose|k: int| 0 <= k < b.len() && b[k] == a[0];
        if ka > 0 {
            lemma_strictly_sorted_pairs(a, 0, ka);
        }
        if kb > 0 {
            lemma_strictly_sorted_pairs(b, 0, kb);
        }
        lemma_seq_lt_trichotomy(a[0], b[0]);
        assert(a[0] == b[0]);
        let a1 = a.drop_first();
        let b1 = b.drop_first();
        assert forall|t: Seq<char>| a1.contains(t) <==> b1.contains(t) by {
            if a1.contains(t) {
                let k = choose|k: int| 0 <= k < a1.len() && a1[k] == t;
                lemma_strictly_sorted_pairs(a, 0, k + 1);
                lemma_seq_lt_trichotomy(a[0], t);
                assert(a.contains(t));
                let m = choose|m: int| 0 <= m < b.len() && b[m] == t;
                assert(m != 0);
                assert(b1[m - 1] == t);
            }
            if b1.contains(t) {
                let k = choose|k: int| 0 <= k < b1.len() && b1[k] == t;
                lemma_strictly_sorted_pairs(b, 0, k + 1);
                lemma_seq_lt_trichotomy(b[0], t);
                assert(b.contains(t));
                let m = choose|m: int| 0 <= m < a.len() && a[m] == t;
                assert(m != 0);
                assert(a1[m - 1] == t);
            }
        }
        assert forall|i: int| 0 <= i < a1.len() - 1 implies seq_lt(#[trigger] a1[i], a1[i + 1]) by {
            assert(a1[i] == a[i + 1] && a1[i + 1] == a[i + 2]);
        }
        assert forall|i: int| 0 <= i < b1.len() - 1 implies seq_lt(#[trigger] b1[i], b1[i + 1]) by {
            assert(b1[i] == b[i + 1] && b1[i + 1] == b[i + 2]);
        }
        lemma_strictly_sorted_unique(a1, b1);
        assert(a =~= seq![a[0]] + a1);
        assert(b =~= seq![b[0]] + b1);
    }
}

/// The distinct entries of `s` in ascending order.
pub open spec fn sorted_distinct(s: Seq<Seq<char>>) -> Seq<Seq<char>> {
    choose|r: Seq<Seq<char>>|
        strictly_sorted(r) && forall|t: Seq<char>| r.contains(t) <==> s.contains(t)
}

proof fn lemma_insert_sorted(r: Seq<Seq<char>>, x: Seq<char>) -> (nr: Seq<Seq<char>>)
    requires
        strictly_sorted(r),
    ensures
        strictly_sorted(nr),
        nr.len() > 0,
        nr[0] == x || (r.len() > 0 && nr[0] == r[0]),
        forall|t: Seq<char>| nr.contains(t) <==> (r.contains(t) || t == x),
    decreases r.len(),
{
    lemma_seq_lt_trichotomy(x, x);
    if r.len() == 0 {
        let nr = seq![x];
        assert forall|t: Seq<char>| nr.contains(t) <==> (r.contains(t) || t == x) by {
            if t == x {
                assert(nr[0] == t);
            }
        }
        nr
    } else if r[0] == x {
        assert forall|t: Seq<char>| r.contains(t) <==> (r.contains(t) || t == x) by {
            if t == x {
                assert(r[0] == t);
            }
        }
        r
    } else if seq_lt(x, r[0]) {
        let nr = seq![x] + r;
        assert forall|i: int| 0 <= i < nr.len() - 1 implies seq_lt(#[trigger] nr[i], nr[i + 1]) by {
            if i > 0 {
                assert(nr[i] == r[i - 1] && nr[i + 1] == r[i]);
            }
        }
        assert forall|t: Seq<char>| nr.contains(t) <==> (r.contains(t) || t == x) by {
            if nr.contains(t) {
                let k = choose|k: int| 0 <= k < nr.len() && nr[k] == t;
                if k > 0 {
                    assert(r[k - 1] == t);
                }
            }
            if r.contains(t) {
                let k = choose|k: int| 0 <= k < r.len() && r[k] == t;
                assert(nr[k + 1] == t);
            }
            if t == x {
                assert(nr[0] == t);
            }
        }
        nr
    } else {
        lemma_seq_lt_trichotomy(x, r[0]);
        let tail = r.drop_first();
        assert forall|i: int| 0 <= i < tail.len() - 1 implies seq_lt(#[trigger] tail[i], tail[i + 1]) by {
            assert(tail[i] == r[i + 1] && tail[i + 1] == r[i + 2]);
        }
        let rest = lemma_insert_sorted(tail, x);
        let nr = seq![r[0]] + rest;
        assert(seq_lt(r[0], rest[0])) by {
            if rest[0] != x {
                assert(rest[0] == r[1]);
            }
        }
        assert forall|i: int| 0 <= i < nr.len() - 1 implies seq_lt(#[trigger] nr[i], nr[i + 1]) by {
            if i > 0 {
                assert(nr[i] == rest[i - 1] && nr[i + 1] == rest[i]);
            }
        }
        assert forall|t: Seq<char>| nr.contains(t) <==> (r.contains(t) || t == x) by {
            if nr.contains(t) {
                let k = choose|k: int| 0 <= k < nr.len() && nr[k] == t;
                if k > 0 {
                    assert(rest[k - 1] == t);
                    if tail.contains(t) {
                        let m = choose|m: int| 0 <= m < tail.len() && tail[m] == t;
                        assert(r[m + 1] == t);
                    }
                } else {
                    assert(r[0] == t);
                }
            }
            if r.contains(t) {
                let k = choose|k: int| 0 <= k < r.len() && r[k] == t;
                if k == 0 {
                    assert(nr[0] == t);
                } else {
                    assert(tail[k - 1] == t);
                    assert(rest.contains(t));
                    let m = choose|m: int| 0 <= m < rest.len() && rest[m] == t;
                    assert(nr[m + 1] == t);
                }
            }
            if t == x {
                assert(rest.contains(t));
                let m = choose|m: int| 0 <= m < rest.len() && rest[m] == t;
                assert(nr[m + 1] == t);
            }
        }
        nr
    }
}

proof fn lemma_sorted_distinct_witness(s: Seq<Seq<char>>) -> (r: Seq<Seq<char>>)
    ensures
        strictly_sorted(r),
        forall|t: Seq<char>| r.contains(t) <==> s.contains(t),
    decreases s.len(),
{
    if s.len() == 0 {
        let r = Seq::<Seq<char>>::empty();
        assert forall|t: Seq<char>| r.contains(t) <==> s.contains(t) by {
            if s.contains(t) {
                let k = choose|k: int| 0 <= k < s.len() && s[k] == t;
            }
        }
        r
    } else {
        let r0 = lemma_sorted_distinct_witness(s.drop_last());
        let r = lemma_insert_sorted(r0, s.last());
        assert forall|t: Seq<char>| r.contains(t) <==> s.contains(t) by {
            if s.contains(t) {
                let k = choose|k: int| 0 <= k < s.len() && s[k] == t;
                if k < s.len() - 1 {
                    assert(s.drop_last()[k] == t);
                }
            }
            if s.drop_last().contains(t) {
                let k = choose|k: int| 0 <= k < s.len() - 1 && s.drop_last()[k] == t;
                assert(s[k] == t);
            }
            if t == s.last() {
                assert(s[s.len() - 1] == t);
            }
        }
        r
    }
}

/// `sorted_distinct` keeps exactly the entries of its input, in ascending order.
pub proof fn lemma_sorted_distinct_contains(s: Seq<Seq<char>>)
    ensures
        strictly_sorted(sorted_distinct(s)),
        forall|t: Seq<char>| sorted_distinct(s).contains(t) <==> s.contains(t),
{
    let w = lemma_sorted_distinct_witness(s);
    assert(strictly_sorted(w) && forall|t: Seq<char>| w.contains(t) <==> s.contains(t));
}

/// What `sort_dedup` returns is `sorted_distinct` of its input.
pub fn sorted_distinct_chars(v: &Vec<Vec<char>>) -> (r: Vec<Vec<char>>)
    ensures
        char_views(r@) == sorted_distinct(char_views(v@)),
        strictly_sorted(char_views(r@)),
        forall|t: Seq<char>| char_views(r@).contains(t) <==> char_views(v@).contains(t),
{
    let r = sort_dedup(v);
    proof {
        let w = char_views(r@);
        let c = sorted_distinct(char_views(v@));
        assert(strictly_sorted(c) && forall|t: Seq<char>| c.contains(t) <==> char_views(v@).contains(t));
        lemma_strictly_sorted_unique(w, c);
    }
    r
}

} // verus!

verus! {

pub fn str_eq(a: &str, b: &str) -> (r: bool)
    ensures
        r == (a@ == b@),
{
    let av = chars_of(a);
    let bv = chars_of(b);
    chars_eq(&av, &bv)
}

/// `str::trim`: the slice without leading and trailing Unicode white space.
pub(crate) fn str_trim(s: &str) -> (r: &str)
    ensures
        r@ == trim_spec(s@),
{
    let v = chars_of(s);
    let mut i: usize = 0;
    while i < v.len() && is_ws(v[i])
        invariant
            i <= v.len(),
            v@ == s@,
            forall|k: int| 0 <= k < i ==> is_ws_spec(v@[k]),
        decreases v.len() - i,
    {
        i += 1;
    }
    proof {
        lemma_trim_start_skip(v@, i as int);
        let t = v@.skip(i as int);
        if t.len() > 0 {
            assert(t[0] == v@[i as int]);
        }
    }
    let mut j: usize = v.len();
    while j > i && is_ws(v[j - 1])
        invariant
            i <= j <= v.len(),
            v@ == s@,
            forall|k: int| j <= k < v.len() ==> is_ws_spec(v@[k]),
        decreases j - i,
    {
        j -= 1;
    }
    proof {
        let t = v@.skip(i as int);
        assert forall|k: int| j - i <= k < t.len() implies is_ws_spec(t[k]) by {
            assert(t[k] == v@[i + k]);
        }
        lemma_trim_end_take(t, j - i);
        let u = t.take(j - i);
        if u.len() > 0 {
            assert(u.last() == v@[j - 1]);
        }
        assert(u =~= v@.subrange(i as int, j as int));
    }
    s.substring_char(i, j)
}

pub open spec fn digit_char(d: int) -> char {
    (('0' as int) + d) as char
}

/// Decimal digits of `n`, no leading zeros.
pub open spec fn decimal_spec(n: nat) -> Seq<char>
    decreases n,
{
    if n < 10 {
        seq![digit_char(n as int)]
    } else {
        decimal_spec(n / 10).push(digit_char((n % 10) as int))
    }
}

/// `n.to_string()` for an unsigned integer.
pub fn decimal(n: u64) -> (r: Vec<char>)
    ensures
        r@ == decimal_spec(n as nat),
    decreases n,
{
    let d = (n % 10) as u8;
    let c = (('0' as u8) + d) as char;
    if n < 10 {
        let mut r: Vec<char> = Vec::new();
        r.push(c);
        assert(r@ =~= seq![c]);
        r
    } else {
        let mut r = decimal(n / 10);
        r.push(c);
        r
    }
}

} // verus!

verus! {

/// Bytes of a character in UTF-8.
pub open spec fn utf8_len(c: char) -> int {
    if (c as u32) < 0x80 {
        1
    } else if (c as u32) < 0x800 {
        2
    } else if (c as u32) < 0x10000 {
        3
    } else {
        4
    }
}

/// Bytes of a text in UTF-8.
pub open spec fn bytes_of(s: Seq<char>) -> int
    decreases s.len(),
{
    if s.len() == 0 {
        0
    } else {
        bytes_of(s.drop_last()) + utf8_len(s.last())
    }
}

pub fn utf8_len_of(c: char) -> (n: usize)
    ensures
        n == utf8_len(c),
{
    let u = c as u32;
    if u < 0x80 {
        1
    } else if u < 0x800 {
        2
    } else if u < 0x10000 {
        3
    } else {
        4
    }
}

/// Number of UTF-8 bytes of a string (`str::len`).
pub fn byte_len(s: &str) -> (n: usize)
    requires
        bytes_of(s@) <= usize::MAX,
    ensures
        n == bytes_of(s@),
{
    let v = chars_of(s);
    let mut acc: usize = 0;
    let mut i: usize = 0;
    while i < v.len()
        invariant
            i <= v.len(),
            v@ == s@,
            acc == bytes_of(v@.take(i as int)),
            bytes_of(s@) <= usize::MAX,
        decreases v.len() - i,
    {
        assert(v@.take(i + 1).drop_last() =~= v@.take(i as int));
        proof {
            lemma_bytes_of_prefix(v@, i + 1);
        }
        acc += utf8_len_of(v[i]);
        i += 1;
    }
    assert(v@.take(v.len() as int) =~= v@);
    acc
}

pub proof fn lemma_bytes_of_prefix(s: Seq<char>, k: int)
    requires
        0 <= k <= s.len(),
    ensures
        0 <= bytes_of(s.take(k)) <= bytes_of(s),
    decreases s.len() - k,
{
    if k < s.len() {
        lemma_bytes_of_prefix(s, k + 1);
        assert(s.take(k + 1).drop_last() =~= s.take(k));
        lemma_bytes_nonneg(s.take(k));
    } else {
        assert(s.take(k) =~= s);
        lemma_bytes_nonneg(s);
    }
}

pub proof fn lemma_bytes_nonneg(s: Seq<char>)
    ensures
        bytes_of(s) >= 0,
    decreases s.len(),
{
    if s.len() > 0 {
        lemma_bytes_nonneg(s.drop_last());
    }
}

} // verus!

verus! {

pub fn clone_str(s: &String) -> (r: String)
    ensures
        r@ == s@,
{
    to_string(&string_chars(s))
}

pub open spec fn opt_str_view(o: Option<String>) -> Option<Seq<char>> {
    match o {
        Some(s) => Some(s@),
        None => None,
    }
}

pub fn clone_opt_str(o: &Option<String>) -> (r: Option<String>)
    ensures
        opt_str_view(r) == opt_str_view(*o),
{
    match o {
        Some(s) => Some(clone_str(s)),
        None => None,
    }
}

pub fn clone_str_vec(v: &Vec<String>) -> (r: Vec<String>)
    ensures
        views(r@) == views(v@),
{
    let mut r: Vec<String> = Vec::new();
    let mut i: usize = 0;
    while i < v.len()
        invariant
            i <= v.len(),
            r@.len() == i,
            forall|k: int| 0 <= k < i ==> (#[trigger] r@[k])@ == v@[k]@,
        decreases v.len() - i,
    {
        r.push(clone_str(&v[i]));
        i += 1;
    }
    assert(views(r@) =~= views(v@));
    r
}

} // verus!
