//! Keywords for matching memory knots against a query, and the text of search hits.
use vstd::prelude::*;
use crate::memory::inject::{confidence_tag, confidence_tag_spec, KnotText};
use crate::memory::types::{kind_name, KnotKind, TaskStatus};
use crate::error::Error;
use crate::memory::extract::{to_lowercase, unicode_lowercase};
use crate::text::{
    char_views, chars_of, contains, contains_spec, decimal, decimal_spec, push_all, push_str,
    sorted_distinct, sorted_distinct_chars, str_trim, string_chars, to_string, to_strings,
    trim_spec, views,
};

verus! {

pub open spec fn is_ascii_alpha(c: char) -> bool {
    ('a' <= c && c <= 'z') || ('A' <= c && c <= 'Z')
}

pub open spec fn is_cjk(c: char) -> bool {
    '\u{4e00}' <= c && c <= '\u{9fff}'
}

pub open spec fn lower_ascii(c: char) -> char {
    if 'A' <= c && c <= 'Z' {
        ((c as u32) + 32) as char
    } else {
        c
    }
}

/// A Latin run becomes a keyword at three letters or more.
pub open spec fn flush_latin(out: Seq<Seq<char>>, buf: Seq<char>) -> Seq<Seq<char>> {
    if buf.len() >= 3 {
        out.push(buf)
    } else {
        out
    }
}

/// A CJK run becomes a keyword at two characters or more.
pub open spec fn flush_cjk(out: Seq<Seq<char>>, buf: Seq<char>) -> Seq<Seq<char>> {
    if buf.len() >= 2 {
        out.push(buf)
    } else {
        out
    }
}

/// Runs of ASCII letters (lower-cased) and of CJK ideographs, in order.
pub open spec fn keywords_go(
    s: Seq<char>,
    i: int,
    out: Seq<Seq<char>>,
    latin: Seq<char>,
    cjk: Seq<char>,
) -> Seq<Seq<char>>
    decreases s.len() - i,
{
    if i < 0 || i >= s.len() {
        flush_cjk(flush_latin(out, latin), cjk)
    } else if is_ascii_alpha(s[i]) {
        keywords_go(s, i + 1, flush_cjk(out, cjk), latin.push(lower_ascii(s[i])), seq![])
    } else if is_cjk(s[i]) {
        keywords_go(s, i + 1, flush_latin(out, latin), seq![], cjk.push(s[i]))
    } else {
        keywords_go(s, i + 1, flush_cjk(flush_latin(out, latin), cjk), seq![], seq![])
    }
}

/// Keyword tokens for matching (CJK runs of 2+, Latin runs of 3+), distinct, ascending.
pub open spec fn keywords_spec(s: Seq<char>) -> Seq<Seq<char>> {
    sorted_distinct(keywords_go(s, 0, seq![], seq![], seq![]))
}

fn flush(out: &mut Vec<Vec<char>>, buf: Vec<char>, min: usize)
    ensures
        char_views(final(out)@) == if buf@.len() >= min {
            char_views(old(out)@).push(buf@)
        } else {
            char_views(old(out)@)
        },
{
    if buf.len() >= min {
        proof {
            crate::approval::shell_cmd::lemma_char_views_push(out@, buf);
        }
        out.push(buf);
    }
}

pub fn extract_keywords(text: &str) -> (r: Vec<String>)
    ensures
        views(r@) == keywords_spec(text@),
{
    let s = crate::text::chars_of(text);
    let mut out: Vec<Vec<char>> = Vec::new();
    let mut latin: Vec<char> = Vec::new();
    let mut cjk: Vec<char> = Vec::new();
    let mut i: usize = 0;
    assert(char_views(out@) =~= Seq::<Seq<char>>::empty());
    while i < s.len()
        invariant
            i <= s.len(),
            keywords_go(s@, i as int, char_views(out@), latin@, cjk@) == keywords_go(
                s@,
                0,
                seq![],
                seq![],
                seq![],
            ),
        decreases s.len() - i,
    {
        let c = s[i];
        if ('a' <= c && c <= 'z') || ('A' <= c && c <= 'Z') {
            let b = cjk;
            cjk = Vec::new();
            flush(&mut out, b, 2);
            let l = if 'A' <= c && c <= 'Z' {
                ((c as u8) + 32) as char
            } else {
                c
            };
            latin.push(l);
        } else if '\u{4e00}' <= c && c <= '\u{9fff}' {
            let b = latin;
            latin = Vec::new();
            flush(&mut out, b, 3);
            cjk.push(c);
        } else {
            let b = latin;
            latin = Vec::new();
            flush(&mut out, b, 3);
            let b2 = cjk;
            cjk = Vec::new();
            flush(&mut out, b2, 2);
        }
        i += 1;
    }
    flush(&mut out, latin, 3);
    flush(&mut out, cjk, 2);
    let d = sorted_distinct_chars(&out);
    to_strings(&d)
}

/// Lower-cased form of a run of ASCII letters.
pub open spec fn lower_run(w: Seq<char>) -> Seq<char> {
    w.map_values(|c: char| lower_ascii(c))
}

/// Keywords found later only add to those already collected.
proof fn lemma_keywords_keep(
    s: Seq<char>,
    k: int,
    out: Seq<Seq<char>>,
    latin: Seq<char>,
    cjk: Seq<char>,
)
    ensures
        out.len() <= keywords_go(s, k, out, latin, cjk).len(),
        forall|m: int| 0 <= m < out.len() ==> #[trigger] keywords_go(s, k, out, latin, cjk)[m] == out[m],
    decreases s.len() - k,
{
    if 0 <= k < s.len() {
        if is_ascii_alpha(s[k]) {
            lemma_keywords_keep(s, k + 1, flush_cjk(out, cjk), latin.push(lower_ascii(s[k])), seq![]);
        } else if is_cjk(s[k]) {
            lemma_keywords_keep(s, k + 1, flush_latin(out, latin), seq![], cjk.push(s[k]));
        } else {
            lemma_keywords_keep(s, k + 1, flush_cjk(flush_latin(out, latin), cjk), seq![], seq![]);
        }
    }
}

/// Inside a run of letters the collected keywords stay as they are and the
/// run grows by the lower-cased letters.
proof fn lemma_keywords_run(s: Seq<char>, k: int, j: int, out: Seq<Seq<char>>, latin: Seq<char>)
    requires
        0 <= k <= j <= s.len(),
        forall|m: int| k <= m < j ==> is_ascii_alpha(#[trigger] s[m]),
    ensures
        keywords_go(s, k, out, latin, seq![]) == keywords_go(
            s,
            j,
            out,
            latin + lower_run(s.subrange(k, j)),
            seq![],
        ),
    decreases j - k,
{
    if k < j {
        assert(is_ascii_alpha(s[k]));
        assert(flush_cjk(out, seq![]) == out);
        lemma_keywords_run(s, k + 1, j, out, latin.push(lower_ascii(s[k])));
        assert(latin.push(lower_ascii(s[k])) + lower_run(s.subrange(k + 1, j)) =~= latin + lower_run(
            s.subrange(k, j),
        ));
    } else {
        assert(latin + lower_run(s.subrange(k, j)) =~= latin);
    }
}

/// The state of the scan when it reaches `i`; after a character that is not
/// a letter no Latin run is open.
proof fn lemma_keywords_state(
    s: Seq<char>,
    k: int,
    i: int,
    out: Seq<Seq<char>>,
    latin: Seq<char>,
    cjk: Seq<char>,
) -> (st: (Seq<Seq<char>>, Seq<char>, Seq<char>))
    requires
        0 <= k <= i <= s.len(),
        k == i ==> latin.len() == 0,
        i > k && i > 0 ==> !is_ascii_alpha(s[i - 1]),
    ensures
        keywords_go(s, k, out, latin, cjk) == keywords_go(s, i, st.0, st.1, st.2),
        st.1.len() == 0,
    decreases i - k,
{
    if k == i {
        (out, latin, cjk)
    } else if is_ascii_alpha(s[k]) {
        lemma_keywords_state(s, k + 1, i, flush_cjk(out, cjk), latin.push(lower_ascii(s[k])), seq![])
    } else if is_cjk(s[k]) {
        lemma_keywords_state(s, k + 1, i, flush_latin(out, latin), seq![], cjk.push(s[k]))
    } else {
        lemma_keywords_state(s, k + 1, i, flush_cjk(flush_latin(out, latin), cjk), seq![], seq![])
    }
}

/// Every maximal run of three or more ASCII letters, lower-cased, is a
/// keyword, the run that ends the text included.
pub proof fn law_keywords_keep_latin_words(s: Seq<char>, i: int, j: int)
    requires
        0 <= i,
        i + 3 <= j <= s.len(),
        forall|m: int| i <= m < j ==> is_ascii_alpha(#[trigger] s[m]),
        i == 0 || !is_ascii_alpha(s[i - 1]),
        j == s.len() || !is_ascii_alpha(s[j]),
    ensures
        keywords_spec(s).contains(lower_run(s.subrange(i, j))),
{
    let empty = Seq::<Seq<char>>::empty();
    let st = lemma_keywords_state(s, 0, i, empty, seq![], seq![]);
    let out = flush_cjk(st.0, st.2);
    assert(is_ascii_alpha(s[i]));
    assert(st.1.push(lower_ascii(s[i])) =~= lower_run(s.subrange(i, i + 1)));
    lemma_keywords_run(s, i + 1, j, out, lower_run(s.subrange(i, i + 1)));
    let w = lower_run(s.subrange(i, j));
    assert(lower_run(s.subrange(i, i + 1)) + lower_run(s.subrange(i + 1, j)) =~= w);
    let all = keywords_go(s, 0, empty, seq![], seq![]);
    assert(all == keywords_go(s, j, out, w, seq![]));
    assert(flush_latin(out, w) == out.push(w));
    assert(flush_cjk(out.push(w), seq![]) == out.push(w));
    if j < s.len() {
        if is_cjk(s[j]) {
            lemma_keywords_keep(s, j + 1, out.push(w), seq![], seq![s[j]]);
            assert(seq![].push(s[j]) == seq![s[j]]);
        } else {
            lemma_keywords_keep(s, j + 1, out.push(w), seq![], seq![]);
        }
    }
    assert(all[out.len() as int] == w);
    crate::text::lemma_sorted_distinct_contains(all);
}

/// Inside a run of CJK ideographs the collected keywords stay as they are
/// and the run grows by the ideographs.
proof fn lemma_keywords_cjk_run(s: Seq<char>, k: int, j: int, out: Seq<Seq<char>>, cjk: Seq<char>)
    requires
        0 <= k <= j <= s.len(),
        forall|m: int| k <= m < j ==> is_cjk(#[trigger] s[m]),
    ensures
        keywords_go(s, k, out, seq![], cjk) == keywords_go(s, j, out, seq![], cjk + s.subrange(k, j)),
    decreases j - k,
{
    if k < j {
        assert(is_cjk(s[k]) && !is_ascii_alpha(s[k]));
        assert(flush_latin(out, seq![]) == out);
        lemma_keywords_cjk_run(s, k + 1, j, out, cjk.push(s[k]));
        assert(cjk.push(s[k]) + s.subrange(k + 1, j) =~= cjk + s.subrange(k, j));
    } else {
        assert(cjk + s.subrange(k, j) =~= cjk);
    }
}

/// The state of the scan when it reaches `i`; after a character that is not
/// an ideograph no CJK run is open.
proof fn lemma_keywords_cjk_state(
    s: Seq<char>,
    k: int,
    i: int,
    out: Seq<Seq<char>>,
    latin: Seq<char>,
    cjk: Seq<char>,
) -> (st: (Seq<Seq<char>>, Seq<char>, Seq<char>))
    requires
        0 <= k <= i <= s.len(),
        k == i ==> cjk.len() == 0,
        i > k && i > 0 ==> !is_cjk(s[i - 1]),
    ensures
        keywords_go(s, k, out, latin, cjk) == keywords_go(s, i, st.0, st.1, st.2),
        st.2.len() == 0,
    decreases i - k,
{
    if k == i {
        (out, latin, cjk)
    } else if is_ascii_alpha(s[k]) {
        lemma_keywords_cjk_state(
            s,
            k + 1,
            i,
            flush_cjk(out, cjk),
            latin.push(lower_ascii(s[k])),
            seq![],
        )
    } else if is_cjk(s[k]) {
        lemma_keywords_cjk_state(s, k + 1, i, flush_latin(out, latin), seq![], cjk.push(s[k]))
    } else {
        lemma_keywords_cjk_state(
            s,
            k + 1,
            i,
            flush_cjk(flush_latin(out, latin), cjk),
            seq![],
            seq![],
        )
    }
}

/// Every maximal run of two or more CJK ideographs is a keyword, the run
/// that ends the text included.
pub proof fn law_keywords_keep_cjk_words(s: Seq<char>, i: int, j: int)
    requires
        0 <= i,
        i + 2 <= j <= s.len(),
        forall|m: int| i <= m < j ==> is_cjk(#[trigger] s[m]),
        i == 0 || !is_cjk(s[i - 1]),
        j == s.len() || !is_cjk(s[j]),
    ensures
        keywords_spec(s).contains(s.subrange(i, j)),
{
    let empty = Seq::<Seq<char>>::empty();
    let st = lemma_keywords_cjk_state(s, 0, i, empty, seq![], seq![]);
    assert(is_cjk(s[i]) && !is_ascii_alpha(s[i]));
    let out = flush_latin(st.0, st.1);
    assert(st.2.push(s[i]) =~= s.subrange(i, i + 1));
    lemma_keywords_cjk_run(s, i + 1, j, out, s.subrange(i, i + 1));
    let w = s.subrange(i, j);
    assert(s.subrange(i, i + 1) + s.subrange(i + 1, j) =~= w);
    let all = keywords_go(s, 0, empty, seq![], seq![]);
    assert(all == keywords_go(s, j, out, seq![], w));
    assert(flush_latin(out, seq![]) == out);
    assert(flush_cjk(out, w) == out.push(w));
    if j < s.len() {
        if is_ascii_alpha(s[j]) {
            lemma_keywords_keep(s, j + 1, out.push(w), seq![lower_ascii(s[j])], seq![]);
            assert(seq![].push(lower_ascii(s[j])) == seq![lower_ascii(s[j])]);
        } else {
            lemma_keywords_keep(s, j + 1, out.push(w), seq![], seq![]);
        }
    }
    assert(all[out.len() as int] == w);
    crate::text::lemma_sorted_distinct_contains(all);
}

/// What a keyword looks like: three or more lower-case ASCII letters, or two
/// or more CJK ideographs.
pub open spec fn keyword_shape(t: Seq<char>) -> bool {
    (t.len() >= 3 && forall|m: int| 0 <= m < t.len() ==> 'a' <= #[trigger] t[m] && t[m] <= 'z')
        || (t.len() >= 2 && forall|m: int| 0 <= m < t.len() ==> is_cjk(#[trigger] t[m]))
}

proof fn lemma_lower_ascii_letter(c: char)
    requires
        is_ascii_alpha(c),
    ensures
        'a' <= lower_ascii(c) && lower_ascii(c) <= 'z',
{
    if 'A' <= c && c <= 'Z' {
        let u = (c as u32) + 32;
        assert(97 <= u <= 122);
        assert(('a' as u32) == 97 && ('z' as u32) == 122);
    }
}

proof fn lemma_keywords_shape(
    s: Seq<char>,
    k: int,
    out: Seq<Seq<char>>,
    latin: Seq<char>,
    cjk: Seq<char>,
)
    requires
        forall|m: int| 0 <= m < out.len() ==> keyword_shape(#[trigger] out[m]),
        forall|m: int| 0 <= m < latin.len() ==> 'a' <= #[trigger] latin[m] && latin[m] <= 'z',
        forall|m: int| 0 <= m < cjk.len() ==> is_cjk(#[trigger] cjk[m]),
    ensures
        forall|m: int|
            0 <= m < keywords_go(s, k, out, latin, cjk).len() ==> keyword_shape(
                #[trigger] keywords_go(s, k, out, latin, cjk)[m],
            ),
    decreases s.len() - k,
{
    let fl = flush_latin(out, latin);
    assert forall|m: int| 0 <= m < fl.len() implies keyword_shape(#[trigger] fl[m]) by {
        if m == out.len() {
            assert(fl[m] == latin);
        } else {
            assert(fl[m] == out[m]);
        }
    }
    let fc = flush_cjk(out, cjk);
    assert forall|m: int| 0 <= m < fc.len() implies keyword_shape(#[trigger] fc[m]) by {
        if m == out.len() {
            assert(fc[m] == cjk);
        } else {
            assert(fc[m] == out[m]);
        }
    }
    let fb = flush_cjk(fl, cjk);
    assert forall|m: int| 0 <= m < fb.len() implies keyword_shape(#[trigger] fb[m]) by {
        if m == fl.len() {
            assert(fb[m] == cjk);
        } else {
            assert(fb[m] == fl[m]);
        }
    }
    let r = keywords_go(s, k, out, latin, cjk);
    if 0 <= k < s.len() {
        let (o2, l2, c2) = if is_ascii_alpha(s[k]) {
            (fc, latin.push(lower_ascii(s[k])), seq![])
        } else if is_cjk(s[k]) {
            (fl, seq![], cjk.push(s[k]))
        } else {
            (fb, seq![], seq![])
        };
        if is_ascii_alpha(s[k]) {
            lemma_lower_ascii_letter(s[k]);
        }
        assert forall|m: int| 0 <= m < l2.len() implies 'a' <= #[trigger] l2[m] && l2[m]
            <= 'z' by {
            if m < latin.len() {
                assert(l2[m] == latin[m]);
            }
        }
        assert forall|m: int| 0 <= m < c2.len() implies is_cjk(#[trigger] c2[m]) by {
            if m < cjk.len() {
                assert(c2[m] == cjk[m]);
            }
        }
        assert(r == keywords_go(s, k + 1, o2, l2, c2));
        lemma_keywords_shape(s, k + 1, o2, l2, c2);
        assert forall|m: int| 0 <= m < r.len() implies keyword_shape(#[trigger] r[m]) by {
            assert(r[m] == keywords_go(s, k + 1, o2, l2, c2)[m]);
        }
    } else {
        assert(r == fb);
        assert forall|m: int| 0 <= m < r.len() implies keyword_shape(#[trigger] r[m]) by {
            assert(r[m] == fb[m]);
        }
    }
}

/// Every keyword is three or more lower-case ASCII letters or two or more
/// CJK ideographs.
pub proof fn law_keywords_shape(s: Seq<char>)
    ensures
        forall|t: Seq<char>| keywords_spec(s).contains(t) ==> keyword_shape(t),
{
    let all = keywords_go(s, 0, seq![], seq![], seq![]);
    lemma_keywords_shape(s, 0, seq![], seq![], seq![]);
    crate::text::lemma_sorted_distinct_contains(all);
    assert forall|t: Seq<char>| keywords_spec(s).contains(t) implies keyword_shape(t) by {
        assert(all.contains(t));
        let m = choose|m: int| 0 <= m < all.len() && all[m] == t;
        assert(keyword_shape(all[m]));
    }
}

/// `n.to_string()` for a signed id.
pub open spec fn signed_decimal(n: int) -> Seq<char> {
    if n < 0 {
        seq!['-'] + decimal_spec((-n) as nat)
    } else {
        decimal_spec(n as nat)
    }
}

fn signed_decimal_chars(n: i64) -> (r: Vec<char>)
    ensures
        r@ == signed_decimal(n as int),
{
    if n < 0 {
        let m: i128 = 0i128 - (n as i128);
        let mut r: Vec<char> = Vec::new();
        r.push('-');
        let d = decimal(m as u64);
        push_all(&mut r, &d);
        r
    } else {
        decimal(n as u64)
    }
}

/// A search hit: `- #id [kind] content (tag)`, tasks marked `[ ] ` or `[x] `.
pub open spec fn search_line_spec(k: KnotText) -> Seq<char> {
    let prefix = if k.kind == KnotKind::Task && k.task_status == Some(TaskStatus::Open) {
        "[ ] "@
    } else if k.kind == KnotKind::Task && k.task_status == Some(TaskStatus::Done) {
        "[x] "@
    } else {
        ""@
    };
    "- #"@ + signed_decimal(k.id as int) + " ["@ + kind_name(k.kind) + "] "@ + prefix + k.content@
        + " ("@ + confidence_tag_spec(k.confidence) + ")"@
}

pub fn format_line(k: &KnotText) -> (r: Vec<char>)
    ensures
        r@ == search_line_spec(*k),
{
    let mut out: Vec<char> = Vec::new();
    push_str(&mut out, "- #");
    let id = signed_decimal_chars(k.id);
    push_all(&mut out, &id);
    push_str(&mut out, " [");
    push_str(&mut out, k.kind.as_str());
    push_str(&mut out, "] ");
    if k.kind == KnotKind::Task && k.task_status == Some(TaskStatus::Open) {
        push_str(&mut out, "[ ] ");
    } else if k.kind == KnotKind::Task && k.task_status == Some(TaskStatus::Done) {
        push_str(&mut out, "[x] ");
    } else {
        push_str(&mut out, "");
    }
    push_str(&mut out, k.content.as_str());
    push_str(&mut out, " (");
    push_str(&mut out, confidence_tag(k.confidence));
    push_str(&mut out, ")");
    assert(out@ =~= search_line_spec(*k));
    out
}

pub open spec fn truncated_note() -> Seq<char> {
    "\n(Results truncated; narrow the query or specify kind.)\n"@
}

/// Hit lines in order while they fit (counting `used` already spent); at the
/// first that does not fit, the truncation note instead.
pub open spec fn results_fill(used: int, max: int, knots: Seq<KnotText>) -> Seq<char>
    decreases knots.len(),
{
    if knots.len() == 0 {
        seq![]
    } else {
        let line = search_line_spec(knots[0]) + seq!['\n'];
        if used + line.len() > max {
            truncated_note()
        } else {
            line + results_fill(used + line.len(), max, knots.drop_first())
        }
    }
}

pub open spec fn search_results_spec(knots: Seq<KnotText>, max: int) -> Seq<char> {
    if knots.len() == 0 {
        "No matching long-term memory found."@
    } else {
        let intro = "Found "@ + decimal_spec(knots.len()) + " memories:\n"@;
        intro + results_fill(intro.len() as int, max, knots)
    }
}

/// The memory-search tool's answer: a count line, then one line per hit within
/// `max_chars` characters in all, noting when hits were cut.
pub fn format_search_results(knots: &Vec<KnotText>, max_chars: usize) -> (r: String)
    ensures
        r@ == search_results_spec(knots@, max_chars as int),
{
    if knots.len() == 0 {
        return String::from_str("No matching long-term memory found.");
    }
    let mut out: Vec<char> = Vec::new();
    push_str(&mut out, "Found ");
    let n = decimal(knots.len() as u64);
    push_all(&mut out, &n);
    push_str(&mut out, " memories:\n");
    let ghost intro = out@;
    assert(intro =~= "Found "@ + decimal_spec(knots@.len()) + " memories:\n"@);
    let mut used: usize = out.len();
    let mut i: usize = 0;
    assert(knots@.subrange(0, knots@.len() as int) =~= knots@);
    while i < knots.len()
        invariant
            i <= knots.len(),
            knots@.len() > 0,
            intro == "Found "@ + decimal_spec(knots@.len()) + " memories:\n"@,
            used == out@.len(),
            intro + results_fill(intro.len() as int, max_chars as int, knots@)
                == out@ + results_fill(used as int, max_chars as int, knots@.subrange(i as int, knots@.len() as int)),
        decreases knots.len() - i,
    {
        let ghost rest = knots@.subrange(i as int, knots@.len() as int);
        assert(rest[0] == knots@[i as int]);
        assert(rest.drop_first() =~= knots@.subrange(i + 1, knots@.len() as int));
        let mut line = format_line(&knots[i]);
        line.push('\n');
        if line.len() > max_chars || used > max_chars - line.len() {
            let ghost before = out@;
            push_str(&mut out, "\n(Results truncated; narrow the query or specify kind.)\n");
            assert(out@ == before + truncated_note());
            return to_string(&out);
        }
        push_all(&mut out, &line);
        used = used + line.len();
        assert(out@ + results_fill(used as int, max_chars as int, knots@.subrange(i + 1, knots@.len() as int))
            =~= out@.subrange(0, out@.len() - line@.len()) + (line@ + results_fill(used as int, max_chars as int, knots@.subrange(i + 1, knots@.len() as int))));
        i += 1;
    }
    assert(knots@.subrange(knots@.len() as int, knots@.len() as int) =~= Seq::<KnotText>::empty());
    assert(out@ + Seq::<char>::empty() =~= out@);
    to_string(&out)
}

/// The most hits one search returns.
pub const MAX_SEARCH_LIMIT: usize = 50;

/// The trimmed query and the number of hits for a memory search: the asked
/// limit, else the configured one, at most `MAX_SEARCH_LIMIT`. A blank query
/// is an error.
pub fn search_query_and_limit(query: &str, limit: Option<usize>, configured: usize) -> (r: Result<(String, usize), Error>)
    ensures
        r is Err <==> trim_spec(query@).len() == 0,
        r matches Err(Error::Message(m)) ==> m@ == "memory_search: query 不能为空"@,
        !(r matches Err(Error::Localized(_, _))),
        r matches Ok((q, n)) ==> {
            let want = match limit { Some(l) => l, None => configured };
            &&& q@ == trim_spec(query@)
            &&& n == if want < MAX_SEARCH_LIMIT { want } else { MAX_SEARCH_LIMIT }
        },
{
    let q = str_trim(query);
    if q.unicode_len() == 0 {
        return Err(Error::Message("memory_search: query 不能为空".to_string()));
    }
    let want = match limit {
        Some(l) => l,
        None => configured,
    };
    let n = if want < MAX_SEARCH_LIMIT { want } else { MAX_SEARCH_LIMIT };
    Ok((q.to_string(), n))
}

/// A search hit: of the asked kind, if one is asked, and with some keyword in
/// its lower-cased content.
pub open spec fn search_hit_spec(
    content: Seq<char>,
    kind: KnotKind,
    kind_filter: Option<KnotKind>,
    keywords: Seq<Seq<char>>,
) -> bool {
    &&& (kind_filter matches Some(f) ==> f == kind)
    &&& exists|i: int| 0 <= i < keywords.len() && contains_spec(unicode_lowercase(content), #[trigger] keywords[i])
}

/// Whether a knot is a hit for the search keywords.
pub fn search_hit(content: &str, kind: KnotKind, kind_filter: Option<KnotKind>, keywords: &Vec<String>) -> (r: bool)
    ensures
        r == search_hit_spec(content@, kind, kind_filter, views(keywords@)),
{
    match kind_filter {
        Some(f) => if f != kind {
            return false;
        },
        None => {},
    }
    let lower = string_chars(&to_lowercase(content));
    let mut i: usize = 0;
    while i < keywords.len()
        invariant
            i <= keywords@.len(),
            lower@ == unicode_lowercase(content@),
            kind_filter matches Some(f) ==> f == kind,
            forall|j: int| 0 <= j < i ==> !contains_spec(lower@, #[trigger] views(keywords@)[j]),
        decreases keywords@.len() - i,
    {
        let kw = chars_of(keywords[i].as_str());
        if contains(&lower, &kw) {
            assert(views(keywords@)[i as int] == kw@);
            return true;
        }
        i += 1;
    }
    false
}

} // verus!
