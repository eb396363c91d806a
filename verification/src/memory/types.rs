//! Kinds and states of memory knots, and their stable content hash.
use vstd::prelude::*;
use crate::text::{chars_of, join_spec, push_all, str_eq, to_string};

verus! {

#[derive(Debug, Clone, Copy, PartialEq, Eq, Hash, Structural)]
pub enum KnotKind {
    Preference,
    Fact,
    Decision,
    Task,
    Procedure,
}

pub open spec fn kind_name(k: KnotKind) -> Seq<char> {
    match k {
        KnotKind::Preference => "preference"@,
        KnotKind::Fact => "fact"@,
        KnotKind::Decision => "decision"@,
        KnotKind::Task => "task"@,
        KnotKind::Procedure => "procedure"@,
    }
}

pub open spec fn kind_parse_spec(s: Seq<char>) -> Option<KnotKind> {
    if s == "preference"@ {
        Some(KnotKind::Preference)
    } else if s == "fact"@ {
        Some(KnotKind::Fact)
    } else if s == "decision"@ {
        Some(KnotKind::Decision)
    } else if s == "task"@ {
        Some(KnotKind::Task)
    } else if s == "procedure"@ {
        Some(KnotKind::Procedure)
    } else {
        None
    }
}

impl KnotKind {
    pub fn as_str(self) -> (r: &'static str)
        ensures
            r@ == kind_name(self),
    {
        match self {
            KnotKind::Preference => "preference",
            KnotKind::Fact => "fact",
            KnotKind::Decision => "decision",
            KnotKind::Task => "task",
            KnotKind::Procedure => "procedure",
        }
    }

    pub fn parse(s: &str) -> (r: Option<KnotKind>)
        ensures
            r == kind_parse_spec(s@),
    {
        if str_eq(s, "preference") {
            Some(KnotKind::Preference)
        } else if str_eq(s, "fact") {
            Some(KnotKind::Fact)
        } else if str_eq(s, "decision") {
            Some(KnotKind::Decision)
        } else if str_eq(s, "task") {
            Some(KnotKind::Task)
        } else if str_eq(s, "procedure") {
            Some(KnotKind::Procedure)
        } else {
            None
        }
    }
}

/// A kind's name parses back to the kind.
pub proof fn law_knot_kind_round_trip(k: KnotKind)
    ensures
        kind_parse_spec(kind_name(k)) == Some(k),
{
    reveal_strlit("preference");
    reveal_strlit("fact");
    reveal_strlit("decision");
    reveal_strlit("task");
    reveal_strlit("procedure");
    assert("preference"@.len() == 10 && "fact"@.len() == 4 && "decision"@.len() == 8);
    assert("task"@.len() == 4 && "procedure"@.len() == 9);
    assert("fact"@[0] != "task"@[0]);
}

#[derive(Debug, Clone, Copy, PartialEq, Eq, Hash, Structural)]
pub enum KnotConfidence {
    Confirmed,
    Inferred,
    Dream,
}

pub open spec fn confidence_name(c: KnotConfidence) -> Seq<char> {
    match c {
        KnotConfidence::Confirmed => "confirmed"@,
        KnotConfidence::Inferred => "inferred"@,
        KnotConfidence::Dream => "dream"@,
    }
}

/// The stored form of a confidence: unknown texts read as `Inferred`.
pub open spec fn confidence_from_db_spec(s: Seq<char>) -> KnotConfidence {
    if s == "confirmed"@ {
        KnotConfidence::Confirmed
    } else if s == "dream"@ {
        KnotConfidence::Dream
    } else {
        KnotConfidence::Inferred
    }
}

impl KnotConfidence {
    pub fn as_str(self) -> (r: &'static str)
        ensures
            r@ == confidence_name(self),
    {
        match self {
            KnotConfidence::Confirmed => "confirmed",
            KnotConfidence::Inferred => "inferred",
            KnotConfidence::Dream => "dream",
        }
    }

    /// The stored form: unknown texts read as `Inferred`.
    pub fn from_db(s: &str) -> (r: KnotConfidence)
        ensures
            r == confidence_from_db_spec(s@),
    {
        if str_eq(s, "confirmed") {
            KnotConfidence::Confirmed
        } else if str_eq(s, "dream") {
            KnotConfidence::Dream
        } else {
            KnotConfidence::Inferred
        }
    }
}

#[derive(Debug, Clone, Copy, PartialEq, Eq, Hash, Structural)]
pub enum KnotStatus {
    Active,
    Superseded,
    Deleted,
}

pub open spec fn status_name(s: KnotStatus) -> Seq<char> {
    match s {
        KnotStatus::Active => "active"@,
        KnotStatus::Superseded => "superseded"@,
        KnotStatus::Deleted => "deleted"@,
    }
}

/// The stored form of a status: unknown texts read as `Active`.
pub open spec fn status_from_db_spec(s: Seq<char>) -> KnotStatus {
    if s == "superseded"@ {
        KnotStatus::Superseded
    } else if s == "deleted"@ {
        KnotStatus::Deleted
    } else {
        KnotStatus::Active
    }
}

impl KnotStatus {
    pub fn as_str(self) -> (r: &'static str)
        ensures
            r@ == status_name(self),
    {
        match self {
            KnotStatus::Active => "active",
            KnotStatus::Superseded => "superseded",
            KnotStatus::Deleted => "deleted",
        }
    }

    /// The stored form: unknown texts read as `Active`.
    pub fn from_db(s: &str) -> (r: KnotStatus)
        ensures
            r == status_from_db_spec(s@),
    {
        if str_eq(s, "superseded") {
            KnotStatus::Superseded
        } else if str_eq(s, "deleted") {
            KnotStatus::Deleted
        } else {
            KnotStatus::Active
        }
    }
}

#[derive(Debug, Clone, Copy, PartialEq, Eq, Hash, Structural)]
pub enum TaskStatus {
    Open,
    Done,
    Cancelled,
}

pub open spec fn task_status_name(s: TaskStatus) -> Seq<char> {
    match s {
        TaskStatus::Open => "open"@,
        TaskStatus::Done => "done"@,
        TaskStatus::Cancelled => "cancelled"@,
    }
}

/// The stored form of a task status; unknown texts give `None`.
pub open spec fn task_status_parse_spec(v: Seq<char>) -> Option<TaskStatus> {
    if v == "open"@ {
        Some(TaskStatus::Open)
    } else if v == "done"@ {
        Some(TaskStatus::Done)
    } else if v == "cancelled"@ {
        Some(TaskStatus::Cancelled)
    } else {
        None
    }
}

impl TaskStatus {
    pub fn as_str(self) -> (r: &'static str)
        ensures
            r@ == task_status_name(self),
    {
        match self {
            TaskStatus::Open => "open",
            TaskStatus::Done => "done",
            TaskStatus::Cancelled => "cancelled",
        }
    }

    /// The stored form: absent or unknown texts give `None`.
    pub fn from_db_opt(s: Option<String>) -> (r: Option<TaskStatus>)
        ensures
            r == match s {
                None => None,
                Some(v) => task_status_parse_spec(v@),
            },
    {
        match s {
            None => None,
            Some(v) => {
                if str_eq(v.as_str(), "open") {
                    Some(TaskStatus::Open)
                } else if str_eq(v.as_str(), "done") {
                    Some(TaskStatus::Done)
                } else if str_eq(v.as_str(), "cancelled") {
                    Some(TaskStatus::Cancelled)
                } else {
                    None
                }
            },
        }
    }
}

#[derive(Debug, Clone, Copy, PartialEq, Eq, Hash, Structural)]
pub enum KnotVisibility {
    Inject,
    Private,
}

impl KnotVisibility {
    pub fn as_str(self) -> (r: &'static str)
        ensures
            r@ == match self {
                KnotVisibility::Inject => "inject"@,
                KnotVisibility::Private => "private"@,
            },
    {
        match self {
            KnotVisibility::Inject => "inject",
            KnotVisibility::Private => "private",
        }
    }

    /// The stored form: anything but `private` reads as `Inject`.
    pub fn from_db(s: &str) -> (r: KnotVisibility)
        ensures
            r == if s@ == "private"@ {
                KnotVisibility::Private
            } else {
                KnotVisibility::Inject
            },
    {
        if str_eq(s, "private") {
            KnotVisibility::Private
        } else {
            KnotVisibility::Inject
        }
    }
}

/// Every stored knot state reads back as itself: confidence, status and task
/// status are saved by name and parsed from that name.
pub proof fn law_knot_states_round_trip(c: KnotConfidence, st: KnotStatus, ts: TaskStatus)
    ensures
        confidence_from_db_spec(confidence_name(c)) == c,
        status_from_db_spec(status_name(st)) == st,
        task_status_parse_spec(task_status_name(ts)) == Some(ts),
{
    reveal_strlit("confirmed");
    reveal_strlit("inferred");
    reveal_strlit("dream");
    reveal_strlit("active");
    reveal_strlit("superseded");
    reveal_strlit("deleted");
    reveal_strlit("open");
    reveal_strlit("done");
    reveal_strlit("cancelled");
    assert("confirmed"@.len() == 9 && "inferred"@.len() == 8 && "dream"@.len() == 5);
    assert("active"@.len() == 6 && "superseded"@.len() == 10 && "deleted"@.len() == 7);
    assert("open"@.len() == 4 && "done"@.len() == 4 && "cancelled"@.len() == 9);
    assert("open"@[0] != "done"@[0]);
}

/// What a fresh `std::collections::hash_map::DefaultHasher` gives for a string.
pub uninterp spec fn default_hash(s: Seq<char>) -> u64;

/// `BuildHasher::hash_one` with the default `DefaultHasher` builder: hashes
/// `s` with a fresh `DefaultHasher` (fixed keys, so the value depends on the
/// text alone); the result is named by `default_hash`.
#[verifier::external_body]
fn hash_text(s: &str) -> (r: u64)
    ensures
        r == default_hash(s@),
{
    std::hash::BuildHasher::hash_one(
        &std::hash::BuildHasherDefault::<std::collections::hash_map::DefaultHasher>::default(),
        s,
    )
}

/// The words of `s` (split on Unicode white space) joined by single spaces.
pub open spec fn squeeze_ws_go(s: Seq<char>, i: int, out: Seq<char>, cur: Seq<char>) -> Seq<char>
    decreases s.len() - i,
{
    if i < 0 || i >= s.len() {
        if cur.len() > 0 {
            if out.len() > 0 {
                out + " "@ + cur
            } else {
                cur
            }
        } else {
            out
        }
    } else if crate::text::is_ws_spec(s[i]) {
        if cur.len() > 0 {
            squeeze_ws_go(s, i + 1, if out.len() > 0 {
                out + " "@ + cur
            } else {
                cur
            }, seq![])
        } else {
            squeeze_ws_go(s, i + 1, out, seq![])
        }
    } else {
        squeeze_ws_go(s, i + 1, out, cur.push(s[i]))
    }
}

pub open spec fn squeeze_ws(s: Seq<char>) -> Seq<char> {
    squeeze_ws_go(s, 0, seq![], seq![])
}

/// Lower-case hexadecimal digits of the low `n` nibbles of `v`, most significant first.
pub open spec fn hex_digits(v: nat, n: nat) -> Seq<char>
    decreases n,
{
    if n == 0 {
        seq![]
    } else {
        hex_digits(v / 16, (n - 1) as nat).push(hex_char((v % 16) as int))
    }
}

pub open spec fn hex_char(d: int) -> char {
    if d < 10 {
        (('0' as int) + d) as char
    } else {
        (('a' as int) + d - 10) as char
    }
}

fn hex16(v: u64) -> (r: Vec<char>)
    ensures
        r@ == hex_digits(v as nat, 16),
{
    let mut digits: Vec<char> = Vec::new();
    let mut x = v;
    let mut k: usize = 0;
    assert(pow16(0) == 1);
    assert(v as nat / 1 == v as nat);
    assert(hex_digits(v as nat, 16) + digits@ =~= hex_digits(v as nat, 16));
    while k < 16
        invariant
            k <= 16,
            x as nat == v as nat / pow16(k as nat),
            hex_digits(v as nat, 16) == hex_digits(x as nat, (16 - k) as nat) + digits@,
        decreases 16 - k,
    {
        let d = (x % 16) as u8;
        let c = if d < 10 {
            (('0' as u8) + d) as char
        } else {
            (('a' as u8) + d - 10) as char
        };
        proof {
            lemma_pow16_step(v as nat, k as nat);
            assert(seq![c] + digits@ =~= seq![c] + digits@);
            assert(hex_digits(x as nat, (16 - k) as nat) == hex_digits(x as nat / 16, (16 - k - 1) as nat).push(c));
            assert(hex_digits(x as nat / 16, (16 - k - 1) as nat).push(c) + digits@ =~= hex_digits(x as nat / 16, (16 - k - 1) as nat) + (seq![c] + digits@));
        }
        let mut nd: Vec<char> = Vec::new();
        nd.push(c);
        let mut j: usize = 0;
        while j < digits.len()
            invariant
                j <= digits@.len(),
                nd@ == seq![c] + digits@.take(j as int),
            decreases digits@.len() - j,
        {
            nd.push(digits[j]);
            assert(digits@.take(j + 1) =~= digits@.take(j as int).push(digits@[j as int]));
            j += 1;
        }
        assert(digits@.take(digits@.len() as int) =~= digits@);
        digits = nd;
        x = x / 16;
        k += 1;
    }
    assert(hex_digits(x as nat, 0) =~= Seq::<char>::empty());
    digits
}

pub open spec fn pow16(k: nat) -> nat
    decreases k,
{
    if k == 0 {
        1
    } else {
        16 * pow16((k - 1) as nat)
    }
}

proof fn lemma_pow16_step(v: nat, k: nat)
    ensures
        pow16(k + 1) == 16 * pow16(k),
        pow16(k) >= 1,
        v / pow16(k + 1) == (v / pow16(k)) / 16,
    decreases k,
{
    if k > 0 {
        lemma_pow16_step(v, (k - 1) as nat);
    }
    assert(pow16(k + 1) == 16 * pow16(k));
    vstd::arithmetic::div_mod::lemma_div_denominator(v as int, pow16(k) as int, 16);
}

/// Whitespace-squeezed content hashed to a stable dedup key (16 hex digits).
pub open spec fn content_hash_spec(content: Seq<char>) -> Seq<char> {
    hex_digits(default_hash(squeeze_ws(content)) as nat, 16)
}

fn squeeze_whitespace(s: &Vec<char>) -> (r: Vec<char>)
    ensures
        r@ == squeeze_ws(s@),
{
    let mut out: Vec<char> = Vec::new();
    let mut cur: Vec<char> = Vec::new();
    let mut i: usize = 0;
    while i < s.len()
        invariant
            i <= s.len(),
            squeeze_ws_go(s@, i as int, out@, cur@) == squeeze_ws(s@),
        decreases s.len() - i,
    {
        if crate::text::is_ws(s[i]) {
            if cur.len() > 0 {
                let ghost o = out@;
                if out.len() > 0 {
                    out.push(' ');
                }
                push_all(&mut out, &cur);
                proof {
                    reveal_strlit(" ");
                    if o.len() > 0 {
                        assert(out@ =~= o + " "@ + cur@);
                    } else {
                        assert(out@ =~= cur@);
                    }
                }
                cur = Vec::new();
            } else {
                assert(cur@ =~= Seq::<char>::empty());
            }
        } else {
            cur.push(s[i]);
        }
        i += 1;
    }
    if cur.len() > 0 {
        let ghost o = out@;
        if out.len() > 0 {
            out.push(' ');
        }
        push_all(&mut out, &cur);
        proof {
            reveal_strlit(" ");
            if o.len() > 0 {
                assert(out@ =~= o + " "@ + cur@);
            } else {
                assert(out@ =~= cur@);
            }
        }
    }
    out
}

/// Normalizes whitespace and produces a stable dedup key.
pub fn content_hash(content: &str) -> (r: String)
    ensures
        r@ == content_hash_spec(content@),
{
    let n = squeeze_whitespace(&chars_of(content));
    let t = to_string(&n);
    let h = hash_text(t.as_str());
    to_string(&hex16(h))
}

/// The words of `s`: its maximal runs of non-white-space characters.
pub open spec fn ws_words_go(s: Seq<char>, i: int, words: Seq<Seq<char>>, cur: Seq<char>) -> Seq<Seq<char>>
    decreases s.len() - i,
{
    if i < 0 || i >= s.len() {
        if cur.len() > 0 {
            words.push(cur)
        } else {
            words
        }
    } else if crate::text::is_ws_spec(s[i]) {
        ws_words_go(s, i + 1, if cur.len() > 0 { words.push(cur) } else { words }, seq![])
    } else {
        ws_words_go(s, i + 1, words, cur.push(s[i]))
    }
}

/// The whitespace-separated words of a text (as `str::split_whitespace` gives them).
pub open spec fn ws_words(s: Seq<char>) -> Seq<Seq<char>> {
    ws_words_go(s, 0, seq![], seq![])
}

proof fn lemma_join_push(words: Seq<Seq<char>>, w: Seq<char>)
    ensures
        join_spec(words.push(w), " "@) == if words.len() == 0 {
            w
        } else {
            join_spec(words, " "@) + " "@ + w
        },
{
    assert(words.push(w).drop_last() =~= words);
}

proof fn lemma_join_nonempty(words: Seq<Seq<char>>)
    requires
        words.len() > 0,
        words.last().len() > 0,
    ensures
        join_spec(words, " "@).len() > 0,
{
}

proof fn lemma_squeeze_is_joined_words(s: Seq<char>, i: int, words: Seq<Seq<char>>, cur: Seq<char>)
    requires
        0 <= i,
        forall|j: int| 0 <= j < words.len() ==> (#[trigger] words[j]).len() > 0,
    ensures
        squeeze_ws_go(s, i, join_spec(words, " "@), cur) == join_spec(ws_words_go(s, i, words, cur), " "@),
    decreases s.len() - i,
{
    let out = join_spec(words, " "@);
    if words.len() > 0 {
        lemma_join_nonempty(words);
    }
    assert(out.len() > 0 <==> words.len() > 0);
    lemma_join_push(words, cur);
    if i >= s.len() {
    } else if crate::text::is_ws_spec(s[i]) {
        if cur.len() > 0 {
            let w2 = words.push(cur);
            assert forall|j: int| 0 <= j < w2.len() implies (#[trigger] w2[j]).len() > 0 by {
                if j < words.len() {
                    assert(w2[j] == words[j]);
                }
            }
            lemma_squeeze_is_joined_words(s, i + 1, w2, seq![]);
        } else {
            lemma_squeeze_is_joined_words(s, i + 1, words, seq![]);
        }
    } else {
        lemma_squeeze_is_joined_words(s, i + 1, words, cur.push(s[i]));
    }
}

proof fn lemma_hex_digits(v: nat, n: nat)
    ensures
        hex_digits(v, n).len() == n,
        forall|k: int| 0 <= k < n ==> {
            let c = #[trigger] hex_digits(v, n)[k];
            ('0' <= c && c <= '9') || ('a' <= c && c <= 'f')
        },
    decreases n,
{
    if n > 0 {
        lemma_hex_digits(v / 16, (n - 1) as nat);
        let d = (v % 16) as int;
        assert(0 <= d < 16);
        assert forall|k: int| 0 <= k < n implies {
            let c = #[trigger] hex_digits(v, n)[k];
            ('0' <= c && c <= '9') || ('a' <= c && c <= 'f')
        } by {
            if k == n - 1 {
                assert(hex_digits(v, n)[k] == hex_char(d));
            } else {
                assert(hex_digits(v, n)[k] == hex_digits(v / 16, (n - 1) as nat)[k]);
            }
        }
    }
}

/// The key is 16 lower-case hex digits and depends only on the text's
/// whitespace-separated words: texts that differ only in spacing get the
/// same key.
pub proof fn law_content_hash_ignores_spacing(a: Seq<char>, b: Seq<char>)
    requires
        ws_words(a) == ws_words(b),
    ensures
        content_hash_spec(a) == content_hash_spec(b),
        content_hash_spec(a).len() == 16,
        forall|k: int| 0 <= k < 16 ==> {
            let c = #[trigger] content_hash_spec(a)[k];
            ('0' <= c && c <= '9') || ('a' <= c && c <= 'f')
        },
{
    let e: Seq<Seq<char>> = seq![];
    assert(join_spec(e, " "@) == Seq::<char>::empty());
    lemma_squeeze_is_joined_words(a, 0, e, seq![]);
    lemma_squeeze_is_joined_words(b, 0, e, seq![]);
    assert(squeeze_ws(a) == squeeze_ws(b));
    lemma_hex_digits(default_hash(squeeze_ws(a)) as nat, 16);
}

} // verus!
