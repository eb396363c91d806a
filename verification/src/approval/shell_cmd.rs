//! Shell command-line splitting and danger analysis.
//!
//! Splitting and word tokenizing scan the UTF-8 bytes of the text and turn
//! every byte they keep into the character of the same code, so text outside
//! ASCII comes out as one character per byte.
use vstd::prelude::*;
use crate::text::{
    byte_char, char_views, chars_of, contains_char, contains_spec, contains_str, copy_chars,
    eq_str, is_ascii_ws_byte, is_ascii_ws_byte_spec, remove_ws, remove_ws_spec, slice_chars,
    starts_with_spec, starts_with_str, string_chars, to_string, to_strings, trim, trim_quotes,
    trim_quotes_spec, trim_spec, utf8_bytes, utf8_spec, views, chars_eq, sorted_distinct,
    sorted_distinct_chars, strictly_sorted, chars_lt, seq_lt, eq_ignore_ascii_case,
    eq_ignore_ascii_case_spec,
};
use crate::approval::shell_deobfuscate::{
    literal_substitution_value, literal_value_spec, normalize_chars, normalize_spec,
    normalize_with_status_spec, substitution_bodies, substitution_bodies_spec,
};

verus! {

pub open spec fn bchar(b: u8) -> char {
    (b as u32) as char
}

pub open spec fn is_continuation(b: u8) -> bool {
    0x80 <= b && b < 0xC0
}

/// Length of the operator (`;`, `&&`, `||`, tried in that order) at byte `i`, 0 for none.
pub open spec fn unit_op_len(b: Seq<u8>, i: int) -> int {
    if b[i] == 0x3B {
        1
    } else if i + 1 < b.len() && b[i] == 0x26 && b[i + 1] == 0x26 {
        2
    } else if i + 1 < b.len() && b[i] == 0x7C && b[i + 1] == 0x7C {
        2
    } else {
        0
    }
}

/// Length of the pipe operator `|` at byte `i`, 0 for none.
pub open spec fn pipe_op_len(b: Seq<u8>, i: int) -> int {
    if b[i] == 0x7C {
        1
    } else {
        0
    }
}

pub open spec fn op_len(b: Seq<u8>, i: int, pipes: bool) -> int {
    if pipes {
        pipe_op_len(b, i)
    } else {
        unit_op_len(b, i)
    }
}

/// Quote-aware split of `b` on the operators; quotes stay in the pieces.
pub open spec fn split_go(
    b: Seq<u8>,
    pipes: bool,
    i: int,
    out: Seq<Seq<char>>,
    cur: Seq<char>,
    sq: bool,
    dq: bool,
) -> Seq<Seq<char>>
    decreases b.len() - i,
{
    if i < 0 || i >= b.len() {
        out.push(cur)
    } else {
        let c = b[i];
        if !dq && c == 0x27 {
            split_go(b, pipes, i + 1, out, cur.push(bchar(c)), !sq, dq)
        } else if !sq && c == 0x22 {
            split_go(b, pipes, i + 1, out, cur.push(bchar(c)), sq, !dq)
        } else if !sq && !dq && op_len(b, i, pipes) > 0 {
            split_go(b, pipes, i + op_len(b, i, pipes), out.push(cur), seq![], sq, dq)
        } else {
            split_go(b, pipes, i + 1, out, cur.push(bchar(c)), sq, dq)
        }
    }
}

/// The split never looks for an operator in the middle of a multi-byte character
/// (where slicing the text would not be allowed).
pub open spec fn split_safe_go(b: Seq<u8>, pipes: bool, i: int, sq: bool, dq: bool) -> bool
    decreases b.len() - i,
{
    if i < 0 || i >= b.len() {
        true
    } else {
        let c = b[i];
        if !dq && c == 0x27 {
            split_safe_go(b, pipes, i + 1, !sq, dq)
        } else if !sq && c == 0x22 {
            split_safe_go(b, pipes, i + 1, sq, !dq)
        } else if !sq && !dq && is_continuation(c) {
            false
        } else if !sq && !dq && op_len(b, i, pipes) > 0 {
            split_safe_go(b, pipes, i + op_len(b, i, pipes), sq, dq)
        } else {
            split_safe_go(b, pipes, i + 1, sq, dq)
        }
    }
}

pub open spec fn split_units_spec(s: Seq<char>) -> Seq<Seq<char>> {
    split_go(utf8_spec(s), false, 0, seq![], seq![], false, false)
}

pub open spec fn split_pipes_spec(s: Seq<char>) -> Seq<Seq<char>> {
    split_go(utf8_spec(s), true, 0, seq![], seq![], false, false)
}

pub open spec fn units_safe(s: Seq<char>) -> bool {
    split_safe_go(utf8_spec(s), false, 0, false, false)
}

pub open spec fn pipes_safe(s: Seq<char>) -> bool {
    split_safe_go(utf8_spec(s), true, 0, false, false)
}

/// Quote-aware word split on ASCII whitespace; quotes are dropped and an
/// unquoted backslash keeps the byte after it.
pub open spec fn words_go(
    b: Seq<u8>,
    i: int,
    out: Seq<Seq<char>>,
    cur: Seq<char>,
    sq: bool,
    dq: bool,
) -> Seq<Seq<char>>
    decreases b.len() - i,
{
    if i < 0 || i >= b.len() {
        if cur.len() > 0 {
            out.push(cur)
        } else {
            out
        }
    } else {
        let c = b[i];
        if !dq && c == 0x27 {
            words_go(b, i + 1, out, cur, !sq, dq)
        } else if !sq && c == 0x22 {
            words_go(b, i + 1, out, cur, sq, !dq)
        } else if !sq && !dq && is_ascii_ws_byte_spec(c) {
            words_go(
                b,
                i + 1,
                if cur.len() > 0 {
                    out.push(cur)
                } else {
                    out
                },
                seq![],
                sq,
                dq,
            )
        } else if !sq && !dq && c == 0x5C && i + 1 < b.len() {
            words_go(b, i + 2, out, cur.push(bchar(b[i + 1])), sq, dq)
        } else {
            words_go(b, i + 1, out, cur.push(bchar(c)), sq, dq)
        }
    }
}

pub open spec fn words_spec(s: Seq<char>) -> Seq<Seq<char>> {
    words_go(utf8_spec(s), 0, seq![], seq![], false, false)
}

pub proof fn lemma_char_views_push(v: Seq<Vec<char>>, x: Vec<char>)
    ensures
        char_views(v.push(x)) == char_views(v).push(x@),
{
    assert(char_views(v.push(x)) =~= char_views(v).push(x@));
}

fn op_len_at(b: &Vec<u8>, i: usize, pipes: bool) -> (n: usize)
    requires
        i < b.len(),
    ensures
        n == op_len(b@, i as int, pipes),
{
    if pipes {
        if b[i] == 0x7C {
            1
        } else {
            0
        }
    } else if b[i] == 0x3B {
        1
    } else if i + 1 < b.len() && b[i] == 0x26 && b[i + 1] == 0x26 {
        2
    } else if i + 1 < b.len() && b[i] == 0x7C && b[i + 1] == 0x7C {
        2
    } else {
        0
    }
}

/// Split on top-level operators (`;`/`&&`/`||`, or `|` when `pipes`).
pub fn split_on_operators(b: &Vec<u8>, pipes: bool) -> (r: Vec<Vec<char>>)
    requires
        split_safe_go(b@, pipes, 0, false, false),
    ensures
        char_views(r@) == split_go(b@, pipes, 0, seq![], seq![], false, false),
{
    let mut out: Vec<Vec<char>> = Vec::new();
    let mut cur: Vec<char> = Vec::new();
    let mut i: usize = 0;
    let mut sq = false;
    let mut dq = false;
    proof {
        assert(char_views(out@) =~= Seq::<Seq<char>>::empty());
    }
    while i < b.len()
        invariant
            i <= b.len(),
            split_safe_go(b@, pipes, i as int, sq, dq),
            split_go(b@, pipes, i as int, char_views(out@), cur@, sq, dq) == split_go(
                b@,
                pipes,
                0,
                seq![],
                seq![],
                false,
                false,
            ),
        decreases b.len() - i,
    {
        let c = b[i];
        if !dq && c == 0x27 {
            sq = !sq;
            cur.push(byte_char(c));
            i += 1;
        } else if !sq && c == 0x22 {
            dq = !dq;
            cur.push(byte_char(c));
            i += 1;
        } else {
            let n = if !sq && !dq {
                op_len_at(b, i, pipes)
            } else {
                0
            };
            if n > 0 {
                proof {
                    lemma_char_views_push(out@, cur);
                }
                out.push(cur);
                cur = Vec::new();
                i += n;
            } else {
                cur.push(byte_char(c));
                i += 1;
            }
        }
    }
    proof {
        lemma_char_views_push(out@, cur);
    }
    out.push(cur);
    out
}

/// Tokenize into shell words (see `words_go`).
pub fn tokenize_bytes(b: &Vec<u8>) -> (r: Vec<Vec<char>>)
    ensures
        char_views(r@) == words_go(b@, 0, seq![], seq![], false, false),
{
    let mut out: Vec<Vec<char>> = Vec::new();
    let mut cur: Vec<char> = Vec::new();
    let mut i: usize = 0;
    let mut sq = false;
    let mut dq = false;
    proof {
        assert(char_views(out@) =~= Seq::<Seq<char>>::empty());
    }
    while i < b.len()
        invariant
            i <= b.len(),
            words_go(b@, i as int, char_views(out@), cur@, sq, dq) == words_go(
                b@,
                0,
                seq![],
                seq![],
                false,
                false,
            ),
        decreases b.len() - i,
    {
        let c = b[i];
        if !dq && c == 0x27 {
            sq = !sq;
            i += 1;
        } else if !sq && c == 0x22 {
            dq = !dq;
            i += 1;
        } else if !sq && !dq && is_ascii_ws_byte(c) {
            if cur.len() > 0 {
                proof {
                    lemma_char_views_push(out@, cur);
                }
                out.push(cur);
                cur = Vec::new();
            } else {
                assert(cur@ =~= Seq::<char>::empty());
            }
            i += 1;
        } else if !sq && !dq && c == 0x5C && i + 1 < b.len() {
            cur.push(byte_char(b[i + 1]));
            i += 2;
        } else {
            cur.push(byte_char(c));
            i += 1;
        }
    }
    if cur.len() > 0 {
        proof {
            lemma_char_views_push(out@, cur);
        }
        out.push(cur);
    }
    out
}

/// Shell words of a text (quotes removed, backslash escapes applied).
pub fn tokenize_words(s: &Vec<char>) -> (r: Vec<Vec<char>>)
    ensures
        char_views(r@) == words_spec(s@),
{
    let b = utf8_bytes(s);
    tokenize_bytes(&b)
}

pub fn split_command_units(s: &Vec<char>) -> (r: Vec<Vec<char>>)
    requires
        units_safe(s@),
    ensures
        char_views(r@) == split_units_spec(s@),
{
    let b = utf8_bytes(s);
    split_on_operators(&b, false)
}

pub fn split_pipelines(s: &Vec<char>) -> (r: Vec<Vec<char>>)
    requires
        pipes_safe(s@),
    ensures
        char_views(r@) == split_pipes_spec(s@),
{
    let b = utf8_bytes(s);
    split_on_operators(&b, true)
}

} // verus!

verus! {

/// `path` with trailing `/` and trailing `/.` components removed.
pub open spec fn strip_path_tail(w: Seq<char>) -> Seq<char>
    decreases w.len(),
{
    if w.len() > 0 && w.last() == '/' {
        strip_path_tail(w.drop_last())
    } else if w.len() >= 2 && w.last() == '.' && w[w.len() - 2] == '/' {
        strip_path_tail(w.drop_last())
    } else {
        w
    }
}

/// The characters after the last `/`.
pub open spec fn last_segment(t: Seq<char>) -> Seq<char>
    decreases t.len(),
{
    if t.len() == 0 || t.last() == '/' {
        seq![]
    } else {
        last_segment(t.drop_last()).push(t.last())
    }
}

/// `Path::file_name` of a Unix path: the last normal component, if there is one.
pub open spec fn file_name_spec(w: Seq<char>) -> Option<Seq<char>> {
    let s = last_segment(strip_path_tail(w));
    if s.len() == 0 || s == seq!['.'] || s == seq!['.', '.'] {
        None
    } else {
        Some(s)
    }
}

/// The command name of a word: its file name, or the word itself when it has none.
pub open spec fn basename_spec(w: Seq<char>) -> Seq<char> {
    match file_name_spec(w) {
        Some(s) => s,
        None => w,
    }
}

pub open spec fn is_name_char_spec(c: char) -> bool {
    ('a' <= c && c <= 'z') || ('A' <= c && c <= 'Z') || ('0' <= c && c <= '9') || c == '_'
}

/// `NAME=value` with a non-empty identifier name and a non-empty value.
pub open spec fn env_assign_spec(w: Seq<char>) -> bool {
    exists|k: int|
        0 < k && k + 1 < w.len() && w[k] == '=' && (forall|j: int|
            0 <= j < k ==> #[trigger] is_name_char_spec(w[j]))
}

/// Words with the leading `NAME=value` assignments dropped.
pub open spec fn strip_env(ws: Seq<Seq<char>>) -> Seq<Seq<char>>
    decreases ws.len(),
{
    if ws.len() > 0 && env_assign_spec(ws[0]) {
        strip_env(ws.drop_first())
    } else {
        ws
    }
}

/// The words of one simple command.
pub open spec fn simple_words_spec(seg: Seq<char>) -> Seq<Seq<char>> {
    strip_env(words_spec(seg))
}

/// The commands of the pipeline pieces, empty pieces skipped.
pub open spec fn pipeline_spec(segs: Seq<Seq<char>>) -> Seq<Seq<Seq<char>>>
    decreases segs.len(),
{
    if segs.len() == 0 {
        seq![]
    } else {
        let r = pipeline_spec(segs.drop_last());
        let t = trim_spec(segs.last());
        if t.len() == 0 {
            r
        } else {
            r.push(simple_words_spec(t))
        }
    }
}

pub open spec fn line_spec(units: Seq<Seq<char>>) -> Seq<Seq<Seq<Seq<char>>>>
    decreases units.len(),
{
    if units.len() == 0 {
        seq![]
    } else {
        let r = line_spec(units.drop_last());
        let t = trim_spec(units.last());
        if t.len() == 0 {
            r
        } else {
            let cmds = pipeline_spec(split_pipes_spec(t));
            if cmds.len() == 0 {
                r
            } else {
                r.push(cmds)
            }
        }
    }
}

/// The parsed command line: pipelines of commands of words.
pub open spec fn parse_spec(s: Seq<char>) -> Seq<Seq<Seq<Seq<char>>>> {
    line_spec(split_units_spec(s))
}

pub open spec fn units_pipes_safe(units: Seq<Seq<char>>) -> bool {
    forall|i: int|
        0 <= i < units.len() && trim_spec(#[trigger] units[i]).len() > 0 ==> pipes_safe(
            trim_spec(units[i]),
        )
}

/// Parsing `s` never splits text in the middle of a multi-byte character.
pub open spec fn parse_safe(s: Seq<char>) -> bool {
    units_safe(s) && units_pipes_safe(split_units_spec(s))
}

pub open spec fn cmd_views(v: Seq<Vec<Vec<char>>>) -> Seq<Seq<Seq<char>>> {
    Seq::new(v.len(), |i: int| char_views(v[i]@))
}

pub open spec fn line_views(v: Seq<Vec<Vec<Vec<char>>>>) -> Seq<Seq<Seq<Seq<char>>>> {
    Seq::new(v.len(), |i: int| cmd_views(v[i]@))
}

/// One simple command (`argv[0]` + args), after leading `VAR=val` assignments.
#[derive(Debug, Clone, PartialEq, Eq)]
pub struct SimpleCommand {
    pub words: Vec<String>,
}

/// Commands connected by `|`.
#[derive(Debug, Clone, PartialEq, Eq)]
pub struct Pipeline {
    pub commands: Vec<SimpleCommand>,
}

/// Full user command line (`;` / `&&` / `||` separated pipelines).
#[derive(Debug, Clone, PartialEq, Eq)]
pub struct CommandLine {
    pub pipelines: Vec<Pipeline>,
}

impl View for SimpleCommand {
    type V = Seq<Seq<char>>;

    open spec fn view(&self) -> Seq<Seq<char>> {
        views(self.words@)
    }
}

impl View for Pipeline {
    type V = Seq<Seq<Seq<char>>>;

    open spec fn view(&self) -> Seq<Seq<Seq<char>>> {
        Seq::new(self.commands@.len(), |i: int| self.commands@[i]@)
    }
}

impl View for CommandLine {
    type V = Seq<Seq<Seq<Seq<char>>>>;

    open spec fn view(&self) -> Seq<Seq<Seq<Seq<char>>>> {
        Seq::new(self.pipelines@.len(), |i: int| self.pipelines@[i]@)
    }
}

impl SimpleCommand {
    /// The command name: basename of the first word.
    pub fn name(&self) -> (r: Option<String>)
        ensures
            self@.len() == 0 ==> r is None,
            self@.len() > 0 ==> r is Some && r->0@ == basename_spec(self@[0]),
    {
        if self.words.len() == 0 {
            None
        } else {
            let w = string_chars(&self.words[0]);
            let b = command_basename(&w);
            Some(to_string(&b))
        }
    }

    /// The words after the command name.
    pub fn args(&self) -> (r: &[String])
        ensures
            views(r@) == if self@.len() <= 1 {
                Seq::<Seq<char>>::empty()
            } else {
                self@.skip(1)
            },
    {
        if self.words.len() <= 1 {
            let r: &[String] = &[];
            assert(views(r@) =~= Seq::<Seq<char>>::empty());
            r
        } else {
            let r = vstd::slice::slice_subrange(self.words.as_slice(), 1, self.words.len());
            assert(views(r@) =~= self@.skip(1));
            r
        }
    }
}

fn strip_path_tail_len(w: &Vec<char>) -> (n: usize)
    ensures
        n <= w.len(),
        strip_path_tail(w@) == w@.subrange(0, n as int),
{
    let mut n = w.len();
    assert(w@.subrange(0, n as int) =~= w@);
    while n > 0 && (w[n - 1] == '/' || (n >= 2 && w[n - 1] == '.' && w[n - 2] == '/'))
        invariant
            n <= w.len(),
            strip_path_tail(w@) == strip_path_tail(w@.subrange(0, n as int)),
        decreases n,
    {
        assert(w@.subrange(0, n as int).drop_last() =~= w@.subrange(0, n - 1));
        n -= 1;
    }
    n
}

/// Command name of a shell word (`Path::file_name`, or the word itself).
pub fn command_basename(word: &Vec<char>) -> (r: Vec<char>)
    ensures
        r@ == basename_spec(word@),
{
    let n = strip_path_tail_len(word);
    let ghost t = word@.subrange(0, n as int);
    let mut k = n;
    while k > 0 && word[k - 1] != '/'
        invariant
            k <= n <= word.len(),
            t == word@.subrange(0, n as int),
            last_segment(t) == last_segment(word@.subrange(0, k as int)) + word@.subrange(
                k as int,
                n as int,
            ),
        decreases k,
    {
        proof {
            let p = word@.subrange(0, k as int);
            assert(p.drop_last() =~= word@.subrange(0, k - 1));
            assert(word@.subrange(k - 1, n as int) =~= seq![p.last()] + word@.subrange(
                k as int,
                n as int,
            ));
            assert(last_segment(p) == last_segment(p.drop_last()).push(p.last()));
            assert(last_segment(p.drop_last()).push(p.last()) + word@.subrange(k as int, n as int)
                =~= last_segment(p.drop_last()) + word@.subrange(k - 1, n as int));
        }
        k -= 1;
    }
    proof {
        let p = word@.subrange(0, k as int);
        assert(last_segment(p) =~= Seq::<char>::empty());
        assert(Seq::<char>::empty() + word@.subrange(k as int, n as int) =~= word@.subrange(
            k as int,
            n as int,
        ));
    }
    let seg = slice_chars(word, k, n);
    let dot = seg.len() == 1 && seg[0] == '.';
    let dotdot = seg.len() == 2 && seg[0] == '.' && seg[1] == '.';
    proof {
        if seg@ == seq!['.'] {
            assert(seg@[0] == '.');
        }
        if seg@ == seq!['.', '.'] {
            assert(seg@[0] == '.' && seg@[1] == '.');
        }
        if dot {
            assert(seg@ =~= seq!['.']);
        }
        if dotdot {
            assert(seg@ =~= seq!['.', '.']);
        }
    }
    if seg.len() == 0 || dot || dotdot {
        copy_chars(word)
    } else {
        seg
    }
}

fn is_name_char(c: char) -> (r: bool)
    ensures
        r == is_name_char_spec(c),
{
    ('a' <= c && c <= 'z') || ('A' <= c && c <= 'Z') || ('0' <= c && c <= '9') || c == '_'
}

fn looks_like_env_assign(word: &Vec<char>) -> (r: bool)
    ensures
        r == env_assign_spec(word@),
{
    let mut k: usize = 0;
    while k < word.len() && word[k] != '='
        invariant
            k <= word.len(),
            forall|j: int| 0 <= j < k ==> word@[j] != '=',
        decreases word.len() - k,
    {
        k += 1;
    }
    if k == word.len() {
        proof {
            assert forall|k2: int| !(0 < k2 && k2 + 1 < word@.len() && word@[k2] == '=') by {}
        }
        return false;
    }
    let mut j: usize = 0;
    while j < k && is_name_char(word[j])
        invariant
            j <= k < word.len(),
            forall|m: int| 0 <= m < j ==> is_name_char_spec(word@[m]),
        decreases k - j,
    {
        j += 1;
    }
    let r = k > 0 && j == k && word.len() > k + 1;
    proof {
        if r {
            assert(0 < k && k + 1 < word@.len() && word@[k as int] == '=' && (forall|m: int|
                0 <= m < k ==> #[trigger] is_name_char_spec(word@[m])));
        } else {
            assert forall|k2: int|
                !(0 < k2 && k2 + 1 < word@.len() && word@[k2] == '=' && (forall|m: int|
                    0 <= m < k2 ==> #[trigger] is_name_char_spec(word@[m]))) by {
                if 0 < k2 && k2 + 1 < word@.len() && word@[k2] == '=' && (forall|m: int|
                    0 <= m < k2 ==> #[trigger] is_name_char_spec(word@[m])) {
                    if k2 > k {
                        assert(is_name_char_spec(word@[k as int]));
                    }
                    if k2 < k {
                        assert(word@[k2] != '=');
                    }
                    assert(k2 == k);
                    if j < k {
                        assert(is_name_char_spec(word@[j as int]));
                    }
                }
            }
        }
    }
    r
}

/// Words of one simple command, leading assignments dropped.
fn parse_simple_command(segment: &Vec<char>) -> (r: Vec<Vec<char>>)
    ensures
        char_views(r@) == simple_words_spec(segment@),
{
    let words = tokenize_words(segment);
    let mut start: usize = 0;
    assert(char_views(words@).skip(0) =~= char_views(words@));
    while start < words.len() && looks_like_env_assign(&words[start])
        invariant
            start <= words.len(),
            strip_env(char_views(words@)) == strip_env(char_views(words@).skip(start as int)),
        decreases words.len() - start,
    {
        proof {
            let t = char_views(words@).skip(start as int);
            assert(t.drop_first() =~= char_views(words@).skip(start + 1));
            assert(t[0] == words@[start as int]@);
        }
        start += 1;
    }
    let mut out: Vec<Vec<char>> = Vec::new();
    let mut i = start;
    while i < words.len()
        invariant
            start <= i <= words.len(),
            char_views(out@) == char_views(words@).subrange(start as int, i as int),
        decreases words.len() - i,
    {
        let w = copy_chars(&words[i]);
        proof {
            lemma_char_views_push(out@, w);
        }
        out.push(w);
        proof {
            assert(char_views(out@) =~= char_views(words@).subrange(start as int, i + 1));
        }
        i += 1;
    }
    proof {
        let t = char_views(words@).skip(start as int);
        if t.len() > 0 {
            assert(t[0] == words@[start as int]@);
        }
        assert(char_views(words@).subrange(start as int, words.len() as int) =~= t);
        assert(char_views(words@) =~= words_spec(segment@));
    }
    out
}

pub proof fn lemma_cmd_views_push(v: Seq<Vec<Vec<char>>>, x: Vec<Vec<char>>)
    ensures
        cmd_views(v.push(x)) == cmd_views(v).push(char_views(x@)),
{
    assert(cmd_views(v.push(x)) =~= cmd_views(v).push(char_views(x@)));
}

pub proof fn lemma_line_views_push(v: Seq<Vec<Vec<Vec<char>>>>, x: Vec<Vec<Vec<char>>>)
    ensures
        line_views(v.push(x)) == line_views(v).push(cmd_views(x@)),
{
    assert(line_views(v.push(x)) =~= line_views(v).push(cmd_views(x@)));
}

fn parse_pipeline(unit: &Vec<char>) -> (r: Vec<Vec<Vec<char>>>)
    requires
        pipes_safe(unit@),
    ensures
        cmd_views(r@) == pipeline_spec(split_pipes_spec(unit@)),
{
    let segs = split_pipelines(unit);
    let mut cmds: Vec<Vec<Vec<char>>> = Vec::new();
    let mut i: usize = 0;
    proof {
        assert(char_views(segs@).take(0) =~= Seq::<Seq<char>>::empty());
        assert(cmd_views(cmds@) =~= Seq::<Seq<Seq<char>>>::empty());
    }
    while i < segs.len()
        invariant
            i <= segs.len(),
            cmd_views(cmds@) == pipeline_spec(char_views(segs@).take(i as int)),
        decreases segs.len() - i,
    {
        let seg = trim(&segs[i]);
        proof {
            let p = char_views(segs@).take(i + 1);
            assert(p.drop_last() =~= char_views(segs@).take(i as int));
            assert(p.last() == segs@[i as int]@);
        }
        if seg.len() > 0 {
            let words = parse_simple_command(&seg);
            proof {
                lemma_cmd_views_push(cmds@, words);
            }
            cmds.push(words);
        }
        i += 1;
    }
    proof {
        assert(char_views(segs@).take(segs.len() as int) =~= char_views(segs@));
    }
    cmds
}

/// Pipelines of commands of words (the model of `parse_command_line`).
pub fn parse_line_chars(input: &Vec<char>) -> (r: Vec<Vec<Vec<Vec<char>>>>)
    requires
        parse_safe(input@),
    ensures
        line_views(r@) == parse_spec(input@),
{
    let units = split_command_units(input);
    let mut out: Vec<Vec<Vec<Vec<char>>>> = Vec::new();
    let mut i: usize = 0;
    proof {
        assert(char_views(units@).take(0) =~= Seq::<Seq<char>>::empty());
        assert(line_views(out@) =~= Seq::<Seq<Seq<Seq<char>>>>::empty());
    }
    while i < units.len()
        invariant
            i <= units.len(),
            char_views(units@) == split_units_spec(input@),
            units_pipes_safe(split_units_spec(input@)),
            line_views(out@) == line_spec(char_views(units@).take(i as int)),
        decreases units.len() - i,
    {
        let unit = trim(&units[i]);
        proof {
            let p = char_views(units@).take(i + 1);
            assert(p.drop_last() =~= char_views(units@).take(i as int));
            assert(p.last() == units@[i as int]@);
            assert(char_views(units@)[i as int] == units@[i as int]@);
        }
        if unit.len() > 0 {
            let cmds = parse_pipeline(&unit);
            if cmds.len() > 0 {
                proof {
                    lemma_line_views_push(out@, cmds);
                }
                out.push(cmds);
            }
        }
        i += 1;
    }
    proof {
        assert(char_views(units@).take(units.len() as int) =~= char_views(units@));
    }
    out
}

fn to_simple_command(words: &Vec<Vec<char>>) -> (r: SimpleCommand)
    ensures
        r@ == char_views(words@),
{
    SimpleCommand { words: to_strings(words) }
}

/// Parse a full command line into pipelines of simple commands.
pub fn parse_command_line(input: &str) -> (r: CommandLine)
    requires
        parse_safe(input@),
    ensures
        r@ == parse_spec(input@),
{
    let chars = chars_of(input);
    let line = parse_line_chars(&chars);
    let mut pipelines: Vec<Pipeline> = Vec::new();
    let mut i: usize = 0;
    while i < line.len()
        invariant
            i <= line.len(),
            pipelines@.len() == i,
            forall|k: int| 0 <= k < i ==> #[trigger] pipelines@[k]@ == cmd_views(line@[k]@),
        decreases line.len() - i,
    {
        let mut commands: Vec<SimpleCommand> = Vec::new();
        let mut j: usize = 0;
        while j < line[i].len()
            invariant
                i < line.len(),
                j <= line@[i as int]@.len(),
                commands@.len() == j,
                forall|k: int| 0 <= k < j ==> #[trigger] commands@[k]@ == char_views(line@[i as int]@[k]@),
            decreases line@[i as int]@.len() - j,
        {
            commands.push(to_simple_command(&line[i][j]));
            j += 1;
        }
        let p = Pipeline { commands };
        assert(p@ =~= cmd_views(line@[i as int]@));
        pipelines.push(p);
        i += 1;
    }
    let r = CommandLine { pipelines };
    assert(r@ =~= line_views(line@));
    r
}

} // verus!

verus! {

/// A danger finding: grant key and whether it is a hard block.
pub type HitSpec = (Seq<char>, bool);

/// Why a command needs approval — `grant_key` is stored in `[tools.approvals.commands].allow`.
#[derive(Debug, Clone, PartialEq, Eq)]
pub struct DangerHit {
    pub grant_key: String,
    pub hardline: bool,
}

impl View for DangerHit {
    type V = HitSpec;

    open spec fn view(&self) -> HitSpec {
        (self.grant_key@, self.hardline)
    }
}

/// A danger finding with its key as characters.
pub struct Hit {
    pub key: Vec<char>,
    pub hardline: bool,
}

impl View for Hit {
    type V = HitSpec;

    open spec fn view(&self) -> HitSpec {
        (self.key@, self.hardline)
    }
}

pub open spec fn hit_views(v: Seq<Hit>) -> Seq<HitSpec> {
    Seq::new(v.len(), |i: int| v[i]@)
}

pub proof fn lemma_hit_views_push(v: Seq<Hit>, x: Hit)
    ensures
        hit_views(v.push(x)) == hit_views(v).push(x@),
{
    assert(hit_views(v.push(x)) =~= hit_views(v).push(x@));
}

pub open spec fn args_spec(ws: Seq<Seq<char>>) -> Seq<Seq<char>> {
    if ws.len() <= 1 {
        seq![]
    } else {
        ws.skip(1)
    }
}

/// Name of a command, empty when it has no words.
pub open spec fn name_or_empty_spec(ws: Seq<Seq<char>>) -> Seq<char> {
    if ws.len() == 0 {
        seq![]
    } else {
        basename_spec(ws[0])
    }
}

/// `-x…` but not `--x…`.
pub open spec fn is_short_flag(a: Seq<char>) -> bool {
    a.len() > 0 && a[0] == '-' && !(a.len() >= 2 && a[1] == '-')
}

pub open spec fn rm_recursive_arg(a: Seq<char>) -> bool {
    a == "--recursive"@ || (is_short_flag(a) && a.contains('r'))
}

pub open spec fn rm_is_recursive_spec(args: Seq<Seq<char>>) -> bool {
    exists|i: int| 0 <= i < args.len() && rm_recursive_arg(#[trigger] args[i])
}

pub open spec fn rm_root_arg(a: Seq<char>) -> bool {
    !(a.len() > 0 && a[0] == '-') && (trim_quotes_spec(a) == "/"@ || trim_quotes_spec(a)
        == "/*"@)
}

pub open spec fn rm_targets_root_spec(args: Seq<Seq<char>>) -> bool {
    exists|i: int| 0 <= i < args.len() && rm_root_arg(#[trigger] args[i])
}

pub open spec fn chmod_ww_arg(a: Seq<char>) -> bool {
    let t = trim_spec(a);
    t == "777"@ || t == "666"@ || t == "0777"@ || t == "0666"@ || contains_spec(t, "o+w"@)
        || contains_spec(t, "a+w"@)
}

pub open spec fn chmod_ww_spec(args: Seq<Seq<char>>) -> bool {
    exists|i: int| 0 <= i < args.len() && chmod_ww_arg(#[trigger] args[i])
}

pub open spec fn shell_inline_arg(a: Seq<char>) -> bool {
    a == "-c"@ || a == "--command"@ || (is_short_flag(a) && a.contains('c'))
}

pub open spec fn shell_inline_spec(args: Seq<Seq<char>>) -> bool {
    exists|i: int| 0 <= i < args.len() && shell_inline_arg(#[trigger] args[i])
}

pub open spec fn script_inline_arg(a: Seq<char>) -> bool {
    a == "-e"@ || a == "-c"@ || a == "--command"@
}

pub open spec fn script_inline_spec(args: Seq<Seq<char>>) -> bool {
    exists|i: int| 0 <= i < args.len() && script_inline_arg(#[trigger] args[i])
}

pub open spec fn is_shell_name_spec(n: Seq<char>) -> bool {
    n == "bash"@ || n == "sh"@ || n == "dash"@ || n == "zsh"@ || n == "ksh"@
}

pub open spec fn is_script_name_spec(n: Seq<char>) -> bool {
    n == "python"@ || n == "python3"@ || n == "perl"@ || n == "ruby"@ || n == "node"@
}

/// Findings for one simple command.
pub open spec fn simple_hits_spec(ws: Seq<Seq<char>>) -> Seq<HitSpec> {
    if ws.len() == 0 {
        seq![]
    } else {
        let name = basename_spec(ws[0]);
        let args = args_spec(ws);
        if name == "sudo"@ {
            seq![("sudo"@, false)]
        } else if name == "curl"@ || name == "wget"@ {
            seq![(name, false)]
        } else if name == "eval"@ {
            seq![("eval"@, false)]
        } else if name == "mkfs"@ {
            seq![("mkfs"@, true)]
        } else if name == "dd"@ {
            seq![("dd"@, true)]
        } else if name == "rm"@ && rm_is_recursive_spec(args) {
            seq![("rm"@, rm_targets_root_spec(args))]
        } else if name == "chmod"@ && chmod_ww_spec(args) {
            seq![("chmod"@, true)]
        } else if is_shell_name_spec(name) && shell_inline_spec(args) {
            seq![(name, false)]
        } else if is_script_name_spec(name) && script_inline_spec(args) {
            seq![(name, false)]
        } else {
            seq![]
        }
    }
}

/// `chmod` with an argument that, trimmed, is `777`, `666`, `0777` or `0666`,
/// or holds `o+w` or `a+w`, is a hard-line finding under the key `chmod`,
/// and the only finding of that simple command.
pub proof fn law_world_writable_chmod_is_hardline(ws: Seq<Seq<char>>, j: int)
    requires
        1 <= j < ws.len(),
        basename_spec(ws[0]) == "chmod"@,
        ({
            let t = trim_spec(ws[j]);
            t == "777"@ || t == "666"@ || t == "0777"@ || t == "0666"@ || contains_spec(t, "o+w"@)
                || contains_spec(t, "a+w"@)
        }),
    ensures
        simple_hits_spec(ws) == seq![("chmod"@, true)],
{
    reveal_strlit("chmod");
    reveal_strlit("sudo");
    reveal_strlit("curl");
    reveal_strlit("wget");
    reveal_strlit("eval");
    reveal_strlit("mkfs");
    reveal_strlit("dd");
    reveal_strlit("rm");
    let args = args_spec(ws);
    assert(args[j - 1] == ws[j]);
    assert(chmod_ww_arg(args[j - 1]));
    assert("chmod"@[0] != "sudo"@[0]);
    assert("chmod"@[0] != "wget"@[0]);
    assert("chmod"@[1] != "curl"@[1]);
    assert("chmod"@[0] != "eval"@[0]);
    assert("chmod"@[0] != "mkfs"@[0]);
    assert("chmod"@.len() != "dd"@.len());
    assert("chmod"@.len() != "rm"@.len());
}

/// `sudo`, `curl`, `wget` and `eval` are findings that approval can lift;
/// `mkfs` and `dd` are hard-line findings; each under its own name, whatever
/// the arguments.
pub proof fn law_named_command_findings(ws: Seq<Seq<char>>)
    requires
        ws.len() > 0,
    ensures
        basename_spec(ws[0]) == "sudo"@ ==> simple_hits_spec(ws) == seq![("sudo"@, false)],
        basename_spec(ws[0]) == "curl"@ ==> simple_hits_spec(ws) == seq![("curl"@, false)],
        basename_spec(ws[0]) == "wget"@ ==> simple_hits_spec(ws) == seq![("wget"@, false)],
        basename_spec(ws[0]) == "eval"@ ==> simple_hits_spec(ws) == seq![("eval"@, false)],
        basename_spec(ws[0]) == "mkfs"@ ==> simple_hits_spec(ws) == seq![("mkfs"@, true)],
        basename_spec(ws[0]) == "dd"@ ==> simple_hits_spec(ws) == seq![("dd"@, true)],
{
    reveal_strlit("sudo");
    reveal_strlit("curl");
    reveal_strlit("wget");
    reveal_strlit("eval");
    reveal_strlit("mkfs");
    reveal_strlit("dd");
    assert("sudo"@[0] != "curl"@[0] && "sudo"@[0] != "wget"@[0]);
    assert("eval"@[0] != "sudo"@[0] && "eval"@[0] != "curl"@[0] && "eval"@[0] != "wget"@[0]);
    assert("mkfs"@[0] != "sudo"@[0] && "mkfs"@[0] != "curl"@[0] && "mkfs"@[0] != "wget"@[0]
        && "mkfs"@[0] != "eval"@[0]);
    assert("dd"@.len() != "sudo"@.len() && "dd"@.len() != "curl"@.len() && "dd"@.len()
        != "wget"@.len() && "dd"@.len() != "eval"@.len() && "dd"@.len() != "mkfs"@.len());
}

/// `rm` with a recursive flag (`--recursive`, or a short flag holding `r`)
/// is a finding under the key `rm`; it is hard-line exactly when one of the
/// arguments that is no flag is `/` or `/*` once its quotes are trimmed.
pub proof fn law_recursive_rm_finding(ws: Seq<Seq<char>>, j: int)
    requires
        1 <= j < ws.len(),
        basename_spec(ws[0]) == "rm"@,
        ws[j] == "--recursive"@ || (ws[j].len() > 0 && ws[j][0] == '-' && !(ws[j].len() >= 2
            && ws[j][1] == '-') && ws[j].contains('r')),
    ensures
        simple_hits_spec(ws).len() == 1,
        simple_hits_spec(ws)[0].0 == "rm"@,
        simple_hits_spec(ws)[0].1 <==> exists|k: int|
            1 <= k < ws.len() && !(ws[k].len() > 0 && ws[k][0] == '-') && (trim_quotes_spec(
                #[trigger] ws[k],
            ) == "/"@ || trim_quotes_spec(ws[k]) == "/*"@),
{
    reveal_strlit("rm");
    reveal_strlit("sudo");
    reveal_strlit("curl");
    reveal_strlit("wget");
    reveal_strlit("eval");
    reveal_strlit("mkfs");
    reveal_strlit("dd");
    assert("rm"@.len() != "sudo"@.len() && "rm"@.len() != "curl"@.len() && "rm"@.len()
        != "wget"@.len() && "rm"@.len() != "eval"@.len() && "rm"@.len() != "mkfs"@.len());
    assert("rm"@[0] != "dd"@[0]);
    let args = args_spec(ws);
    assert(args[j - 1] == ws[j]);
    assert(rm_recursive_arg(args[j - 1]));
    let root = exists|k: int|
        1 <= k < ws.len() && !(ws[k].len() > 0 && ws[k][0] == '-') && (trim_quotes_spec(
            #[trigger] ws[k],
        ) == "/"@ || trim_quotes_spec(ws[k]) == "/*"@);
    assert(rm_targets_root_spec(args) <==> root) by {
        if rm_targets_root_spec(args) {
            let i = choose|i: int| 0 <= i < args.len() && rm_root_arg(#[trigger] args[i]);
            assert(ws[i + 1] == args[i]);
        }
        if root {
            let k = choose|k: int|
                1 <= k < ws.len() && !(ws[k].len() > 0 && ws[k][0] == '-') && (trim_quotes_spec(
                    #[trigger] ws[k],
                ) == "/"@ || trim_quotes_spec(ws[k]) == "/*"@);
            assert(args[k - 1] == ws[k]);
            assert(rm_root_arg(args[k - 1]));
        }
    }
}

/// A shell (`bash`, `sh`, `dash`, `zsh`, `ksh`) given inline code (`-c`,
/// `--command`, or a short flag holding `c`), or a script interpreter
/// (`python`, `python3`, `perl`, `ruby`, `node`) given `-e`, `-c` or
/// `--command`, is a finding under the interpreter's name that approval can
/// lift.
pub proof fn law_inline_code_findings(ws: Seq<Seq<char>>, j: int)
    requires
        1 <= j < ws.len(),
        ({
            let n = basename_spec(ws[0]);
            let a = ws[j];
            ((n == "bash"@ || n == "sh"@ || n == "dash"@ || n == "zsh"@ || n == "ksh"@) && (a
                == "-c"@ || a == "--command"@ || (a.len() > 0 && a[0] == '-' && !(a.len() >= 2
                && a[1] == '-') && a.contains('c')))) || ((n == "python"@ || n == "python3"@ || n
                == "perl"@ || n == "ruby"@ || n == "node"@) && (a == "-e"@ || a == "-c"@ || a
                == "--command"@))
        }),
    ensures
        simple_hits_spec(ws) == seq![(basename_spec(ws[0]), false)],
{
    reveal_strlit("sudo");
    reveal_strlit("curl");
    reveal_strlit("wget");
    reveal_strlit("eval");
    reveal_strlit("mkfs");
    reveal_strlit("dd");
    reveal_strlit("rm");
    reveal_strlit("chmod");
    reveal_strlit("bash");
    reveal_strlit("sh");
    reveal_strlit("dash");
    reveal_strlit("zsh");
    reveal_strlit("ksh");
    reveal_strlit("python");
    reveal_strlit("python3");
    reveal_strlit("perl");
    reveal_strlit("ruby");
    reveal_strlit("node");
    let n = basename_spec(ws[0]);
    let args = args_spec(ws);
    assert(args[j - 1] == ws[j]);
    assert(n.len() >= 2 && (n[0] == 'b' || n[0] == 's' || n[0] == 'd' || n[0] == 'z' || n[0]
        == 'k' || n[0] == 'p' || n[0] == 'r' || n[0] == 'n'));
    assert(n != "sudo"@ && n != "curl"@ && n != "wget"@ && n != "eval"@ && n != "mkfs"@ && n
        != "dd"@ && n != "rm"@ && n != "chmod"@);
    if is_shell_name_spec(n) && shell_inline_arg(ws[j]) {
        assert(shell_inline_spec(args));
    } else {
        assert(script_inline_arg(args[j - 1]));
        assert(script_inline_spec(args));
    }
}

pub open spec fn is_decode_flag(a: Seq<char>) -> bool {
    a == "-d"@ || a == "-D"@ || a == "--decode"@
}

/// `curl|wget … | sh` or `base64 -d … | sh`.
pub open spec fn pair_danger_spec(l: Seq<Seq<char>>, r: Seq<Seq<char>>) -> bool {
    let ln = name_or_empty_spec(l);
    let rn = name_or_empty_spec(r);
    ((ln == "curl"@ || ln == "wget"@) && is_shell_name_spec(rn)) || (ln == "base64"@ && (exists|i: int|
        0 <= i < args_spec(l).len() && is_decode_flag(#[trigger] args_spec(l)[i]))
        && is_shell_name_spec(rn))
}

pub open spec fn pipeline_danger_spec(cmds: Seq<Seq<Seq<char>>>) -> bool {
    cmds.len() >= 2 && exists|i: int|
        0 <= i < cmds.len() - 1 && #[trigger] pair_danger_spec(cmds[i], cmds[i + 1])
}

pub open spec fn is_fork_bomb_spec(s: Seq<char>) -> bool {
    contains_spec(remove_ws_spec(s), ":(){"@)
}

pub open spec fn strip_gt_spec(s: Seq<char>) -> Seq<char>
    decreases s.len(),
{
    if s.len() > 0 && s[0] == '>' {
        strip_gt_spec(s.drop_first())
    } else {
        s
    }
}

pub open spec fn dev_target_spec(t: Seq<char>) -> bool {
    starts_with_spec(trim_quotes_spec(t), "/dev/"@)
}

pub open spec fn redirect_at(toks: Seq<Seq<char>>, i: int) -> bool {
    if toks[i] == ">"@ || toks[i] == ">>"@ {
        i + 1 < toks.len() && dev_target_spec(toks[i + 1])
    } else {
        toks[i].len() > 0 && toks[i][0] == '>' && dev_target_spec(strip_gt_spec(toks[i]))
    }
}

/// Some redirection writes to a `/dev/…` path.
pub open spec fn redirects_to_dev_spec(s: Seq<char>) -> bool {
    let toks = words_spec(s);
    exists|i: int| 0 <= i < toks.len() && #[trigger] redirect_at(toks, i)
}

pub open spec fn cmds_hits_spec(cmds: Seq<Seq<Seq<char>>>) -> Seq<HitSpec>
    decreases cmds.len(),
{
    if cmds.len() == 0 {
        seq![]
    } else {
        cmds_hits_spec(cmds.drop_last()) + simple_hits_spec(cmds.last())
    }
}

pub open spec fn pipeline_hits_spec(cmds: Seq<Seq<Seq<char>>>) -> Seq<HitSpec> {
    (if pipeline_danger_spec(cmds) {
        seq![("pipe-to-shell"@, false)]
    } else {
        seq![]
    }) + cmds_hits_spec(cmds)
}

pub open spec fn line_hits_spec(line: Seq<Seq<Seq<Seq<char>>>>) -> Seq<HitSpec>
    decreases line.len(),
{
    if line.len() == 0 {
        seq![]
    } else {
        line_hits_spec(line.drop_last()) + pipeline_hits_spec(line.last())
    }
}

/// All findings on one text, in discovery order.
pub open spec fn surface_hits_spec(s: Seq<char>) -> Seq<HitSpec> {
    (if is_fork_bomb_spec(s) {
        seq![("fork-bomb"@, true)]
    } else {
        seq![]
    }) + (if redirects_to_dev_spec(s) {
        seq![("redirect-dev"@, true)]
    } else {
        seq![]
    }) + line_hits_spec(parse_spec(s))
}

fn any_arg_rm_recursive(args: &Vec<Vec<char>>, from: usize) -> (r: bool)
    requires
        from <= args.len(),
    ensures
        r == (exists|i: int| from <= i < args.len() && rm_recursive_arg(#[trigger] args@[i]@)),
{
    let mut i = from;
    while i < args.len()
        invariant
            from <= i <= args.len(),
            forall|k: int| from <= k < i ==> !rm_recursive_arg(#[trigger] args@[k]@),
        decreases args.len() - i,
    {
        let a = &args[i];
        let short = a.len() > 0 && a[0] == '-' && !(a.len() >= 2 && a[1] == '-');
        if eq_str(a, "--recursive") || (short && contains_char(a, 'r')) {
            return true;
        }
        i += 1;
    }
    false
}

fn any_arg_rm_root(args: &Vec<Vec<char>>, from: usize) -> (r: bool)
    requires
        from <= args.len(),
    ensures
        r == (exists|i: int| from <= i < args.len() && rm_root_arg(#[trigger] args@[i]@)),
{
    let mut i = from;
    while i < args.len()
        invariant
            from <= i <= args.len(),
            forall|k: int| from <= k < i ==> !rm_root_arg(#[trigger] args@[k]@),
        decreases args.len() - i,
    {
        let a = &args[i];
        if !(a.len() > 0 && a[0] == '-') {
            let p = trim_quotes(a);
            if eq_str(&p, "/") || eq_str(&p, "/*") {
                return true;
            }
        }
        i += 1;
    }
    false
}

fn any_arg_chmod_ww(args: &Vec<Vec<char>>, from: usize) -> (r: bool)
    requires
        from <= args.len(),
    ensures
        r == (exists|i: int| from <= i < args.len() && chmod_ww_arg(#[trigger] args@[i]@)),
{
    let mut i = from;
    while i < args.len()
        invariant
            from <= i <= args.len(),
            forall|k: int| from <= k < i ==> !chmod_ww_arg(#[trigger] args@[k]@),
        decreases args.len() - i,
    {
        let t = trim(&args[i]);
        if eq_str(&t, "777") || eq_str(&t, "666") || eq_str(&t, "0777") || eq_str(&t, "0666")
            || contains_str(&t, "o+w") || contains_str(&t, "a+w") {
            return true;
        }
        i += 1;
    }
    false
}

fn any_arg_shell_inline(args: &Vec<Vec<char>>, from: usize) -> (r: bool)
    requires
        from <= args.len(),
    ensures
        r == (exists|i: int| from <= i < args.len() && shell_inline_arg(#[trigger] args@[i]@)),
{
    let mut i = from;
    while i < args.len()
        invariant
            from <= i <= args.len(),
            forall|k: int| from <= k < i ==> !shell_inline_arg(#[trigger] args@[k]@),
        decreases args.len() - i,
    {
        let a = &args[i];
        let short = a.len() > 0 && a[0] == '-' && !(a.len() >= 2 && a[1] == '-');
        if eq_str(a, "-c") || eq_str(a, "--command") || (short && contains_char(a, 'c')) {
            return true;
        }
        i += 1;
    }
    false
}

fn any_arg_script_inline(args: &Vec<Vec<char>>, from: usize) -> (r: bool)
    requires
        from <= args.len(),
    ensures
        r == (exists|i: int| from <= i < args.len() && script_inline_arg(#[trigger] args@[i]@)),
{
    let mut i = from;
    while i < args.len()
        invariant
            from <= i <= args.len(),
            forall|k: int| from <= k < i ==> !script_inline_arg(#[trigger] args@[k]@),
        decreases args.len() - i,
    {
        let a = &args[i];
        if eq_str(a, "-e") || eq_str(a, "-c") || eq_str(a, "--command") {
            return true;
        }
        i += 1;
    }
    false
}

fn any_arg_decode(args: &Vec<Vec<char>>, from: usize) -> (r: bool)
    requires
        from <= args.len(),
    ensures
        r == (exists|i: int| from <= i < args.len() && is_decode_flag(#[trigger] args@[i]@)),
{
    let mut i = from;
    while i < args.len()
        invariant
            from <= i <= args.len(),
            forall|k: int| from <= k < i ==> !is_decode_flag(#[trigger] args@[k]@),
        decreases args.len() - i,
    {
        let a = &args[i];
        if eq_str(a, "-d") || eq_str(a, "-D") || eq_str(a, "--decode") {
            return true;
        }
        i += 1;
    }
    false
}

/// The argument list of a command starts at word 1.
fn rm_is_recursive(words: &Vec<Vec<char>>) -> (r: bool)
    ensures
        r == rm_is_recursive_spec(args_spec(char_views(words@))),
{
    if words.len() <= 1 {
        return false;
    }
    let r = any_arg_rm_recursive(words, 1);
    proof {
        let args = args_spec(char_views(words@));
        if r {
            let i = choose|i: int| 1 <= i < words@.len() && rm_recursive_arg(#[trigger] words@[i]@);
            assert(args[i - 1] == words@[i]@);
        } else {
            assert forall|i: int| 0 <= i < args.len() implies !rm_recursive_arg(#[trigger] args[i]) by {
                assert(args[i] == words@[i + 1]@);
            }
        }
    }
    r
}

fn rm_targets_root(words: &Vec<Vec<char>>) -> (r: bool)
    ensures
        r == rm_targets_root_spec(args_spec(char_views(words@))),
{
    if words.len() <= 1 {
        return false;
    }
    let r = any_arg_rm_root(words, 1);
    proof {
        let args = args_spec(char_views(words@));
        if r {
            let i = choose|i: int| 1 <= i < words@.len() && rm_root_arg(#[trigger] words@[i]@);
            assert(args[i - 1] == words@[i]@);
        } else {
            assert forall|i: int| 0 <= i < args.len() implies !rm_root_arg(#[trigger] args[i]) by {
                assert(args[i] == words@[i + 1]@);
            }
        }
    }
    r
}

fn chmod_is_world_writable(words: &Vec<Vec<char>>) -> (r: bool)
    ensures
        r == chmod_ww_spec(args_spec(char_views(words@))),
{
    if words.len() <= 1 {
        return false;
    }
    let r = any_arg_chmod_ww(words, 1);
    proof {
        let args = args_spec(char_views(words@));
        if r {
            let i = choose|i: int| 1 <= i < words@.len() && chmod_ww_arg(#[trigger] words@[i]@);
            assert(args[i - 1] == words@[i]@);
        } else {
            assert forall|i: int| 0 <= i < args.len() implies !chmod_ww_arg(#[trigger] args[i]) by {
                assert(args[i] == words@[i + 1]@);
            }
        }
    }
    r
}

fn shell_runs_inline_code(words: &Vec<Vec<char>>) -> (r: bool)
    ensures
        r == shell_inline_spec(args_spec(char_views(words@))),
{
    if words.len() <= 1 {
        return false;
    }
    let r = any_arg_shell_inline(words, 1);
    proof {
        let args = args_spec(char_views(words@));
        if r {
            let i = choose|i: int| 1 <= i < words@.len() && shell_inline_arg(#[trigger] words@[i]@);
            assert(args[i - 1] == words@[i]@);
        } else {
            assert forall|i: int| 0 <= i < args.len() implies !shell_inline_arg(#[trigger] args[i]) by {
                assert(args[i] == words@[i + 1]@);
            }
        }
    }
    r
}

fn script_runs_inline_code(words: &Vec<Vec<char>>) -> (r: bool)
    ensures
        r == script_inline_spec(args_spec(char_views(words@))),
{
    if words.len() <= 1 {
        return false;
    }
    let r = any_arg_script_inline(words, 1);
    proof {
        let args = args_spec(char_views(words@));
        if r {
            let i = choose|i: int| 1 <= i < words@.len() && script_inline_arg(#[trigger] words@[i]@);
            assert(args[i - 1] == words@[i]@);
        } else {
            assert forall|i: int| 0 <= i < args.len() implies !script_inline_arg(#[trigger] args[i]) by {
                assert(args[i] == words@[i + 1]@);
            }
        }
    }
    r
}

fn has_decode_flag(words: &Vec<Vec<char>>) -> (r: bool)
    ensures
        r == (exists|i: int|
            0 <= i < args_spec(char_views(words@)).len() && is_decode_flag(
                #[trigger] args_spec(char_views(words@))[i],
            )),
{
    if words.len() <= 1 {
        return false;
    }
    let r = any_arg_decode(words, 1);
    proof {
        let args = args_spec(char_views(words@));
        if r {
            let i = choose|i: int| 1 <= i < words@.len() && is_decode_flag(#[trigger] words@[i]@);
            assert(args[i - 1] == words@[i]@);
        } else {
            assert forall|i: int| 0 <= i < args.len() implies !is_decode_flag(#[trigger] args[i]) by {
                assert(args[i] == words@[i + 1]@);
            }
        }
    }
    r
}

fn hit(key: &str, hardline: bool) -> (h: Hit)
    ensures
        h@ == (key@, hardline),
{
    Hit { key: chars_of(key), hardline }
}

fn is_shell_name(n: &Vec<char>) -> (r: bool)
    ensures
        r == is_shell_name_spec(n@),
{
    eq_str(n, "bash") || eq_str(n, "sh") || eq_str(n, "dash") || eq_str(n, "zsh") || eq_str(
        n,
        "ksh",
    )
}

fn is_script_name(n: &Vec<char>) -> (r: bool)
    ensures
        r == is_script_name_spec(n@),
{
    eq_str(n, "python") || eq_str(n, "python3") || eq_str(n, "perl") || eq_str(n, "ruby")
        || eq_str(n, "node")
}

fn one_hit(h: Hit) -> (r: Vec<Hit>)
    ensures
        hit_views(r@) == seq![h@],
{
    let mut r: Vec<Hit> = Vec::new();
    r.push(h);
    assert(hit_views(r@) =~= seq![h@]);
    r
}

fn no_hits() -> (r: Vec<Hit>)
    ensures
        hit_views(r@) == Seq::<HitSpec>::empty(),
{
    let r: Vec<Hit> = Vec::new();
    assert(hit_views(r@) =~= Seq::<HitSpec>::empty());
    r
}

/// Findings for one simple command (`sudo`, recursive `rm`, inline code, …).
fn analyze_simple_command(words: &Vec<Vec<char>>) -> (r: Vec<Hit>)
    ensures
        hit_views(r@) == simple_hits_spec(char_views(words@)),
{
    if words.len() == 0 {
        return no_hits();
    }
    let name = command_basename(&words[0]);
    assert(char_views(words@)[0] == words@[0]@);
    if eq_str(&name, "sudo") {
        one_hit(hit("sudo", false))
    } else if eq_str(&name, "curl") || eq_str(&name, "wget") {
        one_hit(Hit { key: name, hardline: false })
    } else if eq_str(&name, "eval") {
        one_hit(hit("eval", false))
    } else if eq_str(&name, "mkfs") {
        one_hit(hit("mkfs", true))
    } else if eq_str(&name, "dd") {
        one_hit(hit("dd", true))
    } else if eq_str(&name, "rm") && rm_is_recursive(words) {
        let hardline = rm_targets_root(words);
        one_hit(hit("rm", hardline))
    } else if eq_str(&name, "chmod") && chmod_is_world_writable(words) {
        one_hit(hit("chmod", true))
    } else if is_shell_name(&name) && shell_runs_inline_code(words) {
        one_hit(Hit { key: name, hardline: false })
    } else if is_script_name(&name) && script_runs_inline_code(words) {
        one_hit(Hit { key: name, hardline: false })
    } else {
        no_hits()
    }
}

fn name_or_empty(words: &Vec<Vec<char>>) -> (r: Vec<char>)
    ensures
        r@ == name_or_empty_spec(char_views(words@)),
{
    if words.len() == 0 {
        Vec::new()
    } else {
        assert(char_views(words@)[0] == words@[0]@);
        command_basename(&words[0])
    }
}

fn pair_danger(l: &Vec<Vec<char>>, r: &Vec<Vec<char>>) -> (d: bool)
    ensures
        d == pair_danger_spec(char_views(l@), char_views(r@)),
{
    let ln = name_or_empty(l);
    let rn = name_or_empty(r);
    if (eq_str(&ln, "curl") || eq_str(&ln, "wget")) && is_shell_name(&rn) {
        return true;
    }
    eq_str(&ln, "base64") && has_decode_flag(l) && is_shell_name(&rn)
}

/// `pipe-to-shell` when a downloader or base64 decoder feeds a shell.
fn pipeline_danger(cmds: &Vec<Vec<Vec<char>>>) -> (r: bool)
    ensures
        r == pipeline_danger_spec(cmd_views(cmds@)),
{
    if cmds.len() < 2 {
        return false;
    }
    let mut i: usize = 0;
    while i + 1 < cmds.len()
        invariant
            cmds.len() >= 2,
            i + 1 <= cmds.len(),
            forall|k: int|
                0 <= k < i ==> !#[trigger] pair_danger_spec(
                    cmd_views(cmds@)[k],
                    cmd_views(cmds@)[k + 1],
                ),
        decreases cmds.len() - i,
    {
        if pair_danger(&cmds[i], &cmds[i + 1]) {
            assert(pair_danger_spec(cmd_views(cmds@)[i as int], cmd_views(cmds@)[i + 1]));
            return true;
        }
        i += 1;
    }
    false
}

/// Whitespace-insensitive `:(){` fork-bomb shape.
fn is_fork_bomb(input: &Vec<char>) -> (r: bool)
    ensures
        r == is_fork_bomb_spec(input@),
{
    let compact = remove_ws(input);
    contains_str(&compact, ":(){")
}

fn strip_gt(s: &Vec<char>) -> (r: Vec<char>)
    ensures
        r@ == strip_gt_spec(s@),
{
    let mut i: usize = 0;
    assert(s@.skip(0) =~= s@);
    while i < s.len() && s[i] == '>'
        invariant
            i <= s.len(),
            strip_gt_spec(s@) == strip_gt_spec(s@.skip(i as int)),
        decreases s.len() - i,
    {
        assert(s@.skip(i as int).drop_first() =~= s@.skip(i + 1));
        i += 1;
    }
    proof {
        let t = s@.skip(i as int);
        if t.len() > 0 {
            assert(t[0] == s@[i as int]);
        }
        assert(t =~= s@.subrange(i as int, s.len() as int));
    }
    slice_chars(s, i, s.len())
}

fn dev_target(t: &Vec<char>) -> (r: bool)
    ensures
        r == dev_target_spec(t@),
{
    let q = trim_quotes(t);
    starts_with_str(&q, "/dev/")
}

/// Some redirection writes to a `/dev/…` path.
fn redirects_to_dev(input: &Vec<char>) -> (r: bool)
    ensures
        r == redirects_to_dev_spec(input@),
{
    let toks = tokenize_words(input);
    let ghost tv = char_views(toks@);
    let mut i: usize = 0;
    while i < toks.len()
        invariant
            i <= toks.len(),
            tv == char_views(toks@),
            tv == words_spec(input@),
            forall|k: int| 0 <= k < i ==> !#[trigger] redirect_at(tv, k),
        decreases toks.len() - i,
    {
        let t = &toks[i];
        assert(tv[i as int] == t@);
        if eq_str(t, ">") || eq_str(t, ">>") {
            if i + 1 < toks.len() {
                assert(tv[i + 1] == toks@[i + 1]@);
                if dev_target(&toks[i + 1]) {
                    assert(redirect_at(tv, i as int));
                    return true;
                }
            }
        } else if t.len() > 0 && t[0] == '>' {
            let stripped = strip_gt(t);
            if dev_target(&stripped) {
                assert(redirect_at(tv, i as int));
                return true;
            }
        }
        i += 1;
    }
    false
}

fn extend_hits(dst: &mut Vec<Hit>, src: Vec<Hit>)
    ensures
        hit_views(final(dst)@) == hit_views(old(dst)@) + hit_views(src@),
{
    let mut src = src;
    let ghost s0 = hit_views(src@);
    let ghost d0 = hit_views(dst@);
    dst.append(&mut src);
    assert(hit_views(dst@) =~= d0 + s0);
}

/// Findings on one text, in discovery order.
#[verifier::loop_isolation(false)]
pub fn analyze_surface(input: &Vec<char>) -> (r: Vec<Hit>)
    requires
        parse_safe(input@),
    ensures
        hit_views(r@) == surface_hits_spec(input@),
{
    let line = parse_line_chars(input);
    let mut hits: Vec<Hit> = Vec::new();
    proof {
        assert(hit_views(hits@) =~= Seq::<HitSpec>::empty());
    }
    if is_fork_bomb(input) {
        hits.push(hit("fork-bomb", true));
    }
    if redirects_to_dev(input) {
        hits.push(hit("redirect-dev", true));
    }
    let ghost prefix = hit_views(hits@);
    proof {
        assert(prefix =~= (if is_fork_bomb_spec(input@) {
            seq![("fork-bomb"@, true)]
        } else {
            seq![]
        }) + (if redirects_to_dev_spec(input@) {
            seq![("redirect-dev"@, true)]
        } else {
            seq![]
        }));
        assert(line_views(line@).take(0) =~= Seq::<Seq<Seq<Seq<char>>>>::empty());
    }
    let mut i: usize = 0;
    while i < line.len()
        invariant
            i <= line.len(),
            hit_views(hits@) == prefix + line_hits_spec(line_views(line@).take(i as int)),
        decreases line.len() - i,
    {
        let cmds = &line[i];
        let ghost before = hit_views(hits@);
        if pipeline_danger(cmds) {
            hits.push(hit("pipe-to-shell", false));
        }
        let ghost mid = hit_views(hits@);
        let ghost dz: Seq<HitSpec> = if pipeline_danger_spec(cmd_views(cmds@)) {
            seq![("pipe-to-shell"@, false)]
        } else {
            seq![]
        };
        assert(mid =~= before + dz);
        let mut j: usize = 0;
        proof {
            assert(cmd_views(cmds@).take(0) =~= Seq::<Seq<Seq<char>>>::empty());
        }
        while j < cmds.len()
            invariant
                j <= cmds.len(),
                hit_views(hits@) == mid + cmds_hits_spec(cmd_views(cmds@).take(j as int)),
            decreases cmds.len() - j,
        {
            let h = analyze_simple_command(&cmds[j]);
            extend_hits(&mut hits, h);
            proof {
                let p = cmd_views(cmds@).take(j + 1);
                assert(p.drop_last() =~= cmd_views(cmds@).take(j as int));
                assert(p.last() == char_views(cmds@[j as int]@));
                assert(hit_views(hits@) =~= mid + cmds_hits_spec(p));
            }
            j += 1;
        }
        proof {
            assert(cmd_views(cmds@).take(cmds.len() as int) =~= cmd_views(cmds@));
            let p = line_views(line@).take(i + 1);
            assert(p.drop_last() =~= line_views(line@).take(i as int));
            assert(p.last() == cmd_views(line@[i as int]@));
            assert(pipeline_hits_spec(p.last()) == dz + cmds_hits_spec(cmd_views(cmds@)));
            assert(line_hits_spec(p) == line_hits_spec(p.drop_last()) + pipeline_hits_spec(p.last()));
            assert(hit_views(hits@) =~= prefix + line_hits_spec(p));
        }
        i += 1;
    }
    proof {
        assert(line_views(line@).take(line.len() as int) =~= line_views(line@));
    }
    hits
}

} // verus!

verus! {

fn split_is_safe(b: &Vec<u8>, pipes: bool) -> (r: bool)
    ensures
        r == split_safe_go(b@, pipes, 0, false, false),
{
    let mut i: usize = 0;
    let mut sq = false;
    let mut dq = false;
    while i < b.len()
        invariant
            i <= b.len(),
            split_safe_go(b@, pipes, i as int, sq, dq) == split_safe_go(b@, pipes, 0, false, false),
        decreases b.len() - i,
    {
        let c = b[i];
        if !dq && c == 0x27 {
            sq = !sq;
            i += 1;
        } else if !sq && c == 0x22 {
            dq = !dq;
            i += 1;
        } else if !sq && !dq && 0x80 <= c && c < 0xC0 {
            return false;
        } else {
            let n = if !sq && !dq {
                op_len_at(b, i, pipes)
            } else {
                0
            };
            if n > 0 {
                i += n;
            } else {
                i += 1;
            }
        }
    }
    true
}

/// Whether parsing `s` stays on character boundaries (see `parse_safe`).
pub fn parse_is_safe(s: &Vec<char>) -> (r: bool)
    ensures
        r == parse_safe(s@),
{
    let b = utf8_bytes(s);
    if !split_is_safe(&b, false) {
        return false;
    }
    let units = split_command_units(s);
    let ghost uv = split_units_spec(s@);
    let mut i: usize = 0;
    while i < units.len()
        invariant
            i <= units.len(),
            char_views(units@) == uv,
            uv == split_units_spec(s@),
            units_safe(s@),
            forall|k: int|
                0 <= k < i && trim_spec(#[trigger] uv[k]).len() > 0 ==> pipes_safe(trim_spec(uv[k])),
        decreases units.len() - i,
    {
        let t = trim(&units[i]);
        assert(units@[i as int]@ == uv[i as int]);
        if t.len() > 0 {
            let tb = utf8_bytes(&t);
            if !split_is_safe(&tb, true) {
                assert(trim_spec(uv[i as int]).len() > 0 && !pipes_safe(trim_spec(uv[i as int])));
                return false;
            }
        }
        i += 1;
    }
    true
}

// ---------------------------------------------------------------- surfaces

/// Extra texts analysed for one substitution body.
pub open spec fn body_surfaces(b: Seq<char>) -> Seq<Seq<char>> {
    if trim_spec(b).len() == 0 {
        seq![]
    } else {
        seq![b] + (if normalize_spec(b) != b {
            seq![normalize_spec(b)]
        } else {
            seq![]
        }) + (if literal_value_spec(b).len() > 0 && literal_value_spec(b) != b {
            seq![literal_value_spec(b)]
        } else {
            seq![]
        })
    }
}

pub open spec fn bodies_surfaces(bs: Seq<Seq<char>>) -> Seq<Seq<char>>
    decreases bs.len(),
{
    if bs.len() == 0 {
        seq![]
    } else {
        bodies_surfaces(bs.drop_last()) + body_surfaces(bs.last())
    }
}

/// Every text the danger analysis looks at: the input, its normalized form,
/// and for each substitution body the body, its normalized form and its
/// simulated output.
pub open spec fn surface_candidates(s: Seq<char>) -> Seq<Seq<char>> {
    seq![s] + (if normalize_spec(s) != s {
        seq![normalize_spec(s)]
    } else {
        seq![]
    }) + bodies_surfaces(substitution_bodies_spec(s))
}

/// The analysed texts, distinct and in ascending order.
pub open spec fn analysis_surfaces_spec(s: Seq<char>) -> Seq<Seq<char>> {
    sorted_distinct(surface_candidates(s))
}

/// Every analysed text can be parsed (the analysis does not panic).
pub open spec fn analysis_safe(s: Seq<char>) -> bool {
    forall|t: Seq<char>| surface_candidates(s).contains(t) ==> parse_safe(t)
}

fn push_chars(v: &mut Vec<Vec<char>>, x: Vec<char>)
    ensures
        char_views(final(v)@) == char_views(old(v)@).push(x@),
{
    proof {
        lemma_char_views_push(v@, x);
    }
    v.push(x);
}

fn body_surface_list(b: &Vec<char>) -> (r: Vec<Vec<char>>)
    ensures
        char_views(r@) == body_surfaces(b@),
{
    let mut r: Vec<Vec<char>> = Vec::new();
    assert(char_views(r@) =~= Seq::<Seq<char>>::empty());
    let t = trim(b);
    if t.len() == 0 {
        return r;
    }
    push_chars(&mut r, copy_chars(b));
    let (nested, _) = normalize_chars(b);
    let ne = !chars_eq(&nested, b);
    if ne {
        push_chars(&mut r, nested);
    }
    let ghost mid = char_views(r@);
    let sim = literal_substitution_value(b);
    let se = sim.len() > 0 && !chars_eq(&sim, b);
    if se {
        push_chars(&mut r, sim);
    }
    proof {
        assert(char_views(r@) =~= body_surfaces(b@));
    }
    r
}

/// The analysed texts, distinct and in ascending order.
pub fn analysis_surfaces(s: &Vec<char>) -> (r: Vec<Vec<char>>)
    ensures
        char_views(r@) == analysis_surfaces_spec(s@),
        strictly_sorted(char_views(r@)),
        forall|t: Seq<char>| char_views(r@).contains(t) <==> surface_candidates(s@).contains(t),
{
    let mut c: Vec<Vec<char>> = Vec::new();
    assert(char_views(c@) =~= Seq::<Seq<char>>::empty());
    push_chars(&mut c, copy_chars(s));
    let (normalized, _) = normalize_chars(s);
    if !chars_eq(&normalized, s) {
        push_chars(&mut c, normalized);
    }
    let ghost head = char_views(c@);
    let bodies = substitution_bodies(s);
    let ghost bv = substitution_bodies_spec(s@);
    let mut i: usize = 0;
    proof {
        assert(bv.take(0) =~= Seq::<Seq<char>>::empty());
        assert(char_views(c@) =~= head + bodies_surfaces(bv.take(0)));
    }
    while i < bodies.len()
        invariant
            i <= bodies.len(),
            char_views(bodies@) == bv,
            char_views(c@) == head + bodies_surfaces(bv.take(i as int)),
        decreases bodies.len() - i,
    {
        let extra = body_surface_list(&bodies[i]);
        let ghost before = char_views(c@);
        let mut j: usize = 0;
        while j < extra.len()
            invariant
                j <= extra.len(),
                char_views(c@) == before + char_views(extra@).take(j as int),
            decreases extra.len() - j,
        {
            push_chars(&mut c, copy_chars(&extra[j]));
            assert(char_views(extra@).take(j + 1) =~= char_views(extra@).take(j as int).push(
                extra@[j as int]@,
            ));
            j += 1;
        }
        proof {
            assert(char_views(extra@).take(extra.len() as int) =~= char_views(extra@));
            let p = bv.take(i + 1);
            assert(p.drop_last() =~= bv.take(i as int));
            assert(p.last() == bodies@[i as int]@);
            assert(char_views(c@) =~= head + bodies_surfaces(p));
        }
        i += 1;
    }
    proof {
        assert(bv.take(bodies.len() as int) =~= bv);
        assert(char_views(c@) =~= surface_candidates(s@));
    }
    sorted_distinct_chars(&c)
}

/// Whether every analysed text can be parsed.
pub fn analysis_is_safe(s: &Vec<char>) -> (r: bool)
    ensures
        r == analysis_safe(s@),
{
    let surfaces = analysis_surfaces(s);
    let ghost sv = analysis_surfaces_spec(s@);
    let ghost cv = surface_candidates(s@);
    let mut i: usize = 0;
    while i < surfaces.len()
        invariant
            i <= surfaces.len(),
            char_views(surfaces@) == sv,
            cv == surface_candidates(s@),
            forall|t: Seq<char>| sv.contains(t) <==> cv.contains(t),
            forall|k: int| 0 <= k < i ==> parse_safe(#[trigger] sv[k]),
        decreases surfaces.len() - i,
    {
        assert(surfaces@[i as int]@ == sv[i as int]);
        if !parse_is_safe(&surfaces[i]) {
            proof {
                assert(sv.contains(sv[i as int]));
            }
            return false;
        }
        i += 1;
    }
    proof {
        assert forall|t: Seq<char>| cv.contains(t) implies parse_safe(t) by {
            assert(sv.contains(t));
            let k = choose|k: int| 0 <= k < sv.len() && sv[k] == t;
        }
    }
    true
}

} // verus!

verus! {

// ---------------------------------------------------------------- ordering findings

/// Inserts `x` after every finding whose key is not above its own (a stable insertion).
pub open spec fn insert_by_key(s: Seq<HitSpec>, x: HitSpec) -> Seq<HitSpec>
    decreases s.len(),
{
    if s.len() == 0 {
        seq![x]
    } else if !seq_lt(x.0, s.last().0) {
        s.push(x)
    } else {
        insert_by_key(s.drop_last(), x).push(s.last())
    }
}

/// Stable sort by grant key (insertion sort).
pub open spec fn sort_by_key(s: Seq<HitSpec>) -> Seq<HitSpec>
    decreases s.len(),
{
    if s.len() == 0 {
        s
    } else {
        insert_by_key(sort_by_key(s.drop_last()), s.last())
    }
}

/// Drops each finding equal to the one kept just before it.
pub open spec fn dedup_hits(s: Seq<HitSpec>) -> Seq<HitSpec>
    decreases s.len(),
{
    if s.len() == 0 {
        s
    } else {
        let d = dedup_hits(s.drop_last());
        if d.len() > 0 && d.last() == s.last() {
            d
        } else {
            d.push(s.last())
        }
    }
}

/// Findings of each text in turn.
pub open spec fn surfaces_hits(ss: Seq<Seq<char>>) -> Seq<HitSpec>
    decreases ss.len(),
{
    if ss.len() == 0 {
        seq![]
    } else {
        surfaces_hits(ss.drop_last()) + surface_hits_spec(ss.last())
    }
}

/// Findings before ordering: `obfuscated-shell` when normalization did not
/// converge, then the findings on every analysed text.
pub open spec fn raw_hits_spec(s: Seq<char>) -> Seq<HitSpec> {
    (if !normalize_with_status_spec(s).1 {
        seq![("obfuscated-shell"@, false)]
    } else {
        seq![]
    }) + surfaces_hits(analysis_surfaces_spec(s))
}

/// All findings on a command line, ordered by grant key, repeats dropped.
pub open spec fn dangers_spec(s: Seq<char>) -> Seq<HitSpec> {
    dedup_hits(sort_by_key(raw_hits_spec(s)))
}

proof fn lemma_insert_by_key(s: Seq<HitSpec>, x: HitSpec, j: int)
    requires
        0 <= j <= s.len(),
        forall|k: int| j <= k < s.len() ==> seq_lt(x.0, #[trigger] s[k].0),
        j == 0 || !seq_lt(x.0, s[j - 1].0),
    ensures
        insert_by_key(s, x) == s.insert(j, x),
    decreases s.len(),
{
    if s.len() == j {
        assert(s.insert(j, x) =~= s.push(x));
    } else {
        assert(seq_lt(x.0, s[s.len() - 1].0));
        let d = s.drop_last();
        assert forall|k: int| j <= k < d.len() implies seq_lt(x.0, #[trigger] d[k].0) by {
            assert(d[k] == s[k]);
        }
        lemma_insert_by_key(d, x, j);
        assert(s.insert(j, x) =~= d.insert(j, x).push(s.last()));
    }
}

fn copy_hit(h: &Hit) -> (r: Hit)
    ensures
        r@ == h@,
{
    Hit { key: copy_chars(&h.key), hardline: h.hardline }
}

fn insert_hit(r: &mut Vec<Hit>, x: Hit)
    ensures
        hit_views(final(r)@) == insert_by_key(hit_views(old(r)@), x@),
{
    let ghost old_v = hit_views(r@);
    let mut j: usize = r.len();
    while j > 0 && chars_lt(&x.key, &r[j - 1].key)
        invariant
            j <= r.len(),
            old_v == hit_views(r@),
            forall|k: int| j <= k < old_v.len() ==> seq_lt(x@.0, #[trigger] old_v[k].0),
        decreases j,
    {
        j -= 1;
    }
    proof {
        lemma_insert_by_key(old_v, x@, j as int);
    }
    let ghost xv = x@;
    r.insert(j, x);
    assert(hit_views(r@) =~= old_v.insert(j as int, xv));
}

fn sort_hits(v: &Vec<Hit>) -> (r: Vec<Hit>)
    ensures
        hit_views(r@) == sort_by_key(hit_views(v@)),
{
    let mut r: Vec<Hit> = Vec::new();
    let mut i: usize = 0;
    assert(hit_views(r@) =~= sort_by_key(hit_views(v@).take(0)));
    while i < v.len()
        invariant
            i <= v.len(),
            hit_views(r@) == sort_by_key(hit_views(v@).take(i as int)),
        decreases v.len() - i,
    {
        insert_hit(&mut r, copy_hit(&v[i]));
        proof {
            let p = hit_views(v@).take(i + 1);
            assert(p.drop_last() =~= hit_views(v@).take(i as int));
            assert(p.last() == v@[i as int]@);
        }
        i += 1;
    }
    assert(hit_views(v@).take(v.len() as int) =~= hit_views(v@));
    r
}

fn same_hit(a: &Hit, b: &Hit) -> (r: bool)
    ensures
        r == (a@ == b@),
{
    chars_eq(&a.key, &b.key) && a.hardline == b.hardline
}

fn dedup_hit_list(v: &Vec<Hit>) -> (r: Vec<Hit>)
    ensures
        hit_views(r@) == dedup_hits(hit_views(v@)),
{
    let mut r: Vec<Hit> = Vec::new();
    let mut i: usize = 0;
    assert(hit_views(r@) =~= dedup_hits(hit_views(v@).take(0)));
    while i < v.len()
        invariant
            i <= v.len(),
            hit_views(r@) == dedup_hits(hit_views(v@).take(i as int)),
        decreases v.len() - i,
    {
        proof {
            let p = hit_views(v@).take(i + 1);
            assert(p.drop_last() =~= hit_views(v@).take(i as int));
            assert(p.last() == v@[i as int]@);
        }
        let n = r.len();
        if n > 0 && same_hit(&r[n - 1], &v[i]) {
            assert(hit_views(r@).last() == r@[n - 1]@);
        } else {
            let h = copy_hit(&v[i]);
            proof {
                lemma_hit_views_push(r@, h);
            }
            r.push(h);
        }
        i += 1;
    }
    assert(hit_views(v@).take(v.len() as int) =~= hit_views(v@));
    r
}

/// All findings on a command line, ordered by grant key, repeats dropped.
pub fn analyze_dangers_chars(s: &Vec<char>) -> (r: Vec<Hit>)
    requires
        analysis_safe(s@),
    ensures
        hit_views(r@) == dangers_spec(s@),
{
    let mut hits: Vec<Hit> = Vec::new();
    assert(hit_views(hits@) =~= Seq::<HitSpec>::empty());
    let (_, converged) = normalize_chars(s);
    if !converged {
        let h = hit("obfuscated-shell", false);
        proof {
            lemma_hit_views_push(hits@, h);
        }
        hits.push(h);
    }
    let ghost head = hit_views(hits@);
    let surfaces = analysis_surfaces(s);
    let ghost sv = analysis_surfaces_spec(s@);
    let mut i: usize = 0;
    assert(sv.take(0) =~= Seq::<Seq<char>>::empty());
    while i < surfaces.len()
        invariant
            i <= surfaces.len(),
            analysis_safe(s@),
            char_views(surfaces@) == sv,
            forall|t: Seq<char>| sv.contains(t) <==> surface_candidates(s@).contains(t),
            hit_views(hits@) == head + surfaces_hits(sv.take(i as int)),
        decreases surfaces.len() - i,
    {
        assert(surfaces@[i as int]@ == sv[i as int]);
        assert(sv.contains(sv[i as int]));
        let found = analyze_surface(&surfaces[i]);
        extend_hits(&mut hits, found);
        proof {
            let p = sv.take(i + 1);
            assert(p.drop_last() =~= sv.take(i as int));
            assert(p.last() == sv[i as int]);
            assert(hit_views(hits@) =~= head + surfaces_hits(p));
        }
        i += 1;
    }
    assert(sv.take(surfaces.len() as int) =~= sv);
    assert(hit_views(hits@) =~= raw_hits_spec(s@));
    let sorted = sort_hits(&hits);
    dedup_hit_list(&sorted)
}

pub open spec fn danger_views(v: Seq<DangerHit>) -> Seq<HitSpec> {
    Seq::new(v.len(), |i: int| v[i]@)
}

/// All findings on a command line, ordered by grant key, repeats dropped.
pub fn analyze_dangers(input: &str) -> (r: Vec<DangerHit>)
    requires
        analysis_safe(input@),
    ensures
        danger_views(r@) == dangers_spec(input@),
{
    let s = chars_of(input);
    let hits = analyze_dangers_chars(&s);
    let mut r: Vec<DangerHit> = Vec::new();
    let mut i: usize = 0;
    while i < hits.len()
        invariant
            i <= hits.len(),
            r@.len() == i,
            forall|k: int| 0 <= k < i ==> (#[trigger] r@[k])@ == hits@[k]@,
        decreases hits.len() - i,
    {
        r.push(DangerHit { grant_key: to_string(&hits[i].key), hardline: hits[i].hardline });
        i += 1;
    }
    assert(danger_views(r@) =~= hit_views(hits@));
    r
}

/// Some finding on the command line is a hard block.
pub open spec fn is_hardline_spec(s: Seq<char>) -> bool {
    exists|i: int| 0 <= i < dangers_spec(s).len() && (#[trigger] dangers_spec(s)[i]).1
}

pub fn is_hardline_command(input: &str) -> (r: bool)
    requires
        analysis_safe(input@),
    ensures
        r == is_hardline_spec(input@),
{
    let s = chars_of(input);
    let hits = analyze_dangers_chars(&s);
    let ghost d = dangers_spec(input@);
    let mut i: usize = 0;
    while i < hits.len()
        invariant
            i <= hits.len(),
            hit_views(hits@) == d,
            d == dangers_spec(input@),
            forall|k: int| 0 <= k < i ==> !(#[trigger] d[k]).1,
        decreases hits.len() - i,
    {
        assert(d[i as int] == hits@[i as int]@);
        if hits[i].hardline {
            return true;
        }
        i += 1;
    }
    false
}

/// The command line needs approval: it has some finding.
pub fn is_dangerous_command(input: &str) -> (r: bool)
    requires
        analysis_safe(input@),
    ensures
        r == (dangers_spec(input@).len() > 0),
{
    let s = chars_of(input);
    let hits = analyze_dangers_chars(&s);
    hits.len() > 0
}

proof fn lemma_hits_concat_contains(a: Seq<HitSpec>, b: Seq<HitSpec>, h: HitSpec)
    requires
        a.contains(h) || b.contains(h),
    ensures
        (a + b).contains(h),
{
    if a.contains(h) {
        let k = choose|k: int| 0 <= k < a.len() && a[k] == h;
        assert((a + b)[k] == h);
    } else {
        let k = choose|k: int| 0 <= k < b.len() && b[k] == h;
        assert((a + b)[a.len() + k] == h);
    }
}

#[verifier::spinoff_prover]
proof fn lemma_cmds_hits_contains(cmds: Seq<Seq<Seq<char>>>, ci: int, h: HitSpec)
    requires
        0 <= ci < cmds.len(),
        simple_hits_spec(cmds[ci]).contains(h),
    ensures
        cmds_hits_spec(cmds).contains(h),
    decreases cmds.len(),
{
    let init = cmds.drop_last();
    if ci < cmds.len() - 1 {
        assert(init[ci] == cmds[ci]);
        lemma_cmds_hits_contains(init, ci, h);
    }
    lemma_hits_concat_contains(cmds_hits_spec(init), simple_hits_spec(cmds.last()), h);
}

#[verifier::spinoff_prover]
proof fn lemma_line_pipeline_contains(line: Seq<Seq<Seq<Seq<char>>>>, li: int, h: HitSpec)
    requires
        0 <= li < line.len(),
        pipeline_hits_spec(line[li]).contains(h),
    ensures
        line_hits_spec(line).contains(h),
    decreases line.len(),
{
    let init = line.drop_last();
    if li < line.len() - 1 {
        assert(init[li] == line[li]);
        lemma_line_pipeline_contains(init, li, h);
    }
    lemma_hits_concat_contains(line_hits_spec(init), pipeline_hits_spec(line.last()), h);
}

#[verifier::spinoff_prover]
proof fn lemma_line_hits_contains(line: Seq<Seq<Seq<Seq<char>>>>, li: int, ci: int, h: HitSpec)
    requires
        0 <= li < line.len(),
        0 <= ci < line[li].len(),
        simple_hits_spec(line[li][ci]).contains(h),
    ensures
        line_hits_spec(line).contains(h),
{
    lemma_cmds_hits_contains(line[li], ci, h);
    lemma_hits_concat_contains(
        (if pipeline_danger_spec(line[li]) {
            seq![("pipe-to-shell"@, false)]
        } else {
            seq![]
        }),
        cmds_hits_spec(line[li]),
        h,
    );
    lemma_line_pipeline_contains(line, li, h);
}

#[verifier::spinoff_prover]
proof fn lemma_surfaces_hits_contains(ss: Seq<Seq<char>>, k: int, h: HitSpec)
    requires
        0 <= k < ss.len(),
        surface_hits_spec(ss[k]).contains(h),
    ensures
        surfaces_hits(ss).contains(h),
    decreases ss.len(),
{
    let init = ss.drop_last();
    if k < ss.len() - 1 {
        assert(init[k] == ss[k]);
        lemma_surfaces_hits_contains(init, k, h);
    }
    lemma_hits_concat_contains(surfaces_hits(init), surface_hits_spec(ss.last()), h);
}

#[verifier::spinoff_prover]
proof fn lemma_insert_by_key_contains(s: Seq<HitSpec>, x: HitSpec, y: HitSpec)
    requires
        s.contains(y) || y == x,
    ensures
        insert_by_key(s, x).contains(y),
    decreases s.len(),
{
    let r = insert_by_key(s, x);
    if s.len() == 0 {
        assert(r[0] == y);
    } else if !seq_lt(x.0, s.last().0) {
        if y == x {
            assert(r[s.len() as int] == y);
        } else {
            let k = choose|k: int| 0 <= k < s.len() && s[k] == y;
            assert(r[k] == y);
        }
    } else {
        let init = s.drop_last();
        if y == x || (exists|k: int| 0 <= k < init.len() && init[k] == y) {
            lemma_insert_by_key_contains(init, x, y);
            let q = insert_by_key(init, x);
            let k = choose|k: int| 0 <= k < q.len() && q[k] == y;
            assert(r[k] == y);
        } else {
            let k = choose|k: int| 0 <= k < s.len() && s[k] == y;
            if k < s.len() - 1 {
                assert(init[k] == y);
            }
            assert(r[r.len() - 1] == y);
        }
    }
}

#[verifier::spinoff_prover]
proof fn lemma_sort_by_key_contains(s: Seq<HitSpec>, y: HitSpec)
    requires
        s.contains(y),
    ensures
        sort_by_key(s).contains(y),
    decreases s.len(),
{
    let init = s.drop_last();
    let k = choose|k: int| 0 <= k < s.len() && s[k] == y;
    if k < s.len() - 1 {
        assert(init[k] == y);
        lemma_sort_by_key_contains(init, y);
    }
    lemma_insert_by_key_contains(sort_by_key(init), s.last(), y);
}

#[verifier::spinoff_prover]
proof fn lemma_dedup_hits_contains(s: Seq<HitSpec>, y: HitSpec)
    requires
        s.contains(y),
    ensures
        dedup_hits(s).contains(y),
    decreases s.len(),
{
    let init = s.drop_last();
    let d = dedup_hits(init);
    let k = choose|k: int| 0 <= k < s.len() && s[k] == y;
    if k < s.len() - 1 {
        assert(init[k] == y);
        lemma_dedup_hits_contains(init, y);
        let m = choose|m: int| 0 <= m < d.len() && d[m] == y;
        assert(d.push(s.last())[m] == y);
    } else if d.len() > 0 && d.last() == s.last() {
        assert(d[d.len() - 1] == y);
    } else {
        assert(d.push(s.last())[d.len() as int] == y);
    }
}

/// A finding of the parsed command line itself is among the findings
/// reported for it.
#[verifier::spinoff_prover]
proof fn lemma_line_finding_reaches_result(s: Seq<char>, h: HitSpec)
    requires
        line_hits_spec(parse_spec(s)).contains(h),
    ensures
        dangers_spec(s).contains(h),
        dangers_spec(s).len() > 0,
        h.1 ==> is_hardline_spec(s),
{
    lemma_hits_concat_contains(
        (if is_fork_bomb_spec(s) {
            seq![("fork-bomb"@, true)]
        } else {
            seq![]
        }) + (if redirects_to_dev_spec(s) {
            seq![("redirect-dev"@, true)]
        } else {
            seq![]
        }),
        line_hits_spec(parse_spec(s)),
        h,
    );
    let cands = surface_candidates(s);
    assert(cands[0] == s);
    crate::text::lemma_sorted_distinct_contains(cands);
    let ss = analysis_surfaces_spec(s);
    assert(ss.contains(s));
    let k = choose|k: int| 0 <= k < ss.len() && ss[k] == s;
    lemma_surfaces_hits_contains(ss, k, h);
    lemma_hits_concat_contains(
        (if !normalize_with_status_spec(s).1 {
            seq![("obfuscated-shell"@, false)]
        } else {
            seq![]
        }),
        surfaces_hits(ss),
        h,
    );
    lemma_sort_by_key_contains(raw_hits_spec(s), h);
    lemma_dedup_hits_contains(sort_by_key(raw_hits_spec(s)), h);
    let d = dangers_spec(s);
    let m = choose|m: int| 0 <= m < d.len() && d[m] == h;
    assert(d[m] == h);
}

/// Every finding of a simple command of a command line is among the
/// findings reported for the whole line; a hard-line one makes the line
/// hard-line.
pub proof fn law_command_findings_reach_result(s: Seq<char>, li: int, ci: int, h: HitSpec)
    requires
        0 <= li < parse_spec(s).len(),
        0 <= ci < parse_spec(s)[li].len(),
        simple_hits_spec(parse_spec(s)[li][ci]).contains(h),
    ensures
        dangers_spec(s).contains(h),
        dangers_spec(s).len() > 0,
        h.1 ==> is_hardline_spec(s),
{
    lemma_line_hits_contains(parse_spec(s), li, ci, h);
    lemma_line_finding_reaches_result(s, h);
}

/// A pipeline in which `curl` or `wget` feeds a shell (`bash`, `sh`, `dash`,
/// `zsh`, `ksh`) makes the command line dangerous, with the finding
/// `pipe-to-shell` that approval can lift.
pub proof fn law_pipe_to_shell_is_dangerous(s: Seq<char>, li: int, ci: int)
    requires
        0 <= li < parse_spec(s).len(),
        0 <= ci,
        ci + 1 < parse_spec(s)[li].len(),
        parse_spec(s)[li][ci].len() > 0,
        parse_spec(s)[li][ci + 1].len() > 0,
        ({
            let l = basename_spec(parse_spec(s)[li][ci][0]);
            let r = basename_spec(parse_spec(s)[li][ci + 1][0]);
            (l == "curl"@ || l == "wget"@) && (r == "bash"@ || r == "sh"@ || r == "dash"@ || r
                == "zsh"@ || r == "ksh"@)
        }),
    ensures
        dangers_spec(s).contains(("pipe-to-shell"@, false)),
        dangers_spec(s).len() > 0,
{
    let cmds = parse_spec(s)[li];
    let h: HitSpec = ("pipe-to-shell"@, false);
    assert(pair_danger_spec(cmds[ci], cmds[ci + 1]));
    assert(pipeline_danger_spec(cmds));
    assert(seq![h][0] == h);
    assert(seq![h].contains(h));
    lemma_hits_concat_contains(seq![h], cmds_hits_spec(cmds), h);
    assert(pipeline_hits_spec(cmds) == seq![h] + cmds_hits_spec(cmds));
    lemma_line_pipeline_contains(parse_spec(s), li, h);
    lemma_line_finding_reaches_result(s, h);
}

/// A command line one of whose simple commands is `chmod` with an argument
/// that, trimmed, is `777`, `666`, `0777` or `0666`, or holds `o+w` or
/// `a+w`, has the hard-line finding `chmod`: it is dangerous and hard-line.
pub proof fn law_world_writable_chmod_line_is_hardline(
    s: Seq<char>,
    li: int,
    ci: int,
    j: int,
)
    requires
        0 <= li < parse_spec(s).len(),
        0 <= ci < parse_spec(s)[li].len(),
        1 <= j < parse_spec(s)[li][ci].len(),
        basename_spec(parse_spec(s)[li][ci][0]) == "chmod"@,
        ({
            let t = trim_spec(parse_spec(s)[li][ci][j]);
            t == "777"@ || t == "666"@ || t == "0777"@ || t == "0666"@ || contains_spec(t, "o+w"@)
                || contains_spec(t, "a+w"@)
        }),
    ensures
        dangers_spec(s).contains(("chmod"@, true)),
        dangers_spec(s).len() > 0,
        is_hardline_spec(s),
{
    let h: HitSpec = ("chmod"@, true);
    let ws = parse_spec(s)[li][ci];
    law_world_writable_chmod_is_hardline(ws, j);
    assert(simple_hits_spec(ws)[0] == h);
    law_command_findings_reach_result(s, li, ci, h);
}

/// Grant key for a command line: its first finding's key, else the name of
/// its first command, else `bash`.
pub open spec fn primary_grant_key_spec(s: Seq<char>) -> Seq<char> {
    let d = dangers_spec(s);
    let p = parse_spec(s);
    if d.len() > 0 {
        d[0].0
    } else if p.len() > 0 && p[0].len() > 0 && p[0][0].len() > 0 {
        basename_spec(p[0][0][0])
    } else {
        "bash"@
    }
}

pub fn primary_grant_key(input: &str) -> (r: String)
    requires
        analysis_safe(input@),
    ensures
        r@ == primary_grant_key_spec(input@),
{
    let s = chars_of(input);
    let hits = analyze_dangers_chars(&s);
    if hits.len() > 0 {
        assert(hit_views(hits@)[0] == hits@[0]@);
        return to_string(&hits[0].key);
    }
    assert(surface_candidates(s@).contains(s@)) by {
        assert(surface_candidates(s@)[0] == s@);
    }
    let line = parse_line_chars(&s);
    if line.len() > 0 && line[0].len() > 0 && line[0][0].len() > 0 {
        proof {
            assert(line_views(line@)[0] == cmd_views(line@[0]@));
            assert(cmd_views(line@[0]@)[0] == char_views(line@[0]@[0]@));
            assert(char_views(line@[0]@[0]@)[0] == line@[0]@[0]@[0]@);
        }
        let b = command_basename(&line[0][0][0]);
        return to_string(&b);
    }
    proof {
        if line_views(line@).len() > 0 {
            assert(line_views(line@)[0] == cmd_views(line@[0]@));
            if cmd_views(line@[0]@).len() > 0 {
                assert(cmd_views(line@[0]@)[0] == char_views(line@[0]@[0]@));
            }
        }
    }
    String::from_str("bash")
}

/// Whether `entry`, trimmed, is non-empty and names `key` (ASCII case ignored).
pub open spec fn allow_entry_matches(entry: Seq<char>, key: Seq<char>) -> bool {
    trim_spec(entry).len() > 0 && eq_ignore_ascii_case_spec(trim_spec(entry), key)
}

/// Every finding of the command line is granted by some allow-list entry
/// (and there is at least one finding).
pub open spec fn allowlisted_spec(s: Seq<char>, allow: Seq<Seq<char>>) -> bool {
    let d = dangers_spec(s);
    d.len() > 0 && forall|i: int|
        0 <= i < d.len() ==> exists|j: int|
            0 <= j < allow.len() && allow_entry_matches(allow[j], #[trigger] d[i].0)
}

fn any_entry_matches(allow: &[String], key: &Vec<char>) -> (r: bool)
    ensures
        r == exists|j: int| 0 <= j < allow@.len() && allow_entry_matches(allow@[j]@, key@),
{
    let mut j: usize = 0;
    while j < allow.len()
        invariant
            j <= allow@.len(),
            forall|m: int| 0 <= m < j ==> !allow_entry_matches(#[trigger] allow@[m]@, key@),
        decreases allow@.len() - j,
    {
        let e = string_chars(&allow[j]);
        let t = trim(&e);
        if t.len() > 0 && eq_ignore_ascii_case(&t, key) {
            return true;
        }
        j += 1;
    }
    false
}

pub fn is_allowlisted(input: &str, allow: &[String]) -> (r: bool)
    requires
        analysis_safe(input@),
    ensures
        r == allowlisted_spec(input@, views(allow@)),
{
    let s = chars_of(input);
    let hits = analyze_dangers_chars(&s);
    let ghost d = dangers_spec(input@);
    if hits.len() == 0 {
        return false;
    }
    let mut i: usize = 0;
    while i < hits.len()
        invariant
            i <= hits.len(),
            hit_views(hits@) == d,
            d == dangers_spec(input@),
            forall|k: int|
                0 <= k < i ==> exists|j: int|
                    0 <= j < allow@.len() && allow_entry_matches(
                        views(allow@)[j],
                        #[trigger] d[k].0,
                    ),
        decreases hits.len() - i,
    {
        assert(d[i as int] == hits@[i as int]@);
        if !any_entry_matches(allow, &hits[i].key) {
            proof {
                assert forall|j: int| 0 <= j < views(allow@).len() implies !allow_entry_matches(
                    views(allow@)[j],
                    d[i as int].0,
                ) by {
                    assert(views(allow@)[j] == allow@[j]@);
                }
            }
            return false;
        }
        proof {
            let j = choose|j: int| 0 <= j < allow@.len() && allow_entry_matches(allow@[j]@, hits@[i as int].key@);
            assert(views(allow@)[j] == allow@[j]@);
        }
        i += 1;
    }
    true
}

} // verus!

verus! {

// ---------------------------------------------------------------- write targets

pub open spec fn is_op_char(c: char) -> bool {
    c == ';' || c == '|' || c == '&'
}

/// `s` without trailing `;`, `|` and `&`.
pub open spec fn trim_end_ops(s: Seq<char>) -> Seq<char>
    decreases s.len(),
{
    if s.len() > 0 && is_op_char(s.last()) {
        trim_end_ops(s.drop_last())
    } else {
        s
    }
}

/// A path token cleaned of whitespace, quotes and trailing operators.
pub open spec fn clean_path_spec(raw: Seq<char>) -> Seq<char> {
    trim_end_ops(trim_quotes_spec(trim_spec(raw)))
}

pub open spec fn meaningful_path(p: Seq<char>) -> bool {
    p.len() > 0 && p != "/dev/null"@
}

/// The cleaned path of `raw` when it is meaningful.
pub open spec fn write_path_spec(raw: Seq<char>) -> Seq<Seq<char>> {
    if meaningful_path(clean_path_spec(raw)) {
        seq![clean_path_spec(raw)]
    } else {
        seq![]
    }
}

/// Targets named by the redirection at token `i`.
pub open spec fn redirect_item(ws: Seq<Seq<char>>, i: int) -> Seq<Seq<char>> {
    if ws[i] == ">"@ || ws[i] == ">>"@ {
        if i + 1 < ws.len() {
            write_path_spec(ws[i + 1])
        } else {
            seq![]
        }
    } else if ws[i].len() > 0 && ws[i][0] == '>' {
        write_path_spec(strip_gt_spec(ws[i]))
    } else {
        seq![]
    }
}

/// Redirection targets among the first `n` tokens.
pub open spec fn redirects_upto(ws: Seq<Seq<char>>, n: int) -> Seq<Seq<char>>
    decreases n,
{
    if n <= 0 {
        seq![]
    } else {
        redirects_upto(ws, n - 1) + redirect_item(ws, n - 1)
    }
}

/// Cleaned, meaningful arguments that are not options.
pub open spec fn positional_paths(args: Seq<Seq<char>>) -> Seq<Seq<char>>
    decreases args.len(),
{
    if args.len() == 0 {
        seq![]
    } else {
        positional_paths(args.drop_last()) + (if args.last().len() > 0 && args.last()[0] == '-' {
            seq![]
        } else {
            write_path_spec(args.last())
        })
    }
}

pub open spec fn last_path(args: Seq<Seq<char>>) -> Seq<Seq<char>> {
    let p = positional_paths(args);
    if p.len() > 0 {
        seq![p.last()]
    } else {
        seq![]
    }
}

/// `sed` file arguments after an in-place flag and after the script.
pub open spec fn sed_go(args: Seq<Seq<char>>, i: int, saw: bool, skipped: bool) -> Seq<Seq<char>>
    decreases args.len() - i,
{
    if i < 0 || i >= args.len() {
        seq![]
    } else {
        let a = args[i];
        if a == "-i"@ || a == "--in-place"@ || (starts_with_spec(a, "-i"@) && a.len() > 2) {
            sed_go(args, i + 1, true, skipped)
        } else if a.len() > 0 && a[0] == '-' {
            sed_go(args, i + 1, saw, skipped)
        } else if !saw {
            sed_go(args, i + 1, saw, skipped)
        } else if !skipped {
            sed_go(args, i + 1, saw, true)
        } else {
            write_path_spec(a) + sed_go(args, i + 1, saw, skipped)
        }
    }
}

/// The first meaningful `of=` path of `dd`.
pub open spec fn dd_go(args: Seq<Seq<char>>, i: int) -> Seq<Seq<char>>
    decreases args.len() - i,
{
    if i < 0 || i >= args.len() {
        seq![]
    } else if starts_with_spec(args[i], "of="@) && meaningful_path(clean_path_spec(args[i].skip(3))) {
        seq![clean_path_spec(args[i].skip(3))]
    } else {
        dd_go(args, i + 1)
    }
}

/// Files a command writes, by its name.
pub open spec fn command_targets_spec(ws: Seq<Seq<char>>) -> Seq<Seq<char>> {
    if ws.len() == 0 {
        seq![]
    } else {
        let n = basename_spec(ws[0]);
        let args = ws.skip(1);
        if n == "cp"@ || n == "mv"@ || n == "install"@ {
            last_path(args)
        } else if n == "tee"@ || n == "touch"@ {
            positional_paths(args)
        } else if n == "sed"@ {
            sed_go(args, 0, false, false)
        } else if n == "dd"@ {
            dd_go(args, 0)
        } else {
            seq![]
        }
    }
}

pub open spec fn segment_targets(seg: Seq<char>) -> Seq<Seq<char>> {
    redirects_upto(words_spec(seg), words_spec(seg).len() as int) + command_targets_spec(
        simple_words_spec(seg),
    )
}

pub open spec fn pipes_targets(segs: Seq<Seq<char>>) -> Seq<Seq<char>>
    decreases segs.len(),
{
    if segs.len() == 0 {
        seq![]
    } else {
        pipes_targets(segs.drop_last()) + (if trim_spec(segs.last()).len() == 0 {
            seq![]
        } else {
            segment_targets(trim_spec(segs.last()))
        })
    }
}

pub open spec fn units_targets(units: Seq<Seq<char>>) -> Seq<Seq<char>>
    decreases units.len(),
{
    if units.len() == 0 {
        seq![]
    } else {
        units_targets(units.drop_last()) + (if trim_spec(units.last()).len() == 0 {
            seq![]
        } else {
            pipes_targets(split_pipes_spec(trim_spec(units.last())))
        })
    }
}

/// Write targets of a command line, in discovery order.
pub open spec fn write_targets_raw(s: Seq<char>) -> Seq<Seq<char>> {
    units_targets(split_units_spec(s))
}

/// The raw targets, or those of the normalized text when there are none.
pub open spec fn write_targets_found(s: Seq<char>) -> Seq<Seq<char>> {
    if write_targets_raw(s).len() > 0 {
        write_targets_raw(s)
    } else {
        write_targets_raw(normalize_spec(s))
    }
}

/// What `bash_write_targets` can parse without panicking.
pub open spec fn write_targets_safe(s: Seq<char>) -> bool {
    parse_safe(s) && (write_targets_raw(s).len() == 0 ==> parse_safe(normalize_spec(s)))
}

fn trim_end_op_chars(s: &Vec<char>) -> (r: Vec<char>)
    ensures
        r@ == trim_end_ops(s@),
{
    let mut j = s.len();
    assert(s@.take(j as int) =~= s@);
    while j > 0 && (s[j - 1] == ';' || s[j - 1] == '|' || s[j - 1] == '&')
        invariant
            j <= s.len(),
            trim_end_ops(s@.take(j as int)) == trim_end_ops(s@),
        decreases j,
    {
        assert(s@.take(j as int).drop_last() =~= s@.take(j - 1));
        j -= 1;
    }
    proof {
        let t = s@.take(j as int);
        if t.len() > 0 {
            assert(t.last() == s@[j - 1]);
        }
        assert(t =~= s@.subrange(0, j as int));
    }
    slice_chars(s, 0, j)
}

fn clean_path_token(raw: &Vec<char>) -> (r: Vec<char>)
    ensures
        r@ == clean_path_spec(raw@),
{
    let a = trim(raw);
    let b = trim_quotes(&a);
    trim_end_op_chars(&b)
}

fn push_write_path(out: &mut Vec<Vec<char>>, raw: &Vec<char>)
    ensures
        char_views(final(out)@) == char_views(old(out)@) + write_path_spec(raw@),
{
    let p = clean_path_token(raw);
    proof {
        reveal_strlit("/dev/null");
    }
    if p.len() > 0 && !eq_str(&p, "/dev/null") {
        proof {
            lemma_char_views_push(out@, p);
        }
        out.push(p);
    } else {
        assert(char_views(out@) =~= char_views(out@) + Seq::<Seq<char>>::empty());
    }
}

fn redirect_targets_from_words(ws: &Vec<Vec<char>>) -> (r: Vec<Vec<char>>)
    ensures
        char_views(r@) == redirects_upto(char_views(ws@), ws@.len() as int),
{
    let ghost wv = char_views(ws@);
    let mut out: Vec<Vec<char>> = Vec::new();
    assert(char_views(out@) =~= Seq::<Seq<char>>::empty());
    let mut i: usize = 0;
    while i < ws.len()
        invariant
            i <= ws.len(),
            wv == char_views(ws@),
            char_views(out@) == redirects_upto(wv, i as int),
        decreases ws.len() - i,
    {
        let t = &ws[i];
        assert(wv[i as int] == t@);
        proof {
            reveal_strlit(">");
            reveal_strlit(">>");
        }
        if eq_str(t, ">") || eq_str(t, ">>") {
            if i + 1 < ws.len() {
                assert(wv[i + 1] == ws@[i + 1]@);
                push_write_path(&mut out, &ws[i + 1]);
            } else {
                assert(char_views(out@) =~= char_views(out@) + Seq::<Seq<char>>::empty());
            }
        } else if t.len() > 0 && t[0] == '>' {
            let p = strip_gt(t);
            push_write_path(&mut out, &p);
        } else {
            assert(char_views(out@) =~= char_views(out@) + Seq::<Seq<char>>::empty());
        }
        i += 1;
    }
    out
}

fn positional_path_args(args: &Vec<Vec<char>>, from: usize) -> (r: Vec<Vec<char>>)
    requires
        from <= args.len(),
    ensures
        char_views(r@) == positional_paths(char_views(args@).skip(from as int)),
{
    let ghost av = char_views(args@).skip(from as int);
    let mut out: Vec<Vec<char>> = Vec::new();
    assert(char_views(out@) =~= positional_paths(av.take(0)));
    let mut i = from;
    while i < args.len()
        invariant
            from <= i <= args.len(),
            av == char_views(args@).skip(from as int),
            char_views(out@) == positional_paths(av.take(i - from)),
        decreases args.len() - i,
    {
        let a = &args[i];
        proof {
            let p = av.take(i - from + 1);
            assert(p.drop_last() =~= av.take(i - from));
            assert(p.last() == a@);
        }
        if a.len() > 0 && a[0] == '-' {
            assert(char_views(out@) =~= char_views(out@) + Seq::<Seq<char>>::empty());
        } else {
            push_write_path(&mut out, a);
        }
        i += 1;
    }
    assert(av.take(args.len() - from) =~= av);
    out
}

fn sed_inplace_targets(args: &Vec<Vec<char>>, from: usize) -> (r: Vec<Vec<char>>)
    requires
        from <= args.len(),
    ensures
        char_views(r@) == sed_go(char_views(args@).skip(from as int), 0, false, false),
{
    let ghost av = char_views(args@).skip(from as int);
    let mut out: Vec<Vec<char>> = Vec::new();
    let mut saw = false;
    let mut skipped = false;
    let mut i = from;
    assert(char_views(out@) =~= Seq::<Seq<char>>::empty());
    while i < args.len()
        invariant
            from <= i <= args.len(),
            av == char_views(args@).skip(from as int),
            char_views(out@) + sed_go(av, i - from, saw, skipped) == sed_go(av, 0, false, false),
        decreases args.len() - i,
    {
        let a = &args[i];
        assert(av[i - from] == a@);
        proof {
            reveal_strlit("-i");
            reveal_strlit("--in-place");
        }
        if eq_str(a, "-i") || eq_str(a, "--in-place") || (starts_with_str(a, "-i") && a.len()
            > 2) {
            saw = true;
        } else if a.len() > 0 && a[0] == '-' {
        } else if !saw {
        } else if !skipped {
            skipped = true;
        } else {
            let ghost before = char_views(out@);
            push_write_path(&mut out, a);
            assert(char_views(out@) + sed_go(av, i + 1 - from, saw, skipped) =~= before + (
            write_path_spec(a@) + sed_go(av, i + 1 - from, saw, skipped)));
        }
        i += 1;
    }
    assert(char_views(out@) =~= char_views(out@) + Seq::<Seq<char>>::empty());
    out
}

fn dd_of_target(args: &Vec<Vec<char>>, from: usize) -> (r: Vec<Vec<char>>)
    requires
        from <= args.len(),
    ensures
        char_views(r@) == dd_go(char_views(args@).skip(from as int), 0),
{
    let ghost av = char_views(args@).skip(from as int);
    let mut i = from;
    proof {
        reveal_strlit("of=");
        reveal_strlit("/dev/null");
    }
    while i < args.len()
        invariant
            from <= i <= args.len(),
            av == char_views(args@).skip(from as int),
            dd_go(av, i - from) == dd_go(av, 0),
        decreases args.len() - i,
    {
        let a = &args[i];
        assert(av[i - from] == a@);
        if starts_with_str(a, "of=") {
            proof {
                reveal_strlit("of=");
            }
            let rest = slice_chars(a, 3, a.len());
            assert(rest@ =~= a@.skip(3));
            let p = clean_path_token(&rest);
            if p.len() > 0 && !eq_str(&p, "/dev/null") {
                proof {
                    reveal_strlit("/dev/null");
                }
                let mut r: Vec<Vec<char>> = Vec::new();
                proof {
                    lemma_char_views_push(r@, p);
                }
                r.push(p);
                assert(char_views(r@) =~= seq![p@]);
                return r;
            }
            proof {
                reveal_strlit("/dev/null");
            }
        }
        i += 1;
    }
    let r: Vec<Vec<char>> = Vec::new();
    assert(char_views(r@) =~= Seq::<Seq<char>>::empty());
    r
}

fn command_write_targets(ws: &Vec<Vec<char>>) -> (r: Vec<Vec<char>>)
    ensures
        char_views(r@) == command_targets_spec(char_views(ws@)),
{
    if ws.len() == 0 {
        let r: Vec<Vec<char>> = Vec::new();
        assert(char_views(r@) =~= Seq::<Seq<char>>::empty());
        return r;
    }
    let n = command_basename(&ws[0]);
    assert(char_views(ws@)[0] == ws@[0]@);
    assert(char_views(ws@).skip(1) =~= char_views(ws@).skip(1));
    if eq_str(&n, "cp") || eq_str(&n, "mv") || eq_str(&n, "install") {
        let p = positional_path_args(ws, 1);
        let mut r: Vec<Vec<char>> = Vec::new();
        if p.len() > 0 {
            let last = copy_chars(&p[p.len() - 1]);
            proof {
                lemma_char_views_push(r@, last);
                assert(char_views(p@).last() == p@[p.len() - 1]@);
            }
            r.push(last);
            assert(char_views(r@) =~= seq![last@]);
        } else {
            assert(char_views(r@) =~= Seq::<Seq<char>>::empty());
        }
        r
    } else if eq_str(&n, "tee") || eq_str(&n, "touch") {
        positional_path_args(ws, 1)
    } else if eq_str(&n, "sed") {
        sed_inplace_targets(ws, 1)
    } else if eq_str(&n, "dd") {
        dd_of_target(ws, 1)
    } else {
        let r: Vec<Vec<char>> = Vec::new();
        assert(char_views(r@) =~= Seq::<Seq<char>>::empty());
        r
    }
}

fn append_chars(dst: &mut Vec<Vec<char>>, src: Vec<Vec<char>>)
    ensures
        char_views(final(dst)@) == char_views(old(dst)@) + char_views(src@),
{
    let mut src = src;
    let ghost s0 = char_views(src@);
    let ghost d0 = char_views(dst@);
    dst.append(&mut src);
    assert(char_views(dst@) =~= d0 + s0);
}

fn collect_write_targets(s: &Vec<char>, out: &mut Vec<Vec<char>>)
    requires
        parse_safe(s@),
    ensures
        char_views(final(out)@) == char_views(old(out)@) + write_targets_raw(s@),
{
    let units = split_command_units(s);
    let ghost uv = split_units_spec(s@);
    let ghost o0 = char_views(out@);
    let mut i: usize = 0;
    assert(uv.take(0) =~= Seq::<Seq<char>>::empty());
    assert(char_views(out@) =~= o0 + units_targets(uv.take(0)));
    while i < units.len()
        invariant
            i <= units.len(),
            char_views(units@) == uv,
            uv == split_units_spec(s@),
            parse_safe(s@),
            char_views(out@) == o0 + units_targets(uv.take(i as int)),
        decreases units.len() - i,
    {
        let t = trim(&units[i]);
        assert(units@[i as int]@ == uv[i as int]);
        let ghost before = char_views(out@);
        if t.len() > 0 {
            let segs = split_pipelines(&t);
            let ghost sv = split_pipes_spec(t@);
            let mut j: usize = 0;
            assert(sv.take(0) =~= Seq::<Seq<char>>::empty());
            assert(char_views(out@) =~= before + pipes_targets(sv.take(0)));
            while j < segs.len()
                invariant
                    j <= segs.len(),
                    char_views(segs@) == sv,
                    char_views(out@) == before + pipes_targets(sv.take(j as int)),
                decreases segs.len() - j,
            {
                let g = trim(&segs[j]);
                assert(segs@[j as int]@ == sv[j as int]);
                let ghost mid = char_views(out@);
                if g.len() > 0 {
                    let words = tokenize_words(&g);
                    let rt = redirect_targets_from_words(&words);
                    append_chars(out, rt);
                    let cmd = parse_simple_command(&g);
                    let ct = command_write_targets(&cmd);
                    append_chars(out, ct);
                    assert(char_views(out@) =~= mid + segment_targets(g@));
                } else {
                    assert(char_views(out@) =~= mid + Seq::<Seq<char>>::empty());
                }
                proof {
                    let p = sv.take(j + 1);
                    assert(p.drop_last() =~= sv.take(j as int));
                    assert(p.last() == sv[j as int]);
                    assert(char_views(out@) =~= before + pipes_targets(p));
                }
                j += 1;
            }
            assert(sv.take(segs.len() as int) =~= sv);
        } else {
            assert(char_views(out@) =~= before + Seq::<Seq<char>>::empty());
        }
        proof {
            let p = uv.take(i + 1);
            assert(p.drop_last() =~= uv.take(i as int));
            assert(p.last() == uv[i as int]);
            assert(char_views(out@) =~= o0 + units_targets(p));
        }
        i += 1;
    }
    assert(uv.take(units.len() as int) =~= uv);
}

/// Best-effort write targets of a command line (`>`, `cp`, `mv`, `tee`, …),
/// distinct and in ascending order.
pub fn bash_write_targets(input: &str) -> (r: Vec<String>)
    requires
        write_targets_safe(input@),
    ensures
        views(r@) == sorted_distinct(write_targets_found(input@)),
{
    let s = chars_of(input);
    let mut targets: Vec<Vec<char>> = Vec::new();
    assert(char_views(targets@) =~= Seq::<Seq<char>>::empty());
    collect_write_targets(&s, &mut targets);
    assert(char_views(targets@) =~= write_targets_raw(s@));
    if targets.len() == 0 {
        let (n, _) = normalize_chars(&s);
        collect_write_targets(&n, &mut targets);
        assert(char_views(targets@) =~= write_targets_raw(normalize_spec(s@)));
    }
    let d = sorted_distinct_chars(&targets);
    to_strings(&d)
}

/// Whether `bash_write_targets` can run on `input` without panicking.
pub fn write_targets_checked(input: &str) -> (r: bool)
    ensures
        r == write_targets_safe(input@),
{
    let s = chars_of(input);
    if !parse_is_safe(&s) {
        return false;
    }
    let mut targets: Vec<Vec<char>> = Vec::new();
    assert(char_views(targets@) =~= Seq::<Seq<char>>::empty());
    collect_write_targets(&s, &mut targets);
    if targets.len() > 0 {
        return true;
    }
    let (n, _) = normalize_chars(&s);
    parse_is_safe(&n)
}

} // verus!
