//! Normalization of obfuscated shell text before danger analysis.
use vstd::prelude::*;
use crate::approval::shell_cmd::{lemma_char_views_push, tokenize_words, words_spec};
use crate::text::{
    char_from_u32, ascii_lower_spec, char_views, chars_eq, copy_chars, eq_ignore_ascii_case,
    eq_ignore_ascii_case_spec, join_spec, push_all, replace, replace_spec, slice_chars,
    starts_with_spec, starts_with_str, to_ascii_lower, trim, trim_spec, trim_start_from,
    trim_start_spec, join_chars, to_string, to_strings, views,
};

verus! {

/// Rounds of rule application before giving up on a fixed point.
pub const MAX_DEOBFUSCATE_ITER: usize = 16;

// ---------------------------------------------------------------- base cleanup

/// Index just after the final byte of an ANSI CSI sequence starting at `j`.
pub open spec fn csi_end(s: Seq<char>, j: int) -> int
    decreases s.len() - j,
{
    if j < 0 || j >= s.len() {
        s.len() as int
    } else if '@' <= s[j] && s[j] <= '~' {
        j + 1
    } else {
        csi_end(s, j + 1)
    }
}

/// Drops NUL characters and ANSI escape sequences.
pub open spec fn base_norm_go(s: Seq<char>, i: int, out: Seq<char>) -> Seq<char>
    decreases s.len() - i,
{
    if i < 0 || i >= s.len() {
        out
    } else if s[i] == '\0' {
        base_norm_go(s, i + 1, out)
    } else if s[i] == '\x1b' {
        if i + 1 < s.len() && s[i + 1] == '[' {
            base_norm_go(s, if csi_end(s, i + 2) > i && csi_end(s, i + 2) <= s.len() {
                csi_end(s, i + 2)
            } else {
                i + 1
            }, out)
        } else {
            base_norm_go(s, i + 1, out)
        }
    } else {
        base_norm_go(s, i + 1, out.push(s[i]))
    }
}

pub open spec fn base_normalize_spec(s: Seq<char>) -> Seq<char> {
    base_norm_go(s, 0, seq![])
}

// ---------------------------------------------------------------- rules

pub open spec fn expand_ifs_spec(s: Seq<char>) -> Seq<char> {
    replace_spec(replace_spec(s, "${IFS}"@, " "@), "$IFS"@, " "@)
}

pub open spec fn is_hex_digit(c: char) -> bool {
    ('0' <= c && c <= '9') || ('a' <= c && c <= 'f') || ('A' <= c && c <= 'F')
}

pub open spec fn hex_digit_value(c: char) -> int {
    if '0' <= c && c <= '9' {
        (c as int) - ('0' as int)
    } else if 'a' <= c && c <= 'f' {
        (c as int) - ('a' as int) + 10
    } else {
        (c as int) - ('A' as int) + 10
    }
}

/// Value of a run of hexadecimal digits.
pub open spec fn hex_value(d: Seq<char>) -> int
    decreases d.len(),
{
    if d.len() == 0 {
        0
    } else {
        hex_value(d.drop_last()) * 16 + hex_digit_value(d.last())
    }
}

/// Value of a run of octal digits.
pub open spec fn oct_value(d: Seq<char>) -> int
    decreases d.len(),
{
    if d.len() == 0 {
        0
    } else {
        oct_value(d.drop_last()) * 8 + ((d.last() as int) - ('0' as int))
    }
}

/// A Unicode scalar value.
pub open spec fn is_scalar_value(v: int) -> bool {
    0 <= v <= 0x10FFFF && !(0xD800 <= v <= 0xDFFF)
}

/// The character of a code, `?` when the code is no character.
pub open spec fn code_char(v: int) -> char {
    if is_scalar_value(v) {
        (v as u32) as char
    } else {
        '?'
    }
}

/// End of the run of hex digits starting at `j`.
pub open spec fn hex_end(s: Seq<char>, j: int) -> int
    decreases s.len() - j,
{
    if j < 0 || j >= s.len() || !is_hex_digit(s[j]) {
        j
    } else {
        hex_end(s, j + 1)
    }
}

pub open spec fn is_oct_digit(c: char) -> bool {
    '0' <= c && c <= '7'
}

/// End of an octal escape whose first digit is at `j - 1` (at most two more digits).
pub open spec fn oct_end(s: Seq<char>, j: int) -> int {
    if j < s.len() && is_oct_digit(s[j]) {
        if j + 1 < s.len() && is_oct_digit(s[j + 1]) {
            j + 2
        } else {
            j + 1
        }
    } else {
        j
    }
}

/// The character for a one-letter escape `\n`.
pub open spec fn simple_escape(n: char) -> char {
    if n == 'a' {
        '\x07'
    } else if n == 'b' {
        '\x08'
    } else if n == 'e' || n == 'E' {
        '\x1b'
    } else if n == 'f' {
        '\x0c'
    } else if n == 'n' {
        '\n'
    } else if n == 'r' {
        '\r'
    } else if n == 't' {
        '\t'
    } else if n == 'v' {
        '\x0b'
    } else if n == '?' {
        '\x7f'
    } else {
        n
    }
}

/// Decodes the body of `$'…'` from `j`; returns the text and the index after it.
pub open spec fn ansi_body(s: Seq<char>, j: int, dec: Seq<char>) -> (Seq<char>, int)
    decreases s.len() - j,
{
    if j < 0 || j >= s.len() {
        (dec, s.len() as int)
    } else if s[j] == '\'' {
        (dec, j + 1)
    } else if s[j] == '\\' {
        if j + 1 >= s.len() {
            (dec, s.len() as int)
        } else {
            let n = s[j + 1];
            if n == 'x' {
                let k = hex_end(s, j + 2);
                if j < k <= s.len() {
                    ansi_body(s, k, dec.push(code_char(hex_value(s.subrange(j + 2, k)))))
                } else {
                    (dec, s.len() as int)
                }
            } else if is_oct_digit(n) {
                let k = oct_end(s, j + 2);
                ansi_body(s, k, dec.push(code_char(oct_value(s.subrange(j + 1, k)))))
            } else {
                ansi_body(s, j + 2, dec.push(simple_escape(n)))
            }
        }
    } else {
        ansi_body(s, j + 1, dec.push(s[j]))
    }
}

/// Replaces every `$'…'` by its decoded text.
pub open spec fn ansi_go(s: Seq<char>, i: int, out: Seq<char>) -> Seq<char>
    decreases s.len() - i,
{
    if i < 0 || i >= s.len() {
        out
    } else if s[i] == '$' && i + 1 < s.len() && s[i + 1] == '\'' {
        let (dec, j) = ansi_body(s, i + 2, seq![]);
        if i < j <= s.len() {
            ansi_go(s, j, out + dec)
        } else {
            out
        }
    } else {
        ansi_go(s, i + 1, out.push(s[i]))
    }
}

pub open spec fn decode_ansi_spec(s: Seq<char>) -> Seq<char> {
    ansi_go(s, 0, seq![])
}

/// Value of the octal digit `c`.
pub open spec fn octal_digit(c: char) -> int {
    (c as int) - ('0' as int)
}

/// Inside `$'…'`, a backslash followed by one to three octal digits (as many
/// as follow, at most three) decodes to the one character whose code is that
/// octal number, and decoding goes on after the last digit.
pub proof fn law_octal_escape_decodes(s: Seq<char>, j: int, n: int, dec: Seq<char>)
    requires
        0 <= j,
        1 <= n <= 3,
        j + n < s.len(),
        s[j] == '\\',
        forall|m: int| j < m <= j + n ==> '0' <= #[trigger] s[m] && s[m] <= '7',
        n == 3 || j + n + 1 >= s.len() || !('0' <= s[j + n + 1] && s[j + n + 1] <= '7'),
    ensures
        ({
            let v = if n == 1 {
                octal_digit(s[j + 1])
            } else if n == 2 {
                8 * octal_digit(s[j + 1]) + octal_digit(s[j + 2])
            } else {
                64 * octal_digit(s[j + 1]) + 8 * octal_digit(s[j + 2]) + octal_digit(s[j + 3])
            };
            ansi_body(s, j, dec) == ansi_body(s, j + n + 1, dec.push((v as u32) as char))
        }),
{
    assert('0' <= s[j + 1] && s[j + 1] <= '7');
    let sub = s.subrange(j + 1, j + n + 1);
    assert(oct_end(s, j + 2) == j + n + 1) by {
        if n >= 2 {
            assert('0' <= s[j + 2] && s[j + 2] <= '7');
        }
        if n == 3 {
            assert('0' <= s[j + 3] && s[j + 3] <= '7');
        }
    }
    let d1 = octal_digit(s[j + 1]);
    assert(sub.drop_last().len() == n - 1);
    assert(oct_value(Seq::<char>::empty()) == 0);
    assert(seq![s[j + 1]].last() == s[j + 1]);
    if n == 1 {
        assert(sub.drop_last() =~= Seq::<char>::empty());
        assert(sub.last() == s[j + 1]);
        assert(oct_value(sub) == d1);
    } else if n == 2 {
        assert(sub.drop_last() =~= seq![s[j + 1]]);
        assert(seq![s[j + 1]].drop_last() =~= Seq::<char>::empty());
        assert(oct_value(seq![s[j + 1]]) == d1);
        assert(oct_value(sub) == 8 * d1 + octal_digit(s[j + 2]));
    } else {
        assert('0' <= s[j + 2] && s[j + 2] <= '7');
        assert('0' <= s[j + 3] && s[j + 3] <= '7');
        assert(sub.drop_last() =~= seq![s[j + 1], s[j + 2]]);
        assert(seq![s[j + 1], s[j + 2]].drop_last() =~= seq![s[j + 1]]);
        assert(seq![s[j + 1]].drop_last() =~= Seq::<char>::empty());
        assert(oct_value(seq![s[j + 1]]) == d1);
        assert(oct_value(seq![s[j + 1], s[j + 2]]) == 8 * d1 + octal_digit(s[j + 2]));
        assert(oct_value(sub) == 64 * d1 + 8 * octal_digit(s[j + 2]) + octal_digit(s[j + 3]));
    }
    assert(is_scalar_value(oct_value(sub)));
}

proof fn lemma_hex_end_at(s: Seq<char>, m: int, k: int)
    requires
        0 <= m <= k <= s.len(),
        forall|i: int| m <= i < k ==> is_hex_digit(#[trigger] s[i]),
        k == s.len() || !is_hex_digit(s[k]),
    ensures
        hex_end(s, m) == k,
    decreases k - m,
{
    if m < k {
        lemma_hex_end_at(s, m + 1, k);
    }
}

/// Inside `$'…'`, `\x` followed by the hex digits up to the first other
/// character decodes to the one character of that code (`?` when the code is
/// no character, NUL when no digit follows), and decoding goes on after the
/// last digit.
pub proof fn law_hex_escape_decodes(s: Seq<char>, j: int, k: int, dec: Seq<char>)
    requires
        0 <= j,
        j + 2 <= k <= s.len(),
        s[j] == '\\',
        s[j + 1] == 'x',
        forall|m: int| j + 2 <= m < k ==> is_hex_digit(#[trigger] s[m]),
        k == s.len() || !is_hex_digit(s[k]),
    ensures
        ansi_body(s, j, dec) == ansi_body(
            s,
            k,
            dec.push(code_char(hex_value(s.subrange(j + 2, k)))),
        ),
{
    lemma_hex_end_at(s, j + 2, k);
}

/// Inside `$'…'`, the one-letter escapes decode as in bash: `\n` newline,
/// `\t` tab, `\r` carriage return, `\a` bell, `\b` backspace, `\e` and `\E`
/// escape, `\f` form feed, `\v` vertical tab, `\?` delete; a backslash
/// before a quote or another backslash keeps that character.
pub proof fn law_letter_escape_decodes(s: Seq<char>, j: int, dec: Seq<char>)
    requires
        0 <= j,
        j + 1 < s.len(),
        s[j] == '\\',
    ensures
        s[j + 1] == 'n' ==> ansi_body(s, j, dec) == ansi_body(s, j + 2, dec.push('\n')),
        s[j + 1] == 't' ==> ansi_body(s, j, dec) == ansi_body(s, j + 2, dec.push('\t')),
        s[j + 1] == 'r' ==> ansi_body(s, j, dec) == ansi_body(s, j + 2, dec.push('\r')),
        s[j + 1] == 'a' ==> ansi_body(s, j, dec) == ansi_body(s, j + 2, dec.push('\x07')),
        s[j + 1] == 'b' ==> ansi_body(s, j, dec) == ansi_body(s, j + 2, dec.push('\x08')),
        s[j + 1] == 'e' || s[j + 1] == 'E' ==> ansi_body(s, j, dec) == ansi_body(
            s,
            j + 2,
            dec.push('\x1b'),
        ),
        s[j + 1] == 'f' ==> ansi_body(s, j, dec) == ansi_body(s, j + 2, dec.push('\x0c')),
        s[j + 1] == 'v' ==> ansi_body(s, j, dec) == ansi_body(s, j + 2, dec.push('\x0b')),
        s[j + 1] == '?' ==> ansi_body(s, j, dec) == ansi_body(s, j + 2, dec.push('\x7f')),
        s[j + 1] == '\\' || s[j + 1] == '\'' || s[j + 1] == '"' ==> ansi_body(s, j, dec)
            == ansi_body(s, j + 2, dec.push(s[j + 1])),
{
}

pub open spec fn empty_quotes_step(s: Seq<char>) -> Seq<char> {
    replace_spec(replace_spec(s, "''"@, ""@), "\"\""@, ""@)
}

/// Repeats `step` up to `n` times, stopping at a fixed point.
pub open spec fn empty_quotes_go(s: Seq<char>, n: nat) -> Seq<char>
    decreases n,
{
    if n == 0 {
        s
    } else {
        let t = empty_quotes_step(s);
        if t == s {
            s
        } else {
            empty_quotes_go(t, (n - 1) as nat)
        }
    }
}

pub open spec fn collapse_empty_quotes_spec(s: Seq<char>) -> Seq<char> {
    empty_quotes_go(s, 32)
}

pub open spec fn quote_split_step(s: Seq<char>) -> Seq<char> {
    replace_spec(
        replace_spec(replace_spec(replace_spec(s, "' '"@, ""@), "\" \""@, ""@), "'\""@, ""@),
        "\"'"@,
        ""@,
    )
}

pub open spec fn quote_split_go(s: Seq<char>, n: nat) -> Seq<char>
    decreases n,
{
    if n == 0 {
        s
    } else {
        let t = quote_split_step(s);
        if t == s {
            s
        } else {
            quote_split_go(t, (n - 1) as nat)
        }
    }
}

pub open spec fn collapse_quote_splits_spec(s: Seq<char>) -> Seq<char> {
    quote_split_go(s, 32)
}

/// Drops unquoted backslashes (and escaped line breaks).
pub open spec fn backslash_go(s: Seq<char>, i: int, out: Seq<char>, sq: bool, dq: bool) -> Seq<
    char,
>
    decreases s.len() - i,
{
    if i < 0 || i >= s.len() {
        out
    } else {
        let c = s[i];
        if !dq && c == '\'' {
            backslash_go(s, i + 1, out.push('\''), !sq, dq)
        } else if !sq && c == '"' {
            backslash_go(s, i + 1, out.push('"'), sq, !dq)
        } else if !sq && !dq && c == '\\' {
            if i + 1 < s.len() {
                let n = s[i + 1];
                backslash_go(s, i + 2, if n != '\n' && n != '\r' {
                    out.push(n)
                } else {
                    out
                }, sq, dq)
            } else {
                out
            }
        } else {
            backslash_go(s, i + 1, out.push(c), sq, dq)
        }
    }
}

pub open spec fn collapse_backslash_spec(s: Seq<char>) -> Seq<char> {
    backslash_go(s, 0, seq![], false, false)
}

pub open spec fn flush_part(parts: Seq<Seq<char>>, cur: Seq<char>) -> Seq<Seq<char>> {
    if cur.len() > 0 {
        parts.push(cur)
    } else {
        parts
    }
}

/// Quote-aware split on `;`, `&&`, `||` and `|`; empty pieces dropped.
pub open spec fn segments_go(
    s: Seq<char>,
    i: int,
    parts: Seq<Seq<char>>,
    cur: Seq<char>,
    sq: bool,
    dq: bool,
) -> Seq<Seq<char>>
    decreases s.len() - i,
{
    if i < 0 || i >= s.len() {
        flush_part(parts, cur)
    } else {
        let c = s[i];
        if !dq && c == '\'' {
            segments_go(s, i + 1, parts, cur.push(c), !sq, dq)
        } else if !sq && c == '"' {
            segments_go(s, i + 1, parts, cur.push(c), sq, !dq)
        } else if !sq && !dq && c == '&' && i + 1 < s.len() && s[i + 1] == '&' {
            segments_go(s, i + 2, flush_part(parts, cur), seq![], sq, dq)
        } else if !sq && !dq && c == '|' {
            segments_go(
                s,
                if i + 1 < s.len() && s[i + 1] == '|' {
                    i + 2
                } else {
                    i + 1
                },
                flush_part(parts, cur),
                seq![],
                sq,
                dq,
            )
        } else if !sq && !dq && c == ';' {
            segments_go(s, i + 1, flush_part(parts, cur), seq![], sq, dq)
        } else {
            segments_go(s, i + 1, parts, cur.push(c), sq, dq)
        }
    }
}

pub open spec fn split_segments_spec(s: Seq<char>) -> Seq<Seq<char>> {
    segments_go(s, 0, seq![], seq![], false, false)
}

/// Removes leading `eval ` / `command ` / `builtin ` (any case) repeatedly.
pub open spec fn strip_prefixes_spec(x: Seq<char>) -> Seq<char>
    decreases x.len(),
{
    let l = ascii_lower_spec(x);
    if starts_with_spec(l, "eval "@) && x.len() >= 5 && trim_start_spec(x.skip(5)).len() < x.len() {
        strip_prefixes_spec(trim_start_spec(x.skip(5)))
    } else if starts_with_spec(l, "command "@) && x.len() >= 8 && trim_start_spec(x.skip(8)).len()
        < x.len() {
        strip_prefixes_spec(trim_start_spec(x.skip(8)))
    } else if starts_with_spec(l, "builtin "@) && x.len() >= 8 && trim_start_spec(x.skip(8)).len()
        < x.len() {
        strip_prefixes_spec(trim_start_spec(x.skip(8)))
    } else {
        x
    }
}

pub open spec fn strip_wrappers_once_spec(s: Seq<char>) -> Seq<char> {
    let segs = split_segments_spec(s);
    join_spec(Seq::new(segs.len(), |i: int| strip_prefixes_spec(trim_spec(segs[i]))), " "@)
}

pub open spec fn strip_wrappers_go(s: Seq<char>, n: nat) -> Seq<char>
    decreases n,
{
    if n == 0 {
        s
    } else {
        let t = strip_wrappers_once_spec(s);
        if t == s {
            s
        } else {
            strip_wrappers_go(t, (n - 1) as nat)
        }
    }
}

pub open spec fn strip_wrapper_prefixes_spec(s: Seq<char>) -> Seq<char> {
    strip_wrappers_go(s, 8)
}

/// Index of the next backtick at or after `j` (the length when there is none).
pub open spec fn next_tick(s: Seq<char>, j: int) -> int
    decreases s.len() - j,
{
    if j < 0 || j >= s.len() {
        s.len() as int
    } else if s[j] == '`' {
        j
    } else {
        next_tick(s, j + 1)
    }
}

/// Index of the `)` that brings the nesting `depth` to zero (the length when none does).
pub open spec fn paren_close(s: Seq<char>, j: int, depth: int) -> int
    decreases s.len() - j,
{
    if j < 0 || j >= s.len() {
        s.len() as int
    } else {
        let d = if s[j] == '(' {
            depth + 1
        } else if s[j] == ')' {
            depth - 1
        } else {
            depth
        };
        if d == 0 {
            j
        } else {
            paren_close(s, j + 1, d)
        }
    }
}

pub open spec fn is_echo_flag_spec(w: Seq<char>) -> bool {
    w.len() > 1 && w[0] == '-' && forall|k: int|
        1 <= k < w.len() ==> (#[trigger] w[k] == 'n' || w[k] == 'e' || w[k] == 'E')
}

pub open spec fn drop_echo_flags(ws: Seq<Seq<char>>) -> Seq<Seq<char>>
    decreases ws.len(),
{
    if ws.len() > 0 && is_echo_flag_spec(ws[0]) {
        drop_echo_flags(ws.drop_first())
    } else {
        ws
    }
}

/// What a command substitution prints when it is a plain `echo`, else its trimmed body.
pub open spec fn literal_value_spec(body: Seq<char>) -> Seq<char> {
    let words = words_spec(body);
    if words.len() == 0 {
        trim_spec(body)
    } else if eq_ignore_ascii_case_spec(words[0], "echo"@) {
        join_spec(drop_echo_flags(words.skip(1)), " "@)
    } else {
        trim_spec(body)
    }
}

/// Replaces unquoted `` `…` `` and `$(…)` by their literal value.
pub open spec fn unwrap_go(s: Seq<char>, i: int, out: Seq<char>, sq: bool, dq: bool) -> Seq<char>
    decreases s.len() - i,
{
    if i < 0 || i >= s.len() {
        out
    } else {
        let c = s[i];
        if !dq && c == '\'' {
            unwrap_go(s, i + 1, out.push(c), !sq, dq)
        } else if !sq && c == '"' {
            unwrap_go(s, i + 1, out.push(c), sq, !dq)
        } else if !sq && !dq && c == '`' {
            let e = next_tick(s, i + 1);
            if i < e <= s.len() {
                unwrap_go(
                    s,
                    if e < s.len() {
                        e + 1
                    } else {
                        e
                    },
                    out + literal_value_spec(s.subrange(i + 1, e)),
                    sq,
                    dq,
                )
            } else {
                out
            }
        } else if !sq && !dq && c == '$' && i + 1 < s.len() && s[i + 1] == '(' {
            let e = paren_close(s, i + 2, 1);
            if i + 1 < e <= s.len() {
                unwrap_go(
                    s,
                    if e < s.len() {
                        e + 1
                    } else {
                        e
                    },
                    out + literal_value_spec(s.subrange(i + 2, e)),
                    sq,
                    dq,
                )
            } else {
                out
            }
        } else {
            unwrap_go(s, i + 1, out.push(c), sq, dq)
        }
    }
}

pub open spec fn unwrap_once_spec(s: Seq<char>) -> Seq<char> {
    unwrap_go(s, 0, seq![], false, false)
}

pub open spec fn unwrap_subst_go(s: Seq<char>, n: nat) -> Seq<char>
    decreases n,
{
    if n == 0 {
        s
    } else {
        let t = unwrap_once_spec(s);
        if t == s {
            s
        } else {
            unwrap_subst_go(t, (n - 1) as nat)
        }
    }
}

pub open spec fn unwrap_substitutions_spec(s: Seq<char>) -> Seq<char> {
    unwrap_subst_go(s, 8)
}

/// One round of every de-obfuscation rule, in order.
pub open spec fn rules_spec(s: Seq<char>) -> Seq<char> {
    collapse_quote_splits_spec(
        strip_wrapper_prefixes_spec(
            collapse_backslash_spec(
                collapse_empty_quotes_spec(
                    decode_ansi_spec(expand_ifs_spec(unwrap_substitutions_spec(s))),
                ),
            ),
        ),
    )
}

/// Rule rounds until a fixed point (converged) or `n` rounds.
pub open spec fn deob_go(s: Seq<char>, n: nat) -> (Seq<char>, bool)
    decreases n,
{
    if n == 0 {
        (s, false)
    } else {
        let t = rules_spec(s);
        if t == s {
            (s, true)
        } else {
            deob_go(t, (n - 1) as nat)
        }
    }
}

pub open spec fn deobfuscate_spec(s: Seq<char>) -> (Seq<char>, bool) {
    deob_go(s, MAX_DEOBFUSCATE_ITER as nat)
}

pub open spec fn normalize_with_status_spec(s: Seq<char>) -> (Seq<char>, bool) {
    deobfuscate_spec(base_normalize_spec(s))
}

pub open spec fn normalize_spec(s: Seq<char>) -> Seq<char> {
    normalize_with_status_spec(s).0
}

/// Bodies of `` `…` `` (an unclosed one runs to the end).
pub open spec fn backtick_go(s: Seq<char>, i: int, out: Seq<Seq<char>>) -> Seq<Seq<char>>
    decreases s.len() - i,
{
    if i < 0 || i >= s.len() {
        out
    } else if s[i] == '`' {
        let e = next_tick(s, i + 1);
        if i < e <= s.len() {
            backtick_go(
                s,
                if e < s.len() {
                    e + 1
                } else {
                    e
                },
                out.push(s.subrange(i + 1, e)),
            )
        } else {
            out
        }
    } else {
        backtick_go(s, i + 1, out)
    }
}

/// Bodies of closed `$(…)`, nesting respected.
pub open spec fn dollar_paren_go(s: Seq<char>, i: int, out: Seq<Seq<char>>) -> Seq<Seq<char>>
    decreases s.len() - i,
{
    if i < 0 || i + 1 >= s.len() {
        out
    } else if s[i] == '$' && s[i + 1] == '(' {
        let e = paren_close(s, i + 2, 1);
        if e < s.len() && e > i {
            dollar_paren_go(s, e + 1, out.push(s.subrange(i + 2, e)))
        } else {
            out
        }
    } else {
        dollar_paren_go(s, i + 1, out)
    }
}

pub open spec fn substitution_bodies_spec(s: Seq<char>) -> Seq<Seq<char>> {
    backtick_go(s, 0, seq![]) + dollar_paren_go(s, 0, seq![])
}

} // verus!

verus! {

proof fn lemma_csi_end_bounds(s: Seq<char>, j: int)
    requires
        0 <= j,
    ensures
        j <= s.len() ==> j <= csi_end(s, j) <= s.len(),
        j < s.len() ==> j < csi_end(s, j),
    decreases s.len() - j,
{
    if j < s.len() && !('@' <= s[j] && s[j] <= '~') {
        lemma_csi_end_bounds(s, j + 1);
    }
}

fn csi_end_at(s: &Vec<char>, j: usize) -> (r: usize)
    requires
        j <= s.len(),
    ensures
        r == csi_end(s@, j as int),
        j <= r <= s.len(),
{
    let mut k = j;
    while k < s.len() && !('@' <= s[k] && s[k] <= '~')
        invariant
            j <= k <= s.len(),
            csi_end(s@, k as int) == csi_end(s@, j as int),
        decreases s.len() - k,
    {
        k += 1;
    }
    proof {
        lemma_csi_end_bounds(s@, j as int);
    }
    if k < s.len() {
        k + 1
    } else {
        k
    }
}

/// Drops NUL characters and ANSI CSI escape sequences.
fn base_normalize(s: &Vec<char>) -> (r: Vec<char>)
    ensures
        r@ == base_normalize_spec(s@),
{
    let mut out: Vec<char> = Vec::new();
    let mut i: usize = 0;
    while i < s.len()
        invariant
            i <= s.len(),
            base_norm_go(s@, i as int, out@) == base_normalize_spec(s@),
        decreases s.len() - i,
    {
        let c = s[i];
        if c == '\0' {
            i += 1;
        } else if c == '\x1b' {
            if i + 1 < s.len() && s[i + 1] == '[' {
                let e = csi_end_at(s, i + 2);
                i = e;
            } else {
                i += 1;
            }
        } else {
            out.push(c);
            i += 1;
        }
    }
    out
}

fn literal(s: &str) -> (r: Vec<char>)
    ensures
        r@ == s@,
{
    crate::text::chars_of(s)
}

fn expand_ifs(s: &Vec<char>) -> (r: Vec<char>)
    ensures
        r@ == expand_ifs_spec(s@),
{
    proof {
        reveal_strlit("${IFS}");
        reveal_strlit("$IFS");
    }
    let a = replace(s, &literal("${IFS}"), &literal(" "));
    replace(&a, &literal("$IFS"), &literal(" "))
}

fn remove_empty_quotes(s: &Vec<char>) -> (r: Vec<char>)
    ensures
        r@ == empty_quotes_step(s@),
{
    proof {
        reveal_strlit("''");
        reveal_strlit("\"\"");
    }
    let a = replace(s, &literal("''"), &literal(""));
    replace(&a, &literal("\"\""), &literal(""))
}

fn collapse_empty_quotes(s: &Vec<char>) -> (r: Vec<char>)
    ensures
        r@ == collapse_empty_quotes_spec(s@),
{
    let mut cur = copy_chars(s);
    let mut n: usize = 32;
    while n > 0
        invariant
            n <= 32,
            empty_quotes_go(cur@, n as nat) == collapse_empty_quotes_spec(s@),
        decreases n,
    {
        let next = remove_empty_quotes(&cur);
        if chars_eq(&next, &cur) {
            return cur;
        }
        cur = next;
        n -= 1;
    }
    cur
}

fn remove_quote_splits(s: &Vec<char>) -> (r: Vec<char>)
    ensures
        r@ == quote_split_step(s@),
{
    proof {
        reveal_strlit("' '");
        reveal_strlit("\" \"");
        reveal_strlit("'\"");
        reveal_strlit("\"'");
    }
    let a = replace(s, &literal("' '"), &literal(""));
    let b = replace(&a, &literal("\" \""), &literal(""));
    let c = replace(&b, &literal("'\""), &literal(""));
    replace(&c, &literal("\"'"), &literal(""))
}

fn collapse_adjacent_quote_splits(s: &Vec<char>) -> (r: Vec<char>)
    ensures
        r@ == collapse_quote_splits_spec(s@),
{
    let mut cur = copy_chars(s);
    let mut n: usize = 32;
    while n > 0
        invariant
            n <= 32,
            quote_split_go(cur@, n as nat) == collapse_quote_splits_spec(s@),
        decreases n,
    {
        let next = remove_quote_splits(&cur);
        if chars_eq(&next, &cur) {
            return cur;
        }
        cur = next;
        n -= 1;
    }
    cur
}

fn collapse_backslash_escapes(s: &Vec<char>) -> (r: Vec<char>)
    ensures
        r@ == collapse_backslash_spec(s@),
{
    let mut out: Vec<char> = Vec::new();
    let mut i: usize = 0;
    let mut sq = false;
    let mut dq = false;
    while i < s.len()
        invariant
            i <= s.len(),
            backslash_go(s@, i as int, out@, sq, dq) == collapse_backslash_spec(s@),
        decreases s.len() - i,
    {
        let c = s[i];
        if !dq && c == '\'' {
            sq = !sq;
            out.push('\'');
            i += 1;
        } else if !sq && c == '"' {
            dq = !dq;
            out.push('"');
            i += 1;
        } else if !sq && !dq && c == '\\' {
            if i + 1 < s.len() {
                let n = s[i + 1];
                if n != '\n' && n != '\r' {
                    out.push(n);
                }
                i += 2;
            } else {
                return out;
            }
        } else {
            out.push(c);
            i += 1;
        }
    }
    out
}

} // verus!

verus! {

fn code_to_char(v: u32) -> (c: char)
    ensures
        c == code_char(v as int),
{
    match char_from_u32(v) {
        Some(c) => c,
        None => '?',
    }
}

fn is_hex(c: char) -> (r: bool)
    ensures
        r == is_hex_digit(c),
{
    ('0' <= c && c <= '9') || ('a' <= c && c <= 'f') || ('A' <= c && c <= 'F')
}

fn hex_digit(c: char) -> (d: u32)
    requires
        is_hex_digit(c),
    ensures
        d == hex_digit_value(c),
        d < 16,
{
    if '0' <= c && c <= '9' {
        (c as u32) - ('0' as u32)
    } else if 'a' <= c && c <= 'f' {
        (c as u32) - ('a' as u32) + 10
    } else {
        (c as u32) - ('A' as u32) + 10
    }
}

fn hex_end_at(s: &Vec<char>, j: usize) -> (r: usize)
    requires
        j <= s.len(),
    ensures
        r == hex_end(s@, j as int),
        j <= r <= s.len(),
        forall|m: int| j <= m < r ==> is_hex_digit(#[trigger] s@[m]),
{
    let mut k = j;
    while k < s.len() && is_hex(s[k])
        invariant
            j <= k <= s.len(),
            hex_end(s@, k as int) == hex_end(s@, j as int),
            forall|m: int| j <= m < k ==> is_hex_digit(#[trigger] s@[m]),
        decreases s.len() - k,
    {
        k += 1;
    }
    k
}

/// The character of the hexadecimal code `s[a..b]` (`?` when it is no character).
fn hex_code_char(s: &Vec<char>, a: usize, b: usize) -> (c: char)
    requires
        a <= b <= s.len(),
        forall|m: int| a <= m < b ==> is_hex_digit(#[trigger] s@[m]),
    ensures
        c == code_char(hex_value(s@.subrange(a as int, b as int))),
{
    let mut v: u32 = 0;
    let mut big = false;
    let mut k = a;
    while k < b
        invariant
            a <= k <= b <= s.len(),
            forall|m: int| a <= m < b ==> is_hex_digit(#[trigger] s@[m]),
            hex_value(s@.subrange(a as int, k as int)) >= 0,
            !big ==> v == hex_value(s@.subrange(a as int, k as int)) && v <= 0x10FFFF,
            big ==> hex_value(s@.subrange(a as int, k as int)) > 0x10FFFF,
        decreases b - k,
    {
        let d = hex_digit(s[k]);
        proof {
            let t = s@.subrange(a as int, k + 1);
            assert(t.drop_last() =~= s@.subrange(a as int, k as int));
            assert(t.last() == s@[k as int]);
        }
        if !big {
            v = v * 16 + d;
            if v > 0x10FFFF {
                big = true;
            }
        }
        k += 1;
    }
    if big {
        '?'
    } else {
        code_to_char(v)
    }
}

/// The character of the octal code `s[a..b]`, at most three digits.
fn oct_code_char(s: &Vec<char>, a: usize, b: usize) -> (c: char)
    requires
        a < b <= s.len(),
        b - a <= 3,
        forall|m: int| a <= m < b ==> is_oct_digit(#[trigger] s@[m]),
    ensures
        c == code_char(oct_value(s@.subrange(a as int, b as int))),
{
    let mut v: u32 = 0;
    let mut k = a;
    while k < b
        invariant
            a <= k <= b <= s.len(),
            b - a <= 3,
            forall|m: int| a <= m < b ==> is_oct_digit(#[trigger] s@[m]),
            v == oct_value(s@.subrange(a as int, k as int)),
            k - a == 0 ==> v == 0,
            k - a == 1 ==> v < 8,
            k - a == 2 ==> v < 64,
            k - a == 3 ==> v < 512,
        decreases b - k,
    {
        let d = (s[k] as u32) - ('0' as u32);
        proof {
            let t = s@.subrange(a as int, k + 1);
            assert(t.drop_last() =~= s@.subrange(a as int, k as int));
            assert(t.last() == s@[k as int]);
            assert(is_oct_digit(s@[k as int]));
        }
        v = v * 8 + d;
        k += 1;
    }
    code_to_char(v)
}

fn escape_char(n: char) -> (c: char)
    ensures
        c == simple_escape(n),
{
    if n == 'a' {
        '\x07'
    } else if n == 'b' {
        '\x08'
    } else if n == 'e' || n == 'E' {
        '\x1b'
    } else if n == 'f' {
        '\x0c'
    } else if n == 'n' {
        '\n'
    } else if n == 'r' {
        '\r'
    } else if n == 't' {
        '\t'
    } else if n == 'v' {
        '\x0b'
    } else if n == '?' {
        '\x7f'
    } else {
        n
    }
}

/// Decodes the body of `$'…'` that starts at `j0`; also returns the index after it.
fn ansi_body_at(s: &Vec<char>, j0: usize) -> (r: (Vec<char>, usize))
    requires
        j0 <= s.len(),
    ensures
        r.0@ == ansi_body(s@, j0 as int, seq![]).0,
        r.1 == ansi_body(s@, j0 as int, seq![]).1,
        j0 <= r.1 <= s.len(),
{
    let mut dec: Vec<char> = Vec::new();
    let mut j = j0;
    while j < s.len()
        invariant
            j0 <= j <= s.len(),
            ansi_body(s@, j as int, dec@) == ansi_body(s@, j0 as int, seq![]),
        decreases s.len() - j,
    {
        let c = s[j];
        if c == '\'' {
            return (dec, j + 1);
        } else if c == '\\' {
            if j + 1 >= s.len() {
                return (dec, s.len());
            }
            let n = s[j + 1];
            if n == 'x' {
                let k = hex_end_at(s, j + 2);
                let ch = hex_code_char(s, j + 2, k);
                dec.push(ch);
                j = k;
            } else if '0' <= n && n <= '7' {
                let k = if j + 2 < s.len() && '0' <= s[j + 2] && s[j + 2] <= '7' {
                    if j + 3 < s.len() && '0' <= s[j + 3] && s[j + 3] <= '7' {
                        j + 4
                    } else {
                        j + 3
                    }
                } else {
                    j + 2
                };
                proof {
                    assert(k == oct_end(s@, j + 2));
                }
                let ch = oct_code_char(s, j + 1, k);
                dec.push(ch);
                j = k;
            } else {
                dec.push(escape_char(n));
                j += 2;
            }
        } else {
            dec.push(c);
            j += 1;
        }
    }
    (dec, s.len())
}

/// Replaces every `$'…'` by its decoded text.
fn decode_ansi_c_quotes(s: &Vec<char>) -> (r: Vec<char>)
    ensures
        r@ == decode_ansi_spec(s@),
{
    let mut out: Vec<char> = Vec::new();
    let mut i: usize = 0;
    while i < s.len()
        invariant
            i <= s.len(),
            ansi_go(s@, i as int, out@) == decode_ansi_spec(s@),
        decreases s.len() - i,
    {
        if s[i] == '$' && i + 1 < s.len() && s[i + 1] == '\'' {
            let (dec, j) = ansi_body_at(s, i + 2);
            push_all(&mut out, &dec);
            i = j;
        } else {
            out.push(s[i]);
            i += 1;
        }
    }
    out
}

} // verus!

verus! {

/// Quote-aware split on `;`, `&&`, `||` and `|` (whitespace is kept).
fn split_command_segments(s: &Vec<char>) -> (r: Vec<Vec<char>>)
    ensures
        char_views(r@) == split_segments_spec(s@),
{
    let mut parts: Vec<Vec<char>> = Vec::new();
    let mut cur: Vec<char> = Vec::new();
    let mut i: usize = 0;
    let mut sq = false;
    let mut dq = false;
    proof {
        assert(char_views(parts@) =~= Seq::<Seq<char>>::empty());
    }
    while i < s.len()
        invariant
            i <= s.len(),
            segments_go(s@, i as int, char_views(parts@), cur@, sq, dq) == split_segments_spec(
                s@,
            ),
        decreases s.len() - i,
    {
        let c = s[i];
        if !dq && c == '\'' {
            sq = !sq;
            cur.push(c);
            i += 1;
        } else if !sq && c == '"' {
            dq = !dq;
            cur.push(c);
            i += 1;
        } else if !sq && !dq && (c == '&' && i + 1 < s.len() && s[i + 1] == '&' || c == '|' || c
            == ';') {
            if cur.len() > 0 {
                proof {
                    lemma_char_views_push(parts@, cur);
                }
                parts.push(cur);
                cur = Vec::new();
            } else {
                assert(cur@ =~= Seq::<char>::empty());
            }
            if c == '&' || (c == '|' && i + 1 < s.len() && s[i + 1] == '|') {
                i += 2;
            } else {
                i += 1;
            }
        } else {
            cur.push(c);
            i += 1;
        }
    }
    if cur.len() > 0 {
        proof {
            lemma_char_views_push(parts@, cur);
        }
        parts.push(cur);
    }
    parts
}

/// Removes leading `eval ` / `command ` / `builtin ` (any case), repeatedly.
fn strip_wrapper_words(x: &Vec<char>) -> (r: Vec<char>)
    ensures
        r@ == strip_prefixes_spec(x@),
{
    proof {
        reveal_strlit("eval ");
        reveal_strlit("command ");
        reveal_strlit("builtin ");
    }
    let mut cur = copy_chars(x);
    while true
        invariant
            strip_prefixes_spec(cur@) == strip_prefixes_spec(x@),
        decreases cur.len(),
    {
        let l = to_ascii_lower(&cur);
        let n: usize = if starts_with_str(&l, "eval ") {
            5
        } else if starts_with_str(&l, "command ") {
            8
        } else if starts_with_str(&l, "builtin ") {
            8
        } else {
            0
        };
        if n == 0 {
            return cur;
        }
        proof {
            reveal_strlit("eval ");
            reveal_strlit("command ");
            reveal_strlit("builtin ");
        }
        assert(l@.len() == cur@.len());
        let next = trim_start_from(&cur, n);
        cur = next;
    }
    cur
}

fn strip_wrappers_once(s: &Vec<char>) -> (r: Vec<char>)
    ensures
        r@ == strip_wrappers_once_spec(s@),
{
    let segs = split_command_segments(s);
    let ghost sv = split_segments_spec(s@);
    let mut stripped: Vec<Vec<char>> = Vec::new();
    let mut i: usize = 0;
    while i < segs.len()
        invariant
            i <= segs.len(),
            char_views(segs@) == sv,
            stripped@.len() == i,
            forall|k: int| 0 <= k < i ==> (#[trigger] stripped@[k])@ == strip_prefixes_spec(trim_spec(sv[k])),
        decreases segs.len() - i,
    {
        let t = trim(&segs[i]);
        assert(segs@[i as int]@ == sv[i as int]);
        stripped.push(strip_wrapper_words(&t));
        i += 1;
    }
    proof {
        reveal_strlit(" ");
        assert(char_views(stripped@) =~= Seq::new(sv.len(), |k: int| strip_prefixes_spec(trim_spec(sv[k]))));
    }
    join_chars(&stripped, &literal(" "))
}

fn strip_wrapper_prefixes(s: &Vec<char>) -> (r: Vec<char>)
    ensures
        r@ == strip_wrapper_prefixes_spec(s@),
{
    let mut cur = copy_chars(s);
    let mut n: usize = 8;
    while n > 0
        invariant
            n <= 8,
            strip_wrappers_go(cur@, n as nat) == strip_wrapper_prefixes_spec(s@),
        decreases n,
    {
        let next = strip_wrappers_once(&cur);
        if chars_eq(&next, &cur) {
            return cur;
        }
        cur = next;
        n -= 1;
    }
    cur
}

} // verus!

verus! {

proof fn lemma_next_tick_bounds(s: Seq<char>, j: int)
    requires
        0 <= j <= s.len(),
    ensures
        j <= next_tick(s, j) <= s.len(),
    decreases s.len() - j,
{
    if j < s.len() && s[j] != '`' {
        lemma_next_tick_bounds(s, j + 1);
    }
}

fn next_tick_at(s: &Vec<char>, j: usize) -> (r: usize)
    requires
        j <= s.len(),
    ensures
        r == next_tick(s@, j as int),
        j <= r <= s.len(),
{
    let mut k = j;
    while k < s.len() && s[k] != '`'
        invariant
            j <= k <= s.len(),
            next_tick(s@, k as int) == next_tick(s@, j as int),
        decreases s.len() - k,
    {
        k += 1;
    }
    k
}

fn paren_close_at(s: &Vec<char>, j: usize) -> (r: usize)
    requires
        1 <= j <= s.len(),
    ensures
        r == paren_close(s@, j as int, 1),
        j <= r <= s.len(),
{
    let mut k = j;
    let mut d: usize = 1;
    while k < s.len()
        invariant
            1 <= j <= k <= s.len(),
            1 <= d <= 1 + k - j,
            paren_close(s@, k as int, d as int) == paren_close(s@, j as int, 1),
        decreases s.len() - k,
    {
        if s[k] == '(' {
            d += 1;
        } else if s[k] == ')' {
            d -= 1;
            if d == 0 {
                return k;
            }
        }
        k += 1;
    }
    k
}

fn is_echo_flag(w: &Vec<char>) -> (r: bool)
    ensures
        r == is_echo_flag_spec(w@),
{
    if w.len() <= 1 || w[0] != '-' {
        return false;
    }
    let mut k: usize = 1;
    while k < w.len()
        invariant
            1 <= k <= w.len(),
            forall|m: int| 1 <= m < k ==> (#[trigger] w@[m] == 'n' || w@[m] == 'e' || w@[m]
                == 'E'),
        decreases w.len() - k,
    {
        let c = w[k];
        if !(c == 'n' || c == 'e' || c == 'E') {
            return false;
        }
        k += 1;
    }
    true
}

/// What a command substitution prints when it is a plain `echo`, else its trimmed body.
pub fn literal_substitution_value(body: &Vec<char>) -> (r: Vec<char>)
    ensures
        r@ == literal_value_spec(body@),
{
    let words = tokenize_words(body);
    let ghost ws = char_views(words@);
    if words.len() == 0 {
        return trim(body);
    }
    proof {
        reveal_strlit("echo");
    }
    assert(words@[0]@ == ws[0]);
    if !eq_ignore_ascii_case(&words[0], &literal("echo")) {
        return trim(body);
    }
    let mut k: usize = 1;
    while k < words.len() && is_echo_flag(&words[k])
        invariant
            1 <= k <= words.len(),
            ws == char_views(words@),
            drop_echo_flags(ws.skip(k as int)) == drop_echo_flags(ws.skip(1)),
        decreases words.len() - k,
    {
        proof {
            assert(ws.skip(k as int)[0] == words@[k as int]@);
            assert(ws.skip(k as int).drop_first() =~= ws.skip(k + 1));
        }
        k += 1;
    }
    let mut rest: Vec<Vec<char>> = Vec::new();
    let mut m = k;
    while m < words.len()
        invariant
            k <= m <= words.len(),
            ws == char_views(words@),
            char_views(rest@) == ws.subrange(k as int, m as int),
        decreases words.len() - m,
    {
        let w = copy_chars(&words[m]);
        proof {
            lemma_char_views_push(rest@, w);
            assert(ws.subrange(k as int, m + 1) =~= ws.subrange(k as int, m as int).push(w@));
        }
        rest.push(w);
        m += 1;
    }
    proof {
        reveal_strlit(" ");
        assert(ws.subrange(k as int, m as int) =~= ws.skip(k as int));
        if k < words.len() {
            assert(ws.skip(k as int)[0] == words@[k as int]@);
        }
    }
    join_chars(&rest, &literal(" "))
}

/// One pass replacing unquoted `` `…` `` and `$(…)` by their literal value.
fn unwrap_command_substitutions_once(s: &Vec<char>) -> (r: Vec<char>)
    ensures
        r@ == unwrap_once_spec(s@),
{
    let mut out: Vec<char> = Vec::new();
    let mut i: usize = 0;
    let mut sq = false;
    let mut dq = false;
    while i < s.len()
        invariant
            i <= s.len(),
            unwrap_go(s@, i as int, out@, sq, dq) == unwrap_once_spec(s@),
        decreases s.len() - i,
    {
        let c = s[i];
        if !dq && c == '\'' {
            sq = !sq;
            out.push(c);
            i += 1;
        } else if !sq && c == '"' {
            dq = !dq;
            out.push(c);
            i += 1;
        } else if !sq && !dq && c == '`' {
            let e = next_tick_at(s, i + 1);
            let body = slice_chars(s, i + 1, e);
            let v = literal_substitution_value(&body);
            push_all(&mut out, &v);
            i = if e < s.len() {
                e + 1
            } else {
                e
            };
        } else if !sq && !dq && c == '$' && i + 1 < s.len() && s[i + 1] == '(' {
            let e = paren_close_at(s, i + 2);
            let body = slice_chars(s, i + 2, e);
            let v = literal_substitution_value(&body);
            push_all(&mut out, &v);
            i = if e < s.len() {
                e + 1
            } else {
                e
            };
        } else {
            out.push(c);
            i += 1;
        }
    }
    out
}

fn unwrap_command_substitutions(s: &Vec<char>) -> (r: Vec<char>)
    ensures
        r@ == unwrap_substitutions_spec(s@),
{
    let mut cur = copy_chars(s);
    let mut n: usize = 8;
    while n > 0
        invariant
            n <= 8,
            unwrap_subst_go(cur@, n as nat) == unwrap_substitutions_spec(s@),
        decreases n,
    {
        let next = unwrap_command_substitutions_once(&cur);
        if chars_eq(&next, &cur) {
            return cur;
        }
        cur = next;
        n -= 1;
    }
    cur
}

fn apply_rules_once(s: &Vec<char>) -> (r: Vec<char>)
    ensures
        r@ == rules_spec(s@),
{
    let a = unwrap_command_substitutions(s);
    let b = expand_ifs(&a);
    let c = decode_ansi_c_quotes(&b);
    let d = collapse_empty_quotes(&c);
    let e = collapse_backslash_escapes(&d);
    let f = strip_wrapper_prefixes(&e);
    collapse_adjacent_quote_splits(&f)
}

/// Rule rounds until a fixed point (`true`) or the round limit (`false`).
pub fn deobfuscate_chars(s: &Vec<char>) -> (r: (Vec<char>, bool))
    ensures
        r.0@ == deobfuscate_spec(s@).0,
        r.1 == deobfuscate_spec(s@).1,
{
    let mut cur = copy_chars(s);
    let mut n: usize = MAX_DEOBFUSCATE_ITER;
    while n > 0
        invariant
            n <= MAX_DEOBFUSCATE_ITER,
            deob_go(cur@, n as nat) == deobfuscate_spec(s@),
        decreases n,
    {
        let next = apply_rules_once(&cur);
        if chars_eq(&next, &cur) {
            return (cur, true);
        }
        cur = next;
        n -= 1;
    }
    (cur, false)
}

/// Strips control noise, then de-obfuscates; returns the text and whether it converged.
pub fn normalize_chars(s: &Vec<char>) -> (r: (Vec<char>, bool))
    ensures
        r.0@ == normalize_with_status_spec(s@).0,
        r.1 == normalize_with_status_spec(s@).1,
{
    let b = base_normalize(s);
    deobfuscate_chars(&b)
}

/// Returns `(normalized, converged)` for text that has already been cleaned.
pub fn deobfuscate(input: &str) -> (r: (String, bool))
    ensures
        r.0@ == deobfuscate_spec(input@).0,
        r.1 == deobfuscate_spec(input@).1,
{
    let v = literal(input);
    let (t, ok) = deobfuscate_chars(&v);
    (to_string(&t), ok)
}

/// Returns `(normalized, converged)`: control noise removed, then de-obfuscated.
pub fn normalize_with_status(input: &str) -> (r: (String, bool))
    ensures
        r.0@ == normalize_with_status_spec(input@).0,
        r.1 == normalize_with_status_spec(input@).1,
{
    let v = literal(input);
    let (t, ok) = normalize_chars(&v);
    (to_string(&t), ok)
}

/// Strips control noise, then runs bounded fixed-point de-obfuscation.
pub fn normalize_for_detection(input: &str) -> (r: String)
    ensures
        r@ == normalize_spec(input@),
{
    normalize_with_status(input).0
}

/// Best-effort static expansion of a substitution body: `echo rm` gives `rm`.
pub fn simulate_substitution_body(body: &str) -> (r: String)
    ensures
        r@ == literal_value_spec(body@),
{
    let v = literal(body);
    to_string(&literal_substitution_value(&v))
}

fn collect_backtick_bodies(s: &Vec<char>, out: &mut Vec<Vec<char>>)
    ensures
        char_views(final(out)@) == char_views(old(out)@) + backtick_go(s@, 0, seq![]),
{
    let ghost o0 = char_views(out@);
    let ghost acc: Seq<Seq<char>> = seq![];
    let mut i: usize = 0;
    while i < s.len()
        invariant
            i <= s.len(),
            char_views(out@) == o0 + acc,
            backtick_go(s@, i as int, acc) == backtick_go(s@, 0, seq![]),
        decreases s.len() - i,
    {
        if s[i] == '`' {
            let e = next_tick_at(s, i + 1);
            let body = slice_chars(s, i + 1, e);
            proof {
                lemma_char_views_push(out@, body);
                acc = acc.push(body@);
            }
            out.push(body);
            i = if e < s.len() {
                e + 1
            } else {
                e
            };
        } else {
            i += 1;
        }
    }
}

fn collect_dollar_paren_bodies(s: &Vec<char>, out: &mut Vec<Vec<char>>)
    ensures
        char_views(final(out)@) == char_views(old(out)@) + dollar_paren_go(s@, 0, seq![]),
{
    let ghost o0 = char_views(out@);
    let ghost acc: Seq<Seq<char>> = seq![];
    let mut i: usize = 0;
    while s.len() > 1 && i < s.len() - 1
        invariant
            i <= s.len(),
            o0 == char_views(old(out)@),
            char_views(out@) == o0 + acc,
            dollar_paren_go(s@, i as int, acc) == dollar_paren_go(s@, 0, seq![]),
        decreases s.len() - i,
    {
        if s[i] == '$' && s[i + 1] == '(' {
            let e = paren_close_at(s, i + 2);
            if e < s.len() {
                let body = slice_chars(s, i + 2, e);
                proof {
                    lemma_char_views_push(out@, body);
                    acc = acc.push(body@);
                }
                out.push(body);
                i = e + 1;
            } else {
                assert(dollar_paren_go(s@, i as int, acc) == acc);
                return;
            }
        } else {
            i += 1;
        }
    }
}

/// Bodies of `` `…` `` and then of `$(…)`, for secondary analysis.
pub fn substitution_bodies(s: &Vec<char>) -> (r: Vec<Vec<char>>)
    ensures
        char_views(r@) == substitution_bodies_spec(s@),
{
    let mut bodies: Vec<Vec<char>> = Vec::new();
    assert(char_views(bodies@) =~= Seq::<Seq<char>>::empty());
    collect_backtick_bodies(s, &mut bodies);
    collect_dollar_paren_bodies(s, &mut bodies);
    assert(Seq::<Seq<char>>::empty() + backtick_go(s@, 0, seq![]) =~= backtick_go(s@, 0, seq![]));
    bodies
}

/// Bodies of `` `...` `` / `$(...)` for secondary analysis.
pub fn extract_substitution_bodies(input: &str) -> (r: Vec<String>)
    ensures
        views(r@) == substitution_bodies_spec(input@),
{
    let v = literal(input);
    let b = substitution_bodies(&v);
    to_strings(&b)
}

} // verus!
