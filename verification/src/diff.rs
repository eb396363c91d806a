//! Line-oriented diff for previews of edits and file overwrites.
use vstd::prelude::*;
use crate::text::{char_views, chars_eq, chars_of, to_string};

verus! {

#[derive(Debug, Clone, Copy, PartialEq, Eq, Structural)]
pub enum DiffKind {
    Remove,
    Add,
    Context,
}

#[derive(Debug, Clone, PartialEq, Eq)]
pub struct DiffLine {
    pub kind: DiffKind,
    pub text: String,
}

impl View for DiffLine {
    type V = (DiffKind, Seq<char>);

    open spec fn view(&self) -> (DiffKind, Seq<char>) {
        (self.kind, self.text@)
    }
}

pub open spec fn diff_views(v: Seq<DiffLine>) -> Seq<(DiffKind, Seq<char>)> {
    Seq::new(v.len(), |i: int| v[i]@)
}

/// A finished line: its `\n` dropped, and a `\r` just before it too.
pub open spec fn end_line(cur: Seq<char>) -> Seq<char> {
    if cur.len() > 0 && cur.last() == '\r' {
        cur.drop_last()
    } else {
        cur
    }
}

/// `str::lines`: split at `\n` (and `\r\n`); a final line ending is optional.
pub open spec fn lines_go(s: Seq<char>, i: int, out: Seq<Seq<char>>, cur: Seq<char>) -> Seq<
    Seq<char>,
>
    decreases s.len() - i,
{
    if i < 0 || i >= s.len() {
        if cur.len() > 0 {
            out.push(cur)
        } else {
            out
        }
    } else if s[i] == '\n' {
        lines_go(s, i + 1, out.push(end_line(cur)), seq![])
    } else {
        lines_go(s, i + 1, out, cur.push(s[i]))
    }
}

pub open spec fn lines_spec(s: Seq<char>) -> Seq<Seq<char>> {
    lines_go(s, 0, seq![], seq![])
}

/// Length of a longest common subsequence of `a[..i]` and `b[..j]`.
pub open spec fn lcs(a: Seq<Seq<char>>, b: Seq<Seq<char>>, i: int, j: int) -> int
    decreases i, j,
{
    if i <= 0 || j <= 0 {
        0
    } else if a[i - 1] == b[j - 1] {
        lcs(a, b, i - 1, j - 1) + 1
    } else {
        let x = lcs(a, b, i - 1, j);
        let y = lcs(a, b, i, j - 1);
        if x >= y {
            x
        } else {
            y
        }
    }
}

/// The diff of `a[..i]` against `b[..j]`, walking back along the LCS table:
/// common lines are context; on a tie an addition comes before a removal.
pub open spec fn diff_go(a: Seq<Seq<char>>, b: Seq<Seq<char>>, i: int, j: int) -> Seq<
    (DiffKind, Seq<char>),
>
    decreases i + j,
{
    if i < 0 || j < 0 || (i == 0 && j == 0) {
        seq![]
    } else if i > 0 && j > 0 && a[i - 1] == b[j - 1] {
        diff_go(a, b, i - 1, j - 1).push((DiffKind::Context, a[i - 1]))
    } else if j > 0 && (i == 0 || lcs(a, b, i, j - 1) >= lcs(a, b, i - 1, j)) {
        diff_go(a, b, i, j - 1).push((DiffKind::Add, b[j - 1]))
    } else {
        diff_go(a, b, i - 1, j).push((DiffKind::Remove, a[i - 1]))
    }
}

pub open spec fn line_diff_spec(old: Seq<char>, new: Seq<char>) -> Seq<(DiffKind, Seq<char>)> {
    let a = lines_spec(old);
    let b = lines_spec(new);
    diff_go(a, b, a.len() as int, b.len() as int)
}

/// The lines a diff keeps from the old text (context and removals).
pub open spec fn old_side(d: Seq<(DiffKind, Seq<char>)>) -> Seq<Seq<char>>
    decreases d.len(),
{
    if d.len() == 0 {
        seq![]
    } else if d.last().0 == DiffKind::Add {
        old_side(d.drop_last())
    } else {
        old_side(d.drop_last()).push(d.last().1)
    }
}

/// The lines a diff keeps from the new text (context and additions).
pub open spec fn new_side(d: Seq<(DiffKind, Seq<char>)>) -> Seq<Seq<char>>
    decreases d.len(),
{
    if d.len() == 0 {
        seq![]
    } else if d.last().0 == DiffKind::Remove {
        new_side(d.drop_last())
    } else {
        new_side(d.drop_last()).push(d.last().1)
    }
}

proof fn lemma_diff_sides(a: Seq<Seq<char>>, b: Seq<Seq<char>>, i: int, j: int)
    requires
        0 <= i <= a.len(),
        0 <= j <= b.len(),
    ensures
        old_side(diff_go(a, b, i, j)) == a.take(i),
        new_side(diff_go(a, b, i, j)) == b.take(j),
    decreases i + j,
{
    if i == 0 && j == 0 {
        assert(a.take(0) =~= Seq::<Seq<char>>::empty());
        assert(b.take(0) =~= Seq::<Seq<char>>::empty());
    } else if i > 0 && j > 0 && a[i - 1] == b[j - 1] {
        let d = diff_go(a, b, i - 1, j - 1);
        lemma_diff_sides(a, b, i - 1, j - 1);
        assert(d.push((DiffKind::Context, a[i - 1])).drop_last() =~= d);
        assert(a.take(i) =~= a.take(i - 1).push(a[i - 1]));
        assert(b.take(j) =~= b.take(j - 1).push(b[j - 1]));
    } else if j > 0 && (i == 0 || lcs(a, b, i, j - 1) >= lcs(a, b, i - 1, j)) {
        let d = diff_go(a, b, i, j - 1);
        lemma_diff_sides(a, b, i, j - 1);
        assert(d.push((DiffKind::Add, b[j - 1])).drop_last() =~= d);
        assert(b.take(j) =~= b.take(j - 1).push(b[j - 1]));
    } else {
        let d = diff_go(a, b, i - 1, j);
        lemma_diff_sides(a, b, i - 1, j);
        assert(d.push((DiffKind::Remove, a[i - 1])).drop_last() =~= d);
        assert(a.take(i) =~= a.take(i - 1).push(a[i - 1]));
    }
}

proof fn lemma_lcs_bound(a: Seq<Seq<char>>, b: Seq<Seq<char>>, i: int, j: int)
    requires
        0 <= i,
        0 <= j,
    ensures
        0 <= lcs(a, b, i, j) <= i,
    decreases i, j,
{
    if i > 0 && j > 0 {
        lemma_lcs_bound(a, b, i - 1, j - 1);
        lemma_lcs_bound(a, b, i - 1, j);
        lemma_lcs_bound(a, b, i, j - 1);
    }
}

/// A line diff loses nothing: its context and removed lines are exactly the
/// old text's lines, and its context and added lines exactly the new text's.
pub proof fn law_diff_rebuilds_both_sides(old: Seq<char>, new: Seq<char>)
    ensures
        old_side(line_diff_spec(old, new)) == lines_spec(old),
        new_side(line_diff_spec(old, new)) == lines_spec(new),
{
    let a = lines_spec(old);
    let b = lines_spec(new);
    lemma_diff_sides(a, b, a.len() as int, b.len() as int);
    assert(a.take(a.len() as int) =~= a);
    assert(b.take(b.len() as int) =~= b);
}

fn split_lines(s: &Vec<char>) -> (r: Vec<Vec<char>>)
    ensures
        char_views(r@) == lines_spec(s@),
{
    let mut out: Vec<Vec<char>> = Vec::new();
    let mut cur: Vec<char> = Vec::new();
    let mut i: usize = 0;
    assert(char_views(out@) =~= Seq::<Seq<char>>::empty());
    while i < s.len()
        invariant
            i <= s.len(),
            lines_go(s@, i as int, char_views(out@), cur@) == lines_spec(s@),
        decreases s.len() - i,
    {
        if s[i] == '\n' {
            let n = cur.len();
            if n > 0 && cur[n - 1] == '\r' {
                cur.pop();
            }
            proof {
                crate::approval::shell_cmd::lemma_char_views_push(out@, cur);
            }
            out.push(cur);
            cur = Vec::new();
        } else {
            cur.push(s[i]);
        }
        i += 1;
    }
    if cur.len() > 0 {
        proof {
            crate::approval::shell_cmd::lemma_char_views_push(out@, cur);
        }
        out.push(cur);
    }
    out
}

fn push_line(out: &mut Vec<DiffLine>, kind: DiffKind, text: &Vec<char>)
    ensures
        diff_views(final(out)@) == diff_views(old(out)@).push((kind, text@)),
{
    let ghost before = diff_views(out@);
    out.push(DiffLine { kind, text: to_string(text) });
    assert(diff_views(out@) =~= before.push((kind, text@)));
}

/// Diffs two texts line by line along a longest common subsequence.
#[verifier::loop_isolation(false)]
pub fn line_diff(old: &str, new: &str) -> (r: Vec<DiffLine>)
    ensures
        diff_views(r@) == line_diff_spec(old@, new@),
{
    let a = split_lines(&chars_of(old));
    let b = split_lines(&chars_of(new));
    let ghost av = char_views(a@);
    let ghost bv = char_views(b@);
    let n = a.len();
    let m = b.len();
    let mut dp: Vec<Vec<usize>> = Vec::new();
    let mut i: usize = 0;
    loop
        invariant
            i <= n,
            dp@.len() == i,
            forall|r: int| 0 <= r < i ==> (#[trigger] dp@[r])@.len() == m + 1,
            forall|r: int, c: int|
                0 <= r < i && 0 <= c <= m ==> (#[trigger] dp@[r]@[c]) == lcs(av, bv, r, c),
        decreases n - i,
    {
        let mut row: Vec<usize> = Vec::new();
        let mut j: usize = 0;
        loop
            invariant
                i <= n,
                j <= m,
                row@.len() == j,
                forall|c: int| 0 <= c < j ==> (#[trigger] row@[c]) == lcs(av, bv, i as int, c),
            decreases m - j,
        {
            let v: usize = if i == 0 || j == 0 {
                0
            } else if chars_eq(&a[i - 1], &b[j - 1]) {
                proof {
                    assert(av[i - 1] == a@[i - 1]@);
                    assert(bv[j - 1] == b@[j - 1]@);
                    lemma_lcs_bound(av, bv, i - 1, j - 1);
                }
                dp[i - 1][j - 1] + 1
            } else {
                proof {
                    assert(av[i - 1] == a@[i - 1]@);
                    assert(bv[j - 1] == b@[j - 1]@);
                }
                let x = dp[i - 1][j];
                let y = row[j - 1];
                if x >= y {
                    x
                } else {
                    y
                }
            };
            row.push(v);
            if j == m {
                break ;
            }
            j += 1;
        }
        dp.push(row);
        if i == n {
            break ;
        }
        i += 1;
    }
    let mut rev: Vec<DiffLine> = Vec::new();
    let mut i = n;
    let mut j = m;
    assert(diff_views(rev@).reverse() =~= Seq::<(DiffKind, Seq<char>)>::empty());
    assert(av.len() == n && bv.len() == m);
    while i > 0 || j > 0
        invariant
            i <= n,
            j <= m,
            diff_go(av, bv, n as int, m as int) == diff_go(av, bv, i as int, j as int) + diff_views(
                rev@,
            ).reverse(),
        decreases i + j,
    {
        let ghost before = diff_views(rev@);
        if i > 0 && j > 0 && chars_eq(&a[i - 1], &b[j - 1]) {
            assert(av[i - 1] == a@[i - 1]@ && bv[j - 1] == b@[j - 1]@);
            push_line(&mut rev, DiffKind::Context, &a[i - 1]);
            proof {
                assert(diff_views(rev@).reverse() =~= seq![(DiffKind::Context, av[i - 1])]
                    + before.reverse());
            }
            i -= 1;
            j -= 1;
        } else if j > 0 && (i == 0 || dp[i][j - 1] >= dp[i - 1][j]) {
            proof {
                if i > 0 {
                    assert(av[i - 1] == a@[i - 1]@);
                }
                if i > 0 && j > 0 {
                    assert(bv[j - 1] == b@[j - 1]@);
                }
            }
            push_line(&mut rev, DiffKind::Add, &b[j - 1]);
            proof {
                assert(bv[j - 1] == b@[j - 1]@);
                assert(diff_views(rev@).reverse() =~= seq![(DiffKind::Add, bv[j - 1])]
                    + before.reverse());
            }
            j -= 1;
        } else {
            proof {
                if j > 0 {
                    assert(bv[j - 1] == b@[j - 1]@);
                }
                assert(av[i - 1] == a@[i - 1]@);
            }
            push_line(&mut rev, DiffKind::Remove, &a[i - 1]);
            proof {
                assert(diff_views(rev@).reverse() =~= seq![(DiffKind::Remove, av[i - 1])]
                    + before.reverse());
            }
            i -= 1;
        }
    }
    let mut out: Vec<DiffLine> = Vec::new();
    let mut k = rev.len();
    while k > 0
        invariant
            k <= rev@.len(),
            diff_views(out@) == diff_views(rev@).reverse().take(rev@.len() - k),
        decreases k,
    {
        k -= 1;
        let ghost before = diff_views(out@);
        out.push(DiffLine { kind: rev[k].kind, text: to_string(&chars_of(rev[k].text.as_str())) });
        assert(diff_views(out@) =~= diff_views(rev@).reverse().take(rev@.len() - k));
    }
    assert(diff_views(rev@).reverse().take(rev@.len() as int) =~= diff_views(rev@).reverse());
    assert(diff_go(av, bv, 0, 0) =~= Seq::<(DiffKind, Seq<char>)>::empty());
    out
}

} // verus!
