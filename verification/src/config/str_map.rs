//! A map from names to settings, kept in ascending name order with each name once.
use vstd::prelude::*;
use crate::text::{chars_lt, lemma_seq_lt_trichotomy, seq_lt, str_eq, strictly_sorted, string_chars};

verus! {

/// Named entries, ascending by name, each name once.
#[derive(Debug)]
pub struct StrMap<V> {
    pub entries: Vec<(String, V)>,
}

/// The names of a list of entries.
pub open spec fn entry_keys<V>(e: Seq<(String, V)>) -> Seq<Seq<char>> {
    Seq::new(e.len(), |i: int| e[i].0@)
}

/// Index of the entry named `k`, or -1.
pub open spec fn find_key(keys: Seq<Seq<char>>, k: Seq<char>) -> int
    decreases keys.len(),
{
    if keys.len() == 0 {
        -1
    } else if keys.last() == k {
        keys.len() - 1
    } else {
        find_key(keys.drop_last(), k)
    }
}

/// The entries whose flag is set.
pub open spec fn keep_flagged<V>(e: Seq<(String, V)>, flags: Seq<bool>) -> Seq<(String, V)>
    decreases e.len(),
{
    if e.len() == 0 || flags.len() != e.len() {
        seq![]
    } else if flags.last() {
        keep_flagged(e.drop_last(), flags.drop_last()).push(e.last())
    } else {
        keep_flagged(e.drop_last(), flags.drop_last())
    }
}

pub proof fn lemma_find_key(keys: Seq<Seq<char>>, k: Seq<char>)
    ensures
        -1 <= find_key(keys, k) < keys.len(),
        find_key(keys, k) >= 0 ==> keys[find_key(keys, k)] == k,
        find_key(keys, k) == -1 <==> !keys.contains(k),
    decreases keys.len(),
{
    if keys.len() > 0 {
        lemma_find_key(keys.drop_last(), k);
        if keys.last() != k && keys.drop_last().contains(k) {
            let j = choose|j: int| 0 <= j < keys.drop_last().len() && keys.drop_last()[j] == k;
            assert(keys[j] == k);
        }
        if keys.contains(k) && keys.last() != k {
            let j = choose|j: int| 0 <= j < keys.len() && keys[j] == k;
            assert(keys.drop_last()[j] == k);
        }
    }
}

impl<V> StrMap<V> {
    pub open spec fn keys(&self) -> Seq<Seq<char>> {
        entry_keys(self.entries@)
    }

    /// Names ascend strictly.
    pub open spec fn wf(&self) -> bool {
        strictly_sorted(self.keys())
    }

    pub fn new() -> (r: Self)
        ensures
            r.wf(),
            r.entries@.len() == 0,
    {
        StrMap { entries: Vec::new() }
    }

    pub fn len(&self) -> (r: usize)
        ensures
            r == self.entries@.len(),
    {
        self.entries.len()
    }

    pub fn is_empty(&self) -> (r: bool)
        ensures
            r == (self.entries@.len() == 0),
    {
        self.entries.len() == 0
    }

    /// Index of the entry named `k`.
    pub fn index_of(&self, k: &str) -> (r: Option<usize>)
        ensures
            match r {
                Some(i) => i as int == find_key(self.keys(), k@) && i < self.entries@.len(),
                None => find_key(self.keys(), k@) == -1,
            },
    {
        proof {
            lemma_find_key(self.keys(), k@);
        }
        let mut j = self.entries.len();
        assert(self.keys().take(j as int) =~= self.keys());
        while j > 0
            invariant
                j <= self.entries@.len(),
                find_key(self.keys(), k@) == find_key(self.keys().take(j as int), k@),
            decreases j,
        {
            let ghost t = self.keys().take(j as int);
            assert(t.last() == self.entries@[j - 1].0@);
            assert(t.drop_last() =~= self.keys().take(j - 1));
            if str_eq(self.entries[j - 1].0.as_str(), k) {
                return Some(j - 1);
            }
            j -= 1;
        }
        assert(self.keys().take(0) =~= Seq::<Seq<char>>::empty());
        None
    }

    /// The settings named `k`.
    pub fn get(&self, k: &str) -> (r: Option<&V>)
        ensures
            match r {
                Some(v) => find_key(self.keys(), k@) >= 0 && *v == self.entries@[find_key(self.keys(), k@)].1,
                None => find_key(self.keys(), k@) == -1,
            },
    {
        match self.index_of(k) {
            Some(i) => Some(&self.entries[i].1),
            None => None,
        }
    }

    /// Sets the settings named `k` (added at its place in name order when new).
    pub fn insert(&mut self, k: String, v: V)
        requires
            old(self).wf(),
        ensures
            final(self).wf(),
            find_key(old(self).keys(), k@) >= 0 ==> final(self).entries@ == old(self).entries@.update(
                find_key(old(self).keys(), k@),
                (k, v),
            ),
            find_key(old(self).keys(), k@) == -1 ==> exists|p: int|
                0 <= p <= old(self).entries@.len() && final(self).entries@ == old(self).entries@.insert(p, (k, v)),
    {
        proof {
            lemma_find_key(self.keys(), k@);
        }
        let ghost ov = self.entries@;
        let ghost ok = self.keys();
        match self.index_of(k.as_str()) {
            Some(i) => {
                let ghost kv = k@;
                self.entries.set(i, (k, v));
                assert(self.keys() =~= ok);
            },
            None => {
                let kc = string_chars(&k);
                let mut p: usize = 0;
                while p < self.entries.len() && chars_lt(&string_chars(&self.entries[p].0), &kc)
                    invariant
                        p <= self.entries@.len(),
                        self.entries@ == ov,
                        ok == entry_keys(ov),
                        strictly_sorted(ok),
                        kc@ == k@,
                        p > 0 ==> seq_lt(ok[p - 1], k@),
                    decreases self.entries@.len() - p,
                {
                    p += 1;
                }
                proof {
                    if p < ov.len() {
                        lemma_seq_lt_trichotomy(ok[p as int], k@);
                        assert(ok.contains(ok[p as int]));
                    }
                }
                let ghost kv = k@;
                self.entries.insert(p, (k, v));
                proof {
                    let nk = self.keys();
                    assert(nk =~= ok.insert(p as int, kv));
                    assert forall|i: int| 0 <= i < nk.len() - 1 implies seq_lt(#[trigger] nk[i], nk[i + 1]) by {
                        if i + 1 < p {
                            assert(nk[i] == ok[i] && nk[i + 1] == ok[i + 1]);
                        } else if i + 1 == p {
                            assert(nk[i] == ok[i]);
                        } else if i == p {
                            assert(nk[i + 1] == ok[i]);
                        } else {
                            assert(nk[i] == ok[i - 1] && nk[i + 1] == ok[i]);
                        }
                    }
                }
            },
        }
    }

    /// Removes the entry named `k`, if any.
    pub fn remove(&mut self, k: &str)
        requires
            old(self).wf(),
        ensures
            final(self).wf(),
            final(self).entries@ == if find_key(old(self).keys(), k@) >= 0 {
                old(self).entries@.remove(find_key(old(self).keys(), k@))
            } else {
                old(self).entries@
            },
    {
        let ghost ok = self.keys();
        proof {
            lemma_find_key(ok, k@);
        }
        match self.index_of(k) {
            Some(i) => {
                let ghost ov = self.entries@;
                self.entries.remove(i);
                proof {
                    let nk = self.keys();
                    assert(nk =~= ok.remove(i as int));
                    assert forall|j: int| 0 <= j < nk.len() - 1 implies seq_lt(#[trigger] nk[j], nk[j + 1]) by {
                        if j + 1 < i {
                            assert(nk[j] == ok[j] && nk[j + 1] == ok[j + 1]);
                        } else if j + 1 == i {
                            assert(nk[j] == ok[j] && nk[j + 1] == ok[j + 2]);
                            crate::text::lemma_seq_lt_transitive(ok[j], ok[j + 1], ok[j + 2]);
                        } else {
                            assert(nk[j] == ok[j + 1] && nk[j + 1] == ok[j + 2]);
                        }
                    }
                }
            },
            None => {},
        }
    }

    /// Keeps the entries whose flag is set (flags in entry order).
    pub fn retain_flagged(&mut self, flags: &Vec<bool>)
        requires
            old(self).wf(),
            flags@.len() == old(self).entries@.len(),
        ensures
            final(self).wf(),
            final(self).entries@ == keep_flagged(old(self).entries@, flags@),
    {
        let mut rest: Vec<(String, V)> = Vec::new();
        std::mem::swap(&mut rest, &mut self.entries);
        let ghost ov = rest@;
        let n = rest.len();
        let mut j: usize = 0;
        assert(ov.skip(0) =~= ov);
        assert(keep_flagged(ov.take(0), flags@.take(0)) =~= Seq::<(String, V)>::empty());
        while j < n
            invariant
                j <= n,
                n == ov.len(),
                flags@.len() == n,
                rest@ == ov.skip(j as int),
                self.entries@ == keep_flagged(ov.take(j as int), flags@.take(j as int)),
            decreases n - j,
        {
            let e = rest.remove(0);
            proof {
                assert(ov.take(j + 1).drop_last() =~= ov.take(j as int));
                assert(flags@.take(j + 1).drop_last() =~= flags@.take(j as int));
                assert(ov.skip(j as int)[0] == ov[j as int]);
                assert(ov.skip(j as int).remove(0) =~= ov.skip(j + 1));
            }
            if flags[j] {
                self.entries.push(e);
            }
            j += 1;
        }
        assert(ov.take(n as int) =~= ov);
        assert(flags@.take(n as int) =~= flags@);
        proof {
            lemma_keep_sorted(ov, flags@);
        }
    }
}

proof fn lemma_keep_members<V>(e: Seq<(String, V)>, flags: Seq<bool>, t: (String, V))
    requires
        keep_flagged(e, flags).contains(t),
    ensures
        e.contains(t),
    decreases e.len(),
{
    if e.len() > 0 && flags.len() == e.len() {
        let k = keep_flagged(e.drop_last(), flags.drop_last());
        if flags.last() && t == e.last() {
            assert(e[e.len() - 1] == t);
        } else {
            if flags.last() {
                let i = choose|i: int| 0 <= i < k.push(e.last()).len() && k.push(e.last())[i] == t;
                assert(k[i] == t);
            }
            lemma_keep_members(e.drop_last(), flags.drop_last(), t);
            let i = choose|i: int| 0 <= i < e.drop_last().len() && e.drop_last()[i] == t;
            assert(e[i] == t);
        }
    }
}

/// With every flag set, every entry is kept.
pub proof fn lemma_keep_all<V>(e: Seq<(String, V)>, flags: Seq<bool>)
    requires
        flags.len() == e.len(),
        forall|i: int| 0 <= i < flags.len() ==> #[trigger] flags[i],
    ensures
        keep_flagged(e, flags) == e,
    decreases e.len(),
{
    if e.len() > 0 {
        let fd = flags.drop_last();
        assert forall|i: int| 0 <= i < fd.len() implies #[trigger] fd[i] by {
            assert(fd[i] == flags[i]);
        }
        lemma_keep_all(e.drop_last(), fd);
        assert(flags[flags.len() - 1]);
        assert(e.drop_last().push(e.last()) =~= e);
    }
}

/// Each kept entry is an entry of the list whose flag is set.
pub proof fn lemma_keep_flagged_index<V>(e: Seq<(String, V)>, flags: Seq<bool>, i: int)
    requires
        flags.len() == e.len(),
        0 <= i < keep_flagged(e, flags).len(),
    ensures
        exists|j: int| 0 <= j < e.len() && flags[j] && #[trigger] e[j] == keep_flagged(e, flags)[i],
    decreases e.len(),
{
    let d = e.drop_last();
    let fd = flags.drop_last();
    let k = keep_flagged(d, fd);
    if flags.last() && i == k.len() {
        assert(e[e.len() - 1] == keep_flagged(e, flags)[i]);
    } else {
        assert(keep_flagged(e, flags)[i] == k[i]);
        lemma_keep_flagged_index(d, fd, i);
        let j = choose|j: int| 0 <= j < d.len() && fd[j] && #[trigger] d[j] == k[i];
        assert(e[j] == d[j]);
        assert(flags[j] == fd[j]);
    }
}

proof fn lemma_sorted_pairs(s: Seq<Seq<char>>, i: int, j: int)
    requires
        strictly_sorted(s),
        0 <= i < j < s.len(),
    ensures
        seq_lt(s[i], s[j]),
    decreases j - i,
{
    if j > i + 1 {
        lemma_sorted_pairs(s, i, j - 1);
        assert(seq_lt(s[j - 1], s[j]));
        crate::text::lemma_seq_lt_transitive(s[i], s[j - 1], s[j]);
    }
}

/// Keeping some entries of a strictly sorted list keeps it strictly sorted.
proof fn lemma_keep_sorted<V>(e: Seq<(String, V)>, flags: Seq<bool>)
    requires
        strictly_sorted(entry_keys(e)),
        flags.len() == e.len(),
    ensures
        strictly_sorted(entry_keys(keep_flagged(e, flags))),
    decreases e.len(),
{
    if e.len() > 0 {
        let d = e.drop_last();
        let fd = flags.drop_last();
        assert(entry_keys(d) =~= entry_keys(e).drop_last());
        assert forall|i: int| 0 <= i < entry_keys(d).len() - 1 implies seq_lt(
            #[trigger] entry_keys(d)[i],
            entry_keys(d)[i + 1],
        ) by {
            assert(entry_keys(d)[i] == entry_keys(e)[i]);
            assert(entry_keys(d)[i + 1] == entry_keys(e)[i + 1]);
        }
        lemma_keep_sorted(d, fd);
        let k = keep_flagged(d, fd);
        if flags.last() {
            let nk = k.push(e.last());
            assert(keep_flagged(e, flags) == nk);
            if k.len() > 0 {
                assert(k.contains(k[k.len() - 1]));
                lemma_keep_members(d, fd, k[k.len() - 1]);
                let m = choose|m: int| 0 <= m < d.len() && d[m] == k[k.len() - 1];
                lemma_sorted_pairs(entry_keys(e), m, e.len() - 1);
            }
            assert forall|i: int| 0 <= i < entry_keys(nk).len() - 1 implies seq_lt(
                #[trigger] entry_keys(nk)[i],
                entry_keys(nk)[i + 1],
            ) by {
                if i + 1 < k.len() {
                    assert(entry_keys(nk)[i] == entry_keys(k)[i]);
                    assert(entry_keys(nk)[i + 1] == entry_keys(k)[i + 1]);
                }
            }
        }
    }
}

} // verus!

verus! {

/// A read after a write gives back what was written: after inserting
/// `(k, v)`, the entry named `k` is that pair.
pub proof fn law_insert_then_find<V>(before: StrMap<V>, after: StrMap<V>, k: String, v: V)
    requires
        before.wf(),
        after.wf(),
        find_key(before.keys(), k@) >= 0 ==> after.entries@ == before.entries@.update(find_key(before.keys(), k@), (k, v)),
        find_key(before.keys(), k@) == -1 ==> exists|p: int|
            0 <= p <= before.entries@.len() && after.entries@ == before.entries@.insert(p, (k, v)),
    ensures
        find_key(after.keys(), k@) >= 0,
        after.entries@[find_key(after.keys(), k@)] == (k, v),
{
    lemma_find_key(before.keys(), k@);
    lemma_find_key(after.keys(), k@);
    let i = find_key(before.keys(), k@);
    let p = if i >= 0 {
        i
    } else {
        choose|p: int| 0 <= p <= before.entries@.len() && after.entries@ == before.entries@.insert(p, (k, v))
    };
    assert(after.keys()[p] == k@);
    assert(after.keys().contains(k@));
    let j = find_key(after.keys(), k@);
    if j != p {
        lemma_unique_keys(after.keys(), j, p);
    }
}

/// Strictly sorted names never repeat.
pub proof fn lemma_unique_keys(keys: Seq<Seq<char>>, i: int, j: int)
    requires
        strictly_sorted(keys),
        0 <= i < keys.len(),
        0 <= j < keys.len(),
        i != j,
    ensures
        keys[i] != keys[j],
{
    if i < j {
        lemma_sorted_pairs(keys, i, j);
        lemma_seq_lt_trichotomy(keys[i], keys[j]);
    } else {
        lemma_sorted_pairs(keys, j, i);
        lemma_seq_lt_trichotomy(keys[j], keys[i]);
    }
}

/// The value of the entry named `k`, if any.
pub open spec fn lookup<V>(m: StrMap<V>, k: Seq<char>) -> Option<V> {
    if find_key(m.keys(), k) >= 0 {
        Some(m.entries@[find_key(m.keys(), k)].1)
    } else {
        None
    }
}

/// In a map whose names ascend, a name is found at its own position.
pub proof fn lemma_find_at<V>(m: StrMap<V>, j: int)
    requires
        m.wf(),
        0 <= j < m.entries@.len(),
    ensures
        find_key(m.keys(), m.keys()[j]) == j,
{
    let ks = m.keys();
    assert(ks.contains(ks[j]));
    lemma_find_key(ks, ks[j]);
    let f = find_key(ks, ks[j]);
    if f != j {
        lemma_unique_keys(ks, f, j);
    }
}

/// A write to one name leaves every other name as it was.
pub proof fn law_insert_keeps_others<V>(before: StrMap<V>, after: StrMap<V>, k: String, v: V, other: Seq<char>)
    requires
        before.wf(),
        after.wf(),
        find_key(before.keys(), k@) >= 0 ==> after.entries@ == before.entries@.update(find_key(before.keys(), k@), (k, v)),
        find_key(before.keys(), k@) == -1 ==> exists|p: int|
            0 <= p <= before.entries@.len() && after.entries@ == before.entries@.insert(p, (k, v)),
        other != k@,
    ensures
        lookup(after, other) == lookup(before, other),
{
    let bk = before.keys();
    let ak = after.keys();
    lemma_find_key(bk, other);
    lemma_find_key(ak, other);
    lemma_find_key(bk, k@);
    let i = find_key(bk, k@);
    let j = find_key(bk, other);
    if i >= 0 {
        assert(ak =~= bk);
        if j >= 0 {
            assert(j != i);
            assert(after.entries@[j] == before.entries@[j]);
        }
    } else {
        let p = choose|p: int| 0 <= p <= before.entries@.len() && after.entries@ == before.entries@.insert(p, (k, v));
        assert(ak =~= bk.insert(p, k@));
        if j >= 0 {
            let j2 = if j < p { j } else { j + 1 };
            assert(ak[j2] == other);
            lemma_find_at(after, j2);
            assert(after.entries@[j2] == before.entries@[j]);
        } else {
            if ak.contains(other) {
                let t = choose|t: int| 0 <= t < ak.len() && ak[t] == other;
                if t < p {
                    assert(bk[t] == other);
                } else if t > p {
                    assert(bk[t - 1] == other);
                }
                assert(bk.contains(other));
            }
        }
    }
}

} // verus!
