//! The long-term memory block of the system prompt: headed sections by kind,
//! one line per knot, cut off at a character budget.
use vstd::prelude::*;
use crate::memory::types::{KnotConfidence, KnotKind, TaskStatus};
use crate::text::{contains_str, push_all, push_str, to_string};

verus! {

/// Appended to the baseline block when the model can search memory itself.
pub const BASELINE_SEARCH_HINT: &'static str =
    "\n\nFor tasks, decisions, procedures, and other long-term memory not listed above, use the memory_search tool with keywords.";

/// What the memory block shows of a knot.
#[derive(Debug, Clone, PartialEq, Eq)]
pub struct KnotText {
    pub id: i64,
    pub kind: KnotKind,
    pub content: String,
    pub confidence: KnotConfidence,
    pub task_status: Option<TaskStatus>,
}

/// The injected block and the ids of the knots it was selected from.
#[derive(Debug, Clone, PartialEq, Eq)]
pub struct InjectResult {
    pub block: String,
    pub injected_ids: Vec<i64>,
}

pub open spec fn confidence_tag_spec(c: KnotConfidence) -> Seq<char> {
    match c {
        KnotConfidence::Confirmed => "confirmed"@,
        KnotConfidence::Inferred => "inferred"@,
        KnotConfidence::Dream => "unverified"@,
    }
}

pub fn confidence_tag(c: KnotConfidence) -> (r: &'static str)
    ensures
        r@ == confidence_tag_spec(c),
{
    match c {
        KnotConfidence::Confirmed => "confirmed",
        KnotConfidence::Inferred => "inferred",
        KnotConfidence::Dream => "unverified",
    }
}

pub open spec fn section_heading_spec(k: KnotKind) -> Seq<char> {
    match k {
        KnotKind::Preference => "### Preferences"@,
        KnotKind::Fact => "### Facts"@,
        KnotKind::Task => "### Tasks"@,
        KnotKind::Decision => "### Decisions"@,
        KnotKind::Procedure => "### Procedures"@,
    }
}

pub fn section_heading(k: KnotKind) -> (r: &'static str)
    ensures
        r@ == section_heading_spec(k),
{
    match k {
        KnotKind::Preference => "### Preferences",
        KnotKind::Fact => "### Facts",
        KnotKind::Task => "### Tasks",
        KnotKind::Decision => "### Decisions",
        KnotKind::Procedure => "### Procedures",
    }
}

/// Ranking of kinds in the prompt: preferences first, procedures last.
pub open spec fn kind_rank_spec(k: KnotKind) -> u8 {
    match k {
        KnotKind::Preference => 5,
        KnotKind::Fact => 4,
        KnotKind::Task => 3,
        KnotKind::Decision => 2,
        KnotKind::Procedure => 1,
    }
}

pub fn kind_rank(k: KnotKind) -> (r: u8)
    ensures
        r == kind_rank_spec(k),
{
    match k {
        KnotKind::Preference => 5,
        KnotKind::Fact => 4,
        KnotKind::Task => 3,
        KnotKind::Decision => 2,
        KnotKind::Procedure => 1,
    }
}

/// 1 for an open task, else 0.
pub fn task_open_rank(k: &KnotText) -> (r: u8)
    ensures
        r == (if k.kind == KnotKind::Task && k.task_status == Some(TaskStatus::Open) { 1u8 } else { 0u8 }),
{
    if k.kind == KnotKind::Task && k.task_status == Some(TaskStatus::Open) {
        1
    } else {
        0
    }
}

/// Preferences and facts are injected whatever the query.
pub fn always_include_kind(k: KnotKind) -> (r: bool)
    ensures
        r == (k == KnotKind::Preference || k == KnotKind::Fact),
{
    k == KnotKind::Preference || k == KnotKind::Fact
}

/// Whether a knot is kept for a query with these keywords: always when there
/// are none, else when it is a preference or fact or its content holds one of them.
pub fn matches_keywords(k: &KnotText, keywords: &Vec<String>) -> (r: bool)
    ensures
        r == (keywords@.len() == 0 || k.kind == KnotKind::Preference || k.kind == KnotKind::Fact
            || exists|i: int| 0 <= i < keywords@.len()
                && crate::text::contains_spec(k.content@, #[trigger] keywords@[i]@)),
{
    if keywords.len() == 0 || always_include_kind(k.kind) {
        return true;
    }
    let content = crate::text::chars_of(k.content.as_str());
    let mut i: usize = 0;
    while i < keywords.len()
        invariant
            i <= keywords.len(),
            content@ == k.content@,
            forall|j: int| 0 <= j < i ==> !crate::text::contains_spec(k.content@, #[trigger] keywords@[j]@),
        decreases keywords.len() - i,
    {
        if contains_str(&content, keywords[i].as_str()) {
            return true;
        }
        i += 1;
    }
    false
}

/// One knot's line: open tasks get `[ ]`, finished ones `[x]`.
pub open spec fn knot_line_spec(k: KnotText) -> Seq<char> {
    let tail = " ("@ + confidence_tag_spec(k.confidence) + ")\n"@;
    if k.kind == KnotKind::Task && k.task_status == Some(TaskStatus::Open) {
        "- [ ] "@ + k.content@ + tail
    } else if k.kind == KnotKind::Task && k.task_status == Some(TaskStatus::Done) {
        "- [x] "@ + k.content@ + tail
    } else {
        "- "@ + k.content@ + tail
    }
}

pub fn format_knot_line(k: &KnotText) -> (r: Vec<char>)
    ensures
        r@ == knot_line_spec(*k),
{
    let mut out: Vec<char> = Vec::new();
    if k.kind == KnotKind::Task && k.task_status == Some(TaskStatus::Open) {
        push_str(&mut out, "- [ ] ");
    } else if k.kind == KnotKind::Task && k.task_status == Some(TaskStatus::Done) {
        push_str(&mut out, "- [x] ");
    } else {
        push_str(&mut out, "- ");
    }
    push_str(&mut out, k.content.as_str());
    push_str(&mut out, " (");
    push_str(&mut out, confidence_tag(k.confidence));
    push_str(&mut out, ")\n");
    assert(out@ =~= knot_line_spec(*k));
    out
}

/// Lines of the first `n` knots of kind `kind`, in order.
pub open spec fn kind_lines(knots: Seq<KnotText>, kind: KnotKind, n: int) -> Seq<Seq<char>>
    decreases n,
{
    if n <= 0 || n > knots.len() {
        seq![]
    } else if knots[n - 1].kind == kind {
        kind_lines(knots, kind, n - 1).push(knot_line_spec(knots[n - 1]))
    } else {
        kind_lines(knots, kind, n - 1)
    }
}

/// A kind's section: its heading line, then its knots; nothing when it has none.
pub open spec fn section_pieces(knots: Seq<KnotText>, kind: KnotKind) -> Seq<Seq<char>> {
    let lines = kind_lines(knots, kind, knots.len() as int);
    if lines.len() == 0 {
        seq![]
    } else {
        seq![seq!['\n'] + section_heading_spec(kind) + seq!['\n']] + lines
    }
}

/// The sections of the given kinds, in that order, as a list of pieces.
pub open spec fn block_pieces(knots: Seq<KnotText>, kinds: Seq<KnotKind>) -> Seq<Seq<char>>
    decreases kinds.len(),
{
    if kinds.len() == 0 {
        seq![]
    } else {
        block_pieces(knots, kinds.drop_last()) + section_pieces(knots, kinds.last())
    }
}

/// Pieces in order while each still fits the budget (counting `used` already
/// spent); everything from the first that does not fit is dropped.
pub open spec fn fill(used: int, max: int, ps: Seq<Seq<char>>) -> Seq<char>
    decreases ps.len(),
{
    if ps.len() == 0 || used + ps[0].len() > max {
        seq![]
    } else {
        ps[0] + fill(used + ps[0].len(), max, ps.drop_first())
    }
}

/// The block: nothing without knots, else the intro and as many pieces as fit
/// in `max` characters in all.
pub open spec fn block_spec(intro: Seq<char>, knots: Seq<KnotText>, kinds: Seq<KnotKind>, max: int) -> Seq<char> {
    if knots.len() == 0 {
        seq![]
    } else {
        intro + fill(intro.len() as int, max, block_pieces(knots, kinds))
    }
}

fn section_lines(knots: &Vec<KnotText>, kind: KnotKind) -> (r: Vec<Vec<char>>)
    ensures
        r@.len() == kind_lines(knots@, kind, knots@.len() as int).len(),
        forall|i: int| 0 <= i < r@.len() ==> #[trigger] r@[i]@ == kind_lines(knots@, kind, knots@.len() as int)[i],
{
    let mut r: Vec<Vec<char>> = Vec::new();
    let mut i: usize = 0;
    while i < knots.len()
        invariant
            i <= knots.len(),
            r@.len() == kind_lines(knots@, kind, i as int).len(),
            forall|j: int| 0 <= j < r@.len() ==> #[trigger] r@[j]@ == kind_lines(knots@, kind, i as int)[j],
        decreases knots.len() - i,
    {
        if knots[i].kind == kind {
            let line = format_knot_line(&knots[i]);
            r.push(line);
        }
        i += 1;
    }
    r
}

/// The pieces of the sections of `kinds`, in order.
fn collect_pieces(knots: &Vec<KnotText>, kinds: &Vec<KnotKind>) -> (r: Vec<Vec<char>>)
    ensures
        r@.len() == block_pieces(knots@, kinds@).len(),
        forall|i: int| 0 <= i < r@.len() ==> #[trigger] r@[i]@ == block_pieces(knots@, kinds@)[i],
{
    let mut r: Vec<Vec<char>> = Vec::new();
    let mut k: usize = 0;
    while k < kinds.len()
        invariant
            k <= kinds.len(),
            r@.len() == block_pieces(knots@, kinds@.subrange(0, k as int)).len(),
            forall|i: int| 0 <= i < r@.len() ==> #[trigger] r@[i]@ == block_pieces(knots@, kinds@.subrange(0, k as int))[i],
        decreases kinds.len() - k,
    {
        let ghost before = r@;
        let kind = kinds[k];
        let lines = section_lines(knots, kind);
        if lines.len() > 0 {
            let mut header: Vec<char> = Vec::new();
            header.push('\n');
            push_str(&mut header, section_heading(kind));
            header.push('\n');
            r.push(header);
            let mut j: usize = 0;
            while j < lines.len()
                invariant
                    j <= lines.len(),
                    r@.len() == before.len() + 1 + j,
                    r@.subrange(0, before.len() as int) == before,
                    r@[before.len() as int]@ == seq!['\n'] + section_heading_spec(kind) + seq!['\n'],
                    forall|i: int| 0 <= i < j ==> #[trigger] r@[before.len() + 1 + i]@ == lines@[i]@,
                decreases lines.len() - j,
            {
                let l = lines[j].clone();
                r.push(l);
                j += 1;
            }
        }
        proof {
            let pre = kinds@.subrange(0, k as int);
            let next = kinds@.subrange(0, k + 1);
            assert(next.drop_last() =~= pre);
            assert(next.last() == kind);
            let sp = section_pieces(knots@, kind);
            assert(block_pieces(knots@, next) == block_pieces(knots@, pre) + sp);
            assert forall|i: int| 0 <= i < r@.len() implies #[trigger] r@[i]@ == block_pieces(knots@, next)[i] by {
                if i >= before.len() {
                    if i > before.len() {
                        assert(r@[before.len() + 1 + (i - before.len() - 1)] == r@[i]);
                    }
                } else {
                    assert(r@.subrange(0, before.len() as int)[i] == r@[i]);
                }
            }
        }
        k += 1;
    }
    assert(kinds@.subrange(0, kinds@.len() as int) =~= kinds@);
    r
}

/// Intro, then sections of `kinds` piece by piece while they fit in `max_chars`.
fn format_block(intro: &str, knots: &Vec<KnotText>, kinds: &Vec<KnotKind>, max_chars: usize) -> (r: String)
    ensures
        r@ == block_spec(intro@, knots@, kinds@, max_chars as int),
{
    if knots.len() == 0 {
        return String::new();
    }
    let pieces = collect_pieces(knots, kinds);
    let ghost ps = block_pieces(knots@, kinds@);
    let mut out: Vec<char> = Vec::new();
    push_str(&mut out, intro);
    let mut used: usize = out.len();
    let mut i: usize = 0;
    assert(ps.subrange(0, ps.len() as int) =~= ps);
    while i < pieces.len()
        invariant
            i <= pieces.len(),
            pieces@.len() == ps.len(),
            knots@.len() > 0,
            ps == block_pieces(knots@, kinds@),
            forall|j: int| 0 <= j < pieces@.len() ==> #[trigger] pieces@[j]@ == ps[j],
            used == out@.len(),
            used <= max_chars || i == 0,
            intro@ + fill(intro@.len() as int, max_chars as int, ps)
                == out@ + fill(used as int, max_chars as int, ps.subrange(i as int, ps.len() as int)),
        decreases pieces.len() - i,
    {
        let p = &pieces[i];
        let ghost rest = ps.subrange(i as int, ps.len() as int);
        assert(rest[0] == ps[i as int]);
        assert(rest.drop_first() =~= ps.subrange(i + 1, ps.len() as int));
        if p.len() > max_chars || used > max_chars - p.len() {
            assert(fill(used as int, max_chars as int, rest) == Seq::<char>::empty());
            assert(out@ + Seq::<char>::empty() =~= out@);
            assert(intro@ + fill(intro@.len() as int, max_chars as int, ps) == out@);
            assert(knots@.len() > 0);
            assert(block_spec(intro@, knots@, kinds@, max_chars as int) == out@);
            return to_string(&out);
        }
        push_all(&mut out, p);
        used = used + p.len();
        assert(out@ + fill(used as int, max_chars as int, ps.subrange(i + 1, ps.len() as int))
            =~= (out@.subrange(0, out@.len() - p@.len()) + (p@ + fill(used as int, max_chars as int, ps.subrange(i + 1, ps.len() as int)))));
        i += 1;
    }
    assert(ps.subrange(ps.len() as int, ps.len() as int) =~= Seq::<Seq<char>>::empty());
    assert(out@ + Seq::<char>::empty() =~= out@);
    to_string(&out)
}

proof fn lemma_fill_within(used: int, max: int, ps: Seq<Seq<char>>)
    requires
        used <= max,
    ensures
        used + fill(used, max, ps).len() <= max,
    decreases ps.len(),
{
    if ps.len() > 0 && used + ps[0].len() <= max {
        lemma_fill_within(used + ps[0].len(), max, ps.drop_first());
    }
}

/// The memory block never exceeds its character budget once the intro fits in it.
pub proof fn law_memory_block_within_budget(
    intro: Seq<char>,
    knots: Seq<KnotText>,
    kinds: Seq<KnotKind>,
    max: int,
)
    requires
        intro.len() <= max,
    ensures
        block_spec(intro, knots, kinds, max).len() <= max,
{
    if knots.len() > 0 {
        lemma_fill_within(intro.len() as int, max, block_pieces(knots, kinds));
    }
}

pub open spec fn full_kinds() -> Seq<KnotKind> {
    seq![KnotKind::Preference, KnotKind::Fact, KnotKind::Task, KnotKind::Decision, KnotKind::Procedure]
}

pub open spec fn baseline_kinds() -> Seq<KnotKind> {
    seq![KnotKind::Preference, KnotKind::Fact]
}

pub open spec fn full_intro() -> Seq<char> {
    "## Long-term memory\n\nFacts about the user from prior sessions. If anything conflicts with the current conversation, prefer the conversation; ask when unsure.\n"@
}

pub open spec fn baseline_intro() -> Seq<char> {
    "## Long-term memory (baseline)\n\nStable preferences and facts about the user. If anything conflicts with the current conversation, prefer the conversation.\n"@
}

/// The full memory block: all five kinds, preferences first.
pub fn format_full_block(knots: &Vec<KnotText>, max_chars: usize) -> (r: String)
    ensures
        r@ == block_spec(full_intro(), knots@, full_kinds(), max_chars as int),
{
    let kinds = vec![KnotKind::Preference, KnotKind::Fact, KnotKind::Task, KnotKind::Decision, KnotKind::Procedure];
    assert(kinds@ =~= full_kinds());
    format_block(
        "## Long-term memory\n\nFacts about the user from prior sessions. If anything conflicts with the current conversation, prefer the conversation; ask when unsure.\n",
        knots,
        &kinds,
        max_chars,
    )
}

/// The baseline memory block: preferences and facts only.
pub fn format_baseline_block(knots: &Vec<KnotText>, max_chars: usize) -> (r: String)
    ensures
        r@ == block_spec(baseline_intro(), knots@, baseline_kinds(), max_chars as int),
{
    let kinds = vec![KnotKind::Preference, KnotKind::Fact];
    assert(kinds@ =~= baseline_kinds());
    format_block(
        "## Long-term memory (baseline)\n\nStable preferences and facts about the user. If anything conflicts with the current conversation, prefer the conversation.\n",
        knots,
        &kinds,
        max_chars,
    )
}

/// The injection for knots already selected and ranked: in baseline mode
/// (search on and baseline only) the baseline block within its budget and the
/// search hint, else the full block within the full budget.
pub fn build_injection(
    selected: &Vec<KnotText>,
    memory_search_enabled: bool,
    inject_baseline_only: bool,
    max_inject_chars: usize,
    inject_baseline_max_chars: usize,
) -> (r: InjectResult)
    ensures
        r.block@ == if memory_search_enabled && inject_baseline_only {
            block_spec(baseline_intro(), selected@, baseline_kinds(), inject_baseline_max_chars as int)
                + BASELINE_SEARCH_HINT@
        } else {
            block_spec(full_intro(), selected@, full_kinds(), max_inject_chars as int)
        },
        r.injected_ids@.len() == selected@.len(),
        forall|i: int| 0 <= i < selected@.len() ==> #[trigger] r.injected_ids@[i] == selected@[i].id,
{
    let baseline_mode = memory_search_enabled && inject_baseline_only;
    let block = if baseline_mode {
        let b = format_baseline_block(selected, inject_baseline_max_chars);
        let mut v = crate::text::chars_of(b.as_str());
        push_str(&mut v, BASELINE_SEARCH_HINT);
        to_string(&v)
    } else {
        format_full_block(selected, max_inject_chars)
    };
    let mut ids: Vec<i64> = Vec::new();
    let mut i: usize = 0;
    while i < selected.len()
        invariant
            i <= selected.len(),
            ids@.len() == i,
            forall|j: int| 0 <= j < i ==> #[trigger] ids@[j] == selected@[j].id,
        decreases selected.len() - i,
    {
        ids.push(selected[i].id);
        i += 1;
    }
    InjectResult { block, injected_ids: ids }
}

} // verus!
