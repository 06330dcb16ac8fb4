//! Signature deduplication against a watermark.
//!
//! The upstream source delivers recent transaction signatures newest-first.
//! `new_since` returns the signatures that appear strictly before the first
//! occurrence of the watermark, reordered oldest-to-newest, so that a caller
//! can process them in chronological order. `advance_watermark` moves the
//! watermark to the newest attempted signature.

use vstd::prelude::*;

verus! {

/// Whether signature `s` is the one the watermark `w` marks.
/// An absent watermark marks nothing.
pub open spec fn matches_mark(s: String, w: Option<String>) -> bool {
    match w {
        Some(ws) => s@ == ws@,
        None => false,
    }
}

/// Index of the first entry of `l` equal to the watermark, or `l.len()`
/// if the watermark is absent or does not occur.
pub open spec fn first_mark_idx(l: Seq<String>, w: Option<String>) -> int
    decreases l.len(),
{
    if l.len() == 0 {
        0
    } else if matches_mark(l[0], w) {
        0
    } else {
        1 + first_mark_idx(l.drop_first(), w)
    }
}

/// The new signatures in a newest-first page `l` relative to watermark `w`:
/// the prefix of `l` before the first occurrence of `w` (all of `l` when `w`
/// is absent or not found), reversed into oldest-to-newest order.
pub open spec fn spec_new_since(l: Seq<String>, w: Option<String>) -> Seq<String> {
    l.take(first_mark_idx(l, w)).reverse()
}

/// The watermark after a cycle that attempted `a` (oldest-to-newest):
/// the newest attempted signature, or the old watermark when nothing was new.
pub open spec fn spec_advance(w: Option<String>, a: Seq<String>) -> Option<String> {
    if a.len() == 0 {
        w
    } else {
        Some(a.last())
    }
}

proof fn lemma_first_mark_idx_bounds(l: Seq<String>, w: Option<String>)
    ensures
        0 <= first_mark_idx(l, w) <= l.len(),
    decreases l.len(),
{
    if l.len() != 0 && !matches_mark(l[0], w) {
        lemma_first_mark_idx_bounds(l.drop_first(), w);
    }
}

/// A scan that saw no mark through index `i` pins `first_mark_idx` below at `i`
/// and above when the mark stands at `i`.
proof fn lemma_first_mark_idx_from_scan(l: Seq<String>, w: Option<String>, i: int)
    requires
        0 <= i <= l.len(),
        forall|k: int| 0 <= k < i ==> !matches_mark(l[k], w),
        i < l.len() ==> matches_mark(l[i], w),
    ensures
        first_mark_idx(l, w) == i,
    decreases l.len(),
{
    if l.len() == 0 {
    } else if matches_mark(l[0], w) {
        assert(i == 0);
    } else {
        assert(i >= 1);
        let tail = l.drop_first();
        assert(forall|k: int| 0 <= k < i - 1 ==> tail[k] == l[k + 1]);
        lemma_first_mark_idx_from_scan(tail, w, i - 1);
    }
}

/// No entry before the first occurrence of the watermark equals it: the
/// signatures reported as new never include the watermark itself.
pub proof fn lemma_prefix_free_of_mark(l: Seq<String>, w: Option<String>)
    ensures
        forall|k: int|
            0 <= k < first_mark_idx(l, w) ==> !matches_mark(l[k], w),
    decreases l.len(),
{
    if l.len() != 0 && !matches_mark(l[0], w) {
        let tail = l.drop_first();
        lemma_prefix_free_of_mark(tail, w);
        lemma_first_mark_idx_bounds(tail, w);
        assert forall|k: int| 0 <= k < first_mark_idx(l, w) implies !matches_mark(l[k], w) by {
            if k >= 1 {
                assert(tail[k - 1] == l[k]);
            }
        }
    }
}

/// Every signature reported as new comes from the page, and the report is the
/// reversed prefix of the page that stands before the watermark.
pub proof fn lemma_new_since_subsequence(l: Seq<String>, w: Option<String>)
    ensures
        spec_new_since(l, w).len() == first_mark_idx(l, w),
        forall|k: int|
            0 <= k < spec_new_since(l, w).len() ==> spec_new_since(l, w)[k] == l[
                first_mark_idx(l, w) - 1 - k
            ],
        forall|k: int|
            0 <= k < spec_new_since(l, w).len() ==> l.contains(spec_new_since(l, w)[k]),
{
    lemma_first_mark_idx_bounds(l, w);
    let idx = first_mark_idx(l, w);
    let p = l.take(idx);
    assert forall|k: int| 0 <= k < spec_new_since(l, w).len() implies l.contains(
        spec_new_since(l, w)[k],
    ) by {
        assert(spec_new_since(l, w)[k] == p[idx - 1 - k]);
        assert(p[idx - 1 - k] == l[idx - 1 - k]);
    }
}

/// The signatures reported as new never include the current watermark: once a
/// signature becomes the watermark it is never reported again from a page, so
/// it is never re-submitted for detection.
pub proof fn lemma_new_since_excludes_watermark(l: Seq<String>, ws: String)
    ensures
        forall|k: int|
            0 <= k < spec_new_since(l, Some(ws)).len() ==> spec_new_since(l, Some(ws))[k]@ != ws@,
{
    lemma_new_since_subsequence(l, Some(ws));
    lemma_prefix_free_of_mark(l, Some(ws));
    assert forall|k: int| 0 <= k < spec_new_since(l, Some(ws)).len() implies spec_new_since(
        l,
        Some(ws),
    )[k]@ != ws@ by {
        let idx = first_mark_idx(l, Some(ws));
        assert(spec_new_since(l, Some(ws))[k] == l[idx - 1 - k]);
        assert(!matches_mark(l[idx - 1 - k], Some(ws)));
    }
}

/// Determinism: the signatures reported as new are a function of the page and
/// the watermark alone; two computations on the same inputs agree.
pub proof fn lemma_new_since_idempotent(
    l: Seq<String>,
    w: Option<String>,
    r1: Seq<String>,
    r2: Seq<String>,
)
    requires
        r1 == spec_new_since(l, w),
        r2 == spec_new_since(l, w),
    ensures
        r1 == r2,
{
}

/// Monotonic watermark: a cycle over a non-empty page always leaves the
/// watermark at the page's newest signature, whether or not anything new
/// was reported.
pub proof fn lemma_cycle_watermark(l: Seq<String>, w: Option<String>)
    requires
        l.len() > 0,
    ensures
        spec_advance(w, spec_new_since(l, w)) is Some,
        spec_advance(w, spec_new_since(l, w))->Some_0@ == l[0]@,
{
    lemma_first_mark_idx_bounds(l, w);
    lemma_new_since_subsequence(l, w);
    let idx = first_mark_idx(l, w);
    let r = spec_new_since(l, w);
    if idx == 0 {
        lemma_first_mark_idx_bounds(l.drop_first(), w);
        assert(matches_mark(l[0], w));
    } else {
        assert(r.last() == l[idx - 1 - (idx - 1)]);
    }
}

/// One full cycle's effect on the watermark: compute the new signatures of
/// page `l` and advance to the newest attempted one.
pub open spec fn spec_cycle(w: Option<String>, l: Seq<String>) -> Option<String> {
    spec_advance(w, spec_new_since(l, w))
}

/// The watermark after consecutive cycles over the pages `pages`, in order,
/// starting from watermark `w`.
pub open spec fn run_cycles(w: Option<String>, pages: Seq<Seq<String>>) -> Option<String>
    decreases pages.len(),
{
    if pages.len() == 0 {
        w
    } else {
        run_cycles(spec_cycle(w, pages[0]), pages.drop_first())
    }
}

/// Monotonic watermark: after any number of consecutive cycles over
/// non-empty pages, the watermark equals the newest signature of the last
/// page fetched — the newest signature seen, since each page is delivered
/// newest-first and later pages are newer.
pub proof fn lemma_run_cycles_watermark(w: Option<String>, pages: Seq<Seq<String>>)
    requires
        pages.len() > 0,
        forall|k: int| 0 <= k < pages.len() ==> pages[k].len() > 0,
    ensures
        run_cycles(w, pages) is Some,
        run_cycles(w, pages)->Some_0@ == pages.last()[0]@,
    decreases pages.len(),
{
    lemma_cycle_watermark(pages[0], w);
    if pages.len() == 1 {
        reveal_with_fuel(run_cycles, 2);
        assert(pages.last() == pages[0]);
    } else {
        let rest = pages.drop_first();
        assert(forall|k: int| 0 <= k < rest.len() ==> rest[k] == pages[k + 1]);
        lemma_run_cycles_watermark(spec_cycle(w, pages[0]), rest);
        assert(rest.last() == pages.last());
    }
}

/// The signatures of a newest-first page `list` that are new relative to
/// `watermark`, in oldest-to-newest order: the entries before the first
/// occurrence of the watermark, reversed. When the watermark is absent or
/// does not occur, the whole page counts as new.
pub fn new_since(list: &Vec<String>, watermark: &Option<String>) -> (r: Vec<String>)
    ensures
        r@ == spec_new_since(list@, *watermark),
{
    let ghost gl = list@;
    let ghost gw = *watermark;
    let mut collected: Vec<String> = Vec::new();
    let mut i: usize = 0;
    let mut hit: bool = false;
    while i < list.len() && !hit
        invariant
            0 <= i <= gl.len(),
            gl == list@,
            gw == *watermark,
            forall|k: int| 0 <= k < i ==> !matches_mark(gl[k], gw),
            collected@ == gl.take(i as int),
            hit ==> i < gl.len() && matches_mark(gl[i as int], gw),
        decreases gl.len() - i, if hit { 0int } else { 1int },
    {
        let entry = &list[i];
        let is_mark = match watermark {
            Some(ws) => entry.eq(ws),
            None => false,
        };
        if is_mark {
            hit = true;
        } else {
            collected.push(entry.clone());
            assert(collected@ =~= gl.take(i as int + 1));
            i = i + 1;
        }
    }
    proof {
        lemma_first_mark_idx_from_scan(gl, gw, i as int);
    }
    let ghost idx: int = first_mark_idx(gl, gw);
    // Reverse into oldest-to-newest order.
    let mut out: Vec<String> = Vec::new();
    let mut j: usize = collected.len();
    while j > 0
        invariant
            0 <= j <= collected@.len(),
            collected@ == gl.take(idx),
            out@.len() == collected@.len() - j,
            forall|k: int|
                0 <= k < out@.len() ==> out@[k] == collected@[collected@.len() - 1 - k],
        decreases j,
    {
        j = j - 1;
        out.push(collected[j].clone());
    }
    proof {
        lemma_first_mark_idx_bounds(gl, gw);
        assert(out@ =~= gl.take(idx).reverse());
    }
    out
}

/// The watermark after a cycle that attempted the signatures `attempted`
/// (oldest-to-newest): the newest attempted signature, or `current` unchanged
/// when nothing was attempted. The watermark never skips backward within a
/// cycle: it moves only to the last attempted entry.
pub fn advance_watermark(current: Option<String>, attempted: &Vec<String>) -> (r: Option<String>)
    ensures
        r == spec_advance(current, attempted@),
{
    if attempted.len() == 0 {
        current
    } else {
        Some(attempted[attempted.len() - 1].clone())
    }
}

} // verus!
