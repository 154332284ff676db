//! The frame of an observability summary: the window it covers, the time
//! buckets of its series, and which routes and queries it ranks first.
use vstd::prelude::*;
use crate::observability::RangeSpec;
use crate::usage_reporting::saturate_i64;

verus! {

/// The window, resolution and scope of a summary generated at some instant.
#[derive(Clone, Copy, Debug, PartialEq, Eq, Structural)]
pub struct SummaryFrame {
    pub window_start_ms: i64,
    pub window_end_ms: i64,
    pub resolution_seconds: u32,
    /// The summary is of one project rather than of the whole instance.
    pub project_scope: bool,
}

/// A summary generated at `now_ms` ends then and reaches back over the
/// range's window (saturating); its resolution is given in whole seconds,
/// truncated toward zero, where that fits in `u32`, and `u32::MAX` where not.
pub open spec fn frame_of(now_ms: i64, range: RangeSpec, project_scope: bool) -> SummaryFrame {
    SummaryFrame {
        window_start_ms: saturate_i64(now_ms - range.window_ms),
        window_end_ms: now_ms,
        resolution_seconds: if range.resolution_ms <= -1_000 {
            u32::MAX
        } else if range.resolution_ms < 0 {
            0
        } else if range.resolution_ms / 1_000 > u32::MAX {
            u32::MAX
        } else {
            (range.resolution_ms / 1_000) as u32
        },
        project_scope,
    }
}

/// Frames a summary (see `frame_of`).
pub fn summary_frame(now_ms: i64, range: RangeSpec, project_scope: bool) -> (r: SummaryFrame)
    ensures
        r == frame_of(now_ms, range, project_scope),
{
    let window_start_ms = match now_ms.checked_sub(range.window_ms) {
        Some(v) => v,
        None => {
            if range.window_ms > 0 {
                i64::MIN
            } else {
                i64::MAX
            }
        },
    };
    let resolution_seconds = if range.resolution_ms <= -1_000 {
        u32::MAX
    } else if range.resolution_ms < 0 {
        0
    } else if range.resolution_ms / 1_000 > u32::MAX as i64 {
        u32::MAX
    } else {
        (range.resolution_ms / 1_000) as u32
    };
    SummaryFrame { window_start_ms, window_end_ms: now_ms, resolution_seconds, project_scope }
}

/// The name of a summary's scope.
pub fn scope_name(frame: &SummaryFrame) -> (r: &'static str)
    ensures
        r@ == (if frame.project_scope {
            "project"@
        } else {
            "instance"@
        }),
{
    if frame.project_scope {
        "project"
    } else {
        "instance"
    }
}

/// The start of the bucket of resolution `resolution_ms` that `t` falls in.
pub open spec fn bucket_floor(t: i64, resolution_ms: i64) -> int {
    t - t % resolution_ms
}

/// The start of every bucket from the one holding `start` through the one
/// holding `end`, one resolution apart. Left out are bucket starts outside
/// `i64` and a last bucket starting at `i64::MAX`, after which the series
/// would not end.
pub fn series_buckets(window_start_ms: i64, window_end_ms: i64, resolution_ms: i64) -> (r: Vec<i64>)
    requires
        resolution_ms > 0,
        bucket_floor(window_start_ms, resolution_ms) >= i64::MIN,
        i64::MIN <= bucket_floor(window_end_ms, resolution_ms) < i64::MAX,
    ensures
        bucket_floor(window_start_ms, resolution_ms) > bucket_floor(window_end_ms, resolution_ms)
            ==> r@.len() == 0,
        bucket_floor(window_start_ms, resolution_ms) <= bucket_floor(window_end_ms, resolution_ms)
            ==> {
            &&& r@.len() > 0
            &&& r@[0] == bucket_floor(window_start_ms, resolution_ms)
            &&& r@.last() == bucket_floor(window_end_ms, resolution_ms)
        },
        forall|k: int| 0 <= k < r@.len() - 1 ==> #[trigger] r@[k + 1] == r@[k] + resolution_ms,
{
    let start_rem = match window_start_ms.checked_rem_euclid(resolution_ms) {
        Some(v) => v,
        None => 0,
    };
    let end_rem = match window_end_ms.checked_rem_euclid(resolution_ms) {
        Some(v) => v,
        None => 0,
    };
    let first = window_start_ms - start_rem;
    let last = window_end_ms - end_rem;
    proof {
        assert(first % resolution_ms == 0) by (nonlinear_arith)
            requires
                first == window_start_ms - window_start_ms % resolution_ms,
                resolution_ms > 0,
        ;
        assert(last % resolution_ms == 0) by (nonlinear_arith)
            requires
                last == window_end_ms - window_end_ms % resolution_ms,
                resolution_ms > 0,
        ;
    }
    let mut out: Vec<i64> = Vec::new();
    if first > last {
        return out;
    }
    let mut bucket = first;
    while bucket < last
        invariant
            resolution_ms > 0,
            first == bucket_floor(window_start_ms, resolution_ms),
            last == bucket_floor(window_end_ms, resolution_ms),
            first <= bucket <= last,
            last % resolution_ms == 0,
            bucket % resolution_ms == 0,
            out@.len() == 0 ==> bucket == first,
            out@.len() > 0 ==> out@[0] == first && bucket == out@.last() + resolution_ms,
            forall|k: int| 0 <= k < out@.len() - 1 ==> #[trigger] out@[k + 1] == out@[k] + resolution_ms,
        decreases last - bucket,
    {
        let ghost before = out@;
        out.push(bucket);
        proof {
            assert forall|k: int| 0 <= k < out@.len() - 1 implies #[trigger] out@[k + 1] == out@[k]
                + resolution_ms by {
                if k < before.len() - 1 {
                    assert(out@[k + 1] == before[k + 1] && out@[k] == before[k]);
                }
            }
            assert(bucket + resolution_ms <= last) by (nonlinear_arith)
                requires
                    bucket < last,
                    bucket % resolution_ms == 0,
                    last % resolution_ms == 0,
                    resolution_ms > 0,
            ;
            assert((bucket + resolution_ms) % (resolution_ms as int) == 0) by (nonlinear_arith)
                requires
                    bucket % resolution_ms == 0,
                    resolution_ms > 0,
            ;
        }
        bucket = bucket + resolution_ms;
    }
    let ghost before = out@;
    out.push(last);
    proof {
        assert forall|k: int| 0 <= k < out@.len() - 1 implies #[trigger] out@[k + 1] == out@[k]
            + resolution_ms by {
            if k < before.len() - 1 {
                assert(out@[k + 1] == before[k + 1] && out@[k] == before[k]);
            }
        }
    }
    out
}

/// How many routes and queries a summary lists in each ranking.
pub const RANKING_LIMIT: usize = 20;

/// Entry `a` is ranked before entry `b`: it has the larger count, or the same
/// count and came first (a stable sort by descending count).
pub open spec fn ranks_before(counts: Seq<u64>, a: int, b: int) -> bool {
    counts[a] > counts[b] || (counts[a] == counts[b] && a < b)
}

/// The indices of the first `limit` entries of a stable sort by descending
/// count, in that order: every listed entry is ranked before the entries
/// listed after it and before every entry left out.
pub open spec fn top_ranked(counts: Seq<u64>, limit: nat, r: Seq<usize>) -> bool {
    &&& r.len() == (if limit < counts.len() { limit } else { counts.len() })
    &&& forall|i: int| 0 <= i < r.len() ==> #[trigger] r[i] < counts.len()
    &&& forall|i: int, j: int| 0 <= i < j < r.len() ==> ranks_before(counts, #[trigger] r[i] as int, #[trigger] r[j] as int)
    &&& forall|x: int, i: int|
        0 <= x < counts.len() && !r.contains(x as usize) && 0 <= i < r.len() ==> #[trigger] ranks_before(
            counts,
            r[i] as int,
            x,
        )
}

/// Ranks entries by descending count, keeping the order of equal counts, and
/// keeps the first `limit`.
pub fn rank_by_count(counts: &Vec<u64>, limit: usize) -> (r: Vec<usize>)
    ensures
        top_ranked(counts@, limit as nat, r@),
{
    let n = counts.len();
    let mut top: Vec<usize> = Vec::new();
    let mut k: usize = 0;
    while k < n
        invariant
            n == counts@.len(),
            k <= n,
            top@.len() == (if limit < k { limit as int } else { k as int }),
            forall|i: int| 0 <= i < top@.len() ==> #[trigger] top@[i] < k,
            forall|i: int, j: int| 0 <= i < j < top@.len() ==> ranks_before(counts@, #[trigger] top@[i] as int, #[trigger] top@[j] as int),
            top@.len() < limit ==> forall|x: usize| x < k ==> #[trigger] top@.contains(x),
            forall|x: int, i: int|
                0 <= x < k && !top@.contains(x as usize) && 0 <= i < top@.len() ==> #[trigger] ranks_before(
                    counts@,
                    top@[i] as int,
                    x,
                ),
        decreases n - k,
    {
        let c = counts[k];
        let mut p: usize = 0;
        while p < top.len() && counts[top[p]] >= c
            invariant
                p <= top@.len(),
                k < n == counts@.len(),
                c == counts@[k as int],
                forall|i: int| 0 <= i < top@.len() ==> #[trigger] top@[i] < k,
                forall|j: int| 0 <= j < p ==> counts@[#[trigger] top@[j] as int] >= c,
            decreases top@.len() - p,
        {
            p = p + 1;
        }
        proof {
            // Entries from `p` on have a smaller count than entry `k`.
            assert forall|q: int| p <= q < top@.len() implies counts@[#[trigger] top@[q] as int] < c by {
                if q > p {
                    assert(ranks_before(counts@, top@[p as int] as int, top@[q] as int));
                }
            }
        }
        if p < limit {
            let ghost old_top = top@;
            top.insert(p, k);
            proof {
                assert(top@ =~= old_top.subrange(0, p as int).push(k).add(old_top.subrange(p as int, old_top.len() as int)));
                assert forall|i: int| 0 <= i < top@.len() implies #[trigger] top@[i] < k + 1 by {
                    if i < p {
                        assert(top@[i] == old_top[i]);
                    } else if i > p {
                        assert(top@[i] == old_top[i - 1]);
                    }
                }
                assert forall|i: int, j: int| 0 <= i < j < top@.len() implies ranks_before(counts@, #[trigger] top@[i] as int, #[trigger] top@[j] as int) by {
                    if j < p {
                        assert(top@[i] == old_top[i] && top@[j] == old_top[j]);
                    } else if j == p {
                        assert(top@[i] == old_top[i]);
                    } else if i < p {
                        assert(top@[i] == old_top[i] && top@[j] == old_top[j - 1]);
                    } else if i == p {
                        assert(top@[j] == old_top[j - 1]);
                    } else {
                        assert(top@[i] == old_top[i - 1] && top@[j] == old_top[j - 1]);
                    }
                }
                assert forall|x: usize| x < k + 1 && old_top.contains(x) implies #[trigger] top@.contains(x) by {
                    let w = choose|w: int| 0 <= w < old_top.len() && old_top[w] == x;
                    if w < p {
                        assert(top@[w] == old_top[w]);
                    } else {
                        assert(top@[w + 1] == old_top[w]);
                    }
                }
                assert(top@[p as int] == k);
                assert forall|x: usize| x < k + 1 && #[trigger] top@.contains(x) && x != k implies old_top.contains(x) by {
                    let w = choose|w: int| 0 <= w < top@.len() && top@[w] == x;
                    if w < p {
                        assert(top@[w] == old_top[w]);
                    } else {
                        assert(w != p);
                        assert(top@[w] == old_top[w - 1]);
                    }
                }
            }
            if top.len() > limit {
                let ghost full = top@;
                let e = top.pop().unwrap();
                proof {
                    assert(top@ =~= full.drop_last());
                    assert(full.last() == e);
                    assert(full.len() == limit + 1);
                    assert(old_top.len() == limit);
                    assert(e == old_top.last());
                    assert forall|x: int, i: int|
                        0 <= x < k + 1 && !top@.contains(x as usize) && 0 <= i < top@.len() implies #[trigger] ranks_before(
                            counts@,
                            top@[i] as int,
                            x,
                        ) by {
                        assert(top@[i] == full[i]);
                        if x == e as int {
                            assert(ranks_before(counts@, full[i] as int, full[full.len() - 1] as int));
                        } else {
                            if full.contains(x as usize) {
                                let w = choose|w: int| 0 <= w < full.len() && full[w] == x as usize;
                                if w < top@.len() {
                                    assert(top@[w] == full[w]);
                                }
                                assert(false);
                            }
                            assert(x != k);
                            assert(!old_top.contains(x as usize));
                            // The dropped entry was ranked before `x`, and every kept
                            // entry before the dropped one.
                            assert(ranks_before(counts@, old_top[old_top.len() - 1] as int, x));
                            assert(ranks_before(counts@, full[i] as int, full[full.len() - 1] as int));
                        }
                    }
                }
            } else {
                proof {
                    assert forall|x: usize| x < k + 1 implies #[trigger] top@.contains(x) by {
                        if x == k {
                            assert(top@[p as int] == k);
                        } else {
                            assert(old_top.len() < limit);
                        }
                    }
                }
            }
        } else {
            proof {
                assert(p == top@.len());
                assert forall|x: int, i: int|
                    0 <= x < k + 1 && !top@.contains(x as usize) && 0 <= i < top@.len() implies #[trigger] ranks_before(
                        counts@,
                        top@[i] as int,
                        x,
                    ) by {
                    if x == k {
                        assert(counts@[top@[i] as int] >= c);
                    }
                }
            }
        }
        k = k + 1;
    }
    top
}

} // verus!
