//! Splitting a primitive's index range into dispatches that respect the
//! device's limit on workgroups per dispatch.

use vstd::prelude::*;

verus! {

/// The largest number of workgroups one dispatch may request.
pub const MAX_DISPATCH: u32 = 65535;

/// Indices that make up one triangle.
pub const INDICES_PER_TRIANGLE: u32 = 3;

/// Bytes of one index in the index buffer.
pub const INDEX_SIZE: u64 = 4;

/// One legal slice of a primitive: the bytes of the index buffer it binds and
/// the number of triangles it dispatches.
#[derive(Clone, Copy, Debug, PartialEq, Eq, Structural)]
pub struct DispatchRun {
    /// Byte offset of the slice in the index buffer.
    pub offset: u64,
    /// Byte length of the slice.
    pub size: u64,
    /// Triangles handled by the dispatch, one workgroup each.
    pub triangles: u32,
}

/// The largest multiple of `alignment` that does not exceed the dispatch limit.
pub open spec fn group_limit_spec(alignment: int) -> int {
    (65535int / alignment) * alignment
}

/// Number of whole triangles in the index range `start..end`.
pub open spec fn triangle_count(start: int, end: int) -> int {
    (end - start) / 3
}

/// Number of runs that `triangles` triangles need under `limit`.
pub open spec fn run_count(triangles: int, limit: int) -> int {
    if triangles <= 0 {
        0
    } else {
        (triangles + limit - 1) / limit
    }
}

/// The `i`-th run of the index range `start..end` under `limit`: every run
/// but the last holds `limit` triangles, the last one reaches to `end`.
pub open spec fn run_at(start: int, end: int, limit: int, i: int) -> DispatchRun {
    let triangles = triangle_count(start, end);
    let last = i + 1 == run_count(triangles, limit);
    let first_index = start + 3 * (limit * i);
    DispatchRun {
        offset: (4 * first_index) as u64,
        size: (if last {
            4 * (end - first_index)
        } else {
            4 * (3 * limit)
        }) as u64,
        triangles: (if last {
            triangles - limit * i
        } else {
            limit
        }) as u32,
    }
}

/// The runs of the index range `start..end` under `limit`, in order.
pub open spec fn runs_spec(start: int, end: int, limit: int) -> Seq<DispatchRun> {
    Seq::new(run_count(triangle_count(start, end), limit) as nat, |i: int| run_at(start, end, limit, i))
}

/// Sum of the triangles of `runs`.
pub open spec fn total_triangles(runs: Seq<DispatchRun>) -> int
    decreases runs.len(),
{
    if runs.len() == 0 {
        0
    } else {
        total_triangles(runs.drop_last()) + runs.last().triangles
    }
}

/// Byte just past the slice of `run`.
pub open spec fn run_end(run: DispatchRun) -> int {
    run.offset + run.size
}

/// The most triangles that one run may hold: the largest multiple of
/// `alignment` within the dispatch limit. It is zero when `alignment` is
/// larger than the limit itself.
pub fn group_limit(alignment: u32) -> (limit: u32)
    requires
        alignment > 0,
    ensures
        limit == group_limit_spec(alignment as int),
        limit <= MAX_DISPATCH,
        limit % alignment == 0,
        alignment <= MAX_DISPATCH ==> limit >= alignment,
        alignment > MAX_DISPATCH ==> limit == 0,
{
    let groups: u32 = MAX_DISPATCH / alignment;
    proof {
        let a = alignment as int;
        assert(groups * a <= 65535 && (groups * a) % a == 0 && (a <= 65535 ==> groups >= 1) && (a
            > 65535 ==> groups * a == 0) && (groups >= 1 ==> groups * a >= a)) by (nonlinear_arith)
            requires
                a > 0,
                groups == 65535int / a,
        ;
    }
    groups * alignment
}

/// Whether `start..end` is an index range that `limit` can split: the range
/// is ordered and addressable, and a run can hold at least one triangle.
pub open spec fn splittable(start: int, end: int, limit: int) -> bool {
    0 <= start <= end <= u32::MAX && 0 < limit <= MAX_DISPATCH
}

/// With `t` triangles and `k` full runs before it, run `k` exists, and it is
/// the last one exactly when it can hold what is left.
proof fn lemma_run_index(t: int, limit: int, k: int)
    requires
        limit > 0,
        0 <= k,
        limit * k < t,
    ensures
        k < run_count(t, limit),
        t <= limit * (k + 1) <==> k + 1 == run_count(t, limit),
        limit * (run_count(t, limit) - 1) < t <= limit * run_count(t, limit),
{
    let n = (t + limit - 1) / limit;
    assert(limit * (n - 1) < t <= limit * n && k < n && (t <= limit * (k + 1) <==> k + 1 == n))
        by (nonlinear_arith)
        requires
            limit > 0,
            0 <= k,
            limit * k < t,
            n == (t + limit - 1) / limit,
    ;
}

/// Every run lies inside the index range and holds a positive number of
/// triangles that the casts of `run_at` keep exact.
proof fn lemma_run_at_exact(start: int, end: int, limit: int, i: int)
    requires
        splittable(start, end, limit),
        0 <= i < run_count(triangle_count(start, end), limit),
    ensures
        run_at(start, end, limit, i).offset == 4 * (start + 3 * (limit * i)),
        run_at(start, end, limit, i).triangles == (if i + 1 == run_count(
            triangle_count(start, end),
            limit,
        ) {
            triangle_count(start, end) - limit * i
        } else {
            limit
        }),
        run_at(start, end, limit, i).size == (if i + 1 == run_count(
            triangle_count(start, end),
            limit,
        ) {
            4 * (end - (start + 3 * (limit * i)))
        } else {
            4 * (3 * limit)
        }),
        0 < run_at(start, end, limit, i).triangles <= limit,
        start + 3 * (limit * i) + 3 * run_at(start, end, limit, i).triangles <= end,
        limit * i < triangle_count(start, end),
{
    let t = triangle_count(start, end);
    let n = run_count(t, limit);
    assert(limit * 0 == 0);
    lemma_run_index(t, limit, 0);
    assert(limit * i < t && (i + 1 < n ==> limit * (i + 1) < t) && limit * (i + 1) == limit * i
        + limit && limit * i >= 0) by (nonlinear_arith)
        requires
            limit > 0,
            0 <= i < n,
            limit * (n - 1) < t <= limit * n,
    ;
}

/// The first `j` runs hold `limit` triangles each, and all of them together
/// hold every triangle of the range.
proof fn lemma_prefix_total(start: int, end: int, limit: int, j: int)
    requires
        splittable(start, end, limit),
        0 <= j <= run_count(triangle_count(start, end), limit),
    ensures
        total_triangles(runs_spec(start, end, limit).take(j)) == (if j == run_count(
            triangle_count(start, end),
            limit,
        ) {
            triangle_count(start, end)
        } else {
            limit * j
        }),
    decreases j,
{
    let runs = runs_spec(start, end, limit);
    let t = triangle_count(start, end);
    let n = run_count(t, limit);
    if j == 0 {
        assert(runs.take(0).len() == 0);
        assert(limit * 0 == 0);
        if t > 0 {
            lemma_run_index(t, limit, 0);
        }
    } else {
        lemma_prefix_total(start, end, limit, j - 1);
        lemma_run_at_exact(start, end, limit, j - 1);
        assert(runs.take(j).drop_last() =~= runs.take(j - 1));
        assert(runs.take(j).last() == run_at(start, end, limit, j - 1));
        assert(limit * j == limit * (j - 1) + limit) by (nonlinear_arith);
    }
}

/// The runs of a primitive hold each of its triangles exactly once.
pub proof fn lemma_runs_sum(start: int, end: int, limit: int)
    requires
        splittable(start, end, limit),
    ensures
        total_triangles(runs_spec(start, end, limit)) == triangle_count(start, end),
{
    let runs = runs_spec(start, end, limit);
    lemma_prefix_total(start, end, limit, runs.len() as int);
    assert(runs.take(runs.len() as int) =~= runs);
}

/// No run is empty and none asks for more triangles than the limit.
pub proof fn lemma_runs_within_limit(start: int, end: int, limit: int)
    requires
        splittable(start, end, limit),
    ensures
        forall|i: int|
            0 <= i < runs_spec(start, end, limit).len() ==> 0 < (#[trigger] runs_spec(
                start,
                end,
                limit,
            )[i]).triangles <= limit,
{
    let runs = runs_spec(start, end, limit);
    assert forall|i: int| 0 <= i < runs.len() implies 0 < (#[trigger] runs[i]).triangles
        <= limit by {
        lemma_run_at_exact(start, end, limit, i);
    }
}

/// A primitive that fits in one dispatch gives exactly one run, which binds
/// the whole index range; a primitive without a triangle gives none.
pub proof fn lemma_single_run(start: int, end: int, limit: int)
    requires
        splittable(start, end, limit),
        triangle_count(start, end) <= limit,
    ensures
        triangle_count(start, end) == 0 ==> runs_spec(start, end, limit).len() == 0,
        triangle_count(start, end) > 0 ==> runs_spec(start, end, limit) =~= seq![
            DispatchRun {
                offset: (4 * start) as u64,
                size: (4 * (end - start)) as u64,
                triangles: triangle_count(start, end) as u32,
            },
        ],
{
    let t = triangle_count(start, end);
    if t > 0 {
        assert(limit * 0 == 0);
        assert(limit * 1 == limit);
        lemma_run_index(t, limit, 0);
        lemma_run_at_exact(start, end, limit, 0);
    }
}

/// The slices follow one another without gap or overlap, from the first byte
/// of the index range to its last.
pub proof fn lemma_runs_contiguous(start: int, end: int, limit: int)
    requires
        splittable(start, end, limit),
        triangle_count(start, end) > 0,
    ensures
        runs_spec(start, end, limit).len() > 0,
        runs_spec(start, end, limit)[0].offset == 4 * start,
        forall|i: int|
            0 <= i < runs_spec(start, end, limit).len() - 1 ==> run_end(
                #[trigger] runs_spec(start, end, limit)[i],
            ) == runs_spec(start, end, limit)[i + 1].offset,
        run_end(runs_spec(start, end, limit).last()) == 4 * end,
{
    let runs = runs_spec(start, end, limit);
    let t = triangle_count(start, end);
    assert(limit * 0 == 0);
    lemma_run_index(t, limit, 0);
    lemma_run_at_exact(start, end, limit, 0);
    lemma_run_at_exact(start, end, limit, runs.len() - 1);
    assert forall|i: int| 0 <= i < runs.len() - 1 implies run_end(#[trigger] runs[i]) == runs[i
        + 1].offset by {
        lemma_run_at_exact(start, end, limit, i);
        lemma_run_at_exact(start, end, limit, i + 1);
        assert(limit * (i + 1) == limit * i + limit) by (nonlinear_arith);
    }
}

/// Splits the index range `index_start..index_end` of a primitive into runs
/// that no dispatch limit refuses, for a device whose slices must start at
/// multiples of `alignment` triangles.
///
/// A primitive without a whole triangle gives no run. Otherwise every run but
/// the last holds `group_limit(alignment)` triangles, and the last reaches to
/// the end of the range. The alignment has to lie within the dispatch limit,
/// or no run could hold a triangle.
pub fn dispatch_runs(index_start: u32, index_end: u32, alignment: u32) -> (runs: Vec<DispatchRun>)
    requires
        index_start <= index_end,
        0 < alignment <= MAX_DISPATCH,
    ensures
        runs@ == runs_spec(
            index_start as int,
            index_end as int,
            group_limit_spec(alignment as int),
        ),
        total_triangles(runs@) == triangle_count(index_start as int, index_end as int),
        forall|i: int|
            0 <= i < runs.len() ==> 0 < (#[trigger] runs[i]).triangles <= group_limit_spec(
                alignment as int,
            ),
        0 < triangle_count(index_start as int, index_end as int) <= group_limit_spec(
            alignment as int,
        ) ==> runs.len() == 1,
        triangle_count(index_start as int, index_end as int) == 0 ==> runs.len() == 0,
{
    let limit: u32 = group_limit(alignment);
    let triangles: u32 = (index_end - index_start) / INDICES_PER_TRIANGLE;
    let ghost start = index_start as int;
    let ghost end = index_end as int;
    let ghost lim = limit as int;
    let ghost t = triangles as int;
    let mut runs: Vec<DispatchRun> = Vec::new();
    let mut cursor: u32 = index_start;
    let mut remaining: u32 = triangles;
    proof {
        assert(lim * 0 == 0);
    }
    while remaining > limit
        invariant
            splittable(start, end, lim),
            start == index_start,
            end == index_end,
            lim == limit,
            t == triangle_count(start, end),
            remaining == t - lim * runs.len(),
            cursor == start + 3 * (lim * runs.len()),
            cursor + 3 * remaining <= end,
            runs.len() <= run_count(t, lim),
            forall|j: int| 0 <= j < runs.len() ==> runs[j] == run_at(start, end, lim, j),
        decreases remaining,
    {
        let ghost k = runs.len() as int;
        proof {
            lemma_run_index(t, lim, k);
            lemma_run_at_exact(start, end, lim, k);
            assert(lim * (k + 1) == lim * k + lim) by (nonlinear_arith);
        }
        runs.push(
            DispatchRun {
                offset: cursor as u64 * INDEX_SIZE,
                size: limit as u64 * 12,
                triangles: limit,
            },
        );
        cursor = cursor + INDICES_PER_TRIANGLE * limit;
        remaining = remaining - limit;
    }
    if remaining > 0 {
        let ghost k = runs.len() as int;
        proof {
            lemma_run_index(t, lim, k);
            lemma_run_at_exact(start, end, lim, k);
            assert(lim * (k + 1) == lim * k + lim) by (nonlinear_arith);
        }
        runs.push(
            DispatchRun {
                offset: cursor as u64 * INDEX_SIZE,
                size: (index_end - cursor) as u64 * INDEX_SIZE,
                triangles: remaining,
            },
        );
    } else {
        proof {
            let k = runs.len() as int;
            if k > 0 {
                assert(lim * (k - 1) < lim * k && lim * (k - 1 + 1) == lim * k)
                    by (nonlinear_arith)
                    requires
                        lim > 0,
                ;
                lemma_run_index(t, lim, k - 1);
            }
        }
    }
    proof {
        assert(runs@ =~= runs_spec(start, end, lim));
        lemma_runs_sum(start, end, lim);
        lemma_runs_within_limit(start, end, lim);
        if t <= lim {
            lemma_single_run(start, end, lim);
        }
    }
    runs
}

} // verus!
