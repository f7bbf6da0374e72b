use vstd::prelude::*;

use super::finding::Severity;

verus! {

/// Default number of time windows a memory-growth scan buckets events into.
pub const GROWTH_WINDOW_COUNT: usize = 10;

/// Default number of consecutive growing windows that makes a finding.
pub const GROWTH_MIN_CONSECUTIVE: usize = 5;

/// Memory event type of an allocation.
pub const MEM_ALLOC: u8 = 0;

/// Memory event type of a free.
pub const MEM_FREE: u8 = 1;

/// Whether `s[a..b]` is a nonempty strictly increasing window of `s`.
pub open spec fn increasing_window(s: Seq<i64>, a: int, b: int) -> bool {
    &&& 0 <= a < b <= s.len()
    &&& forall|k: int| a < k < b ==> #[trigger] s[k - 1] < s[k]
}

/// `r` is the length of the longest strictly increasing window of `s` (0 for
/// an empty `s`).
pub open spec fn is_longest_run(s: Seq<i64>, r: int) -> bool {
    &&& s.len() == 0 ==> r == 0
    &&& s.len() > 0 ==> exists|a: int| #[trigger] increasing_window(s, a, a + r)
    &&& forall|a: int, b: int| #[trigger] increasing_window(s, a, b) ==> b - a <= r
}

/// The length of the longest run of strictly increasing consecutive values.
pub fn longest_increasing_run(values: &[i64]) -> (r: usize)
    ensures
        is_longest_run(values@, r as int),
        r <= values@.len(),
        (r == 0) == (values@.len() == 0),
{
    let n = values.len();
    if n == 0 {
        return 0;
    }
    let ghost s = values@;
    let mut max_run: usize = 1;
    let mut cur: usize = 1;
    let ghost mut best: int = 0;
    let mut i: usize = 1;
    assert(increasing_window(s, 0, 1));
    while i < n
        invariant
            s == values@,
            n == s.len(),
            1 <= i <= n,
            1 <= cur <= i,
            cur <= max_run <= i,
            increasing_window(s, i - cur, i as int),
            i - cur == 0 || s[i - cur - 1] >= s[i - cur],
            0 <= best && best + max_run <= i,
            increasing_window(s, best, best + max_run),
            forall|a: int, b: int| b <= i && #[trigger] increasing_window(s, a, b) ==> b - a <= max_run,
        decreases n - i,
    {
        let ghost old_cur = cur as int;
        let ghost old_i = i as int;
        if values[i] > values[i - 1] {
            cur = cur + 1;
            if cur > max_run {
                max_run = cur;
                proof {
                    best = old_i - old_cur;
                }
            }
            assert(increasing_window(s, old_i + 1 - cur, old_i + 1)) by {
                assert forall|k: int| old_i + 1 - cur < k < old_i + 1 implies #[trigger] s[k - 1] < s[k] by {
                    if k < old_i {
                        assert(increasing_window(s, old_i - old_cur, old_i));
                    }
                }
            }
        } else {
            cur = 1;
            assert(increasing_window(s, old_i, old_i + 1));
        }
        assert forall|a: int, b: int| b <= old_i + 1 && #[trigger] increasing_window(s, a, b) implies b - a <= max_run by {
            if b == old_i + 1 && a < old_i + 1 - cur {
                // The window would cross the point where the run ending at `i` starts.
                let k = old_i + 1 - cur;
                assert(a < k && k < b);
                assert(s[k - 1] < s[k]);
                if cur == 1 {
                    assert(s[old_i - 1] >= s[old_i as int]);
                } else {
                    assert(k == old_i - old_cur);
                }
            } else if b <= old_i {
            }
        }
        i = i + 1;
    }
    proof {
        r_witness(s, best, max_run as int);
    }
    max_run
}

proof fn r_witness(s: Seq<i64>, a: int, r: int)
    requires
        increasing_window(s, a, a + r),
    ensures
        exists|x: int| #[trigger] increasing_window(s, x, x + r),
{
}

/// The running totals of `s`: entry `i` is `s[0] + .. + s[i]`.
pub open spec fn running(s: Seq<i64>) -> Seq<int> {
    Seq::new(s.len(), |i: int| seq_sum(s.take(i + 1)))
}

/// Whether `s[a..b]` is a nonempty strictly rising window of `s`.
pub open spec fn rising_window(s: Seq<int>, a: int, b: int) -> bool {
    &&& 0 <= a < b <= s.len()
    &&& forall|k: int| a < k < b ==> #[trigger] s[k - 1] < s[k]
}

/// `r` is the length of the longest strictly rising window of `s` (0 for an
/// empty `s`).
pub open spec fn is_longest_rise(s: Seq<int>, r: int) -> bool {
    &&& s.len() == 0 ==> r == 0
    &&& s.len() > 0 ==> exists|a: int| #[trigger] rising_window(s, a, a + r)
    &&& forall|a: int, b: int| #[trigger] rising_window(s, a, b) ==> b - a <= r
}

proof fn lemma_running_step(s: Seq<i64>, k: int)
    requires
        0 < k < s.len(),
    ensures
        running(s)[k] == running(s)[k - 1] + s[k],
{
    let p = s.take(k);
    let q = s.take(k + 1);
    assert(q.drop_last() =~= p);
    assert(q.last() == s[k]);
}

proof fn rise_witness(s: Seq<int>, a: int, r: int)
    requires
        rising_window(s, a, a + r),
    ensures
        exists|x: int| #[trigger] rising_window(s, x, x + r),
{
}

/// The length of the longest run of consecutive windows over which the
/// running total of `net` strictly grows: the running total grows into window
/// `k` exactly when `net[k]` is positive.
fn longest_growth_run(net: &Vec<i64>) -> (r: usize)
    ensures
        is_longest_rise(running(net@), r as int),
        r <= net@.len(),
{
    let n = net.len();
    let ghost s = running(net@);
    if n == 0 {
        return 0;
    }
    proof {
        assert forall|k: int| 0 < k < n implies (#[trigger] s[k - 1] < s[k]) == (net@[k] > 0) by {
            lemma_running_step(net@, k);
        }
    }
    let mut max_run: usize = 1;
    let mut cur: usize = 1;
    let ghost mut best: int = 0;
    let mut i: usize = 1;
    assert(rising_window(s, 0, 1));
    while i < n
        invariant
            s == running(net@),
            n == net@.len(),
            n == s.len(),
            forall|k: int| 0 < k < n ==> (#[trigger] s[k - 1] < s[k]) == (net@[k] > 0),
            1 <= i <= n,
            1 <= cur <= i,
            cur <= max_run <= i,
            rising_window(s, i - cur, i as int),
            i - cur == 0 || s[i - cur - 1] >= s[i - cur],
            0 <= best && best + max_run <= i,
            rising_window(s, best, best + max_run),
            forall|a: int, b: int| b <= i && #[trigger] rising_window(s, a, b) ==> b - a <= max_run,
        decreases n - i,
    {
        let ghost old_cur = cur as int;
        let ghost old_i = i as int;
        if net[i] > 0 {
            assert(s[old_i - 1] < s[old_i]);
            cur = cur + 1;
            if cur > max_run {
                max_run = cur;
                proof {
                    best = old_i - old_cur;
                }
            }
            assert(rising_window(s, old_i + 1 - cur, old_i + 1)) by {
                assert forall|k: int| old_i + 1 - cur < k < old_i + 1 implies #[trigger] s[k - 1] < s[k] by {
                    if k < old_i {
                        assert(rising_window(s, old_i - old_cur, old_i));
                    }
                }
            }
        } else {
            assert(!(s[old_i - 1] < s[old_i]));
            cur = 1;
            assert(rising_window(s, old_i, old_i + 1));
        }
        assert forall|a: int, b: int| b <= old_i + 1 && #[trigger] rising_window(s, a, b) implies b - a <= max_run by {
            if b == old_i + 1 && a < old_i + 1 - cur {
                let k = old_i + 1 - cur;
                assert(a < k && k < b);
                assert(s[k - 1] < s[k]);
                if cur == 1 {
                    assert(s[old_i - 1] >= s[old_i as int]);
                } else {
                    assert(k == old_i - old_cur);
                }
            } else if b <= old_i {
            }
        }
        i = i + 1;
    }
    proof {
        rise_witness(s, best, max_run as int);
    }
    max_run
}

/// Whether a memory-growth finding with `max_run` growing windows out of
/// `window_count` is reported as high severity: the run covers at least
/// nine tenths of the windows.
pub open spec fn growth_is_high(max_run: int, window_count: int) -> bool {
    10 * max_run >= 9 * window_count
}

/// The severity of a memory-growth finding: high when the growing run covers
/// at least nine tenths of the windows, medium otherwise.
pub fn memory_growth_severity(max_run: usize, window_count: usize) -> (s: Severity)
    requires
        window_count > 0,
    ensures
        growth_is_high(max_run as int, window_count as int) ==> s == Severity::High,
        !growth_is_high(max_run as int, window_count as int) ==> s == Severity::Medium,
{
    if max_run as u128 * 10 >= window_count as u128 * 9 {
        Severity::High
    } else {
        Severity::Medium
    }
}

/// The width of one memory-growth window over `[range_start, range_end]` cut
/// into `window_count` windows (at least 1 ns); `None` for an empty or
/// reversed range.
pub fn memory_bucket_size(range_start: i64, range_end: i64, window_count: usize) -> (r: Option<i64>)
    requires
        0 < window_count <= i64::MAX,
        i64::MIN <= range_end - range_start <= i64::MAX,
    ensures
        range_end - range_start <= 0 ==> r is None,
        range_end - range_start > 0 ==> (r matches Some(w) && w == (if (range_end - range_start) / (window_count as int) >= 1 {
            (range_end - range_start) / (window_count as int)
        } else {
            1
        })),
{
    let span = range_end - range_start;
    if span <= 0 {
        return None;
    }
    let q = span / (window_count as i64);
    if q >= 1 {
        Some(q)
    } else {
        Some(1)
    }
}

/// One row of the memory-growth query: a process's allocated and freed bytes
/// within one time window.
#[derive(Debug, Clone, Copy, PartialEq, Eq, Structural)]
pub struct GrowthRow {
    pub pid: u32,
    pub bucket: i64,
    pub alloc_bytes: i64,
    pub free_bytes: i64,
}

/// A row's window and its net allocation (allocated minus freed bytes).
pub open spec fn row_window(r: GrowthRow) -> (i64, i64) {
    (r.bucket, (r.alloc_bytes - r.free_bytes) as i64)
}

/// Whether a row's net allocation fits in an `i64`.
pub open spec fn row_fits(r: GrowthRow) -> bool {
    i64::MIN <= r.alloc_bytes - r.free_bytes <= i64::MAX
}

/// The windows of process `pid`, in the order of the rows.
pub open spec fn windows_of(rows: Seq<GrowthRow>, pid: u32) -> Seq<(i64, i64)>
    decreases rows.len(),
{
    if rows.len() == 0 {
        Seq::empty()
    } else {
        let w = windows_of(rows.drop_last(), pid);
        if rows.last().pid == pid {
            w.push(row_window(rows.last()))
        } else {
            w
        }
    }
}

/// One process's net allocation per window.
#[derive(Debug, Clone)]
pub struct ProcessWindows {
    pub pid: u32,
    /// `(window, net allocated bytes)` pairs.
    pub windows: Vec<(i64, i64)>,
}

/// Groups query rows by process: one entry per process that has rows, holding
/// that process's windows in row order. The order of the entries is not part
/// of the contract.
pub fn group_windows(rows: &[GrowthRow]) -> (g: Vec<ProcessWindows>)
    requires
        forall|i: int| 0 <= i < rows@.len() ==> row_fits(#[trigger] rows@[i]),
    ensures
        forall|k: int| 0 <= k < g@.len() ==> (#[trigger] g@[k]).windows@ == windows_of(rows@, g@[k].pid),
        forall|k: int, l: int| 0 <= k < l < g@.len() ==> (#[trigger] g@[k]).pid != (#[trigger] g@[l]).pid,
        forall|pid: u32| (exists|k: int| 0 <= k < g@.len() && (#[trigger] g@[k]).pid == pid)
            <==> windows_of(rows@, pid).len() > 0,
{
    let mut g: Vec<ProcessWindows> = Vec::new();
    let mut i: usize = 0;
    while i < rows.len()
        invariant
            0 <= i <= rows@.len(),
            forall|j: int| 0 <= j < rows@.len() ==> row_fits(#[trigger] rows@[j]),
            forall|k: int| 0 <= k < g@.len() ==> (#[trigger] g@[k]).windows@ == windows_of(rows@.take(i as int), g@[k].pid),
            forall|k: int, l: int| 0 <= k < l < g@.len() ==> (#[trigger] g@[k]).pid != (#[trigger] g@[l]).pid,
            forall|pid: u32| (exists|k: int| 0 <= k < g@.len() && (#[trigger] g@[k]).pid == pid)
                <==> windows_of(rows@.take(i as int), pid).len() > 0,
        decreases rows@.len() - i,
    {
        let r = rows[i];
        let w: (i64, i64) = (r.bucket, r.alloc_bytes - r.free_bytes);
        let ghost before = rows@.take(i as int);
        let ghost after = rows@.take(i as int + 1);
        let ghost old_g = g@;
        assert(after.drop_last() =~= before);
        assert(after.last() == r);
        let mut k: usize = 0;
        while k < g.len() && g[k].pid != r.pid
            invariant
                0 <= k <= g@.len(),
                forall|m: int| 0 <= m < k ==> (#[trigger] g@[m]).pid != r.pid,
            decreases g@.len() - k,
        {
            k = k + 1;
        }
        if k == g.len() {
            assert(windows_of(before, r.pid).len() == 0);
            let mut one: Vec<(i64, i64)> = Vec::new();
            one.push(w);
            assert(one@ =~= windows_of(before, r.pid).push(w));
            g.push(ProcessWindows { pid: r.pid, windows: one });
        } else {
            let mut pw = g.remove(k);
            pw.windows.push(w);
            g.insert(k, pw);
        }
        assert(g@.len() >= old_g.len());
        assert(forall|m: int| 0 <= m < old_g.len() ==> (#[trigger] g@[m]).pid == old_g[m].pid);
        assert(g@[k as int].pid == r.pid);
        assert(forall|m: int| 0 <= m < g@.len() && m != k ==> (#[trigger] g@[m]) == old_g[m]);
        assert forall|pid: u32| pid != r.pid implies windows_of(after, pid) == windows_of(before, pid) by {}
        assert(windows_of(after, r.pid) == windows_of(before, r.pid).push(w));
        assert forall|m: int| 0 <= m < g@.len() implies (#[trigger] g@[m]).windows@ == windows_of(after, g@[m].pid) by {
            if m != k {
                assert(windows_of(after, g@[m].pid) == windows_of(before, g@[m].pid));
            }
        }
        assert forall|pid: u32| windows_of(after, pid).len() > 0
            implies (exists|m: int| 0 <= m < g@.len() && (#[trigger] g@[m]).pid == pid) by {
            if pid != r.pid {
                assert(windows_of(after, pid) == windows_of(before, pid));
                let m = choose|m: int| 0 <= m < old_g.len() && (#[trigger] old_g[m]).pid == pid;
                assert(g@[m].pid == pid);
            } else {
                assert(g@[k as int].pid == pid);
            }
        }
        assert forall|pid: u32| (exists|m: int| 0 <= m < g@.len() && (#[trigger] g@[m]).pid == pid)
            ==> windows_of(after, pid).len() > 0 by {
            if pid != r.pid {
                assert(windows_of(after, pid) == windows_of(before, pid));
                if exists|m: int| 0 <= m < g@.len() && (#[trigger] g@[m]).pid == pid {
                    let m = choose|m: int| 0 <= m < g@.len() && (#[trigger] g@[m]).pid == pid;
                    assert(m != k);
                    assert(old_g[m].pid == pid);
                }
            }
        }
        assert forall|a: int, b: int| 0 <= a < b < g@.len() implies (#[trigger] g@[a]).pid != (#[trigger] g@[b]).pid by {
            if a != k && b != k {
                assert(g@[a] == old_g[a] && g@[b] == old_g[b]);
            } else if a == k {
                assert(g@[b] == old_g[b]);
            } else {
                assert(g@[a] == old_g[a]);
            }
        }
        i = i + 1;
    }
    assert(rows@.take(rows@.len() as int) =~= rows@);
    g
}

/// Whether the windows are ordered by window start.
pub open spec fn sorted_by_bucket(s: Seq<(i64, i64)>) -> bool {
    forall|i: int, j: int| 0 <= i < j < s.len() ==> (#[trigger] s[i]).0 <= (#[trigger] s[j]).0
}

/// The windows ordered by window start; windows with the same start keep
/// their order.
pub fn sort_by_bucket(v: &Vec<(i64, i64)>) -> (r: Vec<(i64, i64)>)
    ensures
        sorted_by_bucket(r@),
        r@.to_multiset() == v@.to_multiset(),
{
    let mut r: Vec<(i64, i64)> = Vec::new();
    let mut i: usize = 0;
    proof {
        broadcast use vstd::seq_lib::group_to_multiset_ensures;
        assert(v@.take(0) =~= Seq::<(i64, i64)>::empty());
        assert(r@ =~= Seq::<(i64, i64)>::empty());
    }
    while i < v.len()
        invariant
            0 <= i <= v@.len(),
            sorted_by_bucket(r@),
            r@.to_multiset() == v@.take(i as int).to_multiset(),
        decreases v@.len() - i,
    {
        let x = v[i];
        let mut j: usize = r.len();
        while j > 0 && r[j - 1].0 > x.0
            invariant
                0 <= j <= r@.len(),
                forall|m: int| j <= m < r@.len() ==> (#[trigger] r@[m]).0 > x.0,
            decreases j,
        {
            j = j - 1;
        }
        let ghost old_r = r@;
        proof {
            if j > 0 {
                assert(old_r[j - 1].0 <= x.0);
            }
            vstd::seq_lib::to_multiset_insert(old_r, j as int, x);
            vstd::seq_lib::to_multiset_build(v@.take(i as int), x);
            assert(v@.take(i as int + 1) =~= v@.take(i as int).push(x));
        }
        r.insert(j, x);
        assert forall|a: int, b: int| 0 <= a < b < r@.len() implies (#[trigger] r@[a]).0 <= (#[trigger] r@[b]).0 by {
            if a < j && b < j {
                assert(r@[a] == old_r[a] && r@[b] == old_r[b]);
            } else if a < j && b == j {
                assert(r@[a] == old_r[a]);
                assert(old_r[a].0 <= old_r[j - 1].0);
            } else if a < j {
                assert(r@[a] == old_r[a] && r@[b] == old_r[b - 1]);
            } else if a == j {
                assert(r@[b] == old_r[b - 1]);
            } else {
                assert(r@[a] == old_r[a - 1] && r@[b] == old_r[b - 1]);
            }
        }
        i = i + 1;
    }
    assert(v@.take(v@.len() as int) =~= v@);
    r
}

/// The net allocations of the windows, in order.
pub open spec fn nets(s: Seq<(i64, i64)>) -> Seq<i64> {
    s.map_values(|w: (i64, i64)| w.1)
}

/// The sum of a sequence of integers.
pub open spec fn seq_sum(s: Seq<i64>) -> int
    decreases s.len(),
{
    if s.len() == 0 {
        0
    } else {
        seq_sum(s.drop_last()) + s.last()
    }
}

/// A process whose net allocation grew over enough consecutive windows to be
/// reported.
#[derive(Debug, Clone, Copy, PartialEq, Eq, Structural)]
pub struct GrowthCandidate {
    pub pid: u32,
    /// The longest run of consecutive windows over which the running net
    /// allocation grows.
    pub max_run: usize,
    /// Net allocated bytes over all windows.
    pub total_growth: i64,
}

/// The longest run of consecutive windows of `s` over which the running net
/// allocation strictly grows.
pub open spec fn growth_run(s: Seq<(i64, i64)>) -> int {
    choose|x: int| is_longest_rise(running(nets(s)), x)
}

/// Whether `r` is the memory-growth verdict on process `pid` with `windows`:
/// with the windows ordered by start, the running net allocation (allocated
/// minus freed bytes, summed over the windows so far) must grow over at least
/// `min_consecutive` consecutive windows; a reported process carries that run
/// and its total net allocation.
pub open spec fn growth_verdict(pid: u32, windows: Seq<(i64, i64)>, min_consecutive: usize, r: Option<GrowthCandidate>) -> bool {
    exists|s: Seq<(i64, i64)>| #[trigger] sorted_by_bucket(s) && s.to_multiset() == windows.to_multiset() && ({
        let run = growth_run(s);
        &&& is_longest_rise(running(nets(s)), run)
        &&& (r is Some <==> run >= min_consecutive)
        &&& (r matches Some(c) ==> c.pid == pid && c.max_run == run
            && c.total_growth == seq_sum(nets(windows)))
    })
}

/// The total net allocation of `windows` fits an `i64` wherever the process is
/// reported, whichever order windows with the same start take.
pub open spec fn growth_total_fits(windows: Seq<(i64, i64)>, min_consecutive: usize) -> bool {
    forall|s: Seq<(i64, i64)>| #[trigger] sorted_by_bucket(s) && s.to_multiset() == windows.to_multiset()
        && growth_run(s) >= min_consecutive ==> i64::MIN <= seq_sum(nets(windows)) <= i64::MAX
}

/// The memory-growth verdict on one process's windows.
pub fn growth_candidate(pid: u32, windows: &Vec<(i64, i64)>, min_consecutive: usize) -> (r: Option<GrowthCandidate>)
    requires
        growth_total_fits(windows@, min_consecutive),
    ensures
        growth_verdict(pid, windows@, min_consecutive, r),
{
    let sorted = sort_by_bucket(windows);
    let mut net: Vec<i64> = Vec::new();
    let mut i: usize = 0;
    while i < sorted.len()
        invariant
            0 <= i <= sorted@.len(),
            net@ == nets(sorted@.take(i as int)),
        decreases sorted@.len() - i,
    {
        net.push(sorted[i].1);
        assert(nets(sorted@.take(i as int + 1)) =~= nets(sorted@.take(i as int)).push(sorted@[i as int].1));
        i = i + 1;
    }
    assert(sorted@.take(sorted@.len() as int) =~= sorted@);
    let max_run = longest_growth_run(&net);
    let ghost s = sorted@;
    proof {
        lemma_longest_rise_unique(running(nets(s)), max_run as int);
    }
    if max_run < min_consecutive {
        assert(sorted_by_bucket(s));
        return None;
    }
    assert(sorted_by_bucket(s) && s.to_multiset() == windows@.to_multiset() && growth_run(s) >= min_consecutive);
    let total = sum_nets(windows);
    let c = GrowthCandidate { pid, max_run, total_growth: total };
    assert(sorted_by_bucket(s));
    Some(c)
}

/// The memory-growth scan over the query rows: every process whose windows
/// hold a long enough growing run, once each. The order of the candidates is
/// not part of the contract.
pub fn memory_growth_candidates(rows: &[GrowthRow], min_consecutive: usize) -> (c: Vec<GrowthCandidate>)
    requires
        forall|i: int| 0 <= i < rows@.len() ==> row_fits(#[trigger] rows@[i]),
        forall|pid: u32| #[trigger] growth_total_fits(windows_of(rows@, pid), min_consecutive),
    ensures
        forall|k: int, l: int| 0 <= k < l < c@.len() ==> (#[trigger] c@[k]).pid != (#[trigger] c@[l]).pid,
        forall|k: int| 0 <= k < c@.len() ==> windows_of(rows@, (#[trigger] c@[k]).pid).len() > 0
            && growth_verdict(c@[k].pid, windows_of(rows@, c@[k].pid), min_consecutive, Some(c@[k])),
        forall|pid: u32| windows_of(rows@, pid).len() > 0 && !(exists|k: int| 0 <= k < c@.len() && (#[trigger] c@[k]).pid == pid)
            ==> growth_verdict(pid, windows_of(rows@, pid), min_consecutive, None),
{
    let groups = group_windows(rows);
    let mut c: Vec<GrowthCandidate> = Vec::new();
    let mut k: usize = 0;
    while k < groups.len()
        invariant
            0 <= k <= groups@.len(),
            forall|m: int| 0 <= m < groups@.len() ==> (#[trigger] groups@[m]).windows@ == windows_of(rows@, groups@[m].pid),
            forall|m: int, l: int| 0 <= m < l < groups@.len() ==> (#[trigger] groups@[m]).pid != (#[trigger] groups@[l]).pid,
            forall|pid: u32| (exists|m: int| 0 <= m < groups@.len() && (#[trigger] groups@[m]).pid == pid)
                <==> windows_of(rows@, pid).len() > 0,
            forall|pid: u32| #[trigger] growth_total_fits(windows_of(rows@, pid), min_consecutive),
            forall|j: int| 0 <= j < c@.len() ==> exists|m: int| 0 <= m < k && (#[trigger] groups@[m]).pid == (#[trigger] c@[j]).pid,
            forall|j: int, l: int| 0 <= j < l < c@.len() ==> (#[trigger] c@[j]).pid != (#[trigger] c@[l]).pid,
            forall|j: int| 0 <= j < c@.len() ==> windows_of(rows@, (#[trigger] c@[j]).pid).len() > 0
                && growth_verdict(c@[j].pid, windows_of(rows@, c@[j].pid), min_consecutive, Some(c@[j])),
            forall|m: int| 0 <= m < k && !(exists|j: int| 0 <= j < c@.len() && (#[trigger] c@[j]).pid == (#[trigger] groups@[m]).pid)
                ==> growth_verdict(groups@[m].pid, windows_of(rows@, groups@[m].pid), min_consecutive, None),
        decreases groups@.len() - k,
    {
        let pid = groups[k].pid;
        assert(groups@[k as int].windows@.len() > 0) by {
            assert(groups@[k as int].pid == pid);
        }
        let v = growth_candidate(pid, &groups[k].windows, min_consecutive);
        let ghost old_c = c@;
        match v {
            Some(cand) => {
                c.push(cand);
                assert forall|j: int| 0 <= j < c@.len() implies exists|m: int| 0 <= m < k + 1 && (#[trigger] groups@[m]).pid == (#[trigger] c@[j]).pid by {
                    if j == old_c.len() {
                        assert(groups@[k as int].pid == c@[j].pid);
                    } else {
                        assert(c@[j] == old_c[j]);
                    }
                }
                assert forall|j: int, l: int| 0 <= j < l < c@.len() implies (#[trigger] c@[j]).pid != (#[trigger] c@[l]).pid by {
                    if l == old_c.len() {
                        assert(c@[j] == old_c[j]);
                        let m = choose|m: int| 0 <= m < k && (#[trigger] groups@[m]).pid == (#[trigger] old_c[j]).pid;
                        assert(groups@[m].pid != groups@[k as int].pid);
                    } else {
                        assert(c@[j] == old_c[j] && c@[l] == old_c[l]);
                    }
                }
                assert forall|m: int| 0 <= m < k + 1 && !(exists|j: int| 0 <= j < c@.len() && (#[trigger] c@[j]).pid == (#[trigger] groups@[m]).pid)
                    implies growth_verdict(groups@[m].pid, windows_of(rows@, groups@[m].pid), min_consecutive, None) by {
                    if m == k {
                        assert(c@[old_c.len() as int].pid == groups@[m].pid);
                    } else {
                        assert forall|j: int| 0 <= j < old_c.len() implies (#[trigger] old_c[j]).pid != groups@[m].pid by {
                            assert(c@[j] == old_c[j]);
                        }
                    }
                }
            },
            None => {
                assert forall|j: int| 0 <= j < c@.len() implies exists|m: int| 0 <= m < k + 1 && (#[trigger] groups@[m]).pid == (#[trigger] c@[j]).pid by {
                    let m = choose|m: int| 0 <= m < k && (#[trigger] groups@[m]).pid == (#[trigger] c@[j]).pid;
                }
            },
        }
        k = k + 1;
    }
    assert forall|pid: u32| windows_of(rows@, pid).len() > 0 && !(exists|j: int| 0 <= j < c@.len() && (#[trigger] c@[j]).pid == pid)
        implies growth_verdict(pid, windows_of(rows@, pid), min_consecutive, None) by {
        let m = choose|m: int| 0 <= m < groups@.len() && (#[trigger] groups@[m]).pid == pid;
        assert(!(exists|j: int| 0 <= j < c@.len() && (#[trigger] c@[j]).pid == (#[trigger] groups@[m]).pid));
    }
    c
}

proof fn lemma_longest_rise_unique(s: Seq<int>, r: int)
    requires
        is_longest_rise(s, r),
    ensures
        (choose|x: int| is_longest_rise(s, x)) == r,
{
    let x = choose|x: int| is_longest_rise(s, x);
    if s.len() == 0 {
    } else {
        let a = choose|a: int| #[trigger] rising_window(s, a, a + r);
        let b = choose|b: int| #[trigger] rising_window(s, b, b + x);
        assert(rising_window(s, a, a + r));
        assert(rising_window(s, b, b + x));
    }
}

/// The sum of the windows' net allocations.
fn sum_nets(windows: &Vec<(i64, i64)>) -> (t: i64)
    requires
        i64::MIN <= seq_sum(nets(windows@)) <= i64::MAX,
    ensures
        t == seq_sum(nets(windows@)),
{
    let mut acc: i128 = 0;
    let mut i: usize = 0;
    while i < windows.len()
        invariant
            0 <= i <= windows@.len(),
            acc == seq_sum(nets(windows@.take(i as int))),
            -0x8000_0000_0000_0000 * i <= acc <= 0x7fff_ffff_ffff_ffff * i,
        decreases windows@.len() - i,
    {
        assert(nets(windows@.take(i as int + 1)).drop_last() =~= nets(windows@.take(i as int)));
        assert(nets(windows@.take(i as int + 1)).last() == windows@[i as int].1);
        acc = acc + windows[i].1 as i128;
        i = i + 1;
    }
    assert(windows@.take(windows@.len() as int) =~= windows@);
    acc as i64
}

} // verus!
