use vstd::prelude::*;

verus! {

/// The corrected value for `ts` given the last accepted timestamp `last`:
/// a backwards jump is clamped to `last`.
pub open spec fn corrected(last: Option<i64>, ts: i64) -> i64 {
    match last {
        Some(l) => if ts < l { l } else { ts },
        None => ts,
    }
}

/// Whether correcting `ts` after `last` counts as a correction.
pub open spec fn is_backwards(last: Option<i64>, ts: i64) -> bool {
    match last {
        Some(l) => ts < l,
        None => false,
    }
}

/// The last accepted timestamp after correcting `ts`.
pub open spec fn next_last(last: Option<i64>, ts: i64) -> Option<i64> {
    Some(corrected(last, ts))
}

/// Monotonic clock corrector for `i64` nanosecond timestamps.
///
/// Capture backends may produce non-monotone timestamps due to TSC skew,
/// CPU migration, or clock resets. This corrector clamps backwards jumps
/// to the last-seen value and counts how many corrections were applied.
#[derive(Debug, Default)]
pub struct ClockCorrector {
    last_ns: Option<i64>,
    pub corrections: u64,
}

impl ClockCorrector {
    /// The last timestamp handed out, if any.
    pub closed spec fn last(&self) -> Option<i64> {
        self.last_ns
    }

    /// The number of backwards jumps clamped so far.
    pub closed spec fn count(&self) -> nat {
        self.corrections as nat
    }

    pub fn new() -> (c: Self)
        ensures
            c.last() is None,
            c.count() == 0,
    {
        ClockCorrector { last_ns: None, corrections: 0 }
    }

    /// The count of corrections is held in a `u64`.
    pub proof fn lemma_count_fits(&self)
        ensures
            self.count() <= u64::MAX,
    {
    }

    /// The number of backwards jumps clamped so far.
    pub fn corrections(&self) -> (n: u64)
        ensures
            n == self.count(),
    {
        self.corrections
    }

    /// Accept a raw timestamp; return a monotonically non-decreasing value.
    pub fn correct(&mut self, ts: i64) -> (r: i64)
        requires
            old(self).count() < u64::MAX,
        ensures
            r == corrected(old(self).last(), ts),
            final(self).last() == next_last(old(self).last(), ts),
            final(self).count() == old(self).count() + if is_backwards(
                old(self).last(),
                ts,
            ) {
                1int
            } else {
                0int
            },
    {
        match self.last_ns {
            None => {
                self.last_ns = Some(ts);
                ts
            },
            Some(last) => {
                if ts < last {
                    self.corrections = self.corrections + 1;
                    last
                } else {
                    self.last_ns = Some(ts);
                    ts
                }
            },
        }
    }
}

/// The timestamps handed out when `ts` is fed, in order, to a corrector whose
/// last accepted timestamp is `last`.
pub open spec fn run_clock(last: Option<i64>, ts: Seq<i64>) -> Seq<i64>
    decreases ts.len(),
{
    if ts.len() == 0 {
        Seq::empty()
    } else {
        seq![corrected(last, ts[0])] + run_clock(next_last(last, ts[0]), ts.drop_first())
    }
}

/// Whether `s` is sorted in non-decreasing order.
pub open spec fn non_decreasing(s: Seq<i64>) -> bool {
    forall|i: int, j: int| 0 <= i <= j < s.len() ==> s[i] <= s[j]
}

/// A corrected timestamp is never earlier than the last one handed out, and a
/// correction is counted exactly when the value handed out differs from the input.
pub proof fn lemma_correct_step(last: Option<i64>, ts: i64)
    ensures
        last matches Some(l) ==> l <= corrected(last, ts),
        ts <= corrected(last, ts),
        is_backwards(last, ts) <==> corrected(last, ts) != ts,
{
}

/// Law: over a whole session the corrected timestamps are non-decreasing, and
/// none is earlier than the timestamp last handed out before the session.
pub proof fn lemma_run_clock_monotone(last: Option<i64>, ts: Seq<i64>)
    ensures
        run_clock(last, ts).len() == ts.len(),
        non_decreasing(run_clock(last, ts)),
        last matches Some(l) ==> forall|i: int|
            0 <= i < ts.len() ==> l <= #[trigger] run_clock(last, ts)[i],
    decreases ts.len(),
{
    if ts.len() > 0 {
        let nl = next_last(last, ts[0]);
        lemma_run_clock_monotone(nl, ts.drop_first());
        let rest = run_clock(nl, ts.drop_first());
        let out = run_clock(last, ts);
        assert(out =~= seq![corrected(last, ts[0])] + rest);
        assert forall|i: int, j: int| 0 <= i <= j < out.len() implies out[i] <= out[j] by {
            if i > 0 {
                assert(out[i] == rest[i - 1]);
                assert(out[j] == rest[j - 1]);
            } else if j > 0 {
                assert(out[j] == rest[j - 1]);
            }
        }
        if last is Some {
            assert forall|i: int| 0 <= i < ts.len() implies last->0 <= #[trigger] out[i] by {
                if i > 0 {
                    assert(out[i] == rest[i - 1]);
                }
            }
        }
    }
}

/// Law: timestamps that already arrive in non-decreasing order (and not before
/// the last accepted one) pass through unchanged.
pub proof fn lemma_run_clock_passthrough(last: Option<i64>, ts: Seq<i64>)
    requires
        non_decreasing(ts),
        ts.len() > 0 && last is Some ==> last->0 <= ts[0],
    ensures
        run_clock(last, ts) == ts,
    decreases ts.len(),
{
    if ts.len() > 0 {
        let nl = next_last(last, ts[0]);
        assert(corrected(last, ts[0]) == ts[0]);
        let tail = ts.drop_first();
        assert(non_decreasing(tail)) by {
            assert forall|i: int, j: int| 0 <= i <= j < tail.len() implies tail[i] <= tail[j] by {
                assert(tail[i] == ts[i + 1]);
                assert(tail[j] == ts[j + 1]);
            }
        }
        if tail.len() > 0 {
            assert(tail[0] == ts[1]);
        }
        lemma_run_clock_passthrough(nl, tail);
        assert(run_clock(last, ts) =~= seq![ts[0]] + tail);
    }
}

/// The last accepted timestamp after feeding `ts`, in order, to a corrector
/// whose last accepted timestamp was `last`.
pub open spec fn clock_after(last: Option<i64>, ts: Seq<i64>) -> Option<i64>
    decreases ts.len(),
{
    if ts.len() == 0 {
        last
    } else {
        next_last(clock_after(last, ts.drop_last()), ts.last())
    }
}

/// The largest of a nonempty sequence of timestamps.
pub open spec fn seq_max(s: Seq<i64>) -> i64
    recommends
        s.len() > 0,
    decreases s.len(),
{
    if s.len() <= 1 {
        s[0]
    } else {
        let m = seq_max(s.drop_last());
        if s.last() < m {
            m
        } else {
            s.last()
        }
    }
}

proof fn lemma_clock_after_fresh(ts: Seq<i64>)
    requires
        ts.len() > 0,
    ensures
        clock_after(None, ts) == Some(seq_max(ts)),
    decreases ts.len(),
{
    if ts.len() > 1 {
        lemma_clock_after_fresh(ts.drop_last());
    } else {
        assert(ts.drop_last().len() == 0);
        assert(clock_after(None, ts.drop_last()) == None::<i64>);
        assert(ts.last() == ts[0]);
    }
}

proof fn lemma_clock_step_fresh(ts: Seq<i64>, i: int)
    requires
        0 <= i < ts.len(),
    ensures
        corrected(clock_after(None, ts.take(i)), ts[i]) == seq_max(ts.take(i + 1)),
        is_backwards(clock_after(None, ts.take(i)), ts[i]) <==> (i > 0 && ts[i] < seq_max(ts.take(i))),
{
    let p = ts.take(i);
    let q = ts.take(i + 1);
    assert(q.drop_last() =~= p);
    assert(q.last() == ts[i]);
    if i > 0 {
        lemma_clock_after_fresh(p);
    } else {
        assert(p.len() == 0);
        assert(clock_after(None, p) == None::<i64>);
        assert(q.len() == 1);
        assert(q[0] == ts[i]);
    }
}

/// Law: on a new corrector fed `ts` one timestamp at a time, the last accepted
/// timestamp is the largest input so far; the value handed out for `ts[i]` is
/// the largest of `ts[0..=i]`; and that call counts a correction exactly when
/// `ts[i]` is below an earlier input.
pub proof fn law_clock_running_max(ts: Seq<i64>)
    ensures
        ts.len() > 0 ==> clock_after(None, ts) == Some(seq_max(ts)),
        forall|i: int| 0 <= i < ts.len() ==>
            #[trigger] corrected(clock_after(None, ts.take(i)), ts[i]) == seq_max(ts.take(i + 1)),
        forall|i: int| 0 <= i < ts.len() ==>
            (#[trigger] is_backwards(clock_after(None, ts.take(i)), ts[i]) <==> (i > 0 && ts[i] < seq_max(ts.take(i)))),
{
    if ts.len() > 0 {
        lemma_clock_after_fresh(ts);
    }
    assert forall|i: int| 0 <= i < ts.len() implies
        #[trigger] corrected(clock_after(None, ts.take(i)), ts[i]) == seq_max(ts.take(i + 1)) by {
        lemma_clock_step_fresh(ts, i);
    }
    assert forall|i: int| 0 <= i < ts.len() implies
        (#[trigger] is_backwards(clock_after(None, ts.take(i)), ts[i]) <==> (i > 0 && ts[i] < seq_max(ts.take(i)))) by {
        lemma_clock_step_fresh(ts, i);
    }
}

} // verus!
