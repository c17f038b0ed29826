//! Cumulative latency statistics: best/worst/total/count over a stream of
//! millisecond samples, never reset for the lifetime of the process.

use vstd::prelude::*;

verus! {

/// Mathematical model of a [`Gauge`]: the four running values as
/// unbounded integers.
pub ghost struct GaugeModel {
    pub best: int,
    pub worst: int,
    pub total: int,
    pub count: int,
}

/// The model of a freshly created gauge: zero samples, with the
/// minimum at the `i64::MAX` sentinel and the maximum at the
/// `i64::MIN` sentinel.
pub open spec fn gauge_init() -> GaugeModel {
    GaugeModel { best: i64::MAX as int, worst: i64::MIN as int, total: 0, count: 0 }
}

/// One observation folded into the running statistics.
pub open spec fn gauge_append(g: GaugeModel, sample: int) -> GaugeModel {
    GaugeModel {
        best: vstd::math::min(g.best, sample),
        worst: vstd::math::max(g.worst, sample),
        total: g.total + sample,
        count: g.count + 1,
    }
}

/// The statistics obtained by applying a sequence of samples, one
/// [`gauge_append`] at a time, left to right.
pub open spec fn gauge_fold(g: GaugeModel, samples: Seq<int>) -> GaugeModel
    decreases samples.len(),
{
    if samples.len() == 0 {
        g
    } else {
        gauge_fold(gauge_append(g, samples[0]), samples.drop_first())
    }
}

/// Two single observations may be folded in either order.
pub proof fn lemma_gauge_append_commutes(g: GaugeModel, a: int, b: int)
    ensures
        gauge_append(gauge_append(g, a), b) == gauge_append(gauge_append(g, b), a),
{
}

/// Any element of the sample sequence may be folded in first.
proof fn lemma_gauge_fold_pull(g: GaugeModel, s: Seq<int>, j: int)
    requires
        0 <= j < s.len(),
    ensures
        gauge_fold(g, s) == gauge_fold(gauge_append(g, s[j]), s.remove(j)),
    decreases j,
{
    if j == 0 {
        assert(s.remove(0) =~= s.drop_first());
    } else {
        let t = s.drop_first();
        let g0 = gauge_append(g, s[0]);
        lemma_gauge_fold_pull(g0, t, j - 1);
        lemma_gauge_append_commutes(g, s[0], s[j]);
        assert(t.remove(j - 1) =~= s.remove(j).drop_first());
        assert(gauge_fold(gauge_append(g, s[j]), s.remove(j))
            == gauge_fold(gauge_append(gauge_append(g, s[j]), s[0]), s.remove(j).drop_first()));
    }
}

/// Concurrent aggregation is deterministic: folding two sequences that
/// hold the same multiset of samples — the same `append` calls in any
/// order — yields the same final statistics.
pub proof fn lemma_gauge_fold_order_irrelevant(g: GaugeModel, s1: Seq<int>, s2: Seq<int>)
    requires
        s1.to_multiset() == s2.to_multiset(),
    ensures
        gauge_fold(g, s1) == gauge_fold(g, s2),
    decreases s1.len(),
{
    s1.to_multiset_ensures();
    s2.to_multiset_ensures();
    if s1.len() == 0 {
        assert(s2.len() == 0);
    } else {
        let x = s1[0];
        assert(s1.contains(x));
        assert(s2.to_multiset().count(x) > 0);
        assert(s2.contains(x));
        let j = choose|j: int| 0 <= j < s2.len() && s2[j] == x;
        lemma_gauge_fold_pull(g, s2, j);
        assert(s1.drop_first() =~= s1.remove(0));
        assert(s1.remove(0).to_multiset() == s2.remove(j).to_multiset());
        lemma_gauge_fold_order_irrelevant(gauge_append(g, x), s1.drop_first(), s2.remove(j));
    }
}

/// Division truncating toward zero, as the executable `/` computes it
/// on signed operands (spec `/` is Euclidean).
pub open spec fn trunc_div(a: int, b: int) -> int {
    if a >= 0 {
        a / b
    } else {
        -((-a) / b)
    }
}

/// Running latency statistics, cumulative for the lifetime of the process.
#[derive(Debug, Clone)]
pub struct Gauge {
    best_ms: i64,
    total_ms: i64,
    worst_ms: i64,
    count: i64,
}

impl View for Gauge {
    type V = GaugeModel;

    closed spec fn view(&self) -> GaugeModel {
        GaugeModel {
            best: self.best_ms as int,
            worst: self.worst_ms as int,
            total: self.total_ms as int,
            count: self.count as int,
        }
    }
}

impl Gauge {
    /// Creates the empty gauge: count 0, best at the `+∞` sentinel,
    /// worst at the `−∞` sentinel.
    pub fn new() -> (g: Gauge)
        ensures
            g@ == gauge_init(),
    {
        Gauge { best_ms: i64::MAX, total_ms: 0, worst_ms: i64::MIN, count: 0 }
    }

    /// Folds one latency sample into the running statistics.
    pub fn append(&mut self, time_ms: i64)
        requires
            i64::MIN <= old(self)@.total + time_ms <= i64::MAX,
            old(self)@.count < i64::MAX,
        ensures
            final(self)@ == gauge_append(old(self)@, time_ms as int),
    {
        if time_ms < self.best_ms {
            self.best_ms = time_ms;
        }
        if time_ms > self.worst_ms {
            self.worst_ms = time_ms;
        }
        self.total_ms = self.total_ms + time_ms;
        self.count = self.count + 1;
    }

    /// Truncating average of all samples; callers must rule out the
    /// zero-sample state.
    pub fn avg_ms(&self) -> (r: i64)
        requires
            self@.count > 0,
        ensures
            r == trunc_div(self@.total, self@.count),
    {
        self.total_ms / self.count
    }

    pub fn best_ms(&self) -> (r: i64)
        ensures
            r == self@.best,
    {
        self.best_ms
    }

    pub fn worst_ms(&self) -> (r: i64)
        ensures
            r == self@.worst,
    {
        self.worst_ms
    }

    pub fn total_ms(&self) -> (r: i64)
        ensures
            r == self@.total,
    {
        self.total_ms
    }

    pub fn count(&self) -> (r: i64)
        ensures
            r == self@.count,
    {
        self.count
    }

    /// An independent point-in-time copy; nothing is reset.
    pub fn snapshot(&self) -> (g: Gauge)
        ensures
            g@ == self@,
    {
        Gauge {
            best_ms: self.best_ms,
            total_ms: self.total_ms,
            worst_ms: self.worst_ms,
            count: self.count,
        }
    }
}

} // verus!
