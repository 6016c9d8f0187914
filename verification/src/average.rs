use std::collections::VecDeque;
use vstd::prelude::*;
use crate::arith::floor_div;
use crate::candle::Candle;
use crate::window::{tail, RollingWindow};

verus! {

/// The sum of the closing prices of `bars`.
pub open spec fn sum_closes(bars: Seq<Candle>) -> int
    decreases bars.len(),
{
    if bars.len() == 0 {
        0
    } else {
        sum_closes(bars.drop_last()) + bars.last().close
    }
}

/// The mean close of the newest `window_size` bars, or of all of them while
/// fewer are there, rounded down to a whole tick.
pub open spec fn trailing_mean(bars: Seq<Candle>, window_size: nat) -> int
    recommends
        bars.len() > 0,
        window_size > 0,
{
    let recent = tail(bars, window_size);
    sum_closes(recent) / (recent.len() as int)
}

/// A series of averages after one more window mutation: the mean of `bars`
/// joins at the end and the series keeps its newest `limit` values. Over no
/// bars there is no mean, and the series stays as it is.
pub open spec fn recomputed(series: Seq<i64>, limit: nat, bars: Seq<Candle>, window_size: nat) -> Seq<
    i64,
> {
    if bars.len() == 0 {
        series
    } else {
        tail(series.push(trailing_mean(bars, window_size) as i64), limit)
    }
}

/// The sum of `n` closes lies between `n` times the least and `n` times the
/// greatest price.
pub proof fn lemma_sum_closes_bounds(bars: Seq<Candle>)
    ensures
        bars.len() * i64::MIN <= sum_closes(bars) <= bars.len() * i64::MAX,
    decreases bars.len(),
{
    if bars.len() > 0 {
        lemma_sum_closes_bounds(bars.drop_last());
    }
}

/// One more bar adds its close to the sum.
pub proof fn lemma_sum_closes_push(bars: Seq<Candle>, bar: Candle)
    ensures
        sum_closes(bars.push(bar)) == sum_closes(bars) + bar.close,
{
    assert(bars.push(bar).drop_last() =~= bars);
}

/// The mean of prices is itself a price.
pub proof fn lemma_trailing_mean_is_price(bars: Seq<Candle>, window_size: nat)
    requires
        bars.len() > 0,
        window_size > 0,
    ensures
        i64::MIN <= trailing_mean(bars, window_size) <= i64::MAX,
{
    let recent = tail(bars, window_size);
    lemma_sum_closes_bounds(recent);
    let n = recent.len() as int;
    let s = sum_closes(recent);
    let lo = i64::MIN as int;
    let hi = i64::MAX as int;
    assert(lo <= s / n <= hi) by (nonlinear_arith)
        requires
            n > 0,
            n * lo <= s <= n * hi,
    ;
}

/// The moving-average series kept beside a window of bars.
pub struct MovingAverageTracker {
    values: VecDeque<i64>,
    window_size: usize,
    limit: usize,
}

impl View for MovingAverageTracker {
    type V = Seq<i64>;

    closed spec fn view(&self) -> Seq<i64> {
        self.values@
    }
}

impl MovingAverageTracker {
    /// The span of the average, in bars.
    pub closed spec fn spec_window_size(&self) -> nat {
        self.window_size as nat
    }

    /// The greatest number of averages kept.
    pub closed spec fn spec_limit(&self) -> nat {
        self.limit as nat
    }

    /// The series spans at least one bar and keeps within its limit.
    pub open spec fn wf(&self) -> bool {
        &&& self.spec_window_size() >= 1
        &&& self.spec_limit() >= 1
        &&& self@.len() <= self.spec_limit()
    }

    /// An empty series of averages over `window_size` bars that keeps `limit` of them.
    pub fn new(window_size: usize, limit: usize) -> (t: MovingAverageTracker)
        requires
            window_size >= 1,
            limit >= 1,
        ensures
            t.wf(),
            t@ == Seq::<i64>::empty(),
            t.spec_window_size() == window_size,
            t.spec_limit() == limit,
    {
        MovingAverageTracker { values: VecDeque::new(), window_size, limit }
    }

    /// The span of the average, in bars.
    pub fn window_size(&self) -> (n: usize)
        ensures
            n == self.spec_window_size(),
    {
        self.window_size
    }

    /// The greatest number of averages kept.
    pub fn limit(&self) -> (n: usize)
        ensures
            n == self.spec_limit(),
    {
        self.limit
    }

    /// The number of averages kept now.
    pub fn len(&self) -> (n: usize)
        ensures
            n == self@.len(),
    {
        self.values.len()
    }

    /// The average at `index`, counted from the oldest.
    pub fn get(&self, index: usize) -> (value: Option<i64>)
        ensures
            value == (if index < self@.len() {
                Some(self@[index as int])
            } else {
                None
            }),
    {
        if index < self.values.len() {
            Some(self.values[index])
        } else {
            None
        }
    }

    /// The newest `count` averages, oldest first.
    pub fn newest(&self, count: usize) -> (shown: Vec<i64>)
        ensures
            shown@ == tail(self@, count as nat),
    {
        let n: usize = self.values.len();
        let start: usize = if n <= count {
            0
        } else {
            n - count
        };
        let mut shown: Vec<i64> = Vec::new();
        let mut i: usize = start;
        while i < n
            invariant
                start <= i <= n,
                n == self.values@.len(),
                shown@ == self.values@.subrange(start as int, i as int),
            decreases n - i,
        {
            shown.push(self.values[i]);
            assert(self.values@.subrange(start as int, i + 1) =~= self.values@.subrange(
                start as int,
                i as int,
            ).push(self.values@[i as int]));
            i += 1;
        }
        assert(shown@ =~= tail(self@, count as nat));
        shown
    }

    /// Takes the mean close of the newest bars of `window` into the series.
    pub fn recompute(&mut self, window: &RollingWindow)
        requires
            old(self).wf(),
        ensures
            final(self).wf(),
            final(self).spec_window_size() == old(self).spec_window_size(),
            final(self).spec_limit() == old(self).spec_limit(),
            final(self)@ == recomputed(
                old(self)@,
                old(self).spec_limit(),
                window@,
                old(self).spec_window_size(),
            ),
    {
        let n: usize = window.len();
        if n == 0 {
            return ;
        }
        let start: usize = if n <= self.window_size {
            0
        } else {
            n - self.window_size
        };
        let ghost recent = tail(window@, self.spec_window_size());
        assert(recent =~= window@.subrange(start as int, n as int));
        let mut sum: i128 = 0;
        let mut i: usize = start;
        while i < n
            invariant
                start <= i <= n,
                n == window@.len(),
                sum == sum_closes(window@.subrange(start as int, i as int)),
                (i - start) * i64::MIN <= sum <= (i - start) * i64::MAX,
            decreases n - i,
        {
            let bar = window.bar(i);
            proof {
                lemma_sum_closes_push(window@.subrange(start as int, i as int), bar);
                assert(window@.subrange(start as int, i + 1) =~= window@.subrange(
                    start as int,
                    i as int,
                ).push(bar));
            }
            sum = sum + bar.close as i128;
            i += 1;
        }
        let count: usize = n - start;
        proof {
            lemma_trailing_mean_is_price(window@, self.spec_window_size());
        }
        let mean: i128 = floor_div(sum, count as i128);
        self.values.push_back(mean as i64);
        if self.values.len() > self.limit {
            let _ = self.values.pop_front();
        }
        assert(self.values@ =~= recomputed(
            old(self)@,
            old(self).spec_limit(),
            window@,
            old(self).spec_window_size(),
        ));
    }
}

} // verus!
