use vstd::prelude::*;
use crate::average::{recomputed, MovingAverageTracker};
use crate::candle::{candle_of, BarUpdate, Candle};
use crate::models::{KlineData, KlineResponse};
use crate::window::{appended, replaced_last, tail, RollingWindow};

verus! {

/// The span of the moving average of a chart made by [`CandlestickChart::new`].
pub const MA_WINDOW_SIZE: usize = 50;

/// The number of bars that a chart shows unless it is told otherwise.
pub const VISIBLE_RANGE: usize = 50;

/// What a chart holds, as mathematics: its bars and averages, oldest first,
/// and the three numbers it was configured with.
pub struct ChartView {
    pub bars: Seq<Candle>,
    pub averages: Seq<i64>,
    pub capacity: nat,
    pub visible_range: nat,
    pub window_size: nat,
}

/// The bars of a chart after one update: a closed bar is appended, an open
/// one overwrites the newest.
pub open spec fn next_bars(bars: Seq<Candle>, capacity: nat, update: BarUpdate) -> Seq<Candle> {
    if update.is_final {
        appended(bars, capacity, update.bar)
    } else {
        replaced_last(bars, update.bar)
    }
}

/// A chart after one update: the window moves first, then the average of the
/// moved window joins the series.
pub open spec fn step(chart: ChartView, update: BarUpdate) -> ChartView {
    let bars = next_bars(chart.bars, chart.capacity, update);
    ChartView {
        bars,
        averages: recomputed(chart.averages, chart.visible_range, bars, chart.window_size),
        ..chart
    }
}

/// A chart after a feed record: the record's bar is folded in, closed or
/// open as the record says; a record that gives no bar leaves the chart as
/// it is.
pub open spec fn step_from_kline(chart: ChartView, data: KlineData) -> ChartView {
    match candle_of(data) {
        Some(bar) => step(chart, BarUpdate { bar, is_final: data.confirm }),
        None => chart,
    }
}

/// A chart after the records of one feed message, folded in the order in
/// which the message holds them.
pub open spec fn run_from_klines(chart: ChartView, records: Seq<KlineData>) -> ChartView
    decreases records.len(),
{
    if records.len() == 0 {
        chart
    } else {
        step_from_kline(run_from_klines(chart, records.drop_last()), records.last())
    }
}

/// A chart after a run of updates, applied in the order given.
pub open spec fn run(chart: ChartView, updates: Seq<BarUpdate>) -> ChartView
    decreases updates.len(),
{
    if updates.len() == 0 {
        chart
    } else {
        step(run(chart, updates.drop_last()), updates.last())
    }
}

impl ChartView {
    /// A chart that no update has reached.
    pub open spec fn empty(capacity: nat, visible_range: nat, window_size: nat) -> ChartView {
        ChartView {
            bars: Seq::empty(),
            averages: Seq::empty(),
            capacity,
            visible_range,
            window_size,
        }
    }

    /// The bounds that every chart keeps: the window within its capacity, the
    /// series within the visible range, and an average for every bar shown.
    pub open spec fn valid(self) -> bool {
        &&& 1 <= self.visible_range <= self.capacity
        &&& 1 <= self.window_size
        &&& self.bars.len() <= self.capacity
        &&& self.averages.len() <= self.visible_range
        &&& self.bars.len() <= self.visible_range ==> self.bars.len() <= self.averages.len()
        &&& self.bars.len() > self.visible_range ==> self.averages.len() == self.visible_range
    }

    /// The window and the series have the same length.
    pub open spec fn lockstep(self) -> bool {
        self.averages.len() == self.bars.len()
    }

    /// The bars on screen.
    pub open spec fn shown_bars(self) -> Seq<Candle> {
        tail(self.bars, self.visible_range)
    }

    /// The averages on screen: as many as there are bars on screen.
    pub open spec fn shown_averages(self) -> Seq<i64> {
        tail(self.averages, self.shown_bars().len())
    }
}

/// A copy of what is on screen, taken between two updates.
#[derive(Clone, Debug, PartialEq, Eq)]
pub struct Snapshot {
    pub bars: Vec<Candle>,
    pub averages: Vec<i64>,
}

/// The chart engine: a rolling window of bars and the moving average beside
/// it, moved together by [`CandlestickChart::update`].
pub struct CandlestickChart {
    window: RollingWindow,
    averages: MovingAverageTracker,
}

impl View for CandlestickChart {
    type V = ChartView;

    closed spec fn view(&self) -> ChartView {
        ChartView {
            bars: self.window@,
            averages: self.averages@,
            capacity: self.window.spec_capacity(),
            visible_range: self.window.spec_visible_range(),
            window_size: self.averages.spec_window_size(),
        }
    }
}

impl CandlestickChart {
    /// The two parts agree on the visible range.
    pub closed spec fn parts_wf(&self) -> bool {
        &&& self.window.wf()
        &&& self.averages.wf()
        &&& self.averages.spec_limit() == self.window.spec_visible_range()
    }

    /// Both parts are well formed and the chart keeps its bounds.
    pub open spec fn wf(&self) -> bool {
        &&& self.parts_wf()
        &&& self@.valid()
    }

    /// An empty chart that retains and shows `visible_range` bars and
    /// averages over the last [`MA_WINDOW_SIZE`] of them.
    pub fn new(visible_range: usize) -> (chart: CandlestickChart)
        requires
            visible_range >= 1,
        ensures
            chart.wf(),
            chart@ == ChartView::empty(
                visible_range as nat,
                visible_range as nat,
                MA_WINDOW_SIZE as nat,
            ),
    {
        CandlestickChart::with_config(visible_range, visible_range, MA_WINDOW_SIZE)
    }

    /// An empty chart that retains `capacity` bars, shows the newest
    /// `visible_range` of them and averages over `window_size` bars.
    pub fn with_config(capacity: usize, visible_range: usize, window_size: usize) -> (chart:
        CandlestickChart)
        requires
            1 <= visible_range <= capacity,
            1 <= window_size,
        ensures
            chart.wf(),
            chart@ == ChartView::empty(
                capacity as nat,
                visible_range as nat,
                window_size as nat,
            ),
    {
        CandlestickChart {
            window: RollingWindow::new(capacity, visible_range),
            averages: MovingAverageTracker::new(window_size, visible_range),
        }
    }

    /// The greatest number of bars retained.
    pub fn capacity(&self) -> (n: usize)
        ensures
            n == self@.capacity,
    {
        self.window.capacity()
    }

    /// The greatest number of bars shown.
    pub fn visible_range(&self) -> (n: usize)
        ensures
            n == self@.visible_range,
    {
        self.window.visible_range()
    }

    /// The span of the moving average, in bars.
    pub fn window_size(&self) -> (n: usize)
        ensures
            n == self@.window_size,
    {
        self.averages.window_size()
    }

    /// The number of bars retained.
    pub fn len(&self) -> (n: usize)
        ensures
            n == self@.bars.len(),
    {
        self.window.len()
    }

    /// The number of averages retained.
    pub fn average_count(&self) -> (n: usize)
        ensures
            n == self@.averages.len(),
    {
        self.averages.len()
    }

    /// Folds one feed event into the chart.
    pub fn update(&mut self, update: BarUpdate)
        requires
            old(self).wf(),
        ensures
            final(self).wf(),
            final(self)@ == step(old(self)@, update),
            final(self)@.bars.len() <= old(self)@.capacity,
            1 <= final(self)@.bars.len(),
    {
        if update.is_final {
            self.window.append(update.bar);
        } else {
            self.window.replace_last(update.bar);
        }
        self.averages.recompute(&self.window);
    }

    /// Folds one feed record into the chart, or drops it where its prices
    /// do not read.
    pub fn update_from_kline(&mut self, kline_data: &KlineData)
        requires
            old(self).wf(),
        ensures
            final(self).wf(),
            final(self)@ == step_from_kline(old(self)@, *kline_data),
    {
        match Candle::from_kline_data(kline_data) {
            Some(bar) => {
                self.update(BarUpdate { bar, is_final: kline_data.confirm });
            },
            None => {},
        }
    }

    /// Folds the records of one feed message into the chart, in their
    /// order.
    pub fn update_from_response(&mut self, response: &KlineResponse)
        requires
            old(self).wf(),
        ensures
            final(self).wf(),
            final(self)@ == run_from_klines(old(self)@, response.data@),
    {
        let mut i: usize = 0;
        while i < response.data.len()
            invariant
                i <= response.data@.len(),
                self.wf(),
                self@ == run_from_klines(old(self)@, response.data@.subrange(0, i as int)),
            decreases response.data@.len() - i,
        {
            assert(response.data@.subrange(0, i + 1).drop_last() =~= response.data@.subrange(
                0,
                i as int,
            ));
            self.update_from_kline(&response.data[i]);
            i += 1;
        }
        assert(response.data@.subrange(0, i as int) =~= response.data@);
    }

    /// What is on screen now: the newest bars and as many of the newest
    /// averages.
    pub fn snapshot(&self) -> (shot: Snapshot)
        requires
            self.wf(),
        ensures
            shot.bars@ == self@.shown_bars(),
            shot.averages@ == self@.shown_averages(),
            shot.bars@.len() == shot.averages@.len(),
    {
        let bars = self.window.visible_slice();
        let averages = self.averages.newest(bars.len());
        Snapshot { bars, averages }
    }
}

} // verus!
