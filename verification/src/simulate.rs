use rand::Rng;
use vstd::prelude::*;
use crate::arith::floor_div;
use crate::candle::{BarUpdate, Candle};
use crate::chart::{step, CandlestickChart, ChartView, MA_WINDOW_SIZE};
use crate::render::{plan_of, DrawPlan};

verus! {

/// The open of the bar that a simulated chart starts with.
pub const INITIAL_PRICE: i64 = 100_000_000;

/// The high of that bar: five hundredths above its open.
pub const INITIAL_HIGH: i64 = 105_000_000;

/// The low of that bar: two hundredths below its open.
pub const INITIAL_LOW: i64 = 98_000_000;

/// The close of that bar: three hundredths above its open.
pub const INITIAL_CLOSE: i64 = 103_000_000;

/// A simulated close moves by less than this many millionths of the last
/// price, up or down.
pub const CHANGE_LIMIT: i64 = 20_000;

/// High and low of a simulated bar lie within a hundredth of the last
/// price from its close.
pub const VOLATILITY_DIVISOR: i64 = 100;

/// The nearest price to `v`.
pub open spec fn clamped(v: int) -> i64 {
    if v < i64::MIN {
        i64::MIN
    } else if v > i64::MAX {
        i64::MAX
    } else {
        v as i64
    }
}

/// The bound below which rise and fall of the next bar are drawn: a
/// hundredth of the last price, and at least one tick.
pub open spec fn spread_limit(last_price: i64) -> int {
    if last_price >= VOLATILITY_DIVISOR {
        (last_price as int) / (VOLATILITY_DIVISOR as int)
    } else {
        1
    }
}

/// The bar that follows `last_price` for a change in millionths of it, a
/// rise of the high above the body and a fall of the low below it. The bar
/// opens at the last price; its body lies between open and close.
pub open spec fn simulated_candle(last_price: i64, change: i64, rise: i64, fall: i64) -> Candle {
    let close = clamped(last_price + (last_price * change) / 1_000_000);
    let top = if close >= last_price {
        close
    } else {
        last_price
    };
    let bottom = if close >= last_price {
        last_price
    } else {
        close
    };
    Candle { open: last_price, high: clamped(top + rise), low: clamped(bottom - fall), close }
}

/// The three numbers that may be drawn for the bar after `last_price`.
pub open spec fn drawable(last_price: i64, change: i64, rise: i64, fall: i64) -> bool {
    &&& -CHANGE_LIMIT <= change < CHANGE_LIMIT
    &&& 0 <= rise < spread_limit(last_price)
    &&& 0 <= fall < spread_limit(last_price)
}

/// The bar that a simulated chart starts with.
pub open spec fn initial_candle() -> Candle {
    Candle { open: INITIAL_PRICE, high: INITIAL_HIGH, low: INITIAL_LOW, close: INITIAL_CLOSE }
}

/// A number drawn from `rand::thread_rng()` by `Rng::gen_range(low..high)`,
/// which returns a number of the half-open range and panics on an empty one.
/// Nothing is claimed of which number comes.
#[verifier::external_body]
fn random_in(low: i64, high: i64) -> (drawn: i64)
    requires
        low < high,
    ensures
        low <= drawn < high,
{
    rand::thread_rng().gen_range(low..high)
}

/// The nearest price to `v`.
fn clamp_price(v: i128) -> (price: i64)
    ensures
        price == clamped(v as int),
{
    if v < i64::MIN as i128 {
        i64::MIN
    } else if v > i64::MAX as i128 {
        i64::MAX
    } else {
        v as i64
    }
}

/// The bar that follows `last_price` for the three numbers given. With a
/// rise and a fall that are not negative, wick and body of the bar are in
/// order.
pub fn next_candle(last_price: i64, change: i64, rise: i64, fall: i64) -> (bar: Candle)
    ensures
        bar == simulated_candle(last_price, change, rise, fall),
        rise >= 0 && fall >= 0 ==> bar.well_shaped(),
{
    assert(-0x4000_0000_0000_0000_0000_0000_0000_0000 <= last_price * change
        <= 0x4000_0000_0000_0000_0000_0000_0000_0000) by (nonlinear_arith)
        requires
            -0x8000_0000_0000_0000 <= last_price <= 0x8000_0000_0000_0000,
            -0x8000_0000_0000_0000 <= change <= 0x8000_0000_0000_0000,
    ;
    let product: i128 = last_price as i128 * change as i128;
    let movement: i128 = floor_div(product, 1_000_000);
    let close: i64 = clamp_price(last_price as i128 + movement);
    let (top, bottom) = if close >= last_price {
        (close, last_price)
    } else {
        (last_price, close)
    };
    Candle {
        open: last_price,
        high: clamp_price(top as i128 + rise as i128),
        low: clamp_price(bottom as i128 - fall as i128),
        close,
    }
}

/// What a simulated chart holds: a chart, and the close of its newest bar.
pub struct SimulatedView {
    pub chart: ChartView,
    pub last_price: i64,
}

/// A simulated chart after a bar made from the three numbers given.
pub open spec fn simulated_step(sim: SimulatedView, change: i64, rise: i64, fall: i64) -> SimulatedView {
    let bar = simulated_candle(sim.last_price, change, rise, fall);
    SimulatedView {
        chart: step(sim.chart, BarUpdate { bar, is_final: true }),
        last_price: bar.close,
    }
}

/// A chart that makes its own bars: each opens at the last close and moves
/// from it by a random step.
pub struct SimulatedChart {
    chart: CandlestickChart,
    last_price: i64,
}

impl View for SimulatedChart {
    type V = SimulatedView;

    closed spec fn view(&self) -> SimulatedView {
        SimulatedView { chart: self.chart@, last_price: self.last_price }
    }
}

impl SimulatedChart {
    /// The chart inside is well formed.
    pub closed spec fn wf(&self) -> bool {
        self.chart.wf()
    }

    /// A chart of `visible_range` bars that holds the initial bar.
    pub fn new(visible_range: usize) -> (sim: SimulatedChart)
        requires
            visible_range >= 1,
        ensures
            sim.wf(),
            sim@.last_price == initial_candle().close,
            sim@.chart == step(
                ChartView::empty(visible_range as nat, visible_range as nat, MA_WINDOW_SIZE as nat),
                BarUpdate { bar: initial_candle(), is_final: true },
            ),
    {
        let bar = Candle::new(INITIAL_PRICE, INITIAL_HIGH, INITIAL_LOW, INITIAL_CLOSE);
        let mut chart = CandlestickChart::new(visible_range);
        chart.update(BarUpdate { bar, is_final: true });
        SimulatedChart { chart, last_price: bar.close }
    }

    /// The close of the newest bar.
    pub fn last_price(&self) -> (price: i64)
        ensures
            price == self@.last_price,
    {
        self.last_price
    }

    /// The chart that the bars go into.
    pub fn chart(&self) -> (chart: &CandlestickChart)
        ensures
            chart@ == self@.chart,
            self.wf() ==> chart.wf(),
    {
        &self.chart
    }

    /// Appends the bar made from the three numbers given. With a rise and a
    /// fall that are not negative, the bar appended is well shaped.
    pub fn advance(&mut self, change: i64, rise: i64, fall: i64)
        requires
            old(self).wf(),
        ensures
            final(self).wf(),
            final(self)@ == simulated_step(old(self)@, change, rise, fall),
            final(self)@.chart.bars.len() > 0,
            final(self)@.chart.bars.last() == simulated_candle(
                old(self)@.last_price,
                change,
                rise,
                fall,
            ),
            rise >= 0 && fall >= 0 ==> final(self)@.chart.bars.last().well_shaped(),
    {
        let bar = next_candle(self.last_price, change, rise, fall);
        self.last_price = bar.close;
        self.chart.update(BarUpdate { bar, is_final: true });
    }

    /// Draws the three numbers and appends the bar made from them. Whatever
    /// is drawn, the bar opens at the last close and is well shaped.
    pub fn generate_new_candle(&mut self)
        requires
            old(self).wf(),
        ensures
            final(self).wf(),
            exists|change: i64, rise: i64, fall: i64|
                drawable(old(self)@.last_price, change, rise, fall) && final(self)@
                    == #[trigger] simulated_step(old(self)@, change, rise, fall),
            final(self)@.chart.bars.len() > 0,
            final(self)@.chart.bars.last().open == old(self)@.last_price,
            final(self)@.chart.bars.last().close == final(self)@.last_price,
            final(self)@.chart.bars.last().well_shaped(),
    {
        let limit: i64 = if self.last_price >= VOLATILITY_DIVISOR {
            self.last_price / VOLATILITY_DIVISOR
        } else {
            1
        };
        let change = random_in(-CHANGE_LIMIT, CHANGE_LIMIT);
        let rise = random_in(0, limit);
        let fall = random_in(0, limit);
        self.advance(change, rise, fall);
    }

    /// The plan for what the chart shows now.
    pub fn draw(&self) -> (plan: DrawPlan)
        requires
            self.wf(),
        ensures
            plan@ == plan_of(self@.chart.shown_bars(), self@.chart.shown_averages()),
    {
        self.chart.draw()
    }
}

} // verus!
