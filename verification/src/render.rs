use vstd::prelude::*;
use crate::arith::floor_div;
use crate::candle::{Candle, PRICE_SCALE};
use crate::chart::{CandlestickChart, Snapshot};

verus! {

/// Horizontal steps in one bar slot.
pub const SLOT_WIDTH: i128 = 10;

/// Horizontal steps that the body of a bar covers, from the left of its slot.
pub const BODY_WIDTH: i128 = 8;

/// Horizontal steps from the left of a slot to the wick of its bar.
pub const WICK_OFFSET: i128 = 4;

/// A body lower than this many ticks is drawn as a flat mark.
pub const FLAT_EPSILON: i128 = 1_000;

/// The number of price levels labelled on the axis.
pub const AXIS_LEVELS: usize = 5;

/// What a primitive stands for, which the sink turns into a colour.
#[derive(Clone, Copy, Debug, PartialEq, Eq, Structural)]
pub enum Tone {
    Up,
    Down,
    Average,
}

/// What a label says. The sink writes the prices out.
#[derive(Clone, Copy, Debug, PartialEq, Eq, Structural)]
pub enum Caption {
    Waiting,
    AxisPrice(i128),
    CurrentClose(i64),
    CurrentAverage(i64),
}

/// One thing to draw. Horizontal coordinates count steps of a slot, vertical
/// ones count ticks.
#[derive(Clone, Copy, Debug, PartialEq, Eq, Structural)]
pub enum Primitive {
    Line { x1: i128, y1: i128, x2: i128, y2: i128, tone: Tone },
    Fill { left: i128, right: i128, bottom: i128, top: i128, tone: Tone },
    Text { x: i128, y: i128, caption: Caption },
}

/// Everything to draw for one frame, in painting order, and the bounds of
/// the area it is drawn in.
#[derive(Clone, Debug, PartialEq, Eq)]
pub struct DrawPlan {
    pub x_min: i128,
    pub x_max: i128,
    pub y_min: i128,
    pub y_max: i128,
    pub primitives: Vec<Primitive>,
}

/// A draw plan as mathematics.
pub struct DrawPlanView {
    pub x_min: int,
    pub x_max: int,
    pub y_min: int,
    pub y_max: int,
    pub primitives: Seq<Primitive>,
}

impl View for DrawPlan {
    type V = DrawPlanView;

    open spec fn view(&self) -> DrawPlanView {
        DrawPlanView {
            x_min: self.x_min as int,
            x_max: self.x_max as int,
            y_min: self.y_min as int,
            y_max: self.y_max as int,
            primitives: self.primitives@,
        }
    }
}

/// The lowest low of `bars`.
pub open spec fn min_low(bars: Seq<Candle>) -> int
    recommends
        bars.len() > 0,
    decreases bars.len(),
{
    if bars.len() <= 1 {
        bars[0].low as int
    } else {
        let rest = min_low(bars.drop_last());
        if bars.last().low < rest {
            bars.last().low as int
        } else {
            rest
        }
    }
}

/// The highest high of `bars`.
pub open spec fn max_high(bars: Seq<Candle>) -> int
    recommends
        bars.len() > 0,
    decreases bars.len(),
{
    if bars.len() <= 1 {
        bars[0].high as int
    } else {
        let rest = max_high(bars.drop_last());
        if bars.last().high > rest {
            bars.last().high as int
        } else {
            rest
        }
    }
}

/// A tenth of the price range, which is left free below and above it.
pub open spec fn padding(min_price: int, max_price: int) -> int {
    (max_price - min_price) / 10
}

/// The lower end of the price axis.
pub open spec fn lower_bound(min_price: int, max_price: int) -> int {
    min_price - padding(min_price, max_price)
}

/// The upper end of the price axis.
pub open spec fn upper_bound(min_price: int, max_price: int) -> int {
    max_price + padding(min_price, max_price)
}

/// The price of axis level `k`: the levels divide the height evenly, the
/// first at the lower bound and the last at the upper.
pub open spec fn axis_level(min_price: int, max_price: int, k: int) -> int {
    let low = lower_bound(min_price, max_price);
    let high = upper_bound(min_price, max_price);
    low + ((high - low) * k) / (AXIS_LEVELS - 1)
}

/// The labels of the price axis, to the right of the last slot.
pub open spec fn axis_labels(slots: nat, min_price: int, max_price: int) -> Seq<Primitive> {
    Seq::new(
        AXIS_LEVELS as nat,
        |k: int|
            Primitive::Text {
                x: (slots * SLOT_WIDTH + SLOT_WIDTH / 2) as i128,
                y: axis_level(min_price, max_price, k) as i128,
                caption: Caption::AxisPrice(axis_level(min_price, max_price, k) as i128),
            },
    )
}

/// Up for a bullish bar, down for any other.
pub open spec fn tone_of(bar: Candle) -> Tone {
    if bar.bullish() {
        Tone::Up
    } else {
        Tone::Down
    }
}

/// The higher of open and close.
pub open spec fn body_top(bar: Candle) -> int {
    if bar.bullish() {
        bar.close as int
    } else {
        bar.open as int
    }
}

/// The lower of open and close.
pub open spec fn body_bottom(bar: Candle) -> int {
    if bar.bullish() {
        bar.open as int
    } else {
        bar.close as int
    }
}

/// A bar whose open and close are closer than [`FLAT_EPSILON`].
pub open spec fn is_flat(bar: Candle) -> bool {
    body_top(bar) - body_bottom(bar) < FLAT_EPSILON
}

/// The wick of the bar in `slot`: a vertical line from its low to its high.
pub open spec fn wick(slot: int, bar: Candle) -> Primitive {
    Primitive::Line {
        x1: (slot * SLOT_WIDTH + WICK_OFFSET) as i128,
        y1: bar.low as i128,
        x2: (slot * SLOT_WIDTH + WICK_OFFSET) as i128,
        y2: bar.high as i128,
        tone: tone_of(bar),
    }
}

/// A horizontal mark across the body's width at `price`.
pub open spec fn flat_mark(slot: int, price: int, tone: Tone) -> Primitive {
    Primitive::Line {
        x1: (slot * SLOT_WIDTH) as i128,
        y1: price as i128,
        x2: (slot * SLOT_WIDTH + BODY_WIDTH) as i128,
        y2: price as i128,
        tone,
    }
}

/// A filled rectangle across the body's width between two prices.
pub open spec fn filled_body(slot: int, top: int, bottom: int, tone: Tone) -> Primitive {
    Primitive::Fill {
        left: (slot * SLOT_WIDTH) as i128,
        right: (slot * SLOT_WIDTH + BODY_WIDTH) as i128,
        bottom: bottom as i128,
        top: top as i128,
        tone,
    }
}

/// The body of the bar in `slot`: a flat mark for a flat bar, else a filled
/// rectangle between open and close.
pub open spec fn body(slot: int, bar: Candle) -> Primitive {
    if is_flat(bar) {
        flat_mark(slot, body_top(bar), tone_of(bar))
    } else {
        filled_body(slot, body_top(bar), body_bottom(bar), tone_of(bar))
    }
}

/// Wick and body of each bar, the bar at index `i` in slot `i`.
pub open spec fn candle_marks(bars: Seq<Candle>) -> Seq<Primitive> {
    Seq::new(
        2 * bars.len(),
        |k: int|
            if k % 2 == 0 {
                wick(k / 2, bars[k / 2])
            } else {
                body(k / 2, bars[k / 2])
            },
    )
}

/// The piece of the average line that ends in `slot`.
pub open spec fn average_segment(slot: int, from: i64, to: i64) -> Primitive {
    Primitive::Line {
        x1: ((slot - 1) * SLOT_WIDTH) as i128,
        y1: from as i128,
        x2: (slot * SLOT_WIDTH) as i128,
        y2: to as i128,
        tone: Tone::Average,
    }
}

/// The average line: one piece between each two neighbouring averages, and
/// none where fewer than two are there.
pub open spec fn average_line(averages: Seq<i64>) -> Seq<Primitive> {
    if averages.len() < 2 {
        Seq::empty()
    } else {
        Seq::new(
            (averages.len() - 1) as nat,
            |k: int| average_segment(k + 1, averages[k], averages[k + 1]),
        )
    }
}

/// The height of an annotation: `percent` hundredths of the upper bound.
pub open spec fn annotation_height(upper: int, percent: int) -> int {
    (upper * percent) / 100
}

/// The newest close and, where there is one, the newest average, written
/// near the top of the area. Without a bar there is nothing to write.
pub open spec fn annotations(bars: Seq<Candle>, averages: Seq<i64>) -> Seq<Primitive> {
    let upper = upper_bound(min_low(bars), max_high(bars));
    let close = Primitive::Text {
        x: 0,
        y: annotation_height(upper, 95) as i128,
        caption: Caption::CurrentClose(bars.last().close),
    };
    if bars.len() == 0 {
        Seq::empty()
    } else if averages.len() == 0 {
        seq![close]
    } else {
        seq![
            close,
            Primitive::Text {
                x: 0,
                y: annotation_height(upper, 90) as i128,
                caption: Caption::CurrentAverage(averages.last()),
            },
        ]
    }
}

/// The plan shown while no bar has arrived: one label, half way up an area
/// of one slot by one price unit.
pub open spec fn waiting_plan() -> DrawPlanView {
    DrawPlanView {
        x_min: 0,
        x_max: SLOT_WIDTH as int,
        y_min: 0,
        y_max: PRICE_SCALE as int,
        primitives: seq![
            Primitive::Text { x: 0, y: (PRICE_SCALE / 2) as i128, caption: Caption::Waiting },
        ],
    }
}

/// The plan for the bars and averages on screen.
pub open spec fn plan_of(bars: Seq<Candle>, averages: Seq<i64>) -> DrawPlanView {
    if bars.len() == 0 {
        waiting_plan()
    } else {
        let min_price = min_low(bars);
        let max_price = max_high(bars);
        DrawPlanView {
            x_min: 0,
            x_max: (bars.len() + 2) * SLOT_WIDTH,
            y_min: lower_bound(min_price, max_price),
            y_max: upper_bound(min_price, max_price),
            primitives: axis_labels(bars.len(), min_price, max_price) + candle_marks(bars)
                + average_line(averages) + annotations(bars, averages),
        }
    }
}

/// The lowest low and the highest high of `bars`, where there are any.
pub fn calculate_price_range(bars: &Vec<Candle>) -> (range: Option<(i64, i64)>)
    ensures
        range == (if bars@.len() == 0 {
            None
        } else {
            Some((min_low(bars@) as i64, max_high(bars@) as i64))
        }),
        bars@.len() > 0 ==> i64::MIN <= min_low(bars@) <= i64::MAX && i64::MIN <= max_high(bars@)
            <= i64::MAX,
{
    if bars.len() == 0 {
        return None;
    }
    let mut low: i64 = bars[0].low;
    let mut high: i64 = bars[0].high;
    let mut i: usize = 1;
    assert(bars@.subrange(0, 1).len() == 1);
    while i < bars.len()
        invariant
            1 <= i <= bars@.len(),
            low == min_low(bars@.subrange(0, i as int)),
            high == max_high(bars@.subrange(0, i as int)),
        decreases bars@.len() - i,
    {
        assert(bars@.subrange(0, i + 1).drop_last() =~= bars@.subrange(0, i as int));
        if bars[i].low < low {
            low = bars[i].low;
        }
        if bars[i].high > high {
            high = bars[i].high;
        }
        i += 1;
    }
    assert(bars@.subrange(0, i as int) =~= bars@);
    Some((low, high))
}

/// The lower and upper bound of the price axis.
pub fn calculate_y_bounds(min_price: i64, max_price: i64) -> (bounds: (i128, i128))
    ensures
        bounds.0 == lower_bound(min_price as int, max_price as int),
        bounds.1 == upper_bound(min_price as int, max_price as int),
{
    let range: i128 = max_price as i128 - min_price as i128;
    let pad: i128 = floor_div(range, 10);
    (min_price as i128 - pad, max_price as i128 + pad)
}

/// The labels of the price axis for a chart of `slots` bars.
pub fn draw_price_labels(slots: usize, min_price: i64, max_price: i64) -> (labels: Vec<Primitive>)
    ensures
        labels@ == axis_labels(slots as nat, min_price as int, max_price as int),
{
    let (y_min, y_max) = calculate_y_bounds(min_price, max_price);
    let x: i128 = slots as i128 * SLOT_WIDTH + SLOT_WIDTH / 2;
    let mut labels: Vec<Primitive> = Vec::new();
    let mut k: usize = 0;
    while k < AXIS_LEVELS
        invariant
            k <= AXIS_LEVELS,
            x == slots * SLOT_WIDTH + SLOT_WIDTH / 2,
            y_min == lower_bound(min_price as int, max_price as int),
            y_max == upper_bound(min_price as int, max_price as int),
            labels@.len() == k,
            forall|j: int|
                0 <= j < k ==> labels@[j] == axis_labels(
                    slots as nat,
                    min_price as int,
                    max_price as int,
                )[j],
        decreases AXIS_LEVELS - k,
    {
        let height: i128 = y_max - y_min;
        assert(-0x8_0000_0000_0000_0000 <= height * k <= 0x8_0000_0000_0000_0000)
            by (nonlinear_arith)
            requires
                0 <= k <= 4,
                -0x2_0000_0000_0000_0000 <= height <= 0x2_0000_0000_0000_0000,
        ;
        let price: i128 = y_min + floor_div(height * k as i128, AXIS_LEVELS as i128 - 1);
        labels.push(Primitive::Text { x, y: price, caption: Caption::AxisPrice(price) });
        k += 1;
    }
    assert(labels@ =~= axis_labels(slots as nat, min_price as int, max_price as int));
    labels
}

/// The wick of the bar in `slot`.
pub fn draw_candle_wick(slot: usize, candle: &Candle) -> (mark: Primitive)
    ensures
        mark == wick(slot as int, *candle),
{
    let x: i128 = slot as i128 * SLOT_WIDTH + WICK_OFFSET;
    let tone = if candle.is_bullish() {
        Tone::Up
    } else {
        Tone::Down
    };
    Primitive::Line { x1: x, y1: candle.low as i128, x2: x, y2: candle.high as i128, tone }
}

/// The flat mark of a bar in `slot` that opened and closed at `price`.
pub fn draw_flat_candle(slot: usize, price: i64, tone: Tone) -> (mark: Primitive)
    ensures
        mark == flat_mark(slot as int, price as int, tone),
{
    let x: i128 = slot as i128 * SLOT_WIDTH;
    Primitive::Line { x1: x, y1: price as i128, x2: x + BODY_WIDTH, y2: price as i128, tone }
}

/// The filled body of a bar in `slot` between `bottom` and `top`.
pub fn draw_filled_candle(slot: usize, top: i64, bottom: i64, tone: Tone) -> (mark: Primitive)
    ensures
        mark == filled_body(slot as int, top as int, bottom as int, tone),
{
    let x: i128 = slot as i128 * SLOT_WIDTH;
    Primitive::Fill {
        left: x,
        right: x + BODY_WIDTH,
        bottom: bottom as i128,
        top: top as i128,
        tone,
    }
}

/// The body of the bar in `slot`, flat or filled.
pub fn draw_candle_body(slot: usize, candle: &Candle) -> (mark: Primitive)
    ensures
        mark == body(slot as int, *candle),
{
    let bullish = candle.is_bullish();
    let tone = if bullish {
        Tone::Up
    } else {
        Tone::Down
    };
    let (top, bottom) = if bullish {
        (candle.close, candle.open)
    } else {
        (candle.open, candle.close)
    };
    if top as i128 - (bottom as i128) < FLAT_EPSILON {
        draw_flat_candle(slot, top, tone)
    } else {
        draw_filled_candle(slot, top, bottom, tone)
    }
}

/// Wick and body of every bar, each bar in the slot of its index.
pub fn draw_candlesticks(bars: &Vec<Candle>) -> (marks: Vec<Primitive>)
    ensures
        marks@ == candle_marks(bars@),
{
    let mut marks: Vec<Primitive> = Vec::new();
    let mut i: usize = 0;
    while i < bars.len()
        invariant
            i <= bars@.len(),
            marks@.len() == 2 * i,
            forall|k: int| 0 <= k < 2 * i ==> marks@[k] == candle_marks(bars@)[k],
        decreases bars@.len() - i,
    {
        marks.push(draw_candle_wick(i, &bars[i]));
        marks.push(draw_candle_body(i, &bars[i]));
        i += 1;
    }
    assert(marks@ =~= candle_marks(bars@));
    marks
}

/// The average line through `averages`, the first of them in slot 0.
pub fn draw_average_line(averages: &Vec<i64>) -> (line: Vec<Primitive>)
    ensures
        line@ == average_line(averages@),
{
    let mut line: Vec<Primitive> = Vec::new();
    let mut i: usize = 1;
    while i < averages.len()
        invariant
            1 <= i,
            averages@.len() >= 2 ==> i <= averages@.len(),
            averages@.len() < 2 ==> i == 1,
            line@.len() == i - 1,
            forall|k: int| 0 <= k < i - 1 ==> line@[k] == average_line(averages@)[k],
        decreases averages@.len() - i,
    {
        let x: i128 = i as i128 * SLOT_WIDTH;
        line.push(
            Primitive::Line {
                x1: x - SLOT_WIDTH,
                y1: averages[i - 1] as i128,
                x2: x,
                y2: averages[i] as i128,
                tone: Tone::Average,
            },
        );
        i += 1;
    }
    assert(line@ =~= average_line(averages@));
    line
}

/// The newest close and the newest average, written near the top.
pub fn draw_indicators(bars: &Vec<Candle>, averages: &Vec<i64>) -> (notes: Vec<Primitive>)
    ensures
        notes@ == annotations(bars@, averages@),
{
    let mut notes: Vec<Primitive> = Vec::new();
    match calculate_price_range(bars) {
        Some((min_price, max_price)) => {
            let (_, y_max) = calculate_y_bounds(min_price, max_price);
            notes.push(
                Primitive::Text {
                    x: 0,
                    y: floor_div(y_max * 95, 100),
                    caption: Caption::CurrentClose(bars[bars.len() - 1].close),
                },
            );
            if averages.len() > 0 {
                notes.push(
                    Primitive::Text {
                        x: 0,
                        y: floor_div(y_max * 90, 100),
                        caption: Caption::CurrentAverage(averages[averages.len() - 1]),
                    },
                );
            }
        },
        None => {},
    }
    assert(notes@ =~= annotations(bars@, averages@));
    notes
}

/// Maps what is on screen to what is to be drawn.
pub fn map_snapshot(shot: &Snapshot) -> (plan: DrawPlan)
    ensures
        plan@ == plan_of(shot.bars@, shot.averages@),
{
    match calculate_price_range(&shot.bars) {
        None => {
            let mut primitives: Vec<Primitive> = Vec::new();
            primitives.push(
                Primitive::Text { x: 0, y: (PRICE_SCALE / 2) as i128, caption: Caption::Waiting },
            );
            assert(primitives@ =~= waiting_plan().primitives);
            DrawPlan { x_min: 0, x_max: SLOT_WIDTH, y_min: 0, y_max: PRICE_SCALE as i128, primitives }
        },
        Some((min_price, max_price)) => {
            let (y_min, y_max) = calculate_y_bounds(min_price, max_price);
            let mut primitives = draw_price_labels(shot.bars.len(), min_price, max_price);
            let mut marks = draw_candlesticks(&shot.bars);
            let mut line = draw_average_line(&shot.averages);
            let mut notes = draw_indicators(&shot.bars, &shot.averages);
            primitives.append(&mut marks);
            primitives.append(&mut line);
            primitives.append(&mut notes);
            DrawPlan {
                x_min: 0,
                x_max: (shot.bars.len() as i128 + 2) * SLOT_WIDTH,
                y_min,
                y_max,
                primitives,
            }
        },
    }
}

impl CandlestickChart {
    /// The plan for what the chart shows now.
    pub fn draw(&self) -> (plan: DrawPlan)
        requires
            self.wf(),
        ensures
            plan@ == plan_of(self@.shown_bars(), self@.shown_averages()),
    {
        let shot = self.snapshot();
        map_snapshot(&shot)
    }
}

} // verus!
