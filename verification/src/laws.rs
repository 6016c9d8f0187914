use vstd::prelude::*;
use crate::average::{sum_closes, trailing_mean};
use crate::candle::{BarUpdate, Candle};
use crate::chart::{next_bars, run, step, ChartView};
use crate::render::{
    body, candle_marks, flat_mark, plan_of, tone_of, waiting_plan, Tone, AXIS_LEVELS,
};
use crate::simulate::{drawable, simulated_candle};
use crate::window::tail;

verus! {

/// The bars that a run of updates carries, in order.
pub open spec fn bars_of(updates: Seq<BarUpdate>) -> Seq<Candle> {
    Seq::new(updates.len(), |i: int| updates[i].bar)
}

/// Every update of the run closes its bar.
pub open spec fn all_final(updates: Seq<BarUpdate>) -> bool {
    forall|i: int| 0 <= i < updates.len() ==> (#[trigger] updates[i]).is_final
}

/// One update leaves a chart within its bounds: the window holds at least
/// one bar and no more than its capacity.
pub proof fn lemma_step_keeps_bounds(chart: ChartView, update: BarUpdate)
    requires
        chart.valid(),
    ensures
        step(chart, update).valid(),
        1 <= step(chart, update).bars.len() <= chart.capacity,
        step(chart, update).capacity == chart.capacity,
        step(chart, update).visible_range == chart.visible_range,
        step(chart, update).window_size == chart.window_size,
{
}

/// Whatever updates arrive, in whatever order, the window never holds more
/// bars than its capacity.
pub proof fn lemma_run_keeps_bounds(chart: ChartView, updates: Seq<BarUpdate>)
    requires
        chart.valid(),
    ensures
        run(chart, updates).valid(),
        run(chart, updates).bars.len() <= chart.capacity,
        run(chart, updates).capacity == chart.capacity,
        run(chart, updates).visible_range == chart.visible_range,
        run(chart, updates).window_size == chart.window_size,
    decreases updates.len(),
{
    if updates.len() > 0 {
        lemma_run_keeps_bounds(chart, updates.drop_last());
        lemma_step_keeps_bounds(run(chart, updates.drop_last()), updates.last());
    }
}

/// The updates that keep window and series at one length: a closed bar
/// while the series can still grow or the window cannot, an open bar into
/// an empty window or beside a full series.
pub open spec fn keeps_lockstep(chart: ChartView, update: BarUpdate) -> bool {
    if update.is_final {
        chart.bars.len() < chart.visible_range || chart.capacity == chart.visible_range
    } else {
        chart.bars.len() == 0 || chart.bars.len() == chart.visible_range
    }
}

/// A chart whose window and series have one length keeps them so over an
/// update exactly when the update is one of those that `keeps_lockstep`
/// names.
pub proof fn lemma_update_keeps_lockstep(chart: ChartView, update: BarUpdate)
    requires
        chart.valid(),
        chart.lockstep(),
    ensures
        keeps_lockstep(chart, update) <==> step(chart, update).lockstep(),
{
}

/// A chart that shows all it retains, fed from empty with closed bars
/// only, has an average for each bar of its window after every one of them.
pub proof fn lemma_closed_bars_keep_lockstep(
    capacity: nat,
    window_size: nat,
    updates: Seq<BarUpdate>,
)
    requires
        ChartView::empty(capacity, capacity, window_size).valid(),
        all_final(updates),
    ensures
        run(ChartView::empty(capacity, capacity, window_size), updates).lockstep(),
    decreases updates.len(),
{
    let start = ChartView::empty(capacity, capacity, window_size);
    if updates.len() > 0 {
        let before = updates.drop_last();
        lemma_closed_bars_keep_lockstep(capacity, window_size, before);
        lemma_run_keeps_bounds(start, before);
        lemma_update_keeps_lockstep(run(start, before), updates.last());
    }
}

/// On screen there is an average for every bar, after any update.
pub proof fn lemma_snapshot_in_lockstep(chart: ChartView)
    requires
        chart.valid(),
    ensures
        chart.shown_averages().len() == chart.shown_bars().len(),
{
}

/// An open bar takes the place of the newest bar and moves no other; a
/// closed bar joins behind the newest, and only a full window gives up a
/// bar for it, its oldest.
pub proof fn lemma_replace_or_append(chart: ChartView, update: BarUpdate)
    requires
        chart.valid(),
        chart.bars.len() > 0,
    ensures
        !update.is_final ==> step(chart, update).bars == chart.bars.drop_last().push(update.bar),
        update.is_final && chart.bars.len() < chart.capacity ==> step(chart, update).bars
            == chart.bars.push(update.bar),
        update.is_final && chart.bars.len() == chart.capacity ==> step(chart, update).bars
            == chart.bars.drop_first().push(update.bar),
{
}

/// After a run of closed bars into an empty chart the window holds the
/// newest bars of the run, as many as its capacity allows, in their order.
pub proof fn lemma_window_is_tail_of_input(
    capacity: nat,
    visible_range: nat,
    window_size: nat,
    updates: Seq<BarUpdate>,
)
    requires
        ChartView::empty(capacity, visible_range, window_size).valid(),
        all_final(updates),
    ensures
        run(ChartView::empty(capacity, visible_range, window_size), updates).bars == tail(
            bars_of(updates),
            capacity,
        ),
    decreases updates.len(),
{
    let start = ChartView::empty(capacity, visible_range, window_size);
    if updates.len() == 0 {
        assert(run(start, updates).bars =~= tail(bars_of(updates), capacity));
    } else {
        let before = updates.drop_last();
        lemma_window_is_tail_of_input(capacity, visible_range, window_size, before);
        lemma_run_keeps_bounds(start, before);
        assert(bars_of(updates) =~= bars_of(before).push(updates.last().bar));
        assert(next_bars(run(start, before).bars, capacity, updates.last()) =~= tail(
            bars_of(updates),
            capacity,
        ));
    }
}

/// While the window holds no more bars than the average spans, the average
/// is the mean of all of them.
pub proof fn lemma_warm_up_mean(bars: Seq<Candle>, window_size: nat)
    requires
        0 < bars.len() <= window_size,
    ensures
        trailing_mean(bars, window_size) == sum_closes(bars) / (bars.len() as int),
{
}

/// A chart that no update has reached is drawn as the waiting plan.
pub proof fn lemma_fresh_chart_waits(capacity: nat, visible_range: nat, window_size: nat)
    ensures
        ({
            let chart = ChartView::empty(capacity, visible_range, window_size);
            plan_of(chart.shown_bars(), chart.shown_averages()) == waiting_plan()
        }),
{
}

/// Every bar that can be drawn for a simulated chart keeps wick and body
/// in order: its low is no higher than open and close, its high no lower.
pub proof fn lemma_simulated_bar_is_well_shaped(last_price: i64, change: i64, rise: i64, fall: i64)
    requires
        drawable(last_price, change, rise, fall),
    ensures
        simulated_candle(last_price, change, rise, fall).well_shaped(),
        simulated_candle(last_price, change, rise, fall).open == last_price,
{
}

/// A plan holds the axis labels, two marks for each bar shown, one piece of
/// line for each average but the first, and one or two annotations: for a
/// chart within its bounds, no more than three for each bar it may show and
/// six besides.
pub proof fn lemma_plan_is_bounded(chart: ChartView)
    requires
        chart.valid(),
    ensures
        plan_of(chart.shown_bars(), chart.shown_averages()).primitives.len() <= 3
            * chart.visible_range + AXIS_LEVELS + 1,
        chart.bars.len() > 0 ==> plan_of(
            chart.shown_bars(),
            chart.shown_averages(),
        ).primitives.len() == 3 * chart.shown_bars().len() + AXIS_LEVELS + 1,
{
}

/// A bar that closed where it opened is drawn as a flat mark at that price,
/// never as a filled rectangle.
pub proof fn lemma_flat_bar_is_flat_mark(bars: Seq<Candle>, averages: Seq<i64>, slot: int)
    requires
        0 <= slot < bars.len(),
        bars[slot].open == bars[slot].close,
    ensures
        body(slot, bars[slot]) == flat_mark(slot, bars[slot].close as int, Tone::Up),
        plan_of(bars, averages).primitives[AXIS_LEVELS + 2 * slot + 1] == body(slot, bars[slot]),
        !(plan_of(bars, averages).primitives[AXIS_LEVELS + 2 * slot + 1] is Fill),
{
    let k = 2 * slot + 1;
    assert(candle_marks(bars)[k] == body(k / 2, bars[k / 2]));
    assert(tone_of(bars[slot]) == Tone::Up);
}

} // verus!
