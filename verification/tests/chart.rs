use kline_chart::arith::floor_div;
use kline_chart::average::MovingAverageTracker;
use kline_chart::candle::{BarUpdate, Candle};
use kline_chart::chart::{CandlestickChart, MA_WINDOW_SIZE};
use kline_chart::window::RollingWindow;

fn bar(close: i64) -> Candle {
    Candle::new(close - 1, close + 2, close - 2, close)
}

fn closed(close: i64) -> BarUpdate {
    BarUpdate { bar: bar(close), is_final: true }
}

fn open(close: i64) -> BarUpdate {
    BarUpdate { bar: bar(close), is_final: false }
}

fn all_bars(chart: &CandlestickChart) -> Vec<Candle> {
    chart.snapshot().bars
}

#[test]
fn bullish_when_close_is_not_below_open() {
    assert!(Candle::new(10, 12, 9, 11).is_bullish());
    assert!(Candle::new(10, 12, 9, 10).is_bullish());
    assert!(!Candle::new(10, 12, 9, 9).is_bullish());
}

#[test]
fn floor_div_rounds_down() {
    assert_eq!(floor_div(7, 2), 3);
    assert_eq!(floor_div(-7, 2), -4);
    assert_eq!(floor_div(-8, 2), -4);
    assert_eq!(floor_div(-1, 10), -1);
    assert_eq!(floor_div(0, 3), 0);
    assert_eq!(floor_div(i128::MIN, 1), i128::MIN);
}

#[test]
fn new_chart_is_empty() {
    let chart = CandlestickChart::new(50);
    assert_eq!(chart.len(), 0);
    assert_eq!(chart.average_count(), 0);
    assert_eq!(chart.capacity(), 50);
    assert_eq!(chart.visible_range(), 50);
    assert_eq!(chart.window_size(), MA_WINDOW_SIZE);
    let shot = chart.snapshot();
    assert!(shot.bars.is_empty());
    assert!(shot.averages.is_empty());
}

#[test]
fn open_bar_replaces_and_closed_bar_appends() {
    let mut chart = CandlestickChart::with_config(5, 5, 3);
    chart.update(closed(10));
    chart.update(closed(20));
    let mut replaced = CandlestickChart::with_config(5, 5, 3);
    replaced.update(closed(10));
    replaced.update(closed(20));

    replaced.update(open(30));
    assert_eq!(all_bars(&replaced), vec![bar(10), bar(30)]);

    chart.update(closed(30));
    assert_eq!(all_bars(&chart), vec![bar(10), bar(20), bar(30)]);
}

#[test]
fn closed_bar_evicts_oldest_at_capacity() {
    let mut chart = CandlestickChart::with_config(2, 2, 3);
    chart.update(closed(10));
    chart.update(closed(20));
    chart.update(closed(30));
    assert_eq!(all_bars(&chart), vec![bar(20), bar(30)]);
    assert_eq!(chart.len(), 2);
}

#[test]
fn open_bar_into_empty_window_is_first_bar() {
    let mut chart = CandlestickChart::new(4);
    chart.update(open(10));
    assert_eq!(all_bars(&chart), vec![bar(10)]);
    assert_eq!(chart.snapshot().averages, vec![10]);
}

#[test]
fn moving_average_over_three_closes() {
    let mut chart = CandlestickChart::with_config(10, 10, 3);
    chart.update(closed(10));
    chart.update(closed(20));
    chart.update(closed(30));
    assert_eq!(chart.snapshot().averages, vec![10, 15, 20]);
    chart.update(closed(40));
    assert_eq!(chart.snapshot().averages, vec![10, 15, 20, 30]);
}

#[test]
fn warm_up_average_is_mean_of_what_is_there() {
    let mut chart = CandlestickChart::with_config(50, 50, 50);
    chart.update(closed(100));
    chart.update(closed(300));
    assert_eq!(chart.snapshot().averages, vec![100, 200]);
}

#[test]
fn average_rounds_down_to_a_tick() {
    let mut chart = CandlestickChart::with_config(5, 5, 2);
    chart.update(closed(1));
    chart.update(closed(2));
    assert_eq!(chart.snapshot().averages, vec![1, 1]);
    let mut below = CandlestickChart::with_config(5, 5, 2);
    below.update(closed(-1));
    below.update(closed(-2));
    assert_eq!(below.snapshot().averages, vec![-1, -2]);
}

#[test]
fn average_of_extreme_prices_does_not_overflow() {
    let mut chart = CandlestickChart::with_config(3, 3, 3);
    for _ in 0..3 {
        chart.update(BarUpdate {
            bar: Candle::new(i64::MAX, i64::MAX, i64::MAX, i64::MAX),
            is_final: true,
        });
    }
    assert_eq!(chart.snapshot().averages, vec![i64::MAX, i64::MAX, i64::MAX]);
    let mut low = CandlestickChart::with_config(3, 3, 3);
    for _ in 0..3 {
        low.update(BarUpdate {
            bar: Candle::new(i64::MIN, i64::MIN, i64::MIN, i64::MIN),
            is_final: true,
        });
    }
    assert_eq!(low.snapshot().averages, vec![i64::MIN, i64::MIN, i64::MIN]);
}

#[test]
fn window_never_exceeds_capacity() {
    let mut chart = CandlestickChart::with_config(4, 3, 2);
    for step in 0..20i64 {
        let update = if step % 3 == 0 { open(step) } else { closed(step) };
        chart.update(update);
        assert!(chart.len() <= 4);
        assert!(chart.len() >= 1);
        assert!(chart.average_count() <= 3);
        let shot = chart.snapshot();
        assert_eq!(shot.bars.len(), shot.averages.len());
        assert!(shot.bars.len() <= 3);
    }
}

#[test]
fn closed_bars_keep_window_and_series_in_lockstep() {
    let mut chart = CandlestickChart::new(5);
    for step in 0..12i64 {
        chart.update(closed(step));
        assert_eq!(chart.len(), chart.average_count());
    }
}

#[test]
fn open_bar_beside_short_series_grows_series_only() {
    let mut chart = CandlestickChart::new(5);
    chart.update(closed(10));
    chart.update(open(12));
    assert_eq!(chart.len(), 1);
    assert_eq!(chart.average_count(), 2);
    let shot = chart.snapshot();
    assert_eq!(shot.bars, vec![bar(12)]);
    assert_eq!(shot.averages, vec![12]);
}

#[test]
fn retained_bars_are_tail_of_input() {
    let mut chart = CandlestickChart::new(5);
    let mut input: Vec<Candle> = Vec::new();
    for step in 0..13i64 {
        chart.update(closed(step * 7));
        input.push(bar(step * 7));
    }
    assert_eq!(all_bars(&chart), input[8..].to_vec());
}

#[test]
fn snapshot_shows_newest_visible_range() {
    let mut chart = CandlestickChart::with_config(6, 2, 3);
    for close in [10, 20, 30, 40] {
        chart.update(closed(close));
    }
    assert_eq!(chart.len(), 4);
    let shot = chart.snapshot();
    assert_eq!(shot.bars, vec![bar(30), bar(40)]);
    assert_eq!(shot.averages, vec![20, 30]);
}

#[test]
fn rolling_window_operations() {
    let mut window = RollingWindow::new(3, 2);
    assert!(window.is_empty());
    window.replace_last(bar(1));
    window.append(bar(2));
    window.append(bar(3));
    window.append(bar(4));
    assert_eq!(window.len(), 3);
    assert_eq!(window.capacity(), 3);
    assert_eq!(window.visible_range(), 2);
    assert_eq!(window.get(0), Some(bar(2)));
    assert_eq!(window.get(3), None);
    assert_eq!(window.bar(2), bar(4));
    window.replace_last(bar(5));
    assert_eq!(window.visible_slice(), vec![bar(3), bar(5)]);
}

#[test]
fn tracker_ignores_empty_window() {
    let window = RollingWindow::new(3, 3);
    let mut tracker = MovingAverageTracker::new(2, 3);
    tracker.recompute(&window);
    assert_eq!(tracker.len(), 0);
    assert_eq!(tracker.get(0), None);
}

#[test]
fn tracker_keeps_newest_averages() {
    let mut window = RollingWindow::new(4, 2);
    let mut tracker = MovingAverageTracker::new(2, 2);
    for close in [10, 20, 40] {
        window.append(bar(close));
        tracker.recompute(&window);
    }
    assert_eq!(tracker.len(), 2);
    assert_eq!(tracker.window_size(), 2);
    assert_eq!(tracker.limit(), 2);
    assert_eq!(tracker.get(0), Some(15));
    assert_eq!(tracker.get(1), Some(30));
    assert_eq!(tracker.newest(1), vec![30]);
    assert_eq!(tracker.newest(5), vec![15, 30]);
}
