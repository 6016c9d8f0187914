use kline_chart::candle::{BarUpdate, Candle, PRICE_SCALE};
use kline_chart::chart::{CandlestickChart, Snapshot};
use kline_chart::render::{
    calculate_price_range, calculate_y_bounds, draw_average_line, draw_candle_body,
    draw_candle_wick, draw_candlesticks, draw_filled_candle, draw_flat_candle, draw_indicators,
    draw_price_labels, map_snapshot, Caption, DrawPlan, Primitive, Tone,
};

fn waiting() -> DrawPlan {
    DrawPlan {
        x_min: 0,
        x_max: 10,
        y_min: 0,
        y_max: PRICE_SCALE as i128,
        primitives: vec![Primitive::Text {
            x: 0,
            y: (PRICE_SCALE / 2) as i128,
            caption: Caption::Waiting,
        }],
    }
}

#[test]
fn chart_without_updates_draws_waiting_plan() {
    let chart = CandlestickChart::new(50);
    assert_eq!(chart.draw(), waiting());
    let shot = Snapshot { bars: Vec::new(), averages: vec![1, 2, 3] };
    assert_eq!(map_snapshot(&shot), waiting());
}

#[test]
fn single_bar_plan() {
    let mut chart = CandlestickChart::new(50);
    chart.update(BarUpdate {
        bar: Candle::new(100_000, 110_000, 90_000, 105_000),
        is_final: true,
    });
    let plan = chart.draw();
    let expected = DrawPlan {
        x_min: 0,
        x_max: 30,
        y_min: 88_000,
        y_max: 112_000,
        primitives: vec![
            Primitive::Text { x: 15, y: 88_000, caption: Caption::AxisPrice(88_000) },
            Primitive::Text { x: 15, y: 94_000, caption: Caption::AxisPrice(94_000) },
            Primitive::Text { x: 15, y: 100_000, caption: Caption::AxisPrice(100_000) },
            Primitive::Text { x: 15, y: 106_000, caption: Caption::AxisPrice(106_000) },
            Primitive::Text { x: 15, y: 112_000, caption: Caption::AxisPrice(112_000) },
            Primitive::Line { x1: 4, y1: 90_000, x2: 4, y2: 110_000, tone: Tone::Up },
            Primitive::Fill { left: 0, right: 8, bottom: 100_000, top: 105_000, tone: Tone::Up },
            Primitive::Text { x: 0, y: 106_400, caption: Caption::CurrentClose(105_000) },
            Primitive::Text { x: 0, y: 100_800, caption: Caption::CurrentAverage(105_000) },
        ],
    };
    assert_eq!(plan, expected);
}

#[test]
fn two_bars_draw_one_piece_of_average_line() {
    let shot = Snapshot {
        bars: vec![
            Candle::new(100_000, 110_000, 90_000, 105_000),
            Candle::new(105_000, 106_000, 95_000, 99_000),
        ],
        averages: vec![105_000, 102_000],
    };
    let plan = map_snapshot(&shot);
    assert_eq!(plan.x_max, 40);
    assert_eq!(plan.primitives.len(), 5 + 4 + 1 + 2);
    assert_eq!(
        plan.primitives[7],
        Primitive::Line { x1: 14, y1: 95_000, x2: 14, y2: 106_000, tone: Tone::Down }
    );
    assert_eq!(
        plan.primitives[8],
        Primitive::Fill { left: 10, right: 18, bottom: 99_000, top: 105_000, tone: Tone::Down }
    );
    assert_eq!(
        plan.primitives[9],
        Primitive::Line { x1: 0, y1: 105_000, x2: 10, y2: 102_000, tone: Tone::Average }
    );
    assert_eq!(
        plan.primitives[10],
        Primitive::Text { x: 0, y: 106_400, caption: Caption::CurrentClose(99_000) }
    );
}

#[test]
fn flat_bar_is_a_flat_mark() {
    let flat = Candle::new(100_000, 101_000, 99_000, 100_000);
    assert_eq!(
        draw_candle_body(3, &flat),
        Primitive::Line { x1: 30, y1: 100_000, x2: 38, y2: 100_000, tone: Tone::Up }
    );
    let shot = Snapshot { bars: vec![flat], averages: vec![100_000] };
    let plan = map_snapshot(&shot);
    assert_eq!(
        plan.primitives[6],
        Primitive::Line { x1: 0, y1: 100_000, x2: 8, y2: 100_000, tone: Tone::Up }
    );
    assert!(!plan.primitives.iter().any(|p| matches!(p, Primitive::Fill { .. })));
}

#[test]
fn body_under_epsilon_is_flat_and_at_epsilon_is_filled() {
    let nearly = Candle::new(100_999, 102_000, 99_000, 100_000);
    assert_eq!(
        draw_candle_body(0, &nearly),
        Primitive::Line { x1: 0, y1: 100_999, x2: 8, y2: 100_999, tone: Tone::Down }
    );
    let at = Candle::new(100_000, 102_000, 99_000, 101_000);
    assert_eq!(
        draw_candle_body(0, &at),
        Primitive::Fill { left: 0, right: 8, bottom: 100_000, top: 101_000, tone: Tone::Up }
    );
}

#[test]
fn zero_range_collapses_the_axis() {
    let shot = Snapshot { bars: vec![Candle::new(500, 500, 500, 500)], averages: vec![500] };
    let plan = map_snapshot(&shot);
    assert_eq!(plan.y_min, 500);
    assert_eq!(plan.y_max, 500);
    for k in 0..5 {
        assert_eq!(
            plan.primitives[k],
            Primitive::Text { x: 15, y: 500, caption: Caption::AxisPrice(500) }
        );
    }
    assert_eq!(
        plan.primitives[6],
        Primitive::Line { x1: 0, y1: 500, x2: 8, y2: 500, tone: Tone::Up }
    );
}

#[test]
fn price_range_and_bounds() {
    assert_eq!(calculate_price_range(&Vec::new()), None);
    let bars = vec![
        Candle::new(5, 9, 3, 6),
        Candle::new(6, 30, 4, 7),
        Candle::new(7, 8, -10, 7),
    ];
    assert_eq!(calculate_price_range(&bars), Some((-10, 30)));
    assert_eq!(calculate_y_bounds(-10, 30), (-14, 34));
    assert_eq!(calculate_y_bounds(0, 5), (0, 5));
    assert_eq!(calculate_y_bounds(10, 0), (11, -1));
    assert_eq!(
        calculate_y_bounds(i64::MIN, i64::MAX),
        (
            i64::MIN as i128 - 1_844_674_407_370_955_161,
            i64::MAX as i128 + 1_844_674_407_370_955_161
        )
    );
}

#[test]
fn price_labels_divide_the_height_evenly() {
    let labels = draw_price_labels(2, 0, 100);
    let ys: Vec<i128> = labels
        .iter()
        .map(|p| match p {
            Primitive::Text { x, y, caption } => {
                assert_eq!(*x, 25);
                assert_eq!(*caption, Caption::AxisPrice(*y));
                *y
            }
            _ => panic!("a label is a text"),
        })
        .collect();
    assert_eq!(ys, vec![-10, 20, 50, 80, 110]);
}

#[test]
fn wick_and_marks() {
    let bar = Candle::new(10, 20, 5, 8);
    assert_eq!(
        draw_candle_wick(2, &bar),
        Primitive::Line { x1: 24, y1: 5, x2: 24, y2: 20, tone: Tone::Down }
    );
    assert_eq!(
        draw_flat_candle(1, 7, Tone::Up),
        Primitive::Line { x1: 10, y1: 7, x2: 18, y2: 7, tone: Tone::Up }
    );
    assert_eq!(
        draw_filled_candle(1, 9, 7, Tone::Down),
        Primitive::Fill { left: 10, right: 18, bottom: 7, top: 9, tone: Tone::Down }
    );
    assert_eq!(
        draw_candlesticks(&vec![bar]),
        vec![
            Primitive::Line { x1: 4, y1: 5, x2: 4, y2: 20, tone: Tone::Down },
            Primitive::Line { x1: 0, y1: 10, x2: 8, y2: 10, tone: Tone::Down },
        ]
    );
    assert!(draw_candlesticks(&Vec::new()).is_empty());
}

#[test]
fn average_line_needs_two_values() {
    assert!(draw_average_line(&Vec::new()).is_empty());
    assert!(draw_average_line(&vec![5]).is_empty());
    assert_eq!(
        draw_average_line(&vec![5, 7, 6]),
        vec![
            Primitive::Line { x1: 0, y1: 5, x2: 10, y2: 7, tone: Tone::Average },
            Primitive::Line { x1: 10, y1: 7, x2: 20, y2: 6, tone: Tone::Average },
        ]
    );
}

#[test]
fn indicators_follow_the_upper_bound() {
    let bars = vec![Candle::new(0, 1_000, 0, 400)];
    assert_eq!(
        draw_indicators(&bars, &Vec::new()),
        vec![Primitive::Text { x: 0, y: 1_045, caption: Caption::CurrentClose(400) }]
    );
    assert_eq!(
        draw_indicators(&bars, &vec![300, 350]),
        vec![
            Primitive::Text { x: 0, y: 1_045, caption: Caption::CurrentClose(400) },
            Primitive::Text { x: 0, y: 990, caption: Caption::CurrentAverage(350) },
        ]
    );
    assert!(draw_indicators(&Vec::new(), &vec![300]).is_empty());
    let below = vec![Candle::new(-10, -10, -10, -10)];
    assert_eq!(
        draw_indicators(&below, &Vec::new()),
        vec![Primitive::Text { x: 0, y: -10, caption: Caption::CurrentClose(-10) }]
    );
}
