//! A streaming candlestick-chart engine: a bounded rolling window of price
//! bars, a trailing moving average kept beside it, and a pure mapping from a
//! snapshot of both to drawable primitives.
//!
//! Prices are fixed-point integers: one price unit is [`candle::PRICE_SCALE`]
//! ticks. [`price`] reads them from the decimal text of the feed,
//! [`chart`] folds bars into the window and the average, [`render`] maps
//! what is on screen to a [`render::DrawPlan`], and [`laws`] states what
//! holds of every run of updates. [`simulate`] feeds a chart with random
//! bars, and [`substring`] is a small text utility.

pub mod arith;
pub mod text;
pub mod price;
pub mod models;
pub mod candle;
pub mod window;
pub mod average;
pub mod chart;
pub mod render;
pub mod laws;
pub mod simulate;
pub mod substring;
