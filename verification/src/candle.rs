use vstd::prelude::*;
use crate::models::KlineData;
use crate::price::{parse_price, price_of};

verus! {

/// Number of ticks in one price unit.
pub const PRICE_SCALE: i64 = 1_000_000;

/// One open/high/low/close observation, each price in ticks.
#[derive(Clone, Copy, Debug, PartialEq, Eq, Structural)]
pub struct Candle {
    pub open: i64,
    pub high: i64,
    pub low: i64,
    pub close: i64,
}

/// The bar that a feed record writes, where each of its four prices reads
/// as a price.
pub open spec fn candle_of(data: KlineData) -> Option<Candle> {
    match (price_of(data.open@), price_of(data.high@), price_of(data.low@), price_of(data.close@)) {
        (Some(open), Some(high), Some(low), Some(close)) => Some(Candle { open, high, low, close }),
        _ => None,
    }
}

impl Candle {
    /// A bar of the four prices given.
    pub fn new(open: i64, high: i64, low: i64, close: i64) -> (c: Candle)
        ensures
            c == (Candle { open, high, low, close }),
    {
        Candle { open, high, low, close }
    }

    /// Reads the four prices of a feed record. A record with a price that
    /// does not read gives no bar.
    pub fn from_kline_data(data: &KlineData) -> (candle: Option<Candle>)
        ensures
            candle == candle_of(*data),
    {
        let open = parse_price(data.open.as_str());
        let high = parse_price(data.high.as_str());
        let low = parse_price(data.low.as_str());
        let close = parse_price(data.close.as_str());
        match (open, high, low, close) {
            (Some(open), Some(high), Some(low), Some(close)) => Some(
                Candle { open, high, low, close },
            ),
            _ => None,
        }
    }

    /// The low is no higher than open and close, and the high no lower.
    pub open spec fn well_shaped(&self) -> bool {
        &&& self.low <= self.open
        &&& self.low <= self.close
        &&& self.high >= self.open
        &&& self.high >= self.close
    }

    /// A bar is bullish when it closed at or above its open.
    pub open spec fn bullish(&self) -> bool {
        self.close >= self.open
    }

    /// Whether the bar closed at or above its open.
    #[verifier::when_used_as_spec(bullish)]
    pub fn is_bullish(&self) -> (b: bool)
        ensures
            b == self.bullish(),
    {
        self.close >= self.open
    }
}

/// One event of the feed: a bar, and whether its interval has closed.
#[derive(Clone, Copy, Debug, PartialEq, Eq, Structural)]
pub struct BarUpdate {
    pub bar: Candle,
    pub is_final: bool,
}

} // verus!
