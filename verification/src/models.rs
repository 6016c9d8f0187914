use vstd::prelude::*;

verus! {

/// The control message that asks the feed for a stream of bars.
#[derive(Debug)]
pub struct SubscribeMessage {
    pub op: String,
    pub args: Vec<String>,
}

/// One bar as the feed sends it: the four prices as decimal text.
#[derive(Debug)]
pub struct KlineData {
    pub start: i64,
    pub end: i64,
    pub interval: String,
    pub open: String,
    pub close: String,
    pub high: String,
    pub low: String,
    pub volume: String,
    pub turnover: String,
    pub confirm: bool,
    pub timestamp: i64,
}

/// One message of the feed: the bars of a topic.
#[derive(Debug)]
pub struct KlineResponse {
    pub topic: String,
    pub data: Vec<KlineData>,
    pub ts: i64,
    pub response_type: String,
}

} // verus!
