//! Read-only snapshots for the user interface.
use vstd::prelude::*;
use crate::realtime::MarketState;

verus! {

/// The merged market fields of one instrument.
#[derive(Clone, Debug)]
pub struct MarketView {
    pub epic: String,
    pub bid: Option<i64>,
    pub ask: Option<i64>,
    pub market_delay: Option<usize>,
    pub market_state: Option<MarketState>,
    /// UTC seconds.
    pub update_time: Option<i64>,
}

/// One order of the book.
#[derive(Clone, Debug)]
pub struct OrderView {
    pub reference: String,
    pub state: String,
}

/// The day machine of one instrument.
#[derive(Clone, Debug)]
pub struct SystemView {
    pub state: String,
    pub epic: String,
    pub opening_range_high_ask: Option<i64>,
    pub opening_range_high_bid: Option<i64>,
    pub opening_range_low_ask: Option<i64>,
    pub opening_range_low_bid: Option<i64>,
    pub orders: Vec<OrderView>,
}

/// Status of the broker stream.
#[derive(Clone, Debug)]
pub struct ConnectionInformationView {
    pub stream_status: String,
}

impl ConnectionInformationView {
    /// The status before the stream has reported anything.
    pub fn not_connected() -> (r: ConnectionInformationView)
        ensures
            r.stream_status@ == "Not Connected"@,
    {
        ConnectionInformationView { stream_status: "Not Connected".to_owned() }
    }
}

/// A published trade result.
#[derive(Clone, Debug)]
pub struct TradeResultView {
    pub wanted_entry_level: i64,
    pub actual_entry_level: i64,
    pub entry_time: i64,
    pub exit_time: i64,
    pub exit_level: i64,
    pub reference: String,
    pub epic: String,
}

} // verus!
