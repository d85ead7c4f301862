//! The event and command algebra between the broker adapter and the machines,
//! and the per-instrument configuration the machines read.
use vstd::prelude::*;
use crate::models::{Direction, OhlcPrice, OrderReference};

verus! {

/// Target distance over stop distance.
pub const RISK_REWARD_RATIO: i128 = 2;

/// Version tag written into every trade result.
pub const STRATEGY_VERSION: usize = 1;

/// Seconds in a minute.
pub const MINUTE: i64 = 60;

/// Seconds before the close from which the market counts as outside trading hours.
pub const CLOSE_BUFFER: i64 = 15 * 60;

/// Division rounding toward zero, as integer division does on machine integers.
pub open spec fn trunc_div(a: int, b: int) -> int {
    if a >= 0 {
        a / b
    } else {
        -((-a) / b)
    }
}

/// `a / b` rounded toward zero, for a positive divisor.
pub fn div_toward_zero(a: i128, b: i128) -> (r: i128)
    requires
        b > 0,
        a > i128::MIN,
    ensures
        r == trunc_div(a as int, b as int),
{
    if a >= 0 {
        a / b
    } else {
        let n: i128 = -a;
        -(n / b)
    }
}

/// Immutable per-instrument configuration.
#[derive(Clone, Debug)]
pub struct MarketInfo {
    pub epic: String,
    /// Number of one-minute bars in the opening range.
    pub bars_in_opening_range: u32,
    /// Smallest stop distance the broker permits.
    pub min_stop: i64,
    /// Upper bound factor on an acceptable range size, in units of `min_stop`.
    pub max_stop_multiplier: u32,
    pub expiry: String,
    pub currency: String,
    pub lot_size: i64,
    pub utc_open_time: i64,
    pub utc_close_time: i64,
}

/// Inside trading hours: strictly after the opening range and strictly before
/// fifteen minutes ahead of the close.
pub open spec fn inside_trading_hours(info: MarketInfo, now: int) -> bool {
    &&& info.utc_open_time + info.bars_in_opening_range * MINUTE < now
    &&& now < info.utc_close_time - CLOSE_BUFFER
}

/// The stop distance for an opening range of the given size: a third of it.
pub open spec fn stop_distance_for(opening_range_size: int) -> int {
    trunc_div(opening_range_size, 3)
}

impl MarketInfo {
    /// A field-by-field copy.
    pub fn duplicate(&self) -> (r: MarketInfo)
        ensures
            r == *self,
    {
        MarketInfo {
            epic: self.epic.clone(),
            bars_in_opening_range: self.bars_in_opening_range,
            min_stop: self.min_stop,
            max_stop_multiplier: self.max_stop_multiplier,
            expiry: self.expiry.clone(),
            currency: self.currency.clone(),
            lot_size: self.lot_size,
            utc_open_time: self.utc_open_time,
            utc_close_time: self.utc_close_time,
        }
    }

    pub fn is_inside_trading_hours(&self, now: i64) -> (r: bool)
        ensures
            r == inside_trading_hours(*self, now as int),
    {
        let start = self.utc_open_time as i128 + self.bars_in_opening_range as i128 * MINUTE as i128;
        let end = self.utc_close_time as i128 - CLOSE_BUFFER as i128;
        start < now as i128 && (now as i128) < end
    }

    pub fn stop_distance(&self, opening_range_size: i128) -> (r: i128)
        requires
            opening_range_size > i128::MIN,
        ensures
            r == stop_distance_for(opening_range_size as int),
    {
        div_toward_zero(opening_range_size, 3)
    }
}

/// Published when a position exits.
#[derive(Clone, Debug)]
pub struct TradeResult {
    pub size: i64,
    pub wanted_entry_level: i64,
    pub actual_entry_level: i64,
    pub entry_time: i64,
    pub exit_time: i64,
    pub exit_level: i64,
    pub reference: OrderReference,
    pub epic: String,
    pub opening_range_size: i128,
    pub strategy_version: usize,
    /// The stop distance used on the trade.
    pub one_r: i128,
}

/// Broker news about one working order or position.
#[derive(Clone, Debug)]
pub enum OrderEvent {
    ConfirmationOpenAccepted { level: i64, deal_id: String },
    ConfirmationDeleteAccepted,
    ConfirmationAmendedAccepted,
    ConfirmationRejection,
    PositionEntry { entry_level: i64, entry_time: i64 },
    PositionExit { exit_level: i64, exit_time: i64 },
}

/// Input of the machines.
#[derive(Clone, Debug)]
pub enum Event {
    WOCancel(OrderReference),
    Order(OrderEvent, OrderReference),
    Market { epic: String, update_time: i64, bid: i64, ask: i64 },
    Account(),
    Data { prices: Vec<OhlcPrice> },
    Error(String),
    PositionExit(OrderReference),
}

/// Output of the machines, executed by the dispatcher.
#[derive(Clone, Debug)]
pub enum Command {
    Restart(OrderReference),
    FetchData { start: i64, duration: i64, epic: String },
    CreateWorkingOrder {
        direction: Direction,
        price: i128,
        reference: OrderReference,
        market_info: MarketInfo,
        target_distance: i128,
        stop_distance: i128,
    },
    CancelWorkingOrder { epic: String, reference_to_cancel: OrderReference },
    UpdatePosition {
        epic: String,
        deal_id: String,
        stop_level: i128,
        trailing_stop_distance: i128,
        target_level: i128,
        reference: OrderReference,
    },
    PublishTradeResults(TradeResult),
    FatalFailure(String),
}

} // verus!
