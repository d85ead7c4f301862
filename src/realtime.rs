//! Messages of the broker's streaming interface, as the caches read them.
use vstd::prelude::*;
use crate::models::same_text;

verus! {

/// Trading state of a market.
#[derive(Clone, Copy, Debug, PartialEq, Eq, Structural)]
pub enum MarketState {
    CLOSED,
    OFFLINE,
    TRADEABLE,
    EDIT,
    AUCTION,
    AUCTION_NO_EDIT,
    SUSPENDED,
}

/// The market state whose tag name is `s`, if any.
pub open spec fn market_state_named(s: Seq<char>) -> Option<MarketState> {
    if s == "TRADEABLE"@ {
        Some(MarketState::TRADEABLE)
    } else if s == "AUCTION"@ {
        Some(MarketState::AUCTION)
    } else if s == "CLOSED"@ {
        Some(MarketState::CLOSED)
    } else if s == "AUCTION_NO_EDIT"@ {
        Some(MarketState::AUCTION_NO_EDIT)
    } else if s == "SUSPENDED"@ {
        Some(MarketState::SUSPENDED)
    } else if s == "EDIT"@ {
        Some(MarketState::EDIT)
    } else if s == "OFFLINE"@ {
        Some(MarketState::OFFLINE)
    } else {
        None
    }
}

impl MarketState {
    /// Parses a tag name as the stream sends it; any other text is no state.
    pub fn parse(s: &str) -> (r: Option<MarketState>)
        ensures
            r == market_state_named(s@),
    {
        proof {
            reveal_strlit("TRADEABLE");
            reveal_strlit("AUCTION");
            reveal_strlit("CLOSED");
            reveal_strlit("AUCTION_NO_EDIT");
            reveal_strlit("SUSPENDED");
            reveal_strlit("EDIT");
            reveal_strlit("OFFLINE");
        }
        if same_text(s, "TRADEABLE") {
            Some(MarketState::TRADEABLE)
        } else if same_text(s, "AUCTION") {
            Some(MarketState::AUCTION)
        } else if same_text(s, "CLOSED") {
            Some(MarketState::CLOSED)
        } else if same_text(s, "AUCTION_NO_EDIT") {
            Some(MarketState::AUCTION_NO_EDIT)
        } else if same_text(s, "SUSPENDED") {
            Some(MarketState::SUSPENDED)
        } else if same_text(s, "EDIT") {
            Some(MarketState::EDIT)
        } else if same_text(s, "OFFLINE") {
            Some(MarketState::OFFLINE)
        } else {
            None
        }
    }
}

/// A partial market update: absent fields keep their previous value.
#[derive(Clone, Debug)]
pub struct MarketUpdate {
    pub bid: Option<i64>,
    pub offer: Option<i64>,
    pub market_delay: Option<usize>,
    pub market_state: Option<MarketState>,
    /// London wall-clock time of day, `HH:MM:SS`.
    pub update_time: Option<String>,
    pub epic: String,
}

#[derive(Clone, Copy, Debug, PartialEq, Eq, Structural)]
pub enum Direction {
    BUY,
    SELL,
}

#[derive(Clone, Copy, Debug, PartialEq, Eq, Structural)]
pub enum DealStatus {
    ACCEPTED,
    REJECTED,
}

#[derive(Clone, Copy, Debug, PartialEq, Eq, Structural)]
pub enum PositionStatus {
    AMENDED,
    CLOSED,
    DELETED,
    OPEN,
    PARTIALLY_CLOSED,
}

#[derive(Clone, Copy, Debug, PartialEq, Eq, Structural)]
pub enum AffectedDealStatus {
    AMENDED,
    DELETED,
    FULLY_CLOSED,
    OPENED,
    PARTIALLY_CLOSED,
}

#[derive(Clone, Debug)]
pub struct AffectedDeals {
    pub deal_id: String,
    pub status: AffectedDealStatus,
}

/// The broker's answer to a deal request.
#[derive(Clone, Debug)]
pub struct TradeConfirmationUpdate {
    pub direction: Direction,
    pub epic: String,
    pub deal_reference: String,
    pub stop_level: Option<i64>,
    pub limit_level: Option<i64>,
    pub deal_id: String,
    pub expiry: Option<String>,
    pub affected_deals: Vec<AffectedDeals>,
    pub deal_status: DealStatus,
    pub level: Option<i64>,
    pub reason: String,
    pub status: Option<PositionStatus>,
    pub size: Option<u8>,
    pub profit: Option<i64>,
    pub profit_currency: Option<String>,
    pub date: String,
    pub channel: String,
}

#[derive(Clone, Copy, Debug, PartialEq, Eq, Structural)]
pub enum OpuStatus {
    OPEN,
    UPDATED,
    DELETED,
}

/// A change of an open position.
#[derive(Clone, Debug)]
pub struct OpenPositionUpdate {
    pub deal_reference: String,
    pub deal_id: String,
    pub direction: String,
    pub epic: String,
    pub status: OpuStatus,
    pub deal_status: DealStatus,
    pub level: i64,
    pub size: usize,
    pub timestamp: String,
    pub channel: String,
    pub deal_id_origin: String,
    pub expiry: String,
    pub stop_level: Option<i64>,
    pub limit_level: Option<i64>,
    pub guaranteed_stop: bool,
}

/// Subscription mode of the streaming protocol.
#[derive(Clone, Copy, Debug, PartialEq, Eq, Structural)]
pub enum Mode {
    Merge,
    Distinct,
}

/// Requests of the streaming protocol.
#[derive(Clone, Debug)]
pub enum TlcpRequest {
    CreateSession { user: String, client_token: String, account_token: String },
    BindSession { session_id: String },
    Subscribe {
        session_id: String,
        req_id: usize,
        sub_id: usize,
        item: String,
        fields: Vec<String>,
        mode: Mode,
        snapshot: bool,
    },
    UnSubscribe { session_id: String, req_id: usize, sub_id: usize },
    Disconnect { session_id: String, req_id: usize },
}

/// Responses of the streaming protocol.
#[derive(Clone, Debug)]
pub enum TlcpResponse {
    CONOK { session_id: String, request_limit: usize, keep_alive: usize, control_link: String },
    CONERR { error_code: u8, error_message: String },
    END { cause_code: u8, cause_message: String },
    SUBOK { subscription_id: u8, num_items: u8, num_fields: u8 },
    UNSUB { subscription_id: u8 },
    U { subscription_id: u8, item: u8, fields_values: String },
    REQOK { request_id: usize },
    REQERR { request_id: usize, error_code: u8, error_message: String },
    ERROR { error_code: u8, error_message: String },
    LOOP { expected_delay: usize },
    SYNC { seconds_since_initial_header: usize },
    PROBE,
    UNKNOWN(String),
}

/// Session tokens and endpoint of the broker's REST interface.
#[derive(Clone, Debug)]
pub struct RestDetails {
    pub xst: String,
    pub cst: String,
    pub url: String,
    pub account: String,
}

/// Maps the market subscriptions of the stream to epics. Subscription ids
/// start at 3: ids 1 and 2 are the account and trade subscriptions.
pub struct SubscriptionManager {
    markets: Vec<String>,
}

impl SubscriptionManager {
    pub closed spec fn markets(&self) -> Seq<String> {
        self.markets@
    }

    pub fn new(epics: Vec<String>) -> (r: SubscriptionManager)
        ensures
            r.markets() == epics@,
    {
        SubscriptionManager { markets: epics }
    }

    /// The epic of a market subscription.
    pub fn get_epic_from_subscription_id(&self, subscription_id: usize) -> (r: String)
        requires
            3 <= subscription_id < 3 + self.markets().len(),
        ensures
            r == self.markets()[subscription_id - 3],
    {
        self.markets[subscription_id - 3].clone()
    }

    /// The ids of the market subscriptions.
    pub fn get_subscription_id_range(&self) -> (r: core::ops::Range<usize>)
        requires
            self.markets().len() + 3 <= usize::MAX,
        ensures
            r.start == 3,
            r.end == 3 + self.markets().len(),
    {
        core::ops::Range { start: 3, end: 3 + self.markets.len() }
    }
}

} // verus!
