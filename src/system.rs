//! The per-instrument machine that sequences the trading day: setup, fetch the
//! opening-range bars, decide where to place orders, manage them, and the
//! terminal error state.
use vstd::prelude::*;
use crate::decider::{
    inside_trading_hours, stop_distance_for, Command, Event, MarketInfo, MINUTE, RISK_REWARD_RATIO,
};
use crate::models::{Direction, OrderReference};
use crate::order_book::{fresh_order, OrderManager};
use crate::range::{
    create_opening_range_from_ohlcs, mid_high2, mid_low2, opening_range_of, range_size_of, spread_of,
    OpeningRange,
};

verus! {

/// The range size must lie between this many minimum stops and this many
/// times the largest stop.
pub const OPENING_RANGE_MULTIPLIER: i128 = 3;

/// Buffer factor applied when the next order would turn the direction of the
/// last one. One in this release, so turning needs no extra distance.
pub const DIRECTION_CHANGE_MULTIPLIER: i128 = 1;

/// One state of the day, with the instrument's configuration and the reference
/// of the last order that completed or was cancelled.
#[derive(Clone, Debug)]
pub struct SystemMachine<S> {
    pub state: S,
    pub market_info: MarketInfo,
    pub last_position_reference: Option<OrderReference>,
}

#[derive(Clone, Copy, Debug, PartialEq, Eq, Structural)]
pub struct Setup;

#[derive(Clone, Copy, Debug, PartialEq, Eq, Structural)]
pub struct Error;

#[derive(Clone, Copy, Debug, PartialEq, Eq, Structural)]
pub struct AwaitData;

#[derive(Clone, Debug)]
pub struct DecideOrderPlacement {
    pub opening_range: OpeningRange,
    pub order_manager: OrderManager,
}

#[derive(Clone, Debug)]
pub struct ManageOrders {
    pub opening_range: OpeningRange,
    pub order_manager: OrderManager,
}

/// The day machine, one variant per state.
#[derive(Clone, Debug)]
pub enum System {
    Setup(SystemMachine<Setup>),
    AwaitData(SystemMachine<AwaitData>),
    DecideOrderPlacement(SystemMachine<DecideOrderPlacement>),
    ManageOrders(SystemMachine<ManageOrders>),
    Error(SystemMachine<Error>),
}

/// The request for the opening-range bars: from the open, over the range's
/// bars but the last.
pub open spec fn fetch_data_command(info: MarketInfo) -> Command {
    Command::FetchData {
        epic: info.epic,
        start: info.utc_open_time,
        duration: ((info.bars_in_opening_range - 1) * MINUTE) as i64,
    }
}

/// A range is traded when its size lies between three minimum stops and three
/// times the largest accepted stop.
pub open spec fn range_accepted(info: MarketInfo, range: OpeningRange) -> bool {
    &&& range_size_of(range) >= info.min_stop * OPENING_RANGE_MULTIPLIER
    &&& range_size_of(range) <= info.min_stop * info.max_stop_multiplier * OPENING_RANGE_MULTIPLIER
}

pub open spec fn is_short_reference(r: Option<OrderReference>) -> bool {
    r == Some(OrderReference::BETWEEN_SHORT) || r == Some(OrderReference::UNDER_SHORT)
}

pub open spec fn is_long_reference(r: Option<OrderReference>) -> bool {
    r == Some(OrderReference::BETWEEN_LONG) || r == Some(OrderReference::OVER_LONG)
}

/// The buffer beyond a range edge: the stop distance, scaled when the order
/// would turn the direction of the last one.
pub open spec fn buffer(stop_distance: int, turning: bool) -> int {
    if turning {
        stop_distance * DIRECTION_CHANGE_MULTIPLIER
    } else {
        stop_distance
    }
}

/// The middle price lies above the range's high middle by more than the buffer.
pub open spec fn price_over(stop_distance: int, range: OpeningRange, bid: int, ask: int, last: Option<OrderReference>) -> bool {
    bid + ask > mid_high2(range) + 2 * buffer(stop_distance, is_short_reference(last))
}

/// The middle price lies below the range's low middle by more than the buffer.
pub open spec fn price_under(stop_distance: int, range: OpeningRange, bid: int, ask: int, last: Option<OrderReference>) -> bool {
    bid + ask < mid_low2(range) - 2 * buffer(stop_distance, is_long_reference(last))
}

/// The middle price lies inside the range, a buffer away from both edges.
pub open spec fn price_between(stop_distance: int, range: OpeningRange, bid: int, ask: int, last: Option<OrderReference>) -> bool {
    &&& bid + ask < mid_high2(range) - 2 * buffer(stop_distance, is_long_reference(last))
    &&& bid + ask > mid_low2(range) + 2 * buffer(stop_distance, is_short_reference(last))
}

/// The order request for `reference` under `range`.
pub open spec fn create_command(info: MarketInfo, range: OpeningRange, reference: OrderReference) -> Command {
    let sd = stop_distance_for(range_size_of(range));
    let spread = spread_of(range);
    Command::CreateWorkingOrder {
        direction: if reference.is_long_spec() { Direction::BUY } else { Direction::SELL },
        price: (match reference {
            OrderReference::OVER_LONG => range.high_ask + spread,
            OrderReference::BETWEEN_LONG => range.low_ask + spread,
            OrderReference::BETWEEN_SHORT => range.high_bid - spread,
            OrderReference::UNDER_SHORT => range.low_bid - spread,
        }) as i128,
        reference,
        market_info: info,
        target_distance: (sd * RISK_REWARD_RATIO) as i128,
        stop_distance: sd as i128,
    }
}

/// Moves into `ManageOrders` with fresh orders for the given references.
pub open spec fn manage(m: SystemMachine<DecideOrderPlacement>, book: OrderManager) -> System {
    System::ManageOrders(
        SystemMachine {
            state: ManageOrders { opening_range: m.state.opening_range, order_manager: book },
            market_info: m.market_info,
            last_position_reference: m.last_position_reference,
        },
    )
}

/// The placement decision on a tick inside trading hours.
pub open spec fn place_orders(m: SystemMachine<DecideOrderPlacement>, bid: i64, ask: i64) -> (System, Seq<Command>) {
    let info = m.market_info;
    let range = m.state.opening_range;
    let book = m.state.order_manager;
    let sd = stop_distance_for(range_size_of(range));
    let last = m.last_position_reference;
    if price_over(sd, range, bid as int, ask as int, last) {
        (
            manage(m, book.set(OrderReference::OVER_LONG, Some(fresh_order(info, range)))),
            seq![create_command(info, range, OrderReference::OVER_LONG)],
        )
    } else if price_between(sd, range, bid as int, ask as int, last) {
        (
            manage(
                m,
                book.set(OrderReference::BETWEEN_LONG, Some(fresh_order(info, range))).set(
                    OrderReference::BETWEEN_SHORT,
                    Some(fresh_order(info, range)),
                ),
            ),
            seq![
                create_command(info, range, OrderReference::BETWEEN_LONG),
                create_command(info, range, OrderReference::BETWEEN_SHORT),
            ],
        )
    } else if price_under(sd, range, bid as int, ask as int, last) {
        (
            manage(m, book.set(OrderReference::UNDER_SHORT, Some(fresh_order(info, range)))),
            seq![create_command(info, range, OrderReference::UNDER_SHORT)],
        )
    } else {
        (System::DecideOrderPlacement(m), seq![])
    }
}

impl System {
    /// The configuration the machine carries.
    pub open spec fn market_info(self) -> MarketInfo {
        match self {
            System::Setup(m) => m.market_info,
            System::AwaitData(m) => m.market_info,
            System::DecideOrderPlacement(m) => m.market_info,
            System::ManageOrders(m) => m.market_info,
            System::Error(m) => m.market_info,
        }
    }

    pub open spec fn last_reference(self) -> Option<OrderReference> {
        match self {
            System::Setup(m) => m.last_position_reference,
            System::AwaitData(m) => m.last_position_reference,
            System::DecideOrderPlacement(m) => m.last_position_reference,
            System::ManageOrders(m) => m.last_position_reference,
            System::Error(m) => m.last_position_reference,
        }
    }

    /// The terminal error state with the same configuration and memory.
    pub open spec fn failed(self) -> System {
        System::Error(
            SystemMachine {
                state: Error,
                market_info: self.market_info(),
                last_position_reference: self.last_reference(),
            },
        )
    }

    /// The transition table: the next state and the commands emitted when
    /// `event` arrives. Pairs the table does not name leave the machine as it
    /// is and emit nothing.
    pub open spec fn transition(self, event: Event) -> (System, Seq<Command>) {
        match event {
            Event::Error(reason) => match self {
                System::Error(_) => (self, seq![]),
                _ => (self.failed(), seq![Command::FatalFailure(reason)]),
            },
            _ => match self {
                System::Setup(m) => match event {
                    Event::Market { update_time, .. } => if inside_trading_hours(
                        m.market_info,
                        update_time as int,
                    ) {
                        (
                            System::AwaitData(
                                SystemMachine {
                                    state: AwaitData,
                                    market_info: m.market_info,
                                    last_position_reference: m.last_position_reference,
                                },
                            ),
                            seq![fetch_data_command(m.market_info)],
                        )
                    } else {
                        (self, seq![])
                    },
                    _ => (self, seq![]),
                },
                System::AwaitData(m) => match event {
                    Event::Data { prices } => if prices@.len() > 0 {
                        let range = opening_range_of(prices@);
                        if range_accepted(m.market_info, range) {
                            (
                                System::DecideOrderPlacement(
                                    SystemMachine {
                                        state: DecideOrderPlacement {
                                            opening_range: range,
                                            order_manager: OrderManager::empty(),
                                        },
                                        market_info: m.market_info,
                                        last_position_reference: m.last_position_reference,
                                    },
                                ),
                                seq![],
                            )
                        } else {
                            (self.failed(), seq![])
                        }
                    } else {
                        (self, seq![])
                    },
                    _ => (self, seq![]),
                },
                System::DecideOrderPlacement(m) => match event {
                    Event::Market { update_time, bid, ask, .. } => if !inside_trading_hours(
                        m.market_info,
                        update_time as int,
                    ) {
                        (
                            System::Setup(
                                SystemMachine {
                                    state: Setup,
                                    market_info: m.market_info,
                                    last_position_reference: m.last_position_reference,
                                },
                            ),
                            seq![],
                        )
                    } else {
                        place_orders(m, bid, ask)
                    },
                    _ => (self, seq![]),
                },
                System::ManageOrders(m) => match event {
                    Event::Market { update_time, .. } => if inside_trading_hours(
                        m.market_info,
                        update_time as int,
                    ) {
                        let (book, commands) = m.state.order_manager.step_all_spec(event);
                        (
                            System::ManageOrders(
                                SystemMachine {
                                    state: ManageOrders {
                                        opening_range: m.state.opening_range,
                                        order_manager: book,
                                    },
                                    market_info: m.market_info,
                                    last_position_reference: m.last_position_reference,
                                },
                            ),
                            commands,
                        )
                    } else {
                        (
                            System::Setup(
                                SystemMachine {
                                    state: Setup,
                                    market_info: m.market_info,
                                    last_position_reference: m.last_position_reference,
                                },
                            ),
                            seq![],
                        )
                    },
                    Event::Order(_, reference) => {
                        let (book, commands) = m.state.order_manager.step_one_spec(reference, event);
                        (
                            System::ManageOrders(
                                SystemMachine {
                                    state: ManageOrders {
                                        opening_range: m.state.opening_range,
                                        order_manager: book,
                                    },
                                    market_info: m.market_info,
                                    last_position_reference: m.last_position_reference,
                                },
                            ),
                            commands,
                        )
                    },
                    Event::WOCancel(reference) => (
                        System::DecideOrderPlacement(
                            SystemMachine {
                                state: DecideOrderPlacement {
                                    opening_range: m.state.opening_range,
                                    order_manager: OrderManager::empty(),
                                },
                                market_info: m.market_info,
                                last_position_reference: Some(reference),
                            },
                        ),
                        seq![],
                    ),
                    Event::PositionExit(reference) => (
                        System::DecideOrderPlacement(
                            SystemMachine {
                                state: DecideOrderPlacement {
                                    opening_range: m.state.opening_range,
                                    order_manager: OrderManager::empty(),
                                },
                                market_info: m.market_info,
                                last_position_reference: Some(reference),
                            },
                        ),
                        seq![],
                    ),
                    _ => (self, seq![]),
                },
                System::Error(_) => (self, seq![]),
            },
        }
    }
}

/// Get the data for the opening range.
fn create_fetch_data_command(market_info: &MarketInfo) -> (r: Command)
    ensures
        r == fetch_data_command(*market_info),
{
    Command::FetchData {
        epic: market_info.epic.clone(),
        start: market_info.utc_open_time,
        duration: (market_info.bars_in_opening_range as i64 - 1) * MINUTE,
    }
}

fn exec_range_accepted(info: &MarketInfo, range: &OpeningRange) -> (r: bool)
    ensures
        r == range_accepted(*info, *range),
{
    let size = range.range_size();
    proof {
        crate::order::lemma_stop_distance_bounded(*range);
    }
    let low = info.min_stop as i128 * OPENING_RANGE_MULTIPLIER;
    proof {
        let ms = info.min_stop as int;
        let mm = info.max_stop_multiplier as int;
        assert(-0x8000_0000_0000_0000_0000_0000int <= ms * mm <= 0x8000_0000_0000_0000_0000_0000int)
            by (nonlinear_arith)
            requires
                -0x8000_0000_0000_0000int <= ms <= 0x8000_0000_0000_0000int,
                0 <= mm <= 0x1_0000_0000int,
        ;
    }
    let high = info.min_stop as i128 * info.max_stop_multiplier as i128 * OPENING_RANGE_MULTIPLIER;
    size >= low && size <= high
}

fn exec_buffer(stop_distance: i128, turning: bool) -> (r: i128)
    requires
        -0x1_0000_0000_0000_0000i128 <= stop_distance <= 0x1_0000_0000_0000_0000i128,
    ensures
        r == buffer(stop_distance as int, turning),
        -0x1_0000_0000_0000_0000i128 <= r <= 0x1_0000_0000_0000_0000i128,
{
    if turning {
        stop_distance * DIRECTION_CHANGE_MULTIPLIER
    } else {
        stop_distance
    }
}

fn exec_is_short(r: &Option<OrderReference>) -> (b: bool)
    ensures
        b == is_short_reference(*r),
{
    match r {
        Some(OrderReference::BETWEEN_SHORT) | Some(OrderReference::UNDER_SHORT) => true,
        _ => false,
    }
}

fn exec_is_long(r: &Option<OrderReference>) -> (b: bool)
    ensures
        b == is_long_reference(*r),
{
    match r {
        Some(OrderReference::BETWEEN_LONG) | Some(OrderReference::OVER_LONG) => true,
        _ => false,
    }
}

pub fn is_price_over(
    stop_distance: i128,
    opening_range: &OpeningRange,
    bid: i64,
    ask: i64,
    last_trade_reference: &Option<OrderReference>,
) -> (r: bool)
    requires
        -0x1_0000_0000_0000_0000i128 <= stop_distance <= 0x1_0000_0000_0000_0000i128,
    ensures
        r == price_over(stop_distance as int, *opening_range, bid as int, ask as int, *last_trade_reference),
{
    let buf = exec_buffer(stop_distance, exec_is_short(last_trade_reference));
    let level = bid as i128 + ask as i128;
    level > opening_range.high_bid as i128 + opening_range.high_ask as i128 + 2 * buf
}

pub fn is_price_under(
    stop_distance: i128,
    opening_range: &OpeningRange,
    bid: i64,
    ask: i64,
    last_trade_reference: &Option<OrderReference>,
) -> (r: bool)
    requires
        -0x1_0000_0000_0000_0000i128 <= stop_distance <= 0x1_0000_0000_0000_0000i128,
    ensures
        r == price_under(stop_distance as int, *opening_range, bid as int, ask as int, *last_trade_reference),
{
    let buf = exec_buffer(stop_distance, exec_is_long(last_trade_reference));
    let level = bid as i128 + ask as i128;
    level < opening_range.low_bid as i128 + opening_range.low_ask as i128 - 2 * buf
}

pub fn is_price_between(
    stop_distance: i128,
    opening_range: &OpeningRange,
    bid: i64,
    ask: i64,
    last_trade_reference: &Option<OrderReference>,
) -> (r: bool)
    requires
        -0x1_0000_0000_0000_0000i128 <= stop_distance <= 0x1_0000_0000_0000_0000i128,
    ensures
        r == price_between(stop_distance as int, *opening_range, bid as int, ask as int, *last_trade_reference),
{
    let short_buffer = exec_buffer(stop_distance, exec_is_long(last_trade_reference));
    let long_buffer = exec_buffer(stop_distance, exec_is_short(last_trade_reference));
    let level = bid as i128 + ask as i128;
    level < opening_range.high_bid as i128 + opening_range.high_ask as i128 - 2 * short_buffer
        && level > opening_range.low_bid as i128 + opening_range.low_ask as i128 + 2 * long_buffer
}

fn exec_create_command(info: &MarketInfo, range: &OpeningRange, reference: OrderReference) -> (r: Command)
    ensures
        r == create_command(*info, *range, reference),
{
    proof {
        crate::order::lemma_stop_distance_bounded(*range);
    }
    let sd = info.stop_distance(range.range_size());
    let spread = range.spread();
    let price: i128 = match reference {
        OrderReference::OVER_LONG => range.high_ask as i128 + spread,
        OrderReference::BETWEEN_LONG => range.low_ask as i128 + spread,
        OrderReference::BETWEEN_SHORT => range.high_bid as i128 - spread,
        OrderReference::UNDER_SHORT => range.low_bid as i128 - spread,
    };
    let direction = match reference {
        OrderReference::OVER_LONG | OrderReference::BETWEEN_LONG => Direction::BUY,
        _ => Direction::SELL,
    };
    Command::CreateWorkingOrder {
        direction,
        price,
        reference,
        market_info: info.duplicate(),
        target_distance: sd * RISK_REWARD_RATIO,
        stop_distance: sd,
    }
}

fn exec_place_orders(m: SystemMachine<DecideOrderPlacement>, bid: i64, ask: i64) -> (r: (System, Vec<Command>))
    ensures
        r.0 == place_orders(m, bid, ask).0,
        r.1@ == place_orders(m, bid, ask).1,
{
    proof {
        crate::order::lemma_stop_distance_bounded(m.state.opening_range);
    }
    let range = m.state.opening_range;
    let sd = m.market_info.stop_distance(range.range_size());
    let last = m.last_position_reference;
    if is_price_over(sd, &range, bid, ask, &last) {
        let command = exec_create_command(&m.market_info, &range, OrderReference::OVER_LONG);
        let mut book = m.state.order_manager;
        book.create_order(OrderReference::OVER_LONG, m.market_info.duplicate(), range);
        (
            System::ManageOrders(
                SystemMachine {
                    state: ManageOrders { opening_range: range, order_manager: book },
                    market_info: m.market_info,
                    last_position_reference: last,
                },
            ),
            vec![command],
        )
    } else if is_price_between(sd, &range, bid, ask, &last) {
        let long = exec_create_command(&m.market_info, &range, OrderReference::BETWEEN_LONG);
        let short = exec_create_command(&m.market_info, &range, OrderReference::BETWEEN_SHORT);
        let mut book = m.state.order_manager;
        book.create_order(OrderReference::BETWEEN_LONG, m.market_info.duplicate(), range);
        book.create_order(OrderReference::BETWEEN_SHORT, m.market_info.duplicate(), range);
        (
            System::ManageOrders(
                SystemMachine {
                    state: ManageOrders { opening_range: range, order_manager: book },
                    market_info: m.market_info,
                    last_position_reference: last,
                },
            ),
            vec![long, short],
        )
    } else if is_price_under(sd, &range, bid, ask, &last) {
        let command = exec_create_command(&m.market_info, &range, OrderReference::UNDER_SHORT);
        let mut book = m.state.order_manager;
        book.create_order(OrderReference::UNDER_SHORT, m.market_info.duplicate(), range);
        (
            System::ManageOrders(
                SystemMachine {
                    state: ManageOrders { opening_range: range, order_manager: book },
                    market_info: m.market_info,
                    last_position_reference: last,
                },
            ),
            vec![command],
        )
    } else {
        (System::DecideOrderPlacement(m), vec![])
    }
}

fn fail<S>(m: SystemMachine<S>) -> (r: System)
    ensures
        r == System::Error(
            SystemMachine {
                state: Error,
                market_info: m.market_info,
                last_position_reference: m.last_position_reference,
            },
        ),
{
    System::Error(
        SystemMachine {
            state: Error,
            market_info: m.market_info,
            last_position_reference: m.last_position_reference,
        },
    )
}

impl System {
    /// Applies one event, returning the next state and the commands emitted.
    pub fn step(self, event: &Event) -> (r: (System, Vec<Command>))
        ensures
            r.0 == self.transition(*event).0,
            r.1@ == self.transition(*event).1,
    {
        if let Event::Error(reason) = event {
            return match self {
                System::Error(m) => (System::Error(m), vec![]),
                System::Setup(m) => (fail(m), vec![Command::FatalFailure(reason.clone())]),
                System::AwaitData(m) => (fail(m), vec![Command::FatalFailure(reason.clone())]),
                System::DecideOrderPlacement(m) => (fail(m), vec![Command::FatalFailure(reason.clone())]),
                System::ManageOrders(m) => (fail(m), vec![Command::FatalFailure(reason.clone())]),
            };
        }
        match self {
            System::Setup(m) => match event {
                Event::Market { update_time, .. } => {
                    if m.market_info.is_inside_trading_hours(*update_time) {
                        let command = create_fetch_data_command(&m.market_info);
                        (
                            System::AwaitData(
                                SystemMachine {
                                    state: AwaitData,
                                    market_info: m.market_info,
                                    last_position_reference: m.last_position_reference,
                                },
                            ),
                            vec![command],
                        )
                    } else {
                        (System::Setup(m), vec![])
                    }
                },
                _ => (System::Setup(m), vec![]),
            },
            System::AwaitData(m) => match event {
                Event::Data { prices } => {
                    if prices.len() > 0 {
                        let range = create_opening_range_from_ohlcs(prices);
                        if exec_range_accepted(&m.market_info, &range) {
                            (
                                System::DecideOrderPlacement(
                                    SystemMachine {
                                        state: DecideOrderPlacement {
                                            opening_range: range,
                                            order_manager: OrderManager::new(),
                                        },
                                        market_info: m.market_info,
                                        last_position_reference: m.last_position_reference,
                                    },
                                ),
                                vec![],
                            )
                        } else {
                            (fail(m), vec![])
                        }
                    } else {
                        (System::AwaitData(m), vec![])
                    }
                },
                _ => (System::AwaitData(m), vec![]),
            },
            System::DecideOrderPlacement(m) => match event {
                Event::Market { update_time, bid, ask, .. } => {
                    if !m.market_info.is_inside_trading_hours(*update_time) {
                        (
                            System::Setup(
                                SystemMachine {
                                    state: Setup,
                                    market_info: m.market_info,
                                    last_position_reference: m.last_position_reference,
                                },
                            ),
                            vec![],
                        )
                    } else {
                        exec_place_orders(m, *bid, *ask)
                    }
                },
                _ => (System::DecideOrderPlacement(m), vec![]),
            },
            System::ManageOrders(m) => match event {
                Event::Market { update_time, .. } => {
                    if m.market_info.is_inside_trading_hours(*update_time) {
                        let mut m = m;
                        let commands = m.state.order_manager.step_all(event);
                        (System::ManageOrders(m), commands)
                    } else {
                        (
                            System::Setup(
                                SystemMachine {
                                    state: Setup,
                                    market_info: m.market_info,
                                    last_position_reference: m.last_position_reference,
                                },
                            ),
                            vec![],
                        )
                    }
                },
                Event::Order(_, reference) => {
                    let mut m = m;
                    let commands = m.state.order_manager.step_one(*reference, event);
                    (System::ManageOrders(m), commands)
                },
                Event::WOCancel(reference) | Event::PositionExit(reference) => (
                    System::DecideOrderPlacement(
                        SystemMachine {
                            state: DecideOrderPlacement {
                                opening_range: m.state.opening_range,
                                order_manager: OrderManager::new(),
                            },
                            market_info: m.market_info,
                            last_position_reference: Some(*reference),
                        },
                    ),
                    vec![],
                ),
                _ => (System::ManageOrders(m), vec![]),
            },
            System::Error(m) => (System::Error(m), vec![]),
        }
    }

    /// The configuration the machine carries.
    pub fn get_market_info(&self) -> (r: &MarketInfo)
        ensures
            *r == self.market_info(),
    {
        match self {
            System::Setup(m) => &m.market_info,
            System::AwaitData(m) => &m.market_info,
            System::DecideOrderPlacement(m) => &m.market_info,
            System::ManageOrders(m) => &m.market_info,
            System::Error(m) => &m.market_info,
        }
    }

    /// The opening range, once the machine has one.
    pub fn get_opening_range(&self) -> (r: Option<OpeningRange>)
        ensures
            r == match self {
                System::DecideOrderPlacement(m) => Some(m.state.opening_range),
                System::ManageOrders(m) => Some(m.state.opening_range),
                _ => None,
            },
    {
        match self {
            System::DecideOrderPlacement(m) => Some(m.state.opening_range),
            System::ManageOrders(m) => Some(m.state.opening_range),
            _ => None,
        }
    }

    /// The name of the current state.
    pub open spec fn phase_name(self) -> Seq<char> {
        match self {
            System::Setup(_) => "Setup"@,
            System::AwaitData(_) => "AwaitData"@,
            System::DecideOrderPlacement(_) => "DecideOrderPlacement"@,
            System::ManageOrders(_) => "ManageOrders"@,
            System::Error(_) => "Error"@,
        }
    }

    /// The name of the current state.
    pub fn state_name(&self) -> (r: &'static str)
        ensures
            r@ == self.phase_name(),
    {
        proof {
            reveal_strlit("Setup");
            reveal_strlit("AwaitData");
            reveal_strlit("DecideOrderPlacement");
            reveal_strlit("ManageOrders");
            reveal_strlit("Error");
        }
        match self {
            System::Setup(_) => "Setup",
            System::AwaitData(_) => "AwaitData",
            System::DecideOrderPlacement(_) => "DecideOrderPlacement",
            System::ManageOrders(_) => "ManageOrders",
            System::Error(_) => "Error",
        }
    }
}

/// Creates machines in their starting state.
pub struct SystemFactory;

impl SystemFactory {
    /// A new machine in `Setup` with no order history.
    pub open spec fn new_spec(market_info: MarketInfo) -> System {
        System::Setup(SystemMachine { state: Setup, market_info, last_position_reference: None })
    }

    pub fn new(market_info: MarketInfo) -> (r: System)
        ensures
            r == System::Setup(
                SystemMachine { state: Setup, market_info, last_position_reference: None },
            ),
    {
        System::Setup(SystemMachine { state: Setup, market_info, last_position_reference: None })
    }
}

} // verus!
