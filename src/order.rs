//! The per-order machine: from submission through fill, trailing-stop
//! amendment and exit.
use vstd::prelude::*;
use crate::decider::{
    stop_distance_for, Command, Event, MarketInfo, OrderEvent, TradeResult,
    RISK_REWARD_RATIO, STRATEGY_VERSION,
};
use crate::models::OrderReference;
use crate::range::{range_size_of, OpeningRange};

verus! {

/// One state of an order, with the configuration and opening range it was placed under.
#[derive(Clone, Debug)]
pub struct WorkingOrderMachine<S> {
    pub state: S,
    pub market_info: MarketInfo,
    pub opening_range: OpeningRange,
}

#[derive(Clone, Copy, Debug, PartialEq, Eq, Structural)]
pub struct AwaitingWOOpenConfirmation;

#[derive(Clone, Copy, Debug, PartialEq, Eq, Structural)]
pub struct WOOpenRejected;

#[derive(Clone, Debug)]
pub struct WOOpenAccepted {
    pub wanted_entry_level: i64,
    pub reference: OrderReference,
    pub deal_id: String,
}

/// What an open position remembers.
#[derive(Clone, Debug)]
pub struct PositionOpened {
    pub wanted_entry_level: i64,
    pub actual_entry_level: i64,
    pub entry_time: i64,
    pub reference: OrderReference,
    pub deal_id: String,
}

#[derive(Clone, Debug)]
pub struct AwaitingTrailingStopConfirmation {
    pub wanted_entry_level: i64,
    pub actual_entry_level: i64,
    pub entry_time: i64,
    pub reference: OrderReference,
    pub deal_id: String,
}

#[derive(Clone, Debug)]
pub struct PositionTrailingStopAccepted {
    pub wanted_entry_level: i64,
    pub actual_entry_level: i64,
    pub entry_time: i64,
    pub reference: OrderReference,
    pub deal_id: String,
}

#[derive(Clone, Copy, Debug, PartialEq, Eq, Structural)]
pub struct WOCloseRejected;

#[derive(Clone, Copy, Debug, PartialEq, Eq, Structural)]
pub struct WOCloseAccepted;

#[derive(Clone, Debug)]
pub struct PositionExited {
    pub wanted_entry_level: i64,
    pub actual_entry_level: i64,
    pub entry_time: i64,
    pub exit_time: i64,
    pub exit_level: i64,
    pub reference: OrderReference,
    pub deal_id: String,
}

/// The order machine, one variant per state.
#[derive(Clone, Debug)]
pub enum WorkingOrder {
    AwaitingWOOpenConfirmation(WorkingOrderMachine<AwaitingWOOpenConfirmation>),
    WOOpenRejected(WorkingOrderMachine<WOOpenRejected>),
    WOOpenAccepted(WorkingOrderMachine<WOOpenAccepted>),
    PositionOpened(WorkingOrderMachine<PositionOpened>),
    AwaitingTrailingStopConfirmation(WorkingOrderMachine<AwaitingTrailingStopConfirmation>),
    PositionTrailingStopAccepted(WorkingOrderMachine<PositionTrailingStopAccepted>),
    WOCloseRejected(WorkingOrderMachine<WOCloseRejected>),
    WOCloseAccepted(WorkingOrderMachine<WOCloseAccepted>),
    PositionExited(WorkingOrderMachine<PositionExited>),
}

/// The trailing-stop trigger. It is switched off in this release: no tick arms
/// a trailing stop.
pub open spec fn arms_trailing(bid: i64, ask: i64, reference: OrderReference, entry_level: i64) -> bool {
    false
}

/// Decides whether a tick arms the trailing stop of an open position.
pub fn should_arm_trailing(bid: i64, ask: i64, reference: OrderReference, entry_level: i64) -> (r: bool)
    ensures
        r == arms_trailing(bid, ask, reference, entry_level),
{
    false
}

/// -1 for a long order, +1 for a short one.
pub open spec fn direction_multiple(reference: OrderReference) -> int {
    if reference.is_long_spec() {
        -1
    } else {
        1
    }
}

/// The stop distance of an order placed under `range`.
pub open spec fn order_stop_distance(range: OpeningRange) -> int {
    stop_distance_for(range_size_of(range))
}

/// The commands of a broker rejection of a new order: a `Between*` order first
/// cancels the opposite side, then every rejection asks for a restart.
pub open spec fn rejection_commands(epic: String, reference: OrderReference) -> Seq<Command> {
    match reference {
        OrderReference::BETWEEN_LONG => seq![
            Command::CancelWorkingOrder { epic, reference_to_cancel: OrderReference::BETWEEN_SHORT },
            Command::Restart(reference),
        ],
        OrderReference::BETWEEN_SHORT => seq![
            Command::CancelWorkingOrder { epic, reference_to_cancel: OrderReference::BETWEEN_LONG },
            Command::Restart(reference),
        ],
        _ => seq![Command::Restart(reference)],
    }
}

/// The commands of a fill: a `Between*` fill cancels the opposite side.
pub open spec fn fill_commands(epic: String, reference: OrderReference) -> Seq<Command> {
    match reference {
        OrderReference::BETWEEN_LONG => seq![
            Command::CancelWorkingOrder { epic, reference_to_cancel: OrderReference::BETWEEN_SHORT },
        ],
        OrderReference::BETWEEN_SHORT => seq![
            Command::CancelWorkingOrder { epic, reference_to_cancel: OrderReference::BETWEEN_LONG },
        ],
        _ => seq![],
    }
}

/// The trailing-stop amendment of an open position.
pub open spec fn trailing_update(m: WorkingOrderMachine<PositionOpened>) -> Command {
    let sd = order_stop_distance(m.opening_range);
    let mult = direction_multiple(m.state.reference);
    Command::UpdatePosition {
        epic: m.market_info.epic,
        deal_id: m.state.deal_id,
        stop_level: (m.state.actual_entry_level + sd * mult) as i128,
        trailing_stop_distance: sd as i128,
        target_level: (m.state.actual_entry_level - sd * RISK_REWARD_RATIO * mult) as i128,
        reference: m.state.reference,
    }
}

/// The result published when a position exits.
pub open spec fn trade_result(
    market_info: MarketInfo,
    range: OpeningRange,
    exited: PositionExited,
) -> TradeResult {
    TradeResult {
        size: market_info.lot_size,
        wanted_entry_level: exited.wanted_entry_level,
        actual_entry_level: exited.actual_entry_level,
        entry_time: exited.entry_time,
        exit_time: exited.exit_time,
        exit_level: exited.exit_level,
        reference: exited.reference,
        epic: market_info.epic,
        opening_range_size: range_size_of(range) as i128,
        strategy_version: STRATEGY_VERSION,
        one_r: order_stop_distance(range) as i128,
    }
}

/// The exited state of a position that was open with the given data.
pub open spec fn exited_from(
    wanted_entry_level: i64,
    actual_entry_level: i64,
    entry_time: i64,
    reference: OrderReference,
    deal_id: String,
    exit_level: i64,
    exit_time: i64,
) -> PositionExited {
    PositionExited {
        wanted_entry_level,
        actual_entry_level,
        entry_time,
        exit_time,
        exit_level,
        reference,
        deal_id,
    }
}

/// Moves to `PositionExited` and publishes the trade result.
pub open spec fn exit_transition(
    market_info: MarketInfo,
    range: OpeningRange,
    exited: PositionExited,
) -> (WorkingOrder, Seq<Command>) {
    (
        WorkingOrder::PositionExited(
            WorkingOrderMachine { state: exited, market_info, opening_range: range },
        ),
        seq![Command::PublishTradeResults(trade_result(market_info, range, exited))],
    )
}

impl WorkingOrder {
    /// The transition table: the next state and the commands emitted when
    /// `event` arrives. Pairs the table does not name leave the order as it is
    /// and emit nothing.
    pub open spec fn transition(self, event: Event) -> (WorkingOrder, Seq<Command>) {
        match self {
            WorkingOrder::AwaitingWOOpenConfirmation(m) => match event {
                Event::Order(OrderEvent::ConfirmationOpenAccepted { level, deal_id }, reference) => (
                    WorkingOrder::WOOpenAccepted(
                        WorkingOrderMachine {
                            state: WOOpenAccepted { wanted_entry_level: level, reference, deal_id },
                            market_info: m.market_info,
                            opening_range: m.opening_range,
                        },
                    ),
                    seq![],
                ),
                Event::Order(OrderEvent::ConfirmationRejection, reference) => (
                    WorkingOrder::WOOpenRejected(
                        WorkingOrderMachine {
                            state: WOOpenRejected,
                            market_info: m.market_info,
                            opening_range: m.opening_range,
                        },
                    ),
                    rejection_commands(m.market_info.epic, reference),
                ),
                _ => (self, seq![]),
            },
            WorkingOrder::WOOpenAccepted(m) => match event {
                Event::Order(OrderEvent::PositionEntry { entry_level, entry_time }, reference) => (
                    WorkingOrder::PositionOpened(
                        WorkingOrderMachine {
                            state: PositionOpened {
                                wanted_entry_level: m.state.wanted_entry_level,
                                actual_entry_level: entry_level,
                                entry_time,
                                reference: m.state.reference,
                                deal_id: m.state.deal_id,
                            },
                            market_info: m.market_info,
                            opening_range: m.opening_range,
                        },
                    ),
                    fill_commands(m.market_info.epic, reference),
                ),
                Event::Order(OrderEvent::ConfirmationDeleteAccepted, _) => (
                    WorkingOrder::WOCloseAccepted(
                        WorkingOrderMachine {
                            state: WOCloseAccepted,
                            market_info: m.market_info,
                            opening_range: m.opening_range,
                        },
                    ),
                    seq![],
                ),
                Event::Order(OrderEvent::ConfirmationRejection, _) => (
                    WorkingOrder::WOCloseRejected(
                        WorkingOrderMachine {
                            state: WOCloseRejected,
                            market_info: m.market_info,
                            opening_range: m.opening_range,
                        },
                    ),
                    seq![],
                ),
                _ => (self, seq![]),
            },
            WorkingOrder::PositionOpened(m) => match event {
                Event::Market { bid, ask, .. } => if arms_trailing(
                    bid,
                    ask,
                    m.state.reference,
                    m.state.actual_entry_level,
                ) {
                    (
                        WorkingOrder::AwaitingTrailingStopConfirmation(
                            WorkingOrderMachine {
                                state: AwaitingTrailingStopConfirmation {
                                    wanted_entry_level: m.state.wanted_entry_level,
                                    actual_entry_level: m.state.actual_entry_level,
                                    entry_time: m.state.entry_time,
                                    reference: m.state.reference,
                                    deal_id: m.state.deal_id,
                                },
                                market_info: m.market_info,
                                opening_range: m.opening_range,
                            },
                        ),
                        seq![trailing_update(m)],
                    )
                } else {
                    (self, seq![])
                },
                Event::Order(OrderEvent::PositionExit { exit_level, exit_time }, _) => exit_transition(
                    m.market_info,
                    m.opening_range,
                    exited_from(
                        m.state.wanted_entry_level,
                        m.state.actual_entry_level,
                        m.state.entry_time,
                        m.state.reference,
                        m.state.deal_id,
                        exit_level,
                        exit_time,
                    ),
                ),
                _ => (self, seq![]),
            },
            WorkingOrder::AwaitingTrailingStopConfirmation(m) => match event {
                Event::Order(OrderEvent::ConfirmationAmendedAccepted, _) => (
                    WorkingOrder::PositionTrailingStopAccepted(
                        WorkingOrderMachine {
                            state: PositionTrailingStopAccepted {
                                wanted_entry_level: m.state.wanted_entry_level,
                                actual_entry_level: m.state.actual_entry_level,
                                entry_time: m.state.entry_time,
                                reference: m.state.reference,
                                deal_id: m.state.deal_id,
                            },
                            market_info: m.market_info,
                            opening_range: m.opening_range,
                        },
                    ),
                    seq![],
                ),
                Event::Order(OrderEvent::ConfirmationRejection, _) => (
                    WorkingOrder::PositionOpened(
                        WorkingOrderMachine {
                            state: PositionOpened {
                                wanted_entry_level: m.state.wanted_entry_level,
                                actual_entry_level: m.state.actual_entry_level,
                                entry_time: m.state.entry_time,
                                reference: m.state.reference,
                                deal_id: m.state.deal_id,
                            },
                            market_info: m.market_info,
                            opening_range: m.opening_range,
                        },
                    ),
                    seq![],
                ),
                Event::Order(OrderEvent::PositionExit { exit_level, exit_time }, _) => exit_transition(
                    m.market_info,
                    m.opening_range,
                    exited_from(
                        m.state.wanted_entry_level,
                        m.state.actual_entry_level,
                        m.state.entry_time,
                        m.state.reference,
                        m.state.deal_id,
                        exit_level,
                        exit_time,
                    ),
                ),
                _ => (self, seq![]),
            },
            WorkingOrder::PositionTrailingStopAccepted(m) => match event {
                Event::Order(OrderEvent::PositionExit { exit_level, exit_time }, _) => exit_transition(
                    m.market_info,
                    m.opening_range,
                    exited_from(
                        m.state.wanted_entry_level,
                        m.state.actual_entry_level,
                        m.state.entry_time,
                        m.state.reference,
                        m.state.deal_id,
                        exit_level,
                        exit_time,
                    ),
                ),
                _ => (self, seq![]),
            },
            _ => (self, seq![]),
        }
    }
}

/// Rounding toward zero never grows a magnitude.
pub proof fn lemma_trunc_div_bounded(a: int, b: int)
    requires
        b >= 1,
    ensures
        a >= 0 ==> 0 <= crate::decider::trunc_div(a, b) <= a,
        a < 0 ==> a <= crate::decider::trunc_div(a, b) <= 0,
{
    if a >= 0 {
        vstd::arithmetic::div_mod::lemma_div_is_ordered_by_denominator(a, 1, b);
        vstd::arithmetic::div_mod::lemma_div_pos_is_pos(a, b);
    } else {
        vstd::arithmetic::div_mod::lemma_div_is_ordered_by_denominator(-a, 1, b);
        vstd::arithmetic::div_mod::lemma_div_pos_is_pos(-a, b);
    }
}

/// The stop distance of an order is at most a sixth of four machine integers.
pub proof fn lemma_stop_distance_bounded(range: OpeningRange)
    ensures
        -0x1_0000_0000_0000_0000int <= range_size_of(range) <= 0x1_0000_0000_0000_0000int,
        -0x1_0000_0000_0000_0000int <= order_stop_distance(range) <= 0x1_0000_0000_0000_0000int,
{
    let twice = crate::range::mid_high2(range) - crate::range::mid_low2(range);
    lemma_trunc_div_bounded(twice, 2);
    lemma_trunc_div_bounded(range_size_of(range), 3);
}

fn stop_distance_of_order(market_info: &MarketInfo, range: &OpeningRange) -> (r: i128)
    ensures
        r == order_stop_distance(*range),
{
    proof {
        lemma_stop_distance_bounded(*range);
    }
    market_info.stop_distance(range.range_size())
}

fn exec_rejection_commands(epic: String, reference: OrderReference) -> (r: Vec<Command>)
    ensures
        r@ == rejection_commands(epic, reference),
{
    match reference {
        OrderReference::BETWEEN_LONG => vec![
            Command::CancelWorkingOrder { epic, reference_to_cancel: OrderReference::BETWEEN_SHORT },
            Command::Restart(reference),
        ],
        OrderReference::BETWEEN_SHORT => vec![
            Command::CancelWorkingOrder { epic, reference_to_cancel: OrderReference::BETWEEN_LONG },
            Command::Restart(reference),
        ],
        _ => vec![Command::Restart(reference)],
    }
}

fn exec_fill_commands(epic: String, reference: OrderReference) -> (r: Vec<Command>)
    ensures
        r@ == fill_commands(epic, reference),
{
    match reference {
        OrderReference::BETWEEN_LONG => vec![
            Command::CancelWorkingOrder { epic, reference_to_cancel: OrderReference::BETWEEN_SHORT },
        ],
        OrderReference::BETWEEN_SHORT => vec![
            Command::CancelWorkingOrder { epic, reference_to_cancel: OrderReference::BETWEEN_LONG },
        ],
        _ => vec![],
    }
}

fn exec_exit(market_info: MarketInfo, range: OpeningRange, exited: PositionExited) -> (r: (
    WorkingOrder,
    Vec<Command>,
))
    ensures
        r.0 == exit_transition(market_info, range, exited).0,
        r.1@ == exit_transition(market_info, range, exited).1,
{
    proof {
        lemma_stop_distance_bounded(range);
    }
    let result = TradeResult {
        size: market_info.lot_size,
        wanted_entry_level: exited.wanted_entry_level,
        actual_entry_level: exited.actual_entry_level,
        entry_time: exited.entry_time,
        exit_time: exited.exit_time,
        exit_level: exited.exit_level,
        reference: exited.reference,
        epic: market_info.epic.clone(),
        opening_range_size: range.range_size(),
        strategy_version: STRATEGY_VERSION,
        one_r: stop_distance_of_order(&market_info, &range),
    };
    (
        WorkingOrder::PositionExited(
            WorkingOrderMachine { state: exited, market_info, opening_range: range },
        ),
        vec![Command::PublishTradeResults(result)],
    )
}

fn exec_trailing_update(m: &WorkingOrderMachine<PositionOpened>) -> (r: Command)
    ensures
        r == trailing_update(*m),
{
    let sd = stop_distance_of_order(&m.market_info, &m.opening_range);
    proof {
        lemma_stop_distance_bounded(m.opening_range);
    }
    assert(RISK_REWARD_RATIO == 2);
    let entry = m.state.actual_entry_level as i128;
    let (stop_level, target_level) = if m.state.reference == OrderReference::OVER_LONG
        || m.state.reference == OrderReference::BETWEEN_LONG {
        (entry - sd, entry + sd * 2)
    } else {
        (entry + sd, entry - sd * 2)
    };
    Command::UpdatePosition {
        epic: m.market_info.epic.clone(),
        deal_id: m.state.deal_id.clone(),
        stop_level,
        trailing_stop_distance: sd,
        target_level,
        reference: m.state.reference,
    }
}

impl WorkingOrder {
    /// Applies one event, returning the next state and the commands emitted.
    pub fn step(self, event: &Event) -> (r: (WorkingOrder, Vec<Command>))
        ensures
            r.0 == self.transition(*event).0,
            r.1@ == self.transition(*event).1,
    {
        match self {
            WorkingOrder::AwaitingWOOpenConfirmation(m) => match event {
                Event::Order(OrderEvent::ConfirmationOpenAccepted { level, deal_id }, reference) => (
                    WorkingOrder::WOOpenAccepted(
                        WorkingOrderMachine {
                            state: WOOpenAccepted {
                                wanted_entry_level: *level,
                                reference: *reference,
                                deal_id: deal_id.clone(),
                            },
                            market_info: m.market_info,
                            opening_range: m.opening_range,
                        },
                    ),
                    vec![],
                ),
                Event::Order(OrderEvent::ConfirmationRejection, reference) => {
                    let commands = exec_rejection_commands(m.market_info.epic.clone(), *reference);
                    (
                        WorkingOrder::WOOpenRejected(
                            WorkingOrderMachine {
                                state: WOOpenRejected,
                                market_info: m.market_info,
                                opening_range: m.opening_range,
                            },
                        ),
                        commands,
                    )
                },
                _ => (WorkingOrder::AwaitingWOOpenConfirmation(m), vec![]),
            },
            WorkingOrder::WOOpenAccepted(m) => match event {
                Event::Order(OrderEvent::PositionEntry { entry_level, entry_time }, reference) => {
                    let commands = exec_fill_commands(m.market_info.epic.clone(), *reference);
                    (
                        WorkingOrder::PositionOpened(
                            WorkingOrderMachine {
                                state: PositionOpened {
                                    wanted_entry_level: m.state.wanted_entry_level,
                                    actual_entry_level: *entry_level,
                                    entry_time: *entry_time,
                                    reference: m.state.reference,
                                    deal_id: m.state.deal_id,
                                },
                                market_info: m.market_info,
                                opening_range: m.opening_range,
                            },
                        ),
                        commands,
                    )
                },
                Event::Order(OrderEvent::ConfirmationDeleteAccepted, _) => (
                    WorkingOrder::WOCloseAccepted(
                        WorkingOrderMachine {
                            state: WOCloseAccepted,
                            market_info: m.market_info,
                            opening_range: m.opening_range,
                        },
                    ),
                    vec![],
                ),
                Event::Order(OrderEvent::ConfirmationRejection, _) => (
                    WorkingOrder::WOCloseRejected(
                        WorkingOrderMachine {
                            state: WOCloseRejected,
                            market_info: m.market_info,
                            opening_range: m.opening_range,
                        },
                    ),
                    vec![],
                ),
                _ => (WorkingOrder::WOOpenAccepted(m), vec![]),
            },
            WorkingOrder::PositionOpened(m) => match event {
                Event::Market { bid, ask, .. } => {
                    if should_arm_trailing(
                        *bid,
                        *ask,
                        m.state.reference,
                        m.state.actual_entry_level,
                    ) {
                        let command = exec_trailing_update(&m);
                        (
                            WorkingOrder::AwaitingTrailingStopConfirmation(
                                WorkingOrderMachine {
                                    state: AwaitingTrailingStopConfirmation {
                                        wanted_entry_level: m.state.wanted_entry_level,
                                        actual_entry_level: m.state.actual_entry_level,
                                        entry_time: m.state.entry_time,
                                        reference: m.state.reference,
                                        deal_id: m.state.deal_id,
                                    },
                                    market_info: m.market_info,
                                    opening_range: m.opening_range,
                                },
                            ),
                            vec![command],
                        )
                    } else {
                        (WorkingOrder::PositionOpened(m), vec![])
                    }
                },
                Event::Order(OrderEvent::PositionExit { exit_level, exit_time }, _) => exec_exit(
                    m.market_info,
                    m.opening_range,
                    PositionExited {
                        wanted_entry_level: m.state.wanted_entry_level,
                        actual_entry_level: m.state.actual_entry_level,
                        entry_time: m.state.entry_time,
                        exit_time: *exit_time,
                        exit_level: *exit_level,
                        reference: m.state.reference,
                        deal_id: m.state.deal_id,
                    },
                ),
                _ => (WorkingOrder::PositionOpened(m), vec![]),
            },
            WorkingOrder::AwaitingTrailingStopConfirmation(m) => match event {
                Event::Order(OrderEvent::ConfirmationAmendedAccepted, _) => (
                    WorkingOrder::PositionTrailingStopAccepted(
                        WorkingOrderMachine {
                            state: PositionTrailingStopAccepted {
                                wanted_entry_level: m.state.wanted_entry_level,
                                actual_entry_level: m.state.actual_entry_level,
                                entry_time: m.state.entry_time,
                                reference: m.state.reference,
                                deal_id: m.state.deal_id,
                            },
                            market_info: m.market_info,
                            opening_range: m.opening_range,
                        },
                    ),
                    vec![],
                ),
                Event::Order(OrderEvent::ConfirmationRejection, _) => (
                    WorkingOrder::PositionOpened(
                        WorkingOrderMachine {
                            state: PositionOpened {
                                wanted_entry_level: m.state.wanted_entry_level,
                                actual_entry_level: m.state.actual_entry_level,
                                entry_time: m.state.entry_time,
                                reference: m.state.reference,
                                deal_id: m.state.deal_id,
                            },
                            market_info: m.market_info,
                            opening_range: m.opening_range,
                        },
                    ),
                    vec![],
                ),
                Event::Order(OrderEvent::PositionExit { exit_level, exit_time }, _) => exec_exit(
                    m.market_info,
                    m.opening_range,
                    PositionExited {
                        wanted_entry_level: m.state.wanted_entry_level,
                        actual_entry_level: m.state.actual_entry_level,
                        entry_time: m.state.entry_time,
                        exit_time: *exit_time,
                        exit_level: *exit_level,
                        reference: m.state.reference,
                        deal_id: m.state.deal_id,
                    },
                ),
                _ => (WorkingOrder::AwaitingTrailingStopConfirmation(m), vec![]),
            },
            WorkingOrder::PositionTrailingStopAccepted(m) => match event {
                Event::Order(OrderEvent::PositionExit { exit_level, exit_time }, _) => exec_exit(
                    m.market_info,
                    m.opening_range,
                    PositionExited {
                        wanted_entry_level: m.state.wanted_entry_level,
                        actual_entry_level: m.state.actual_entry_level,
                        entry_time: m.state.entry_time,
                        exit_time: *exit_time,
                        exit_level: *exit_level,
                        reference: m.state.reference,
                        deal_id: m.state.deal_id,
                    },
                ),
                _ => (WorkingOrder::PositionTrailingStopAccepted(m), vec![]),
            },
            other => (other, vec![]),
        }
    }

    /// The name of the current state.
    pub open spec fn phase_name(self) -> Seq<char> {
        match self {
            WorkingOrder::AwaitingWOOpenConfirmation(_) => "AwaitingWOOpenConfirmation"@,
            WorkingOrder::WOOpenRejected(_) => "WOOpenRejected"@,
            WorkingOrder::WOOpenAccepted(_) => "WOOpenAccepted"@,
            WorkingOrder::PositionOpened(_) => "PositionOpened"@,
            WorkingOrder::AwaitingTrailingStopConfirmation(_) => "AwaitingTrailingStopConfirmation"@,
            WorkingOrder::PositionTrailingStopAccepted(_) => "PositionTrailingStopAccepted"@,
            WorkingOrder::WOCloseRejected(_) => "WOCloseRejected"@,
            WorkingOrder::WOCloseAccepted(_) => "WOCloseAccepted"@,
            WorkingOrder::PositionExited(_) => "PositionExited"@,
        }
    }

    /// The name of the current state.
    pub fn state_name(&self) -> (r: &'static str)
        ensures
            r@ == self.phase_name(),
    {
        proof {
            reveal_strlit("AwaitingWOOpenConfirmation");
            reveal_strlit("WOOpenRejected");
            reveal_strlit("WOOpenAccepted");
            reveal_strlit("PositionOpened");
            reveal_strlit("AwaitingTrailingStopConfirmation");
            reveal_strlit("PositionTrailingStopAccepted");
            reveal_strlit("WOCloseRejected");
            reveal_strlit("WOCloseAccepted");
            reveal_strlit("PositionExited");
        }
        match self {
            WorkingOrder::AwaitingWOOpenConfirmation(_) => "AwaitingWOOpenConfirmation",
            WorkingOrder::WOOpenRejected(_) => "WOOpenRejected",
            WorkingOrder::WOOpenAccepted(_) => "WOOpenAccepted",
            WorkingOrder::PositionOpened(_) => "PositionOpened",
            WorkingOrder::AwaitingTrailingStopConfirmation(_) => "AwaitingTrailingStopConfirmation",
            WorkingOrder::PositionTrailingStopAccepted(_) => "PositionTrailingStopAccepted",
            WorkingOrder::WOCloseRejected(_) => "WOCloseRejected",
            WorkingOrder::WOCloseAccepted(_) => "WOCloseAccepted",
            WorkingOrder::PositionExited(_) => "PositionExited",
        }
    }
}

/// Creates orders in their starting state.
pub struct WorkingOrderFactory;

impl WorkingOrderFactory {
    pub fn new(market_info: MarketInfo, opening_range: OpeningRange) -> (r: WorkingOrder)
        ensures
            r == WorkingOrder::AwaitingWOOpenConfirmation(
                WorkingOrderMachine { state: AwaitingWOOpenConfirmation, market_info, opening_range },
            ),
    {
        WorkingOrder::AwaitingWOOpenConfirmation(
            WorkingOrderMachine { state: AwaitingWOOpenConfirmation, market_info, opening_range },
        )
    }
}

} // verus!
