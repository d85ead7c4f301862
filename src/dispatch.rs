//! The dispatcher's decisions: one machine and its caches per instrument, the
//! broker call each command asks for, and the events a call's outcome feeds
//! back to the machines.
use vstd::prelude::*;
use crate::caches::{MarketCache, OpenPositionCache, TradeConfirmationCache};
use crate::decider::{Command, Event, MarketInfo, TradeResult};
use crate::models::{reference_name, reference_text, same_text, Direction, OhlcPrice, OrderReference};
use crate::views::{MarketView, OrderView, SystemView};
use crate::realtime::{MarketUpdate, OpenPositionUpdate, TradeConfirmationUpdate};
use crate::system::{System, SystemFactory};

verus! {

/// The machine of one instrument with its caches.
#[derive(Clone, Debug)]
pub struct SystemManager {
    pub system: System,
    pub trade_confirmation_cache: TradeConfirmationCache,
    pub open_position_cache: OpenPositionCache,
    pub market_cache: MarketCache,
}

/// The epic a manager serves.
pub open spec fn epic_of(m: SystemManager) -> Seq<char> {
    m.system.market_info().epic@
}

/// `i` is the first manager that serves `epic`.
pub open spec fn is_first_for(systems: Seq<SystemManager>, epic: Seq<char>, i: int) -> bool {
    &&& 0 <= i < systems.len()
    &&& epic_of(systems[i]) == epic
    &&& forall|j: int| 0 <= j < i ==> epic_of(#[trigger] systems[j]) != epic
}

/// The first manager that serves `epic`, if any does.
pub open spec fn index_for(systems: Seq<SystemManager>, epic: Seq<char>) -> Option<int> {
    if exists|i: int| is_first_for(systems, epic, i) {
        Some(choose|i: int| is_first_for(systems, epic, i))
    } else {
        None
    }
}

proof fn lemma_first_unique(systems: Seq<SystemManager>, epic: Seq<char>, i: int, k: int)
    requires
        is_first_for(systems, epic, i),
        is_first_for(systems, epic, k),
    ensures
        i == k,
{
    if i < k {
        assert(epic_of(systems[i]) != epic);
    }
    if k < i {
        assert(epic_of(systems[k]) != epic);
    }
}

/// The broker call, or sink, a command asks for.
#[derive(Clone, Debug)]
pub enum BrokerAction {
    FetchData { epic: String, start: i64, duration: i64 },
    OpenWorkingOrder {
        direction: Direction,
        price: i128,
        reference: OrderReference,
        market_info: MarketInfo,
        target_distance: i128,
        stop_distance: i128,
    },
    EditPosition {
        epic: String,
        deal_id: String,
        stop_level: i128,
        trailing_stop_distance: i128,
        target_level: i128,
    },
    DeleteWorkingOrder { epic: String, deal_id: String },
    PublishTradeResults(TradeResult),
    Restart(OrderReference),
    /// Nothing to execute: a cancel whose deal id is unknown, or a fatal failure to log.
    Skip,
}

/// What came back from executing an action.
#[derive(Clone, Debug)]
pub enum BrokerOutcome {
    Done,
    Bars(Vec<OhlcPrice>),
    Failed(String),
}

/// The events an action's outcome feeds back to the machine of `epic`.
/// Failed data fetches, order openings and deletions are fatal; a failed
/// position edit is swallowed, as the position may have closed already; a
/// published result drives the machine back to placement, and so does a
/// restart.
pub open spec fn follow_up_spec(epic: String, action: BrokerAction, outcome: BrokerOutcome) -> Seq<(String, Event)> {
    match action {
        BrokerAction::FetchData { epic: e, .. } => match outcome {
            BrokerOutcome::Bars(prices) => seq![(e, Event::Data { prices })],
            BrokerOutcome::Failed(reason) => seq![(e, Event::Error(reason))],
            BrokerOutcome::Done => seq![],
        },
        BrokerAction::OpenWorkingOrder { market_info, .. } => match outcome {
            BrokerOutcome::Failed(reason) => seq![(market_info.epic, Event::Error(reason))],
            _ => seq![],
        },
        BrokerAction::DeleteWorkingOrder { epic: e, .. } => match outcome {
            BrokerOutcome::Failed(reason) => seq![(e, Event::Error(reason))],
            _ => seq![],
        },
        BrokerAction::PublishTradeResults(tr) => seq![(tr.epic, Event::PositionExit(tr.reference))],
        BrokerAction::Restart(reference) => seq![(epic, Event::WOCancel(reference))],
        _ => seq![],
    }
}

pub fn follow_up(epic: &String, action: &BrokerAction, outcome: BrokerOutcome) -> (r: Vec<(String, Event)>)
    ensures
        r@ == follow_up_spec(*epic, *action, outcome),
{
    match action {
        BrokerAction::FetchData { epic: e, .. } => match outcome {
            BrokerOutcome::Bars(prices) => vec![(e.clone(), Event::Data { prices })],
            BrokerOutcome::Failed(reason) => vec![(e.clone(), Event::Error(reason))],
            BrokerOutcome::Done => vec![],
        },
        BrokerAction::OpenWorkingOrder { market_info, .. } => match outcome {
            BrokerOutcome::Failed(reason) => vec![(market_info.epic.clone(), Event::Error(reason))],
            _ => vec![],
        },
        BrokerAction::DeleteWorkingOrder { epic: e, .. } => match outcome {
            BrokerOutcome::Failed(reason) => vec![(e.clone(), Event::Error(reason))],
            _ => vec![],
        },
        BrokerAction::PublishTradeResults(tr) => vec![(tr.epic.clone(), Event::PositionExit(tr.reference))],
        BrokerAction::Restart(reference) => vec![(epic.clone(), Event::WOCancel(*reference))],
        _ => vec![],
    }
}

/// The reference and state name of each order of a book.
fn order_views(book: &crate::order_book::OrderManager) -> (r: Vec<OrderView>)
    ensures
        r@.len() == book.held_references().len(),
        forall|k: int| 0 <= k < r@.len() ==> (#[trigger] r@[k]).reference@ == reference_name(book.held_references()[k]),
        forall|k: int| 0 <= k < r@.len() ==> (#[trigger] r@[k]).state@ == book.get(book.held_references()[k])->0.phase_name(),
{
    let held = book.get_orders();
    let mut orders: Vec<OrderView> = Vec::new();
    let mut k: usize = 0;
    while k < held.len()
        invariant
            k <= held@.len(),
            held@.len() == book.held_references().len(),
            forall|j: int| 0 <= j < held@.len() ==> (#[trigger] held@[j]).0 == book.held_references()[j],
            forall|j: int| 0 <= j < held@.len() ==> (#[trigger] held@[j]).1@ == book.get(held@[j].0)->0.phase_name(),
            forall|j: int| 0 <= j < k ==> (#[trigger] orders@[j]).state@ == book.get(book.held_references()[j])->0.phase_name(),
            orders@.len() == k,
            forall|j: int| 0 <= j < k ==> (#[trigger] orders@[j]).reference@ == reference_name(book.held_references()[j]),
        decreases held@.len() - k,
    {
        orders.push(OrderView { reference: reference_text(held[k].0), state: held[k].1.to_owned() });
        k = k + 1;
    }
    orders
}

/// Every instrument's machine and caches.
#[derive(Clone, Debug)]
pub struct SystemsManager {
    pub systems: Vec<SystemManager>,
}

impl SystemsManager {
    /// One new machine with empty caches per market, in order.
    pub fn new(markets: &[MarketInfo]) -> (r: SystemsManager)
        ensures
            r.systems@.len() == markets@.len(),
            forall|i: int| 0 <= i < markets@.len() ==> (#[trigger] r.systems@[i]).system == SystemFactory::new_spec(markets@[i]),
    {
        let mut systems: Vec<SystemManager> = Vec::new();
        let mut i: usize = 0;
        while i < markets.len()
            invariant
                i <= markets@.len(),
                systems@.len() == i,
                forall|k: int| 0 <= k < i ==> (#[trigger] systems@[k]).system == SystemFactory::new_spec(markets@[k]),
            decreases markets@.len() - i,
        {
            systems.push(
                SystemManager {
                    system: SystemFactory::new(markets[i].duplicate()),
                    trade_confirmation_cache: TradeConfirmationCache::new(),
                    open_position_cache: OpenPositionCache::new(),
                    market_cache: MarketCache::new(),
                },
            );
            i = i + 1;
        }
        SystemsManager { systems }
    }

    /// The position of the first machine that serves `epic`.
    pub fn find(&self, epic: &str) -> (r: Option<usize>)
        ensures
            r matches Some(i) ==> index_for(self.systems@, epic@) == Some(i as int),
            r is None ==> index_for(self.systems@, epic@) is None,
    {
        let mut i: usize = 0;
        while i < self.systems.len()
            invariant
                i <= self.systems@.len(),
                forall|j: int| 0 <= j < i ==> epic_of(#[trigger] self.systems@[j]) != epic@,
            decreases self.systems@.len() - i,
        {
            if same_text(self.systems[i].system.get_market_info().epic.as_str(), epic) {
                proof {
                    assert(is_first_for(self.systems@, epic@, i as int));
                    let k = choose|k: int| is_first_for(self.systems@, epic@, k);
                    lemma_first_unique(self.systems@, epic@, i as int, k);
                }
                return Some(i);
            }
            i = i + 1;
        }
        assert(!exists|k: int| is_first_for(self.systems@, epic@, k));
        None
    }

    /// Merges a market update into the cache of `epic` and returns the tick it
    /// completes; an unknown epic is ignored.
    pub fn update_market(&mut self, epic: &str, update: MarketUpdate) -> (r: Option<(String, Event)>)
        ensures
            index_for(old(self).systems@, epic@) matches Some(i) ==> {
                let m = old(self).systems@[i];
                &&& final(self).systems@.len() == old(self).systems@.len()
                &&& forall|j: int| 0 <= j < old(self).systems@.len() && j != i ==> #[trigger] final(self).systems@[j] == old(self).systems@[j]
                &&& exists|utc_time: Option<i64>| final(self).systems@[i] == SystemManager {
                    market_cache: m.market_cache.merged(update, utc_time),
                    ..m
                }
                &&& r == final(self).systems@[i].market_cache.market_event()
            },
            index_for(old(self).systems@, epic@) is None ==> {
                &&& *final(self) == *old(self)
                &&& r is None
            },
    {
        match self.find(epic) {
            Some(i) => {
                let mut m = self.systems.remove(i);
                let r = m.market_cache.update(update);
                self.systems.insert(i, m);
                r
            },
            None => None,
        }
    }

    /// Records a trade confirmation in the cache of `epic` and returns the
    /// order event it stands for; an unknown epic is ignored.
    pub fn update_confirms(&mut self, epic: &str, update: TradeConfirmationUpdate) -> (r: Option<(String, Event)>)
        ensures
            index_for(old(self).systems@, epic@) matches Some(i) ==> {
                let m = old(self).systems@[i];
                &&& final(self).systems@.len() == old(self).systems@.len()
                &&& forall|j: int| 0 <= j < old(self).systems@.len() && j != i ==> #[trigger] final(self).systems@[j] == old(self).systems@[j]
                &&& final(self).systems@[i].system == m.system
                &&& final(self).systems@[i].market_cache == m.market_cache
                &&& final(self).systems@[i].open_position_cache == m.open_position_cache
                &&& (crate::models::reference_named(update.deal_reference@) matches Some(reference) ==> {
                    &&& final(self).systems@[i].trade_confirmation_cache.confirms == m.trade_confirmation_cache.confirms.set_spec(reference, update)
                    &&& r == crate::caches::confirmation_event(update, reference)
                })
                &&& (crate::models::reference_named(update.deal_reference@) is None ==> {
                    &&& final(self).systems@[i] == m
                    &&& r is None
                })
            },
            index_for(old(self).systems@, epic@) is None ==> {
                &&& *final(self) == *old(self)
                &&& r is None
            },
    {
        match self.find(epic) {
            Some(i) => {
                let mut m = self.systems.remove(i);
                let r = m.trade_confirmation_cache.update(update);
                self.systems.insert(i, m);
                r
            },
            None => None,
        }
    }

    /// Records a position update, received at `received_at`, in the cache of
    /// `epic` and returns the order event it stands for; an unknown epic is
    /// ignored.
    pub fn update_account_position(&mut self, epic: &str, update: OpenPositionUpdate, received_at: i64) -> (r: Option<(String, Event)>)
        ensures
            index_for(old(self).systems@, epic@) matches Some(i) ==> {
                let m = old(self).systems@[i];
                &&& final(self).systems@.len() == old(self).systems@.len()
                &&& forall|j: int| 0 <= j < old(self).systems@.len() && j != i ==> #[trigger] final(self).systems@[j] == old(self).systems@[j]
                &&& final(self).systems@[i].system == m.system
                &&& final(self).systems@[i].market_cache == m.market_cache
                &&& final(self).systems@[i].trade_confirmation_cache == m.trade_confirmation_cache
                &&& (crate::models::reference_named(update.deal_reference@) matches Some(reference) ==> {
                    &&& final(self).systems@[i].open_position_cache.positions == m.open_position_cache.positions.set_spec(reference, update)
                    &&& r == crate::caches::position_event(update, reference, received_at)
                })
                &&& (crate::models::reference_named(update.deal_reference@) is None ==> {
                    &&& final(self).systems@[i] == m
                    &&& r is None
                })
            },
            index_for(old(self).systems@, epic@) is None ==> {
                &&& *final(self) == *old(self)
                &&& r is None
            },
    {
        match self.find(epic) {
            Some(i) => {
                let mut m = self.systems.remove(i);
                let r = m.open_position_cache.update(update, received_at);
                self.systems.insert(i, m);
                r
            },
            None => None,
        }
    }

    /// The deal id last confirmed for `reference` on `epic`.
    pub fn get_deal_id(&self, epic: &str, reference: OrderReference) -> (r: Option<String>)
        ensures
            r == match index_for(self.systems@, epic@) {
                Some(i) => match self.systems@[i].trade_confirmation_cache.confirms.get_spec(reference) {
                    Some(u) => Some(u.deal_id),
                    None => None,
                },
                None => None,
            },
    {
        match self.find(epic) {
            Some(i) => self.systems[i].trade_confirmation_cache.get_deal_id(reference),
            None => None,
        }
    }

    /// The broker call, or sink, that executes `command`. A cancel needs the
    /// deal id last confirmed for its reference and is skipped without one.
    pub fn plan(&self, command: Command) -> (r: BrokerAction)
        ensures
            r == match command {
                Command::FetchData { epic, start, duration } => BrokerAction::FetchData { epic, start, duration },
                Command::CreateWorkingOrder { direction, price, reference, market_info, target_distance, stop_distance } =>
                    BrokerAction::OpenWorkingOrder { direction, price, reference, market_info, target_distance, stop_distance },
                Command::UpdatePosition { epic, deal_id, stop_level, trailing_stop_distance, target_level, .. } =>
                    BrokerAction::EditPosition { epic, deal_id, stop_level, trailing_stop_distance, target_level },
                Command::CancelWorkingOrder { epic, reference_to_cancel } => match index_for(self.systems@, epic@) {
                    Some(i) => match self.systems@[i].trade_confirmation_cache.confirms.get_spec(reference_to_cancel) {
                        Some(u) => BrokerAction::DeleteWorkingOrder { epic, deal_id: u.deal_id },
                        None => BrokerAction::Skip,
                    },
                    None => BrokerAction::Skip,
                },
                Command::PublishTradeResults(tr) => BrokerAction::PublishTradeResults(tr),
                Command::Restart(reference) => BrokerAction::Restart(reference),
                Command::FatalFailure(_) => BrokerAction::Skip,
            },
    {
        match command {
            Command::FetchData { epic, start, duration } => BrokerAction::FetchData { epic, start, duration },
            Command::CreateWorkingOrder { direction, price, reference, market_info, target_distance, stop_distance } =>
                BrokerAction::OpenWorkingOrder { direction, price, reference, market_info, target_distance, stop_distance },
            Command::UpdatePosition { epic, deal_id, stop_level, trailing_stop_distance, target_level, .. } =>
                BrokerAction::EditPosition { epic, deal_id, stop_level, trailing_stop_distance, target_level },
            Command::CancelWorkingOrder { epic, reference_to_cancel } => {
                match self.get_deal_id(epic.as_str(), reference_to_cancel) {
                    Some(deal_id) => BrokerAction::DeleteWorkingOrder { epic, deal_id },
                    None => BrokerAction::Skip,
                }
            },
            Command::PublishTradeResults(tr) => BrokerAction::PublishTradeResults(tr),
            Command::Restart(reference) => BrokerAction::Restart(reference),
            Command::FatalFailure(_) => BrokerAction::Skip,
        }
    }

    /// The merged market fields of `epic`; an unknown epic shows no fields.
    pub fn get_market_view(&self, epic: &str) -> (r: MarketView)
        ensures
            index_for(self.systems@, epic@) matches Some(i) ==> {
                let c = self.systems@[i].market_cache;
                r == MarketView {
                    epic: c.epic,
                    bid: c.bid,
                    ask: c.ask,
                    market_delay: c.market_delay,
                    market_state: c.market_state,
                    update_time: c.update_time,
                }
            },
            index_for(self.systems@, epic@) is None ==> {
                &&& r.epic@ == epic@
                &&& r.bid is None && r.ask is None && r.market_delay is None
                &&& r.market_state is None && r.update_time is None
            },
    {
        match self.find(epic) {
            Some(i) => {
                let c = &self.systems[i].market_cache;
                MarketView {
                    epic: c.epic.clone(),
                    bid: c.bid,
                    ask: c.ask,
                    market_delay: c.market_delay,
                    market_state: c.market_state,
                    update_time: c.update_time,
                }
            },
            None => MarketView {
                epic: epic.to_owned(),
                bid: None,
                ask: None,
                market_delay: None,
                market_state: None,
                update_time: None,
            },
        }
    }

    /// The state, opening range and orders of the machine of `epic`; an
    /// unknown epic shows an empty state name.
    pub fn get_current_system_view(&self, epic: &str) -> (r: SystemView)
        ensures
            index_for(self.systems@, epic@) matches Some(i) ==> {
                let s = self.systems@[i].system;
                &&& r.state@ == s.phase_name()
                &&& r.epic@ == s.market_info().epic@
                &&& (match s {
                    System::DecideOrderPlacement(m) => r.opening_range_high_ask == Some(m.state.opening_range.high_ask)
                        && r.opening_range_high_bid == Some(m.state.opening_range.high_bid)
                        && r.opening_range_low_ask == Some(m.state.opening_range.low_ask)
                        && r.opening_range_low_bid == Some(m.state.opening_range.low_bid)
                        && r.orders@.len() == 0,
                    System::ManageOrders(m) => r.opening_range_high_ask == Some(m.state.opening_range.high_ask)
                        && r.opening_range_high_bid == Some(m.state.opening_range.high_bid)
                        && r.opening_range_low_ask == Some(m.state.opening_range.low_ask)
                        && r.opening_range_low_bid == Some(m.state.opening_range.low_bid)
                        && r.orders@.len() == m.state.order_manager.held_references().len()
                        && (forall|k: int| 0 <= k < r.orders@.len() ==> (#[trigger] r.orders@[k]).reference@
                            == reference_name(m.state.order_manager.held_references()[k]))
                        && (forall|k: int| 0 <= k < r.orders@.len() ==> (#[trigger] r.orders@[k]).state@
                            == m.state.order_manager.get(m.state.order_manager.held_references()[k])->0.phase_name()),
                    _ => r.opening_range_high_ask is None && r.opening_range_high_bid is None
                        && r.opening_range_low_ask is None && r.opening_range_low_bid is None
                        && r.orders@.len() == 0,
                })
            },
            index_for(self.systems@, epic@) is None ==> {
                &&& r.state@.len() == 0
                &&& r.epic@ == epic@
                &&& r.orders@.len() == 0
            },
    {
        match self.find(epic) {
            Some(i) => {
                let s = &self.systems[i].system;
                let range = s.get_opening_range();
                let orders = match s {
                    System::ManageOrders(m) => order_views(&m.state.order_manager),
                    _ => Vec::new(),
                };
                SystemView {
                    state: s.state_name().to_owned(),
                    epic: s.get_market_info().epic.clone(),
                    opening_range_high_ask: match range { Some(r) => Some(r.high_ask), None => None },
                    opening_range_high_bid: match range { Some(r) => Some(r.high_bid), None => None },
                    opening_range_low_ask: match range { Some(r) => Some(r.low_ask), None => None },
                    opening_range_low_bid: match range { Some(r) => Some(r.low_bid), None => None },
                    orders,
                }
            },
            None => SystemView {
                state: String::new(),
                epic: epic.to_owned(),
                opening_range_high_ask: None,
                opening_range_high_bid: None,
                opening_range_low_ask: None,
                opening_range_low_bid: None,
                orders: Vec::new(),
            },
        }
    }

    /// Steps the machine of `epic`; an unknown epic is ignored.
    pub fn step_one(&mut self, epic: &str, event: &Event) -> (r: Vec<Command>)
        ensures
            index_for(old(self).systems@, epic@) matches Some(i) ==> {
                let m = old(self).systems@[i];
                &&& final(self).systems@ == old(self).systems@.update(
                    i,
                    SystemManager { system: m.system.transition(*event).0, ..m },
                )
                &&& r@ == m.system.transition(*event).1
            },
            index_for(old(self).systems@, epic@) is None ==> {
                &&& *final(self) == *old(self)
                &&& r@.len() == 0
            },
    {
        match self.find(epic) {
            Some(i) => {
                let m = self.systems.remove(i);
                let (system, commands) = m.system.step(event);
                let next = SystemManager {
                    system,
                    trade_confirmation_cache: m.trade_confirmation_cache,
                    open_position_cache: m.open_position_cache,
                    market_cache: m.market_cache,
                };
                self.systems.insert(i, next);
                proof {
                    assert(self.systems@ =~= old(self).systems@.update(
                        i as int,
                        SystemManager { system: old(self).systems@[i as int].system.transition(*event).0, ..old(self).systems@[i as int] },
                    ));
                }
                commands
            },
            None => vec![],
        }
    }
}

} // verus!
