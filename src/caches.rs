//! Per-instrument caches that merge partial broker messages and emit a core
//! `Event` only when an update is meaningful to the machines.
use vstd::prelude::*;
use crate::decider::{Event, OrderEvent};
use crate::london::get_utc_time_for_update;
use crate::models::OrderReference;
use crate::realtime::{
    DealStatus, MarketState, MarketUpdate, OpenPositionUpdate, OpuStatus, PositionStatus,
    TradeConfirmationUpdate,
};

verus! {

/// The latest value of each market field.
#[derive(Clone, Debug)]
pub struct MarketCache {
    pub epic: String,
    pub bid: Option<i64>,
    pub ask: Option<i64>,
    pub market_delay: Option<usize>,
    pub market_state: Option<MarketState>,
    /// UTC seconds.
    pub update_time: Option<i64>,
}

/// `new` where present, else `old`.
pub open spec fn overwrite<T>(old: Option<T>, new: Option<T>) -> Option<T> {
    if new is Some {
        new
    } else {
        old
    }
}

impl MarketCache {
    /// The cache after `update`, whose time of day converted to `utc_time`.
    pub open spec fn merged(self, update: MarketUpdate, utc_time: Option<i64>) -> MarketCache {
        MarketCache {
            epic: update.epic,
            bid: overwrite(self.bid, update.bid),
            ask: overwrite(self.ask, update.offer),
            market_delay: overwrite(self.market_delay, update.market_delay),
            market_state: overwrite(self.market_state, update.market_state),
            update_time: if update.update_time is Some {
                utc_time
            } else {
                self.update_time
            },
        }
    }

    /// All five fields are known.
    pub open spec fn is_filled(self) -> bool {
        &&& self.bid is Some
        &&& self.ask is Some
        &&& self.market_delay is Some
        &&& self.market_state is Some
        &&& self.update_time is Some
    }

    /// A tick for the machines when the market is complete, tradeable and not delayed.
    pub open spec fn market_event(self) -> Option<(String, Event)> {
        if self.is_filled() && self.market_delay == Some(0usize) && self.market_state == Some(
            MarketState::TRADEABLE,
        ) {
            Some(
                (
                    self.epic,
                    Event::Market {
                        epic: self.epic,
                        update_time: self.update_time->0,
                        bid: self.bid->0,
                        ask: self.ask->0,
                    },
                ),
            )
        } else {
            None
        }
    }

    pub fn new() -> (r: MarketCache)
        ensures
            r.epic@ == Seq::<char>::empty(),
            r.bid is None && r.ask is None && r.market_delay is None,
            r.market_state is None && r.update_time is None,
    {
        MarketCache {
            epic: String::new(),
            bid: None,
            ask: None,
            market_delay: None,
            market_state: None,
            update_time: None,
        }
    }

    pub fn is_filled_for_event(&self) -> (r: bool)
        ensures
            r == self.is_filled(),
    {
        self.bid.is_some() && self.market_state.is_some() && self.ask.is_some()
            && self.market_delay.is_some() && self.update_time.is_some()
    }

    /// The tick of the current market, if it is complete, tradeable and not delayed.
    pub fn get_current_market_event(&self) -> (r: Option<(String, Event)>)
        ensures
            r == self.market_event(),
    {
        if self.is_filled_for_event() {
            match (self.market_delay, self.market_state, self.update_time, self.bid, self.ask) {
                (Some(0), Some(MarketState::TRADEABLE), Some(update_time), Some(bid), Some(ask)) => {
                    return Some(
                        (
                            self.epic.clone(),
                            Event::Market { epic: self.epic.clone(), update_time, bid, ask },
                        ),
                    );
                },
                _ => {},
            }
        }
        None
    }

    /// Merges an update whose time of day was already converted to `utc_time`,
    /// and returns the tick it completes, if any.
    pub fn update_at(&mut self, update: MarketUpdate, utc_time: Option<i64>) -> (r: Option<(String, Event)>)
        ensures
            *final(self) == old(self).merged(update, utc_time),
            r == final(self).market_event(),
    {
        if update.update_time.is_some() {
            self.update_time = utc_time;
        }
        if update.market_state.is_some() {
            self.market_state = update.market_state;
        }
        if update.market_delay.is_some() {
            self.market_delay = update.market_delay;
        }
        if update.bid.is_some() {
            self.bid = update.bid;
        }
        if update.offer.is_some() {
            self.ask = update.offer;
        }
        self.epic = update.epic;
        self.get_current_market_event()
    }

    /// Merges an update, converting its London time of day to UTC on today's
    /// date, and returns the tick it completes, if any. A time of day that
    /// does not parse or does not exist today leaves the time unknown.
    pub fn update(&mut self, update: MarketUpdate) -> (r: Option<(String, Event)>)
        ensures
            exists|utc_time: Option<i64>| *final(self) == old(self).merged(update, utc_time),
            update.update_time is None ==> *final(self) == old(self).merged(update, None),
            r == final(self).market_event(),
    {
        let utc_time = match &update.update_time {
            Some(t) => get_utc_time_for_update(t.as_str()),
            None => None,
        };
        self.update_at(update, utc_time)
    }
}


/// One optional value per order reference.
#[derive(Clone, Debug)]
pub struct PerReference<T> {
    pub over_long: Option<T>,
    pub between_long: Option<T>,
    pub between_short: Option<T>,
    pub under_short: Option<T>,
}

impl<T> PerReference<T> {
    pub open spec fn get_spec(self, reference: OrderReference) -> Option<T> {
        match reference {
            OrderReference::OVER_LONG => self.over_long,
            OrderReference::BETWEEN_LONG => self.between_long,
            OrderReference::BETWEEN_SHORT => self.between_short,
            OrderReference::UNDER_SHORT => self.under_short,
        }
    }

    pub open spec fn set_spec(self, reference: OrderReference, v: T) -> PerReference<T> {
        match reference {
            OrderReference::OVER_LONG => PerReference { over_long: Some(v), ..self },
            OrderReference::BETWEEN_LONG => PerReference { between_long: Some(v), ..self },
            OrderReference::BETWEEN_SHORT => PerReference { between_short: Some(v), ..self },
            OrderReference::UNDER_SHORT => PerReference { under_short: Some(v), ..self },
        }
    }

    pub fn new() -> (r: PerReference<T>)
        ensures
            forall|reference: OrderReference| (#[trigger] r.get_spec(reference)) is None,
    {
        PerReference { over_long: None, between_long: None, between_short: None, under_short: None }
    }

    pub fn get(&self, reference: OrderReference) -> (r: Option<&T>)
        ensures
            r == match self.get_spec(reference) {
                Some(v) => Some(&v),
                None => None::<&T>,
            },
    {
        match reference {
            OrderReference::OVER_LONG => self.over_long.as_ref(),
            OrderReference::BETWEEN_LONG => self.between_long.as_ref(),
            OrderReference::BETWEEN_SHORT => self.between_short.as_ref(),
            OrderReference::UNDER_SHORT => self.under_short.as_ref(),
        }
    }

    pub fn set(&mut self, reference: OrderReference, v: T)
        ensures
            *final(self) == old(self).set_spec(reference, v),
    {
        match reference {
            OrderReference::OVER_LONG => self.over_long = Some(v),
            OrderReference::BETWEEN_LONG => self.between_long = Some(v),
            OrderReference::BETWEEN_SHORT => self.between_short = Some(v),
            OrderReference::UNDER_SHORT => self.under_short = Some(v),
        }
    }
}

/// The order event a trade confirmation stands for.
pub open spec fn confirmation_event(u: TradeConfirmationUpdate, reference: OrderReference) -> Option<(String, Event)> {
    if u.deal_status == DealStatus::ACCEPTED && u.status == Some(PositionStatus::OPEN) && u.level is Some {
        Some(
            (
                u.epic,
                Event::Order(
                    OrderEvent::ConfirmationOpenAccepted { level: u.level->0, deal_id: u.deal_id },
                    reference,
                ),
            ),
        )
    } else if u.deal_status == DealStatus::ACCEPTED && u.status == Some(PositionStatus::AMENDED) {
        Some((u.epic, Event::Order(OrderEvent::ConfirmationAmendedAccepted, reference)))
    } else if u.deal_status == DealStatus::REJECTED {
        Some((u.epic, Event::Order(OrderEvent::ConfirmationRejection, reference)))
    } else if u.deal_status == DealStatus::ACCEPTED && u.status == Some(PositionStatus::DELETED) {
        Some((u.epic, Event::Order(OrderEvent::ConfirmationDeleteAccepted, reference)))
    } else {
        None
    }
}

/// The last confirmation of each of the strategy's orders.
#[derive(Clone, Debug)]
pub struct TradeConfirmationCache {
    pub confirms: PerReference<TradeConfirmationUpdate>,
}

impl TradeConfirmationCache {
    pub fn new() -> (r: TradeConfirmationCache)
        ensures
            forall|reference: OrderReference| (#[trigger] r.confirms.get_spec(reference)) is None,
    {
        TradeConfirmationCache { confirms: PerReference::new() }
    }

    /// Records a confirmation of one of the strategy's orders and returns the
    /// order event it stands for. A confirmation whose deal reference names
    /// none of them is ignored.
    pub fn update(&mut self, update: TradeConfirmationUpdate) -> (r: Option<(String, Event)>)
        ensures
            crate::models::reference_named(update.deal_reference@) matches Some(reference) ==> {
                &&& final(self).confirms == old(self).confirms.set_spec(reference, update)
                &&& r == confirmation_event(update, reference)
            },
            crate::models::reference_named(update.deal_reference@) is None ==> {
                &&& *final(self) == *old(self)
                &&& r is None
            },
    {
        match OrderReference::parse(update.deal_reference.as_str()) {
            Some(reference) => {
                self.confirms.set(reference, update);
                self.get_current_event(reference)
            },
            None => None,
        }
    }

    /// The order event the last confirmation of `deal_reference` stands for.
    pub fn get_current_event(&self, deal_reference: OrderReference) -> (r: Option<(String, Event)>)
        ensures
            r == match self.confirms.get_spec(deal_reference) {
                Some(u) => confirmation_event(u, deal_reference),
                None => None,
            },
    {
        match self.confirms.get(deal_reference) {
            Some(u) => {
                let accepted = u.deal_status == DealStatus::ACCEPTED;
                if accepted && u.status == Some(PositionStatus::OPEN) && u.level.is_some() {
                    Some(
                        (
                            u.epic.clone(),
                            Event::Order(
                                OrderEvent::ConfirmationOpenAccepted {
                                    level: u.level.unwrap(),
                                    deal_id: u.deal_id.clone(),
                                },
                                deal_reference,
                            ),
                        ),
                    )
                } else if accepted && u.status == Some(PositionStatus::AMENDED) {
                    Some((u.epic.clone(), Event::Order(OrderEvent::ConfirmationAmendedAccepted, deal_reference)))
                } else if u.deal_status == DealStatus::REJECTED {
                    Some((u.epic.clone(), Event::Order(OrderEvent::ConfirmationRejection, deal_reference)))
                } else if accepted && u.status == Some(PositionStatus::DELETED) {
                    Some((u.epic.clone(), Event::Order(OrderEvent::ConfirmationDeleteAccepted, deal_reference)))
                } else {
                    None
                }
            },
            None => None,
        }
    }

    /// The deal id of the last confirmation of `deal_reference`.
    pub fn get_deal_id(&self, deal_reference: OrderReference) -> (r: Option<String>)
        ensures
            r == match self.confirms.get_spec(deal_reference) {
                Some(u) => Some(u.deal_id),
                None => None,
            },
    {
        match self.confirms.get(deal_reference) {
            Some(u) => Some(u.deal_id.clone()),
            None => None,
        }
    }
}

/// The order event a position update stands for, stamped with the time it was received.
pub open spec fn position_event(u: OpenPositionUpdate, reference: OrderReference, received_at: i64) -> Option<(String, Event)> {
    if u.deal_status == DealStatus::ACCEPTED && u.status == OpuStatus::OPEN {
        Some(
            (
                u.epic,
                Event::Order(OrderEvent::PositionEntry { entry_level: u.level, entry_time: received_at }, reference),
            ),
        )
    } else if u.deal_status == DealStatus::ACCEPTED && u.status == OpuStatus::DELETED {
        Some(
            (
                u.epic,
                Event::Order(OrderEvent::PositionExit { exit_level: u.level, exit_time: received_at }, reference),
            ),
        )
    } else {
        None
    }
}

/// The last update of each of the strategy's positions.
#[derive(Clone, Debug)]
pub struct OpenPositionCache {
    pub positions: PerReference<OpenPositionUpdate>,
}

impl OpenPositionCache {
    pub fn new() -> (r: OpenPositionCache)
        ensures
            forall|reference: OrderReference| (#[trigger] r.positions.get_spec(reference)) is None,
    {
        OpenPositionCache { positions: PerReference::new() }
    }

    /// Records an update of one of the strategy's positions, received at
    /// `received_at`, and returns the order event it stands for. An update
    /// whose deal reference names none of them is ignored.
    pub fn update(&mut self, update: OpenPositionUpdate, received_at: i64) -> (r: Option<(String, Event)>)
        ensures
            crate::models::reference_named(update.deal_reference@) matches Some(reference) ==> {
                &&& final(self).positions == old(self).positions.set_spec(reference, update)
                &&& r == position_event(update, reference, received_at)
            },
            crate::models::reference_named(update.deal_reference@) is None ==> {
                &&& *final(self) == *old(self)
                &&& r is None
            },
    {
        match OrderReference::parse(update.deal_reference.as_str()) {
            Some(reference) => {
                let event = if update.deal_status == DealStatus::ACCEPTED && update.status == OpuStatus::OPEN {
                    Some(
                        (
                            update.epic.clone(),
                            Event::Order(
                                OrderEvent::PositionEntry { entry_level: update.level, entry_time: received_at },
                                reference,
                            ),
                        ),
                    )
                } else if update.deal_status == DealStatus::ACCEPTED && update.status == OpuStatus::DELETED {
                    Some(
                        (
                            update.epic.clone(),
                            Event::Order(
                                OrderEvent::PositionExit { exit_level: update.level, exit_time: received_at },
                                reference,
                            ),
                        ),
                    )
                } else {
                    None
                };
                self.positions.set(reference, update);
                event
            },
            None => None,
        }
    }
}

} // verus!
