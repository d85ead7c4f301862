//! The order book of one instrument: at most one working order per reference.
use vstd::prelude::*;
use crate::decider::{Command, Event, MarketInfo};
use crate::models::OrderReference;
use crate::order::{AwaitingWOOpenConfirmation, WorkingOrder, WorkingOrderFactory, WorkingOrderMachine};
use crate::range::OpeningRange;

verus! {

/// One slot per order reference.
#[derive(Clone, Debug)]
pub struct OrderManager {
    pub over_long: Option<WorkingOrder>,
    pub between_long: Option<WorkingOrder>,
    pub between_short: Option<WorkingOrder>,
    pub under_short: Option<WorkingOrder>,
}

/// A fresh order awaiting the broker's open confirmation.
pub open spec fn fresh_order(market_info: MarketInfo, opening_range: OpeningRange) -> WorkingOrder {
    WorkingOrder::AwaitingWOOpenConfirmation(
        WorkingOrderMachine { state: AwaitingWOOpenConfirmation, market_info, opening_range },
    )
}

/// Steps an optional order: a missing order ignores the event.
pub open spec fn step_slot_spec(slot: Option<WorkingOrder>, event: Event) -> (Option<WorkingOrder>, Seq<Command>) {
    match slot {
        Some(o) => (Some(o.transition(event).0), o.transition(event).1),
        None => (None, seq![]),
    }
}

fn step_slot(slot: &mut Option<WorkingOrder>, event: &Event) -> (r: Vec<Command>)
    ensures
        *final(slot) == step_slot_spec(*old(slot), *event).0,
        r@ == step_slot_spec(*old(slot), *event).1,
{
    match slot.take() {
        Some(o) => {
            let (next, commands) = o.step(event);
            *slot = Some(next);
            commands
        },
        None => vec![],
    }
}

impl OrderManager {
    /// The book without orders.
    pub open spec fn empty() -> OrderManager {
        OrderManager { over_long: None, between_long: None, between_short: None, under_short: None }
    }

    /// The order held for `reference`.
    pub open spec fn get(self, reference: OrderReference) -> Option<WorkingOrder> {
        match reference {
            OrderReference::OVER_LONG => self.over_long,
            OrderReference::BETWEEN_LONG => self.between_long,
            OrderReference::BETWEEN_SHORT => self.between_short,
            OrderReference::UNDER_SHORT => self.under_short,
        }
    }

    /// The book with the slot of `reference` replaced.
    pub open spec fn set(self, reference: OrderReference, o: Option<WorkingOrder>) -> OrderManager {
        match reference {
            OrderReference::OVER_LONG => OrderManager { over_long: o, ..self },
            OrderReference::BETWEEN_LONG => OrderManager { between_long: o, ..self },
            OrderReference::BETWEEN_SHORT => OrderManager { between_short: o, ..self },
            OrderReference::UNDER_SHORT => OrderManager { under_short: o, ..self },
        }
    }

    /// Routes an event to the order of `reference` only.
    pub open spec fn step_one_spec(self, reference: OrderReference, event: Event) -> (OrderManager, Seq<Command>) {
        let (o, c) = step_slot_spec(self.get(reference), event);
        (self.set(reference, o), c)
    }

    /// Routes an event to every order, in the order of the references.
    pub open spec fn step_all_spec(self, event: Event) -> (OrderManager, Seq<Command>) {
        let (b1, c1) = self.step_one_spec(OrderReference::OVER_LONG, event);
        let (b2, c2) = b1.step_one_spec(OrderReference::BETWEEN_LONG, event);
        let (b3, c3) = b2.step_one_spec(OrderReference::BETWEEN_SHORT, event);
        let (b4, c4) = b3.step_one_spec(OrderReference::UNDER_SHORT, event);
        (b4, c1 + c2 + c3 + c4)
    }

    /// The references that hold an order, in the order of the references.
    pub open spec fn held_references(self) -> Seq<OrderReference> {
        (if self.over_long is Some { seq![OrderReference::OVER_LONG] } else { seq![] })
            + (if self.between_long is Some { seq![OrderReference::BETWEEN_LONG] } else { seq![] })
            + (if self.between_short is Some { seq![OrderReference::BETWEEN_SHORT] } else { seq![] })
            + (if self.under_short is Some { seq![OrderReference::UNDER_SHORT] } else { seq![] })
    }

    pub fn new() -> (r: OrderManager)
        ensures
            r == OrderManager::empty(),
    {
        OrderManager { over_long: None, between_long: None, between_short: None, under_short: None }
    }

    /// Puts a fresh order for `reference` in the book.
    pub fn create_order(&mut self, reference: OrderReference, market_info: MarketInfo, opening_range: OpeningRange)
        ensures
            *final(self) == old(self).set(reference, Some(fresh_order(market_info, opening_range))),
    {
        let order = WorkingOrderFactory::new(market_info, opening_range);
        match reference {
            OrderReference::OVER_LONG => self.over_long = Some(order),
            OrderReference::BETWEEN_LONG => self.between_long = Some(order),
            OrderReference::BETWEEN_SHORT => self.between_short = Some(order),
            OrderReference::UNDER_SHORT => self.under_short = Some(order),
        }
    }

    /// An event that only affects the order of `reference`.
    pub fn step_one(&mut self, reference: OrderReference, event: &Event) -> (r: Vec<Command>)
        ensures
            *final(self) == old(self).step_one_spec(reference, *event).0,
            r@ == old(self).step_one_spec(reference, *event).1,
    {
        match reference {
            OrderReference::OVER_LONG => step_slot(&mut self.over_long, event),
            OrderReference::BETWEEN_LONG => step_slot(&mut self.between_long, event),
            OrderReference::BETWEEN_SHORT => step_slot(&mut self.between_short, event),
            OrderReference::UNDER_SHORT => step_slot(&mut self.under_short, event),
        }
    }

    /// An event for every order.
    pub fn step_all(&mut self, event: &Event) -> (r: Vec<Command>)
        ensures
            *final(self) == old(self).step_all_spec(*event).0,
            r@ == old(self).step_all_spec(*event).1,
    {
        let mut commands = self.step_one(OrderReference::OVER_LONG, event);
        let mut c2 = self.step_one(OrderReference::BETWEEN_LONG, event);
        let mut c3 = self.step_one(OrderReference::BETWEEN_SHORT, event);
        let mut c4 = self.step_one(OrderReference::UNDER_SHORT, event);
        commands.append(&mut c2);
        commands.append(&mut c3);
        commands.append(&mut c4);
        commands
    }

    /// A snapshot of the book: each held order's reference with its state name.
    pub fn get_orders(&self) -> (r: Vec<(OrderReference, &'static str)>)
        ensures
            r@.len() == self.held_references().len(),
            forall|i: int| 0 <= i < r@.len() ==> (#[trigger] r@[i]).0 == self.held_references()[i],
            forall|i: int| 0 <= i < r@.len() ==> (#[trigger] r@[i]).1@ == self.get(r@[i].0)->0.phase_name(),
            forall|i: int| 0 <= i < r@.len() ==> (#[trigger] self.get(r@[i].0)) is Some,
            forall|i: int, j: int| 0 <= i < j < r@.len() ==> r@[i].0 != r@[j].0,
            forall|reference: OrderReference|
                (#[trigger] self.get(reference)) is Some ==> exists|i: int| 0 <= i < r@.len() && r@[i].0 == reference,
    {
        let mut r: Vec<(OrderReference, &'static str)> = Vec::new();
        if let Some(o) = &self.over_long {
            r.push((OrderReference::OVER_LONG, o.state_name()));
        }
        if let Some(o) = &self.between_long {
            r.push((OrderReference::BETWEEN_LONG, o.state_name()));
        }
        if let Some(o) = &self.between_short {
            r.push((OrderReference::BETWEEN_SHORT, o.state_name()));
        }
        if let Some(o) = &self.under_short {
            r.push((OrderReference::UNDER_SHORT, o.state_name()));
        }
        proof {
            assert(r@.map_values(|p: (OrderReference, &'static str)| p.0) =~= self.held_references());
            assert forall|i: int| 0 <= i < r@.len() implies (#[trigger] r@[i]).0 == self.held_references()[i] by {
                assert(r@.map_values(|p: (OrderReference, &'static str)| p.0)[i] == r@[i].0);
            }
            assert forall|reference: OrderReference| (#[trigger] self.get(reference)) is Some implies exists|i: int| 0 <= i < r@.len() && r@[i].0 == reference by {
                let k: int = (if self.over_long is Some { 1int } else { 0int })
                    + (if reference != OrderReference::OVER_LONG && self.between_long is Some { 1int } else { 0int })
                    + (if (reference == OrderReference::BETWEEN_SHORT || reference == OrderReference::UNDER_SHORT) && self.between_short is Some { 1int } else { 0int })
                    + (if reference == OrderReference::UNDER_SHORT && self.under_short is Some { 1int } else { 0int }) - 1;
                assert(r@[k].0 == reference);
            }
        }
        r
    }
}

/// The book holds at most one order per reference: whatever sequence of
/// creations replaces the slot of a reference, reading it back yields the last
/// order put there, and the other references are untouched.
pub proof fn lemma_one_order_per_reference(
    book: OrderManager,
    reference: OrderReference,
    other: OrderReference,
    first: WorkingOrder,
    second: WorkingOrder,
)
    ensures
        book.set(reference, Some(first)).set(reference, Some(second)).get(reference) == Some(second),
        other != reference ==> book.set(reference, Some(first)).get(other) == book.get(other),
{
}

} // verus!
