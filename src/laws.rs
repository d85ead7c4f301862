//! Properties of the machines over single steps and over whole runs.
use vstd::prelude::*;
use crate::decider::{inside_trading_hours, Command, Event, MarketInfo, OrderEvent, CLOSE_BUFFER, MINUTE};
use crate::models::OrderReference;
use crate::order::WorkingOrder;
use crate::order_book::OrderManager;
use crate::system::{Setup, System, SystemMachine};

verus! {

/// The state and all commands after feeding `events` to an order, in turn.
pub open spec fn order_run(o: WorkingOrder, events: Seq<Event>) -> (WorkingOrder, Seq<Command>)
    decreases events.len(),
{
    if events.len() == 0 {
        (o, seq![])
    } else {
        let (p, c) = order_run(o, events.drop_last());
        let (q, d) = p.transition(events.last());
        (q, c + d)
    }
}

/// The state and all commands after feeding `events` to a day machine, in turn.
pub open spec fn system_run(s: System, events: Seq<Event>) -> (System, Seq<Command>)
    decreases events.len(),
{
    if events.len() == 0 {
        (s, seq![])
    } else {
        let (p, c) = system_run(s, events.drop_last());
        let (q, d) = p.transition(events.last());
        (q, c + d)
    }
}

pub open spec fn is_publish(c: Command) -> bool {
    c is PublishTradeResults
}

/// The order holds a position that has not exited.
pub open spec fn holds_position(o: WorkingOrder) -> bool {
    ||| o is PositionOpened
    ||| o is AwaitingTrailingStopConfirmation
    ||| o is PositionTrailingStopAccepted
}

/// An order that does not hold a position publishes nothing and does not exit
/// on any event.
proof fn lemma_no_exit_without_position(o: WorkingOrder, e: Event)
    requires
        !holds_position(o),
        !(o is PositionExited),
    ensures
        !(o.transition(e).0 is PositionExited),
        !holds_position(o.transition(e).0) ==> !(o.transition(e).0 is PositionOpened),
        forall|i: int| 0 <= i < o.transition(e).1.len() ==> !is_publish(#[trigger] o.transition(e).1[i]),
{
}

/// An order that holds a position publishes exactly when it exits, once.
proof fn lemma_exit_publishes_once(o: WorkingOrder, e: Event)
    requires
        holds_position(o),
    ensures
        forall|i: int, j: int|
            0 <= i < o.transition(e).1.len() && 0 <= j < o.transition(e).1.len() && is_publish(
                #[trigger] o.transition(e).1[i],
            ) && is_publish(#[trigger] o.transition(e).1[j]) ==> i == j,
        (exists|i: int| 0 <= i < o.transition(e).1.len() && is_publish(#[trigger] o.transition(e).1[i]))
            <==> o.transition(e).0 is PositionExited,
        !(o.transition(e).0 is PositionExited) ==> holds_position(o.transition(e).0),
{
    let (q, d) = o.transition(e);
    if q is PositionExited {
        assert(is_publish(d[0]));
    }
}

/// A fresh order awaiting its open confirmation.
pub open spec fn fresh(o: WorkingOrder) -> bool {
    o is AwaitingWOOpenConfirmation
}

/// Along any run of a fresh order, `PublishTradeResults` is emitted at most
/// once, and it is emitted exactly when the order has exited its position;
/// an order exits only after it entered `PositionOpened`.
pub proof fn lemma_trade_result_published_once(o: WorkingOrder, events: Seq<Event>)
    requires
        fresh(o),
    ensures
        forall|i: int, j: int|
            0 <= i < order_run(o, events).1.len() && 0 <= j < order_run(o, events).1.len()
                && is_publish(#[trigger] order_run(o, events).1[i]) && is_publish(
                #[trigger] order_run(o, events).1[j],
            ) ==> i == j,
        (exists|i: int|
            0 <= i < order_run(o, events).1.len() && is_publish(#[trigger] order_run(o, events).1[i]))
            <==> order_run(o, events).0 is PositionExited,
        holds_position(order_run(o, events).0) || order_run(o, events).0 is PositionExited ==> exists|k: int|
            0 <= k <= events.len() && (#[trigger] order_run(o, events.take(k))).0 is PositionOpened,
    decreases events.len(),
{
    if events.len() == 0 {
        assert(order_run(o, events).1.len() == 0);
        assert(events.take(0) =~= events);
        return;
    }
    let prefix = events.drop_last();
    let e = events.last();
    lemma_trade_result_published_once(o, prefix);
    let (p, c) = order_run(o, prefix);
    let (q, d) = p.transition(e);
    assert(order_run(o, events) == (q, c + d));
    let all = c + d;
    assert(events.take(events.len() as int) =~= events);
    assert forall|k: int| 0 <= k <= prefix.len() implies #[trigger] events.take(k) == prefix.take(k) by {
        assert(events.take(k) =~= prefix.take(k));
    }
    if p is PositionExited {
        assert(q == p && d.len() == 0);
        assert(all =~= c);
        let i = choose|i: int| 0 <= i < c.len() && is_publish(#[trigger] c[i]);
        assert(is_publish(all[i]));
        let k = choose|k: int| 0 <= k <= prefix.len() && (#[trigger] order_run(o, prefix.take(k))).0 is PositionOpened;
        assert(order_run(o, events.take(k)) == order_run(o, prefix.take(k)));
        assert(order_run(o, events).1 == all);
        assert((exists|i: int| 0 <= i < all.len() && is_publish(#[trigger] all[i])) <==> q is PositionExited);
    } else if holds_position(p) {
        assert(!(exists|i: int| 0 <= i < c.len() && is_publish(#[trigger] c[i])));
        lemma_exit_publishes_once(p, e);
        assert forall|i: int, j: int|
            0 <= i < all.len() && 0 <= j < all.len() && is_publish(#[trigger] all[i]) && is_publish(
                #[trigger] all[j],
            ) implies i == j by {
            assert(i >= c.len() ==> all[i] == d[i - c.len()]);
            assert(j >= c.len() ==> all[j] == d[j - c.len()]);
            assert(i < c.len() ==> all[i] == c[i]);
            assert(j < c.len() ==> all[j] == c[j]);
        }
        if q is PositionExited {
            let i = choose|i: int| 0 <= i < d.len() && is_publish(#[trigger] d[i]);
            assert(all[c.len() + i] == d[i]);
            assert(is_publish(all[c.len() + i]));
        } else {
            assert forall|i: int| 0 <= i < all.len() implies !is_publish(#[trigger] all[i]) by {
                if i >= c.len() {
                    assert(all[i] == d[i - c.len()]);
                } else {
                    assert(all[i] == c[i]);
                }
            }
            assert(!(exists|i: int| 0 <= i < all.len() && is_publish(#[trigger] all[i])));
        }
        let k = choose|k: int| 0 <= k <= prefix.len() && (#[trigger] order_run(o, prefix.take(k))).0 is PositionOpened;
        assert(order_run(o, events.take(k)) == order_run(o, prefix.take(k)));
        assert(order_run(o, events).1 == all);
        assert((exists|i: int| 0 <= i < all.len() && is_publish(#[trigger] all[i])) <==> q is PositionExited);
    } else {
        lemma_no_exit_without_position(p, e);
        assert forall|i: int| 0 <= i < all.len() implies !is_publish(#[trigger] all[i]) by {
            if i >= c.len() {
                assert(all[i] == d[i - c.len()]);
            } else {
                assert(all[i] == c[i]);
            }
        }
        assert(!(exists|i: int| 0 <= i < all.len() && is_publish(#[trigger] all[i])));
        assert(order_run(o, events).1 == all);
        if holds_position(q) {
            assert(q is PositionOpened);
            assert(order_run(o, events.take(events.len() as int)).0 is PositionOpened);
        }
    }
}

/// When a `Between*` order that the broker accepted is filled, the same step
/// moves it to `PositionOpened` and cancels the opposite `Between*` order.
pub proof fn lemma_between_fill_cancels_other(o: WorkingOrder, level: i64, time: i64, reference: OrderReference)
    requires
        o is WOOpenAccepted,
        reference == OrderReference::BETWEEN_LONG || reference == OrderReference::BETWEEN_SHORT,
    ensures
        ({
            let (q, d) = o.transition(Event::Order(OrderEvent::PositionEntry { entry_level: level, entry_time: time }, reference));
            let other = if reference == OrderReference::BETWEEN_LONG {
                OrderReference::BETWEEN_SHORT
            } else {
                OrderReference::BETWEEN_LONG
            };
            &&& q is PositionOpened
            &&& d == seq![Command::CancelWorkingOrder { epic: o->WOOpenAccepted_0.market_info.epic, reference_to_cancel: other }]
        }),
{
}

/// The same holds through the day machine: a fill routed to an accepted
/// `Between*` order is answered, in that step, by exactly the cancellation of
/// the opposite side.
pub proof fn lemma_between_fill_cancels_other_in_system(
    s: System,
    level: i64,
    time: i64,
    reference: OrderReference,
)
    requires
        s is ManageOrders,
        reference == OrderReference::BETWEEN_LONG || reference == OrderReference::BETWEEN_SHORT,
        s->ManageOrders_0.state.order_manager.get(reference) matches Some(o) && o is WOOpenAccepted,
    ensures
        ({
            let e = Event::Order(OrderEvent::PositionEntry { entry_level: level, entry_time: time }, reference);
            let (q, d) = s.transition(e);
            let other = if reference == OrderReference::BETWEEN_LONG {
                OrderReference::BETWEEN_SHORT
            } else {
                OrderReference::BETWEEN_LONG
            };
            let o = s->ManageOrders_0.state.order_manager.get(reference)->0;
            &&& q->ManageOrders_0.state.order_manager.get(reference) matches Some(p) && p is PositionOpened
            &&& d == seq![Command::CancelWorkingOrder { epic: o->WOOpenAccepted_0.market_info.epic, reference_to_cancel: other }]
        }),
{
    let o = s->ManageOrders_0.state.order_manager.get(reference)->0;
    lemma_between_fill_cancels_other(o, level, time, reference);
}

/// No tick makes an order emit anything.
proof fn lemma_market_quiet_for_orders(o: WorkingOrder, e: Event)
    requires
        e is Market,
    ensures
        o.transition(e).1 == Seq::<Command>::empty(),
{
}

proof fn lemma_market_quiet_for_book(b: OrderManager, e: Event)
    requires
        e is Market,
    ensures
        b.step_all_spec(e).1 == Seq::<Command>::empty(),
{
    let (b1, c1) = b.step_one_spec(OrderReference::OVER_LONG, e);
    let (b2, c2) = b1.step_one_spec(OrderReference::BETWEEN_LONG, e);
    let (b3, c3) = b2.step_one_spec(OrderReference::BETWEEN_SHORT, e);
    let (b4, c4) = b3.step_one_spec(OrderReference::UNDER_SHORT, e);
    if let Some(o) = b.get(OrderReference::OVER_LONG) { lemma_market_quiet_for_orders(o, e); }
    if let Some(o) = b1.get(OrderReference::BETWEEN_LONG) { lemma_market_quiet_for_orders(o, e); }
    if let Some(o) = b2.get(OrderReference::BETWEEN_SHORT) { lemma_market_quiet_for_orders(o, e); }
    if let Some(o) = b3.get(OrderReference::UNDER_SHORT) { lemma_market_quiet_for_orders(o, e); }
    assert(c1 + c2 + c3 + c4 =~= Seq::<Command>::empty());
}

/// Re-submitting a tick that just triggered commands triggers nothing more:
/// the machine has moved past the trigger.
pub proof fn lemma_repeated_tick_is_quiet(s: System, e: Event)
    requires
        e is Market,
        s.transition(e).1.len() > 0,
    ensures
        s.transition(e).0.transition(e).1.len() == 0,
{
    let q = s.transition(e).0;
    if let System::ManageOrders(m) = q {
        lemma_market_quiet_for_book(m.state.order_manager, e);
    }
}

/// A step keeps the configuration.
pub proof fn lemma_step_keeps_market_info(s: System, e: Event)
    ensures
        s.transition(e).0.market_info() == s.market_info(),
{
}

/// Every state reached from a new machine carries the configuration it was
/// created with.
pub proof fn lemma_run_keeps_market_info(market_info: MarketInfo, events: Seq<Event>)
    ensures
        system_run(
            System::Setup(SystemMachine { state: Setup, market_info, last_position_reference: None }),
            events,
        ).0.market_info() == market_info,
    decreases events.len(),
{
    if events.len() > 0 {
        lemma_run_keeps_market_info(market_info, events.drop_last());
    }
}

/// The pairs of state and event that the transition table names.
pub open spec fn handled(s: System, e: Event) -> bool {
    match e {
        Event::Error(_) => !(s is Error),
        Event::Market { update_time, .. } => match s {
            System::Setup(m) => inside_trading_hours(m.market_info, update_time as int),
            System::DecideOrderPlacement(_) => true,
            System::ManageOrders(_) => true,
            _ => false,
        },
        Event::Data { prices } => s is AwaitData && prices@.len() > 0,
        Event::Order(_, _) => s is ManageOrders,
        Event::WOCancel(_) => s is ManageOrders,
        Event::PositionExit(_) => s is ManageOrders,
        Event::Account() => false,
    }
}

/// Any pair the table does not name leaves the machine as it is and emits
/// nothing.
pub proof fn lemma_unhandled_is_noop(s: System, e: Event)
    requires
        !handled(s, e),
    ensures
        s.transition(e) == (s, Seq::<Command>::empty()),
{
}

/// Trading hours are open at both ends: the end of the opening range and
/// fifteen minutes before the close lie outside.
pub proof fn lemma_trading_hours_boundaries(info: MarketInfo)
    ensures
        !inside_trading_hours(info, info.utc_open_time + info.bars_in_opening_range * MINUTE),
        !inside_trading_hours(info, info.utc_close_time - CLOSE_BUFFER),
{
}

} // verus!
