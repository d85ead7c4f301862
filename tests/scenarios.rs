use bfg::decider::{Command, Event, MarketInfo, OrderEvent};
use bfg::models::{Direction, OhlcPrice, OrderReference, Price, UNITS_PER_POINT};
use bfg::order::WorkingOrderFactory;
use bfg::range::{create_opening_range_from_ohlcs, OpeningRange};
use bfg::system::{System, SystemFactory};

const T0: i64 = 1_700_000_000;
const MIN: i64 = 60;

fn p(x: f64) -> i64 {
    (x * UNITS_PER_POINT as f64).round() as i64
}

fn info() -> MarketInfo {
    MarketInfo {
        epic: "E".to_string(),
        bars_in_opening_range: 1,
        min_stop: p(1.0),
        max_stop_multiplier: 10,
        expiry: "-".to_string(),
        currency: "EUR".to_string(),
        lot_size: p(1.0),
        utc_open_time: T0,
        utc_close_time: T0 + 5 * 3600,
    }
}

fn price(bid: f64, ask: f64) -> Price {
    Price { bid: p(bid), ask: p(ask) }
}

fn market(bid: f64, ask: f64, t: i64) -> Event {
    Event::Market { epic: "E".to_string(), update_time: t, bid: p(bid), ask: p(ask) }
}

fn data() -> Event {
    Event::Data {
        prices: vec![OhlcPrice {
            high: price(98.0, 100.0),
            low: price(68.0, 70.0),
            open: price(71.0, 72.0),
            close: price(72.0, 73.0),
        }],
    }
}

fn order(e: OrderEvent, r: OrderReference) -> Event {
    Event::Order(e, r)
}

fn step(s: System, e: Event) -> (System, Vec<Command>) {
    s.step(&e)
}

/// Runs the machine into `DecideOrderPlacement` with the range of `data()`.
fn decide() -> System {
    let (s, _) = step(SystemFactory::new(info()), market(1., 2., T0 + 2 * MIN));
    let (s, _) = step(s, data());
    s
}

#[test]
fn happy_path_over_long() {
    let (s, cs) = step(SystemFactory::new(info()), market(1., 2., T0 + 2 * MIN));
    assert!(matches!(s, System::AwaitData(_)));
    match &cs[..] {
        [Command::FetchData { epic, start, duration }] => {
            assert_eq!(epic, "E");
            assert_eq!(*start, T0);
            assert_eq!(*duration, 0);
        }
        _ => panic!("expected one FetchData"),
    }
    let (s, cs) = step(s, data());
    assert!(cs.is_empty());
    match &s {
        System::DecideOrderPlacement(m) => assert_eq!(m.state.opening_range.range_size(), p(30.) as i128),
        _ => panic!("expected DecideOrderPlacement"),
    }
    let (s, cs) = step(s, market(128., 130., T0 + 3 * MIN));
    match &cs[..] {
        [Command::CreateWorkingOrder { direction, price, reference, stop_distance, target_distance, .. }] => {
            assert_eq!(*direction, Direction::BUY);
            assert_eq!(*price, p(102.) as i128);
            assert_eq!(*reference, OrderReference::OVER_LONG);
            assert_eq!(*stop_distance, p(10.) as i128);
            assert_eq!(*target_distance, p(20.) as i128);
        }
        _ => panic!("expected one CreateWorkingOrder"),
    }
    let (s, cs) = step(s, order(OrderEvent::ConfirmationOpenAccepted { level: p(102.), deal_id: "D".to_string() }, OrderReference::OVER_LONG));
    assert!(cs.is_empty());
    let (s, cs) = step(s, order(OrderEvent::PositionEntry { entry_level: p(22.), entry_time: T0 + 4 * MIN }, OrderReference::OVER_LONG));
    assert!(cs.is_empty());
    let (s, cs) = step(s, order(OrderEvent::PositionExit { exit_level: p(23.), exit_time: T0 + 9 * MIN }, OrderReference::OVER_LONG));
    match &cs[..] {
        [Command::PublishTradeResults(tr)] => {
            assert_eq!(tr.reference, OrderReference::OVER_LONG);
            assert_eq!(tr.wanted_entry_level, p(102.));
            assert_eq!(tr.actual_entry_level, p(22.));
            assert_eq!(tr.exit_level, p(23.));
            assert_eq!(tr.one_r, p(10.) as i128);
            assert_eq!(tr.opening_range_size, p(30.) as i128);
            assert_eq!(tr.entry_time, T0 + 4 * MIN);
            assert_eq!(tr.exit_time, T0 + 9 * MIN);
            assert_eq!(tr.epic, "E");
            assert_eq!(tr.size, p(1.0));
            assert_eq!(tr.strategy_version, 1);
        }
        _ => panic!("expected one PublishTradeResults"),
    }
    assert!(matches!(s, System::ManageOrders(_)));
    let (s, cs) = step(s, Event::PositionExit(OrderReference::OVER_LONG));
    assert!(cs.is_empty());
    match &s {
        System::DecideOrderPlacement(m) => {
            assert_eq!(m.last_position_reference, Some(OrderReference::OVER_LONG));
            assert!(m.state.order_manager.get_orders().is_empty());
        }
        _ => panic!("expected DecideOrderPlacement"),
    }
}

#[test]
fn range_too_small_rejection() {
    let (s, _) = step(SystemFactory::new(info()), market(1., 2., T0 + 2 * MIN));
    let small = Event::Data {
        prices: vec![OhlcPrice { high: price(1.5, 1.6), low: price(1.0, 1.1), open: price(1.2, 1.3), close: price(1.2, 1.3) }],
    };
    let (s, cs) = step(s, small);
    assert!(cs.is_empty());
    assert!(matches!(s, System::Error(_)));
    let (s, cs) = step(s, market(128., 130., T0 + 3 * MIN));
    assert!(cs.is_empty());
    assert!(matches!(s, System::Error(_)));
}

#[test]
fn range_too_large_rejection() {
    let (s, _) = step(SystemFactory::new(info()), market(1., 2., T0 + 2 * MIN));
    let large = Event::Data {
        prices: vec![OhlcPrice { high: price(98.0, 100.2), low: price(68.0, 70.0), open: price(71.0, 72.0), close: price(72.0, 73.0) }],
    };
    let (s, _) = step(s, large);
    assert!(matches!(s, System::Error(_)));
}

#[test]
fn empty_bars_keep_waiting() {
    let (s, _) = step(SystemFactory::new(info()), market(1., 2., T0 + 2 * MIN));
    let (s, cs) = step(s, Event::Data { prices: vec![] });
    assert!(cs.is_empty());
    assert!(matches!(s, System::AwaitData(_)));
}

fn between_placed() -> System {
    let (s, cs) = step(decide(), market(83., 85., T0 + 3 * MIN));
    match &cs[..] {
        [Command::CreateWorkingOrder { direction: Direction::BUY, price: long_price, reference: OrderReference::BETWEEN_LONG, .. },
         Command::CreateWorkingOrder { direction: Direction::SELL, price: short_price, reference: OrderReference::BETWEEN_SHORT, .. }] => {
            assert_eq!(*long_price, p(72.) as i128);
            assert_eq!(*short_price, p(96.) as i128);
        }
        _ => panic!("expected two CreateWorkingOrder"),
    }
    s
}

#[test]
fn between_side_cancellation() {
    let s = between_placed();
    let (s, cs) = step(s, order(OrderEvent::ConfirmationOpenAccepted { level: p(72.), deal_id: "L".to_string() }, OrderReference::BETWEEN_LONG));
    assert!(cs.is_empty());
    let (s, cs) = step(s, order(OrderEvent::ConfirmationOpenAccepted { level: p(96.), deal_id: "S".to_string() }, OrderReference::BETWEEN_SHORT));
    assert!(cs.is_empty());
    let (_, cs) = step(s, order(OrderEvent::PositionEntry { entry_level: p(72.), entry_time: T0 + 5 * MIN }, OrderReference::BETWEEN_LONG));
    match &cs[..] {
        [Command::CancelWorkingOrder { epic, reference_to_cancel }] => {
            assert_eq!(epic, "E");
            assert_eq!(*reference_to_cancel, OrderReference::BETWEEN_SHORT);
        }
        _ => panic!("expected one CancelWorkingOrder"),
    }
}

#[test]
fn between_short_fill_cancels_long() {
    let s = between_placed();
    let (s, _) = step(s, order(OrderEvent::ConfirmationOpenAccepted { level: p(96.), deal_id: "S".to_string() }, OrderReference::BETWEEN_SHORT));
    let (_, cs) = step(s, order(OrderEvent::PositionEntry { entry_level: p(96.), entry_time: T0 + 5 * MIN }, OrderReference::BETWEEN_SHORT));
    assert!(matches!(&cs[..], [Command::CancelWorkingOrder { reference_to_cancel: OrderReference::BETWEEN_LONG, .. }]));
}

#[test]
fn rejected_between_long_cancels_other_and_restarts() {
    let s = between_placed();
    let (s, cs) = step(s, order(OrderEvent::ConfirmationRejection, OrderReference::BETWEEN_LONG));
    match &cs[..] {
        [Command::CancelWorkingOrder { reference_to_cancel: OrderReference::BETWEEN_SHORT, .. }, Command::Restart(OrderReference::BETWEEN_LONG)] => {}
        _ => panic!("expected cancel then restart"),
    }
    let (s, cs) = step(s, Event::WOCancel(OrderReference::BETWEEN_LONG));
    assert!(cs.is_empty());
    assert!(matches!(s, System::DecideOrderPlacement(_)));
}

#[test]
fn rejected_over_long_only_restarts() {
    let (s, _) = step(decide(), market(128., 130., T0 + 3 * MIN));
    let (_, cs) = step(s, order(OrderEvent::ConfirmationRejection, OrderReference::OVER_LONG));
    assert!(matches!(&cs[..], [Command::Restart(OrderReference::OVER_LONG)]));
}

#[test]
fn under_short_placement() {
    let (_, cs) = step(decide(), market(50., 52., T0 + 3 * MIN));
    match &cs[..] {
        [Command::CreateWorkingOrder { direction: Direction::SELL, price, reference: OrderReference::UNDER_SHORT, stop_distance, .. }] => {
            assert_eq!(*price, p(66.) as i128);
            assert_eq!(*stop_distance, p(10.) as i128);
        }
        _ => panic!("expected one CreateWorkingOrder"),
    }
}

#[test]
fn no_placement_near_range_edges() {
    let (s, cs) = step(decide(), market(104., 106., T0 + 3 * MIN));
    assert!(cs.is_empty());
    assert!(matches!(s, System::DecideOrderPlacement(_)));
}

#[test]
fn after_hours_exit() {
    let (s, _) = step(decide(), market(128., 130., T0 + 3 * MIN));
    assert!(matches!(s, System::ManageOrders(_)));
    let close = info().utc_close_time;
    assert!(!info().is_inside_trading_hours(close - 10 * MIN));
    let (s, cs) = step(s, market(128., 130., close - 10 * MIN));
    assert!(cs.is_empty());
    assert!(matches!(s, System::Setup(_)));
}

#[test]
fn decide_outside_hours_returns_to_setup() {
    let (s, cs) = step(decide(), market(128., 130., T0 + 5 * 3600));
    assert!(cs.is_empty());
    assert!(matches!(s, System::Setup(_)));
}

#[test]
fn error_event_is_fatal_everywhere() {
    for s in [SystemFactory::new(info()), decide(), between_placed()] {
        let (s, cs) = step(s, Event::Error("boom".to_string()));
        assert!(matches!(s, System::Error(_)));
        match &cs[..] {
            [Command::FatalFailure(reason)] => assert_eq!(reason, "boom"),
            _ => panic!("expected one FatalFailure"),
        }
        let (s, cs) = step(s, Event::Error("again".to_string()));
        assert!(cs.is_empty());
        assert!(matches!(s, System::Error(_)));
    }
}

#[test]
fn market_info_kept_along_a_day() {
    let events = vec![
        market(1., 2., T0 + 2 * MIN),
        data(),
        market(83., 85., T0 + 3 * MIN),
        order(OrderEvent::ConfirmationRejection, OrderReference::BETWEEN_SHORT),
        Event::WOCancel(OrderReference::BETWEEN_SHORT),
        Event::Error("x".to_string()),
    ];
    let mut s = SystemFactory::new(info());
    for e in &events {
        s = s.step(e).0;
        let mi = s.get_market_info();
        assert_eq!(mi.epic, "E");
        assert_eq!(mi.utc_open_time, T0);
        assert_eq!(mi.min_stop, p(1.0));
    }
}

#[test]
fn unrecognized_pairs_are_noops() {
    let (s, cs) = step(SystemFactory::new(info()), Event::Account());
    assert!(cs.is_empty());
    assert!(matches!(s, System::Setup(_)));
    let (s, cs) = step(s, data());
    assert!(cs.is_empty());
    assert!(matches!(s, System::Setup(_)));
    let (s, cs) = step(decide(), Event::PositionExit(OrderReference::OVER_LONG));
    assert!(cs.is_empty());
    assert!(matches!(s, System::DecideOrderPlacement(_)));
}

#[test]
fn trade_result_published_once() {
    let (s, _) = step(decide(), market(128., 130., T0 + 3 * MIN));
    let (s, _) = step(s, order(OrderEvent::ConfirmationOpenAccepted { level: p(102.), deal_id: "D".to_string() }, OrderReference::OVER_LONG));
    let (s, _) = step(s, order(OrderEvent::PositionEntry { entry_level: p(103.), entry_time: T0 + 4 * MIN }, OrderReference::OVER_LONG));
    let exit = order(OrderEvent::PositionExit { exit_level: p(110.), exit_time: T0 + 8 * MIN }, OrderReference::OVER_LONG);
    let (s, first) = step(s, exit.clone());
    assert_eq!(first.len(), 1);
    let (_, second) = step(s, exit);
    assert!(second.is_empty());
}

#[test]
fn exit_without_fill_publishes_nothing() {
    let (s, _) = step(decide(), market(128., 130., T0 + 3 * MIN));
    let (_, cs) = step(s, order(OrderEvent::PositionExit { exit_level: p(110.), exit_time: T0 + 8 * MIN }, OrderReference::OVER_LONG));
    assert!(cs.is_empty());
}

#[test]
fn opening_range_high_not_below_low() {
    let prices = vec![
        OhlcPrice { high: price(10., 11.), low: price(8., 9.), open: price(9., 10.), close: price(9., 10.) },
        OhlcPrice { high: price(12., 13.), low: price(9., 10.), open: price(9., 10.), close: price(9., 10.) },
        OhlcPrice { high: price(11., 12.), low: price(7., 8.), open: price(9., 10.), close: price(9., 10.) },
    ];
    let r = create_opening_range_from_ohlcs(&prices);
    assert_eq!(r, OpeningRange { high_ask: p(13.), high_bid: p(12.), low_ask: p(8.), low_bid: p(7.) });
    assert!(r.high_ask >= r.low_ask && r.high_bid >= r.low_bid);
}

#[test]
fn opening_range_ties_take_first_bar() {
    let prices = vec![
        OhlcPrice { high: price(10., 12.), low: price(8., 9.), open: price(9., 10.), close: price(9., 10.) },
        OhlcPrice { high: price(11., 12.), low: price(8.5, 9.), open: price(9., 10.), close: price(9., 10.) },
    ];
    let r = create_opening_range_from_ohlcs(&prices);
    assert_eq!(r.high_bid, p(10.));
    assert_eq!(r.low_bid, p(8.));
}

#[test]
fn repeated_tick_is_quiet() {
    let tick = market(128., 130., T0 + 3 * MIN);
    let (s, first) = step(decide(), tick.clone());
    assert_eq!(first.len(), 1);
    let (_, second) = step(s, tick);
    assert!(second.is_empty());
    let tick = market(1., 2., T0 + 2 * MIN);
    let (s, first) = step(SystemFactory::new(info()), tick.clone());
    assert_eq!(first.len(), 1);
    let (_, second) = step(s, tick);
    assert!(second.is_empty());
}

#[test]
fn trading_hours_boundaries() {
    let i = info();
    assert!(!i.is_inside_trading_hours(T0 + MIN));
    assert!(i.is_inside_trading_hours(T0 + MIN + 1));
    assert!(!i.is_inside_trading_hours(i.utc_close_time - 15 * MIN));
    assert!(i.is_inside_trading_hours(i.utc_close_time - 15 * MIN - 1));
    let (s, cs) = step(SystemFactory::new(info()), market(1., 2., T0 + MIN));
    assert!(cs.is_empty());
    assert!(matches!(s, System::Setup(_)));
}

#[test]
fn working_order_trailing_stop_disabled() {
    assert!(!bfg::order::should_arm_trailing(p(200.), p(201.), OrderReference::OVER_LONG, p(100.)));
    let o = WorkingOrderFactory::new(info(), OpeningRange { high_ask: p(100.), high_bid: p(98.), low_ask: p(70.), low_bid: p(68.) });
    let (o, _) = o.step(&order(OrderEvent::ConfirmationOpenAccepted { level: p(102.), deal_id: "D".to_string() }, OrderReference::OVER_LONG));
    let (o, _) = o.step(&order(OrderEvent::PositionEntry { entry_level: p(102.), entry_time: T0 }, OrderReference::OVER_LONG));
    let (o, cs) = o.step(&market(300., 301., T0 + 10 * MIN));
    assert!(cs.is_empty());
    assert_eq!(o.state_name(), "PositionOpened");
}

#[test]
fn stop_distance_rounds_toward_zero() {
    let i = info();
    assert_eq!(i.stop_distance(10), 3);
    assert_eq!(i.stop_distance(-10), -3);
    assert_eq!(i.stop_distance(p(30.) as i128), p(10.) as i128);
}

#[test]
fn opening_range_derived_values() {
    let r = OpeningRange { high_ask: p(100.), high_bid: p(98.), low_ask: p(70.), low_bid: p(68.) };
    assert_eq!(r.get_middle_price_high(), p(99.) as i128);
    assert_eq!(r.get_middle_price_low(), p(69.) as i128);
    assert_eq!(r.range_size(), p(30.) as i128);
    assert_eq!(r.spread(), p(2.) as i128);
}
