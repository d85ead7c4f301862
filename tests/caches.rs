use bfg::atr::{atr_fetch_window, AtrSchedule};
use bfg::models::decode_deal_reference;
use bfg::broker::{ClosePositionRequest, Config, IGAccountProvider, IGConfig, OrderType};
use bfg::caches::{MarketCache, OpenPositionCache, TradeConfirmationCache};
use bfg::decider::{Command, Event, MarketInfo, OrderEvent, TradeResult};
use bfg::dispatch::{follow_up, BrokerAction, BrokerOutcome, SystemsManager};
use bfg::london::get_utc_time_for_update;
use bfg::models::{get_reference_from_id, get_reference_id, OhlcPrice, OrderReference, Price, UNITS_PER_POINT};
use bfg::realtime::{
    DealStatus, Direction, MarketState, MarketUpdate, OpenPositionUpdate, OpuStatus, PositionStatus,
    SubscriptionManager, TradeConfirmationUpdate,
};
use bfg::views::ConnectionInformationView;

const T0: i64 = 1_700_000_000;

fn p(x: f64) -> i64 {
    (x * UNITS_PER_POINT as f64).round() as i64
}

fn info(epic: &str) -> MarketInfo {
    MarketInfo {
        epic: epic.to_string(),
        bars_in_opening_range: 1,
        min_stop: p(1.0),
        max_stop_multiplier: 10,
        expiry: "-".to_string(),
        currency: "EUR".to_string(),
        lot_size: p(1.0),
        utc_open_time: T0,
        utc_close_time: T0 + 5 * 3600,
    }
}

fn empty_update(epic: &str) -> MarketUpdate {
    MarketUpdate { bid: None, offer: None, market_delay: None, market_state: None, update_time: None, epic: epic.to_string() }
}

fn confirmation(reference: &str, deal_status: DealStatus, status: Option<PositionStatus>, level: Option<i64>) -> TradeConfirmationUpdate {
    TradeConfirmationUpdate {
        direction: Direction::BUY,
        epic: "E".to_string(),
        deal_reference: reference.to_string(),
        stop_level: None,
        limit_level: None,
        deal_id: "DEAL1".to_string(),
        expiry: None,
        affected_deals: vec![],
        deal_status,
        level,
        reason: "".to_string(),
        status,
        size: Some(1),
        profit: None,
        profit_currency: None,
        date: "".to_string(),
        channel: "".to_string(),
    }
}

fn position(reference: &str, deal_status: DealStatus, status: OpuStatus, level: i64) -> OpenPositionUpdate {
    OpenPositionUpdate {
        deal_reference: reference.to_string(),
        deal_id: "DEAL1".to_string(),
        direction: "BUY".to_string(),
        epic: "E".to_string(),
        status,
        deal_status,
        level,
        size: 1,
        timestamp: "".to_string(),
        channel: "".to_string(),
        deal_id_origin: "".to_string(),
        expiry: "-".to_string(),
        stop_level: None,
        limit_level: None,
        guaranteed_stop: false,
    }
}

#[test]
fn cache_gating() {
    let mut cache = MarketCache::new();
    let only_bid = MarketUpdate { bid: Some(p(1.)), ..empty_update("E") };
    assert!(cache.update_at(only_bid, None).is_none());
    let rest = MarketUpdate {
        offer: Some(p(2.)),
        market_delay: Some(0),
        market_state: Some(MarketState::TRADEABLE),
        update_time: Some("09:03:00".to_string()),
        ..empty_update("E")
    };
    match cache.update_at(rest, Some(T0 + 180)) {
        Some((epic, Event::Market { epic: e2, update_time, bid, ask })) => {
            assert_eq!(epic, "E");
            assert_eq!(e2, "E");
            assert_eq!(update_time, T0 + 180);
            assert_eq!(bid, p(1.));
            assert_eq!(ask, p(2.));
        }
        _ => panic!("expected one Market event"),
    }
}

#[test]
fn cache_holds_back_delayed_or_untradeable_markets() {
    let mut cache = MarketCache::new();
    let full = MarketUpdate {
        bid: Some(p(1.)),
        offer: Some(p(2.)),
        market_delay: Some(1),
        market_state: Some(MarketState::TRADEABLE),
        update_time: Some("09:03:00".to_string()),
        ..empty_update("E")
    };
    assert!(cache.update_at(full, Some(T0)).is_none());
    let undelayed = MarketUpdate { market_delay: Some(0), market_state: Some(MarketState::AUCTION), ..empty_update("E") };
    assert!(cache.update_at(undelayed, None).is_none());
    assert_eq!(cache.update_time, Some(T0));
    let open = MarketUpdate { market_state: Some(MarketState::TRADEABLE), ..empty_update("E") };
    assert!(cache.update_at(open, None).is_some());
    assert!(cache.is_filled_for_event());
}

#[test]
fn cache_converts_london_time() {
    let mut cache = MarketCache::new();
    let full = MarketUpdate {
        bid: Some(p(1.)),
        offer: Some(p(2.)),
        market_delay: Some(0),
        market_state: Some(MarketState::TRADEABLE),
        update_time: Some("12:00:00".to_string()),
        ..empty_update("E")
    };
    match cache.update(full) {
        Some((_, Event::Market { update_time, .. })) => {
            let of_day = update_time.rem_euclid(86_400);
            assert!(of_day == 12 * 3600 || of_day == 11 * 3600);
        }
        _ => panic!("expected one Market event"),
    }
}

#[test]
fn london_time_of_day_to_utc() {
    let t = get_utc_time_for_update("07:30:15").expect("a valid time");
    let of_day = t.rem_euclid(86_400);
    assert!(of_day == 7 * 3600 + 30 * 60 + 15 || of_day == 6 * 3600 + 30 * 60 + 15);
    assert!(get_utc_time_for_update("not a time").is_none());
}

#[test]
fn confirmation_events() {
    let mut cache = TradeConfirmationCache::new();
    match cache.update(confirmation("OVER_LONG", DealStatus::ACCEPTED, Some(PositionStatus::OPEN), Some(p(102.)))) {
        Some((epic, Event::Order(OrderEvent::ConfirmationOpenAccepted { level, deal_id }, OrderReference::OVER_LONG))) => {
            assert_eq!(epic, "E");
            assert_eq!(level, p(102.));
            assert_eq!(deal_id, "DEAL1");
        }
        _ => panic!("expected ConfirmationOpenAccepted"),
    }
    assert_eq!(cache.get_deal_id(OrderReference::OVER_LONG), Some("DEAL1".to_string()));
    assert_eq!(cache.get_deal_id(OrderReference::UNDER_SHORT), None);
    assert!(matches!(
        cache.update(confirmation("BETWEEN_LONG", DealStatus::ACCEPTED, Some(PositionStatus::AMENDED), None)),
        Some((_, Event::Order(OrderEvent::ConfirmationAmendedAccepted, OrderReference::BETWEEN_LONG)))
    ));
    assert!(matches!(
        cache.update(confirmation("BETWEEN_SHORT", DealStatus::REJECTED, Some(PositionStatus::OPEN), Some(p(1.)))),
        Some((_, Event::Order(OrderEvent::ConfirmationRejection, OrderReference::BETWEEN_SHORT)))
    ));
    assert!(matches!(
        cache.update(confirmation("UNDER_SHORT", DealStatus::ACCEPTED, Some(PositionStatus::DELETED), None)),
        Some((_, Event::Order(OrderEvent::ConfirmationDeleteAccepted, OrderReference::UNDER_SHORT)))
    ));
    assert!(cache.update(confirmation("UNDER_SHORT", DealStatus::ACCEPTED, Some(PositionStatus::OPEN), None)).is_none());
    assert!(cache.update(confirmation("UNDER_SHORT", DealStatus::ACCEPTED, Some(PositionStatus::CLOSED), None)).is_none());
}

#[test]
fn unknown_references_are_ignored() {
    let mut cache = TradeConfirmationCache::new();
    assert!(cache.update(confirmation("MANUAL123", DealStatus::ACCEPTED, Some(PositionStatus::OPEN), Some(1))).is_none());
    for r in [OrderReference::OVER_LONG, OrderReference::BETWEEN_LONG, OrderReference::BETWEEN_SHORT, OrderReference::UNDER_SHORT] {
        assert_eq!(cache.get_deal_id(r), None);
    }
    let mut positions = OpenPositionCache::new();
    assert!(positions.update(position("MANUAL123", DealStatus::ACCEPTED, OpuStatus::OPEN, 1), T0).is_none());
}

#[test]
fn position_events() {
    let mut cache = OpenPositionCache::new();
    match cache.update(position("BETWEEN_LONG", DealStatus::ACCEPTED, OpuStatus::OPEN, p(72.)), T0 + 60) {
        Some((_, Event::Order(OrderEvent::PositionEntry { entry_level, entry_time }, OrderReference::BETWEEN_LONG))) => {
            assert_eq!(entry_level, p(72.));
            assert_eq!(entry_time, T0 + 60);
        }
        _ => panic!("expected PositionEntry"),
    }
    match cache.update(position("BETWEEN_LONG", DealStatus::ACCEPTED, OpuStatus::DELETED, p(75.)), T0 + 120) {
        Some((_, Event::Order(OrderEvent::PositionExit { exit_level, exit_time }, OrderReference::BETWEEN_LONG))) => {
            assert_eq!(exit_level, p(75.));
            assert_eq!(exit_time, T0 + 120);
        }
        _ => panic!("expected PositionExit"),
    }
    assert!(cache.update(position("BETWEEN_LONG", DealStatus::ACCEPTED, OpuStatus::UPDATED, p(75.)), T0).is_none());
    assert!(cache.update(position("BETWEEN_LONG", DealStatus::REJECTED, OpuStatus::OPEN, p(75.)), T0).is_none());
}

fn result(epic: &str) -> TradeResult {
    TradeResult {
        size: p(1.),
        wanted_entry_level: p(102.),
        actual_entry_level: p(103.),
        entry_time: T0,
        exit_time: T0 + 60,
        exit_level: p(110.),
        reference: OrderReference::OVER_LONG,
        epic: epic.to_string(),
        opening_range_size: p(30.) as i128,
        strategy_version: 1,
        one_r: p(10.) as i128,
    }
}

#[test]
fn follow_up_events() {
    let epic = "E".to_string();
    let fetch = BrokerAction::FetchData { epic: "E".to_string(), start: T0, duration: 0 };
    let bars = vec![OhlcPrice {
        open: Price { bid: 1, ask: 2 },
        close: Price { bid: 1, ask: 2 },
        high: Price { bid: 3, ask: 4 },
        low: Price { bid: 0, ask: 1 },
    }];
    match &follow_up(&epic, &fetch, BrokerOutcome::Bars(bars))[..] {
        [(e, Event::Data { prices })] => {
            assert_eq!(e, "E");
            assert_eq!(prices.len(), 1);
        }
        _ => panic!("expected Data"),
    }
    assert!(matches!(&follow_up(&epic, &fetch, BrokerOutcome::Failed("down".to_string()))[..], [(_, Event::Error(_))]));
    let open = BrokerAction::OpenWorkingOrder {
        direction: bfg::models::Direction::BUY,
        price: 1,
        reference: OrderReference::OVER_LONG,
        market_info: info("E"),
        target_distance: 2,
        stop_distance: 1,
    };
    assert!(follow_up(&epic, &open, BrokerOutcome::Done).is_empty());
    assert!(matches!(&follow_up(&epic, &open, BrokerOutcome::Failed("no".to_string()))[..], [(_, Event::Error(_))]));
    let edit = BrokerAction::EditPosition {
        epic: "E".to_string(),
        deal_id: "D".to_string(),
        stop_level: 1,
        trailing_stop_distance: 1,
        target_level: 1,
    };
    assert!(follow_up(&epic, &edit, BrokerOutcome::Failed("gone".to_string())).is_empty());
    let delete = BrokerAction::DeleteWorkingOrder { epic: "E".to_string(), deal_id: "D".to_string() };
    assert!(matches!(&follow_up(&epic, &delete, BrokerOutcome::Failed("no".to_string()))[..], [(_, Event::Error(_))]));
    assert!(follow_up(&epic, &delete, BrokerOutcome::Done).is_empty());
    match &follow_up(&epic, &BrokerAction::PublishTradeResults(result("F")), BrokerOutcome::Done)[..] {
        [(e, Event::PositionExit(OrderReference::OVER_LONG))] => assert_eq!(e, "F"),
        _ => panic!("expected PositionExit"),
    }
    assert!(matches!(
        &follow_up(&epic, &BrokerAction::Restart(OrderReference::BETWEEN_LONG), BrokerOutcome::Done)[..],
        [(_, Event::WOCancel(OrderReference::BETWEEN_LONG))]
    ));
    assert!(follow_up(&epic, &BrokerAction::Skip, BrokerOutcome::Done).is_empty());
}

#[test]
fn dispatcher_routes_by_epic() {
    let mut manager = SystemsManager::new(&[info("A"), info("B")]);
    assert_eq!(manager.find("B"), Some(1));
    assert_eq!(manager.find("C"), None);
    let tick = Event::Market { epic: "B".to_string(), update_time: T0 + 120, bid: p(1.), ask: p(2.) };
    let cs = manager.step_one("B", &tick);
    assert!(matches!(&cs[..], [Command::FetchData { .. }]));
    assert_eq!(manager.get_current_system_view("B").state, "AwaitData");
    assert_eq!(manager.get_current_system_view("A").state, "Setup");
    assert!(manager.step_one("C", &tick).is_empty());
    let unknown = manager.get_current_system_view("C");
    assert_eq!(unknown.state, "");
    assert_eq!(unknown.epic, "C");
}

#[test]
fn dispatcher_plans_cancel_by_deal_id() {
    let mut manager = SystemsManager::new(&[info("E")]);
    let cancel = Command::CancelWorkingOrder { epic: "E".to_string(), reference_to_cancel: OrderReference::BETWEEN_SHORT };
    assert!(matches!(manager.plan(cancel.clone()), BrokerAction::Skip));
    let confirmed = manager.update_confirms("E", confirmation("BETWEEN_SHORT", DealStatus::ACCEPTED, Some(PositionStatus::OPEN), Some(p(96.))));
    assert!(confirmed.is_some());
    match manager.plan(cancel) {
        BrokerAction::DeleteWorkingOrder { epic, deal_id } => {
            assert_eq!(epic, "E");
            assert_eq!(deal_id, "DEAL1");
        }
        _ => panic!("expected DeleteWorkingOrder"),
    }
    assert!(matches!(manager.plan(Command::FatalFailure("x".to_string())), BrokerAction::Skip));
    assert!(matches!(manager.plan(Command::Restart(OrderReference::OVER_LONG)), BrokerAction::Restart(OrderReference::OVER_LONG)));
}

#[test]
fn dispatcher_caches_and_views() {
    let mut manager = SystemsManager::new(&[info("E")]);
    let update = MarketUpdate { bid: Some(p(1.)), market_delay: Some(0), ..empty_update("E") };
    assert!(manager.update_market("E", update).is_none());
    let view = manager.get_market_view("E");
    assert_eq!(view.bid, Some(p(1.)));
    assert_eq!(view.ask, None);
    assert_eq!(view.market_delay, Some(0));
    assert!(manager.update_market("X", empty_update("X")).is_none());
    assert_eq!(manager.get_market_view("X").epic, "X");
    let entry = manager.update_account_position("E", position("OVER_LONG", DealStatus::ACCEPTED, OpuStatus::OPEN, p(5.)), T0);
    assert!(matches!(entry, Some((_, Event::Order(OrderEvent::PositionEntry { .. }, OrderReference::OVER_LONG)))));
}

#[test]
fn dispatcher_system_view_lists_orders() {
    let mut manager = SystemsManager::new(&[info("E")]);
    manager.step_one("E", &Event::Market { epic: "E".to_string(), update_time: T0 + 120, bid: p(1.), ask: p(2.) });
    let bars = vec![OhlcPrice {
        high: Price { bid: p(98.), ask: p(100.) },
        low: Price { bid: p(68.), ask: p(70.) },
        open: Price { bid: p(71.), ask: p(72.) },
        close: Price { bid: p(72.), ask: p(73.) },
    }];
    manager.step_one("E", &Event::Data { prices: bars });
    manager.step_one("E", &Event::Market { epic: "E".to_string(), update_time: T0 + 180, bid: p(83.), ask: p(85.) });
    let view = manager.get_current_system_view("E");
    assert_eq!(view.state, "ManageOrders");
    assert_eq!(view.opening_range_high_ask, Some(p(100.)));
    assert_eq!(view.opening_range_low_bid, Some(p(68.)));
    assert_eq!(view.orders.len(), 2);
    assert_eq!(view.orders[0].reference, "BETWEEN_LONG");
    assert_eq!(view.orders[1].reference, "BETWEEN_SHORT");
    assert_eq!(view.orders[0].state, "AwaitingWOOpenConfirmation");
}

#[test]
fn reference_ids() {
    assert_eq!(get_reference_id("OVER_LONG"), 1);
    assert_eq!(get_reference_id("BETWEEN_LONG"), 2);
    assert_eq!(get_reference_id("BETWEEN_SHORT"), 3);
    assert_eq!(get_reference_id("UNDER_SHORT"), 4);
    assert_eq!(get_reference_from_id(1), "OVER_LONG");
    assert_eq!(get_reference_from_id(4), "UNDER_SHORT");
    assert_eq!(OrderReference::parse("BETWEEN_SHORT"), Some(OrderReference::BETWEEN_SHORT));
    assert_eq!(OrderReference::parse("between_short"), None);
}

#[test]
fn subscription_ids() {
    let m = SubscriptionManager::new(vec!["A".to_string(), "B".to_string()]);
    assert_eq!(m.get_subscription_id_range(), 3..5);
    assert_eq!(m.get_epic_from_subscription_id(3), "A");
    assert_eq!(m.get_epic_from_subscription_id(4), "B");
}

#[test]
fn small_constructors() {
    let r = ClosePositionRequest::new(Direction::SELL, 2);
    assert_eq!(r.epic, "IX.D.DAX.IFMM.IP");
    assert_eq!(r.expiry, "-");
    assert_eq!(r.size, 2);
    assert_eq!(r.order_type, OrderType::MARKET);
    let c = Config::new("u".to_string(), "p".to_string(), "a".to_string(), "k".to_string());
    assert_eq!(c.account, "a");
    let g = IGConfig::new("u".to_string(), "p".to_string(), "k".to_string(), "a".to_string());
    let provider = IGAccountProvider::new(g);
    assert_eq!(provider.config.api_key, "k");
    assert_eq!(ConnectionInformationView::not_connected().stream_status, "Not Connected");
}

#[test]
fn deal_references() {
    assert_eq!(decode_deal_reference("1MYREFIXDDAXIFMMIP"), Some(OrderReference::OVER_LONG));
    assert_eq!(decode_deal_reference("2MYREFE"), Some(OrderReference::BETWEEN_LONG));
    assert_eq!(decode_deal_reference("3MYREF"), Some(OrderReference::BETWEEN_SHORT));
    assert_eq!(decode_deal_reference("4MYREFX"), Some(OrderReference::UNDER_SHORT));
    assert_eq!(decode_deal_reference("5MYREFX"), None);
    assert_eq!(decode_deal_reference("1MYRE"), None);
    assert_eq!(decode_deal_reference("2DZZ73A1G2YQDSS58"), None);
}

#[test]
fn atr_schedule() {
    let i = info("E");
    let before_open = AtrSchedule::for_market(&i, T0 - 3600).expect("a schedule");
    assert_eq!(before_open.first_tick, T0 + 15 * 60);
    assert_eq!(before_open.period, 30 * 60);
    assert_eq!(before_open.stop_at, T0 + 5 * 3600 - 5 * 60);
    let midday = AtrSchedule::for_market(&i, T0 + 3600).expect("a schedule");
    assert_eq!(midday.first_tick, T0 + 3600);
    assert!(AtrSchedule::for_market(&i, T0 + 5 * 3600).is_none());
    let minute: i64 = 1_700_000_040;
    assert_eq!(atr_fetch_window(minute + 42), (minute - 15 * 60, 15 * 60));
    assert_eq!(atr_fetch_window(minute), (minute - 15 * 60, 15 * 60));
}

#[test]
fn market_state_names() {
    assert_eq!(MarketState::parse("TRADEABLE"), Some(MarketState::TRADEABLE));
    assert_eq!(MarketState::parse("AUCTION_NO_EDIT"), Some(MarketState::AUCTION_NO_EDIT));
    assert_eq!(MarketState::parse("EDIT"), Some(MarketState::EDIT));
    assert_eq!(MarketState::parse("OFFLINE"), Some(MarketState::OFFLINE));
    assert_eq!(MarketState::parse("tradeable"), None);
}

#[test]
fn deal_reference_encoding() {
    let r = bfg::models::encode_deal_reference(OrderReference::OVER_LONG, "IX.D.DAX.IFMM.IP");
    assert_eq!(r, "1MYREFIXDDAXIFMMIP");
    assert_eq!(decode_deal_reference(&r), Some(OrderReference::OVER_LONG));
    let r = bfg::models::encode_deal_reference(OrderReference::UNDER_SHORT, "A.B");
    assert_eq!(r, "4MYREFAB");
    assert_eq!(decode_deal_reference(&r), Some(OrderReference::UNDER_SHORT));
    assert_eq!(bfg::models::encode_deal_reference(OrderReference::BETWEEN_SHORT, ""), "3MYREF");
}
