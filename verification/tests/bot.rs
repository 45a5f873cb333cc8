use trading_bot::bot::{new_order, order_from_signal, OrderOutcome, BuiltinStrategy, Task, TradingBot, MIN_HISTORY};
use trading_bot::executor::CancelOutcome;
use trading_bot::risk::{RejectReason, RiskDecision};
use trading_bot::strategy::{MeanReversionStrategy, MomentumStrategy, TradingStrategy};
use trading_bot::types::{
    Order, OrderBook, OrderSide, OrderType, Price, RiskParams, TradingSignal, SCALE,
};

const BTC: &str = "BTC/USD";

fn bot_sample(symbol: &str, price: u64, volume: u64) -> Price {
    Price { symbol: symbol.to_string(), price, timestamp: 1_700_000_000, volume }
}

fn quiet_book(symbol: &str) -> OrderBook {
    OrderBook { symbol: symbol.to_string(), bids: Vec::new(), asks: Vec::new(), timestamp: 0 }
}

/// Ten samples that rise by 5% in all, from 40 to 42, on a volume of 2000.
fn record_rise(bot: &mut TradingBot<BuiltinStrategy>, symbol: &str) {
    for step in 0..9u64 {
        let price = 40 * SCALE + step * 200_000;
        bot.record_price(symbol, Some(bot_sample(symbol, price, 2000 * SCALE)));
    }
    bot.record_price(symbol, Some(bot_sample(symbol, 42 * SCALE, 2000 * SCALE)));
}

fn buy_signal(symbol: &str, quantity: i64, price: u64) -> TradingSignal {
    TradingSignal {
        symbol: symbol.to_string(),
        action: OrderSide::Buy,
        confidence: 50_000,
        target_price: price,
        quantity,
    }
}

#[test]
fn new_bot_is_stopped_and_empty() {
    let bot = TradingBot::new(vec![BTC.to_string()]);
    assert!(!bot.is_running());
    assert_eq!(bot.risk_manager().params(), RiskParams::default());
    assert_eq!(bot.risk_manager().daily_pnl(), 0);
    assert_eq!(bot.risk_manager().position(BTC), None);
    assert_eq!(bot.order_executor().pending_count(), 0);
    assert!(bot.price_history().snapshot(BTC).is_empty());
    assert!(bot.ready_symbols().is_empty());
}

#[test]
fn start_names_one_ingestion_loop_per_symbol_and_one_decision_loop() {
    let mut bot = TradingBot::new(vec!["A".to_string(), "B".to_string()]);
    let tasks = bot.start(vec!["A".to_string(), "B".to_string(), "C".to_string()]);
    assert!(bot.is_running());
    assert_eq!(
        tasks,
        vec![
            Task::Ingest("A".to_string()),
            Task::Ingest("B".to_string()),
            Task::Ingest("C".to_string()),
            Task::Decide,
        ]
    );
}

#[test]
fn start_without_symbols_still_runs_the_decision_loop() {
    let mut bot = TradingBot::new(Vec::new());
    assert_eq!(bot.start(Vec::new()), vec![Task::Decide]);
    assert!(bot.is_running());
}

#[test]
fn start_while_running_asks_for_no_new_loop() {
    let mut bot = TradingBot::new(vec![BTC.to_string()]);
    assert_eq!(bot.start(vec![BTC.to_string()]).len(), 2);
    assert!(bot.start(vec![BTC.to_string()]).is_empty());
    assert!(bot.is_running());
}

#[test]
fn lifecycle_goes_stopped_running_stopped() {
    let mut bot = TradingBot::new(vec![BTC.to_string()]);
    assert!(!bot.is_running());
    bot.stop();
    assert!(!bot.is_running());
    bot.start(vec![BTC.to_string()]);
    assert!(bot.is_running());
    bot.stop();
    assert!(!bot.is_running());
    bot.stop();
    assert!(!bot.is_running());
    // a stopped bot can be started again and asks for its loops again
    assert_eq!(bot.start(vec![BTC.to_string()]).len(), 2);
    assert!(bot.is_running());
}

#[test]
fn stop_keeps_what_was_recorded_held_and_pending() {
    let mut bot = TradingBot::new(vec![BTC.to_string()]);
    bot.start(vec![BTC.to_string()]);
    record_rise(&mut bot, BTC);
    let order = order_from_signal(&buy_signal(BTC, 100_000_000, SCALE), "a".to_string(), 1);
    assert_eq!(bot.execute_order(order, SCALE, Ok(())), OrderOutcome::Submitted("a".to_string()));
    bot.stop();
    assert_eq!(bot.price_history().sample_count(BTC), 10);
    assert_eq!(bot.risk_manager().position(BTC).unwrap().quantity, 100_000_000);
    assert!(bot.order_executor().is_pending("a"));
}

#[test]
fn end_to_end_rise_yields_one_momentum_order() {
    let mut bot = TradingBot::new(vec![BTC.to_string()]);
    let tasks = bot.start(vec![BTC.to_string()]);
    assert_eq!(tasks, vec![Task::Ingest(BTC.to_string()), Task::Decide]);
    record_rise(&mut bot, BTC);

    let ready = bot.ready_symbols();
    assert_eq!(ready, vec![BTC]);
    let mut submitted = Vec::new();
    for symbol in &ready {
        for signal in bot.evaluate(symbol, &quiet_book(symbol)) {
            let order = new_order(&signal);
            if bot.review_order(&order, signal.target_price).is_accepted() {
                let id = order.id.clone();
                let outcome = bot.execute_order(order, signal.target_price, Ok(()));
                assert_eq!(outcome, OrderOutcome::Submitted(id.clone()));
                submitted.push((id, signal));
            }
        }
    }

    // exactly one order, and it is the momentum rule's
    assert_eq!(submitted.len(), 1);
    let (id, signal) = &submitted[0];
    assert_eq!(
        *signal,
        TradingSignal {
            symbol: BTC.to_string(),
            action: OrderSide::Buy,
            confidence: 50_000,
            target_price: 42 * SCALE,
            quantity: 100_000_000,
        }
    );
    let own = MomentumStrategy::new(10, 20_000);
    let window = bot.price_history().snapshot(BTC);
    assert_eq!(own.analyze(&window, &quiet_book(BTC)).as_ref(), Some(signal));
    assert_eq!(MeanReversionStrategy::new(20, 30_000).analyze(&window, &quiet_book(BTC)), None);

    let pending = bot.order_executor().pending_orders();
    assert_eq!(pending.len(), 1);
    assert_eq!(pending[0].id, *id);
    assert_eq!(pending[0].symbol, BTC);
    assert_eq!(pending[0].side, OrderSide::Buy);
    assert_eq!(pending[0].order_type, OrderType::Market);
    assert_eq!(pending[0].quantity, 100_000_000);

    let position = bot.risk_manager().position(BTC).unwrap();
    assert_eq!(position.symbol, BTC);
    assert_eq!(position.quantity, 100_000_000);
    assert_eq!(position.avg_price, 42_000_000);
}

#[test]
fn end_to_end_fall_yields_a_short_position() {
    let mut bot = TradingBot::new(vec![BTC.to_string()]);
    bot.start(vec![BTC.to_string()]);
    for step in 0..10u64 {
        let price = 50 * SCALE - step * 500_000;
        bot.record_price(BTC, Some(bot_sample(BTC, price, 2000 * SCALE)));
    }
    let signals = bot.evaluate(BTC, &quiet_book(BTC));
    assert_eq!(signals.len(), 1);
    assert_eq!(signals[0].action, OrderSide::Sell);
    let order = order_from_signal(&signals[0], "s".to_string(), 5);
    let outcome = bot.execute_order(order, signals[0].target_price, Ok(()));
    assert_eq!(outcome, OrderOutcome::Submitted("s".to_string()));
    let position = bot.risk_manager().position(BTC).unwrap();
    assert_eq!(position.quantity, -100_000_000);
    assert_eq!(position.avg_price, 45_500_000);
}

#[test]
fn both_builtin_strategies_can_fire_in_registry_order() {
    let mut bot = TradingBot::new(vec![BTC.to_string()]);
    bot.start(vec![BTC.to_string()]);
    for _ in 0..19 {
        bot.record_price(BTC, Some(bot_sample(BTC, 100 * SCALE, 2000 * SCALE)));
    }
    bot.record_price(BTC, Some(bot_sample(BTC, 120 * SCALE, 2000 * SCALE)));
    let signals = bot.evaluate(BTC, &quiet_book(BTC));
    assert_eq!(signals.len(), 2);
    // momentum follows the rise, mean reversion trades against it
    assert_eq!(signals[0].action, OrderSide::Buy);
    assert_eq!(signals[0].quantity, 100_000_000);
    assert_eq!(signals[0].target_price, 120 * SCALE);
    assert_eq!(signals[1].action, OrderSide::Sell);
    assert_eq!(signals[1].quantity, 50_000_000);
    assert_eq!(signals[1].target_price, 101 * SCALE);
}

#[test]
fn symbols_are_ready_from_the_tenth_sample() {
    assert_eq!(MIN_HISTORY, 10);
    let mut bot = TradingBot::new(vec!["A".to_string(), "B".to_string()]);
    bot.start(vec!["A".to_string(), "B".to_string()]);
    for step in 0..9u64 {
        bot.record_price("B", Some(bot_sample("B", 100 * SCALE + step * SCALE, 2000 * SCALE)));
        bot.record_price("A", Some(bot_sample("A", 100 * SCALE + step * SCALE, 2000 * SCALE)));
    }
    assert!(bot.ready_symbols().is_empty());
    assert!(bot.evaluate("A", &quiet_book("A")).is_empty());
    bot.record_price("A", Some(bot_sample("A", 110 * SCALE, 2000 * SCALE)));
    assert_eq!(bot.ready_symbols(), vec!["A"]);
    assert_eq!(bot.evaluate("A", &quiet_book("A")).len(), 1);
    assert!(bot.evaluate("B", &quiet_book("B")).is_empty());
    bot.record_price("B", Some(bot_sample("B", 110 * SCALE, 2000 * SCALE)));
    assert_eq!(bot.ready_symbols(), vec!["B", "A"]);
}

#[test]
fn missing_quote_changes_nothing() {
    let mut bot = TradingBot::new(vec![BTC.to_string()]);
    bot.start(vec![BTC.to_string()]);
    bot.record_price(BTC, Some(bot_sample(BTC, SCALE, SCALE)));
    bot.record_price(BTC, None);
    bot.record_price("ETH/USD", None);
    assert_eq!(bot.price_history().sample_count(BTC), 1);
    assert_eq!(bot.price_history().sample_count("ETH/USD"), 0);
    assert!(bot.price_history().symbols_with(0) == vec![BTC]);
}

#[test]
fn ingest_records_one_quote_while_running() {
    let mut bot = TradingBot::new(vec![BTC.to_string()]);
    bot.start(vec![BTC.to_string()]);
    for expected in 1..=12usize {
        assert!(bot.ingest(BTC));
        assert_eq!(bot.price_history().sample_count(BTC), expected);
    }
    let samples = bot.price_history().snapshot(BTC);
    assert!(samples.iter().all(|s| s.symbol == BTC));
    assert!(samples.iter().all(|s| 100_000 <= s.price && s.price < 100_000_000));
    assert_eq!(bot.ready_symbols(), vec![BTC]);
}

#[test]
fn stopped_bot_gives_its_loops_nothing_to_do() {
    let mut bot = TradingBot::new(vec![BTC.to_string()]);
    // before the first start
    assert!(!bot.ingest(BTC));
    assert_eq!(bot.price_history().sample_count(BTC), 0);
    bot.start(vec![BTC.to_string()]);
    record_rise(&mut bot, BTC);
    assert_eq!(bot.ready_symbols(), vec![BTC]);
    bot.stop();
    // after the stop: no symbol to decide on, no quote asked or recorded
    assert!(bot.ready_symbols().is_empty());
    assert!(!bot.ingest(BTC));
    assert!(!bot.ingest("ETH/USD"));
    assert_eq!(bot.price_history().sample_count(BTC), 10);
    assert_eq!(bot.price_history().sample_count("ETH/USD"), 0);
    assert_eq!(bot.order_executor().pending_count(), 0);
    assert_eq!(bot.risk_manager().position(BTC), None);
}

#[test]
fn scan_evaluates_against_the_feeds_book() {
    let mut bot = TradingBot::new(vec![BTC.to_string()]);
    bot.start(vec![BTC.to_string()]);
    assert!(bot.scan(BTC).is_empty());
    record_rise(&mut bot, BTC);
    // the built-in strategies do not read the book, so any book gives the same
    assert_eq!(bot.scan(BTC), bot.evaluate(BTC, &quiet_book(BTC)));
    assert_eq!(bot.scan(BTC).len(), 1);
}

#[test]
fn rejected_order_is_neither_pending_nor_held() {
    let mut bot = TradingBot::new(vec![BTC.to_string()]);
    bot.start(vec![BTC.to_string()]);
    bot.set_daily_pnl(-600_000_000);
    let order = order_from_signal(&buy_signal(BTC, 100_000_000, SCALE), "a".to_string(), 1);
    assert_eq!(
        bot.review_order(&order, SCALE),
        RiskDecision::Reject(RejectReason::DailyLossLimit)
    );
    let outcome = bot.execute_order(order, SCALE, Ok(()));
    assert_eq!(outcome, OrderOutcome::Rejected(RejectReason::DailyLossLimit));
    assert_eq!(bot.order_executor().pending_count(), 0);
    assert_eq!(bot.risk_manager().position(BTC), None);
    assert_eq!(bot.risk_manager().daily_pnl(), -600_000_000);
}

#[test]
fn gateway_failure_is_neither_pending_nor_held() {
    let mut bot = TradingBot::new(vec![BTC.to_string()]);
    bot.start(vec![BTC.to_string()]);
    let order = order_from_signal(&buy_signal(BTC, 100_000_000, SCALE), "a".to_string(), 1);
    assert!(bot.review_order(&order, SCALE).is_accepted());
    let outcome = bot.execute_order(order, SCALE, Err("gateway down".to_string()));
    assert_eq!(outcome, OrderOutcome::Failed("gateway down".to_string()));
    assert_eq!(bot.order_executor().pending_count(), 0);
    assert_eq!(bot.risk_manager().position(BTC), None);
}

#[test]
fn each_accepted_order_is_validated_against_the_ledger_left_by_the_last() {
    let mut bot = TradingBot::new(vec![BTC.to_string()]);
    bot.start(vec![BTC.to_string()]);
    let mut outcomes = Vec::new();
    for number in 0..12 {
        let order =
            order_from_signal(&buy_signal(BTC, 100_000_000, SCALE), format!("o{}", number), 1);
        outcomes.push(bot.execute_order(order, SCALE, Ok(())));
    }
    // ten orders of 100 fill the limit of 1000; the eleventh and twelfth are refused
    for (number, outcome) in outcomes.iter().enumerate().take(10) {
        assert_eq!(*outcome, OrderOutcome::Submitted(format!("o{}", number)));
    }
    assert_eq!(outcomes[10], OrderOutcome::Rejected(RejectReason::PositionLimit));
    assert_eq!(outcomes[11], OrderOutcome::Rejected(RejectReason::PositionLimit));
    assert_eq!(bot.risk_manager().position(BTC).unwrap().quantity, 1_000_000_000);
    assert_eq!(bot.order_executor().pending_count(), 10);
}

#[test]
fn cancel_through_the_bot() {
    let mut bot = TradingBot::new(vec![BTC.to_string()]);
    bot.start(vec![BTC.to_string()]);
    let order = order_from_signal(&buy_signal(BTC, 100_000_000, SCALE), "a".to_string(), 1);
    assert_eq!(bot.execute_order(order, SCALE, Ok(())), OrderOutcome::Submitted("a".to_string()));
    assert_eq!(bot.cancel_order("b"), CancelOutcome::NotFound);
    assert_eq!(bot.order_executor().pending_count(), 1);
    assert_eq!(bot.cancel_order("a"), CancelOutcome::Removed);
    assert_eq!(bot.cancel_order("a"), CancelOutcome::NotFound);
    assert_eq!(bot.order_executor().pending_count(), 0);
    // cancelling does not undo the trade's record
    assert_eq!(bot.risk_manager().position(BTC).unwrap().quantity, 100_000_000);
}

#[test]
fn review_agrees_with_the_risk_manager() {
    let mut bot = TradingBot::new(vec![BTC.to_string()]);
    bot.start(vec![BTC.to_string()]);
    let first = Order {
        id: "a".to_string(),
        symbol: BTC.to_string(),
        side: OrderSide::Buy,
        order_type: OrderType::Market,
        quantity: 950_000_000,
        price: None,
        timestamp: 0,
    };
    assert_eq!(bot.execute_order(first, 1, Ok(())), OrderOutcome::Submitted("a".to_string()));
    let next = order_from_signal(&buy_signal(BTC, 100_000_000, SCALE), "b".to_string(), 1);
    assert_eq!(bot.review_order(&next, SCALE), bot.risk_manager().validate_order(&next, SCALE));
    assert_eq!(
        bot.review_order(&next, SCALE),
        RiskDecision::Reject(RejectReason::PositionLimit)
    );
}

#[test]
fn bot_runs_the_strategies_it_was_given_in_their_order() {
    let limits = RiskParams { max_position_size: 10 * SCALE, ..RiskParams::default() };
    let strategies = vec![
        BuiltinStrategy::MeanReversion(MeanReversionStrategy::new(2, 0)),
        BuiltinStrategy::Momentum(MomentumStrategy::new(2, 0)),
        BuiltinStrategy::Momentum(MomentumStrategy::new(11, 0)),
    ];
    let mut bot = TradingBot::with_strategies(vec![BTC.to_string()], strategies, limits);
    assert!(!bot.is_running());
    assert_eq!(bot.risk_manager().params(), limits);
    bot.start(vec![BTC.to_string()]);
    for _ in 0..9 {
        bot.record_price(BTC, Some(bot_sample(BTC, 7 * SCALE, 2000 * SCALE)));
    }
    bot.record_price(BTC, Some(bot_sample(BTC, 8 * SCALE, 2000 * SCALE)));
    let signals = bot.evaluate(BTC, &quiet_book(BTC));
    // the third strategy wants eleven samples and stays silent
    assert_eq!(signals.len(), 2);
    assert_eq!(signals[0].action, OrderSide::Sell);
    assert_eq!(signals[0].quantity, 50_000_000);
    assert_eq!(signals[1].action, OrderSide::Buy);
    assert_eq!(signals[1].quantity, 100_000_000);
    let no_strategy: Vec<BuiltinStrategy> = Vec::new();
    let mut idle = TradingBot::with_strategies(Vec::new(), no_strategy, limits);
    idle.start(Vec::new());
    for _ in 0..10 {
        idle.record_price(BTC, Some(bot_sample(BTC, 7 * SCALE, 2000 * SCALE)));
    }
    assert_eq!(idle.ready_symbols(), vec![BTC]);
    assert!(idle.evaluate(BTC, &quiet_book(BTC)).is_empty());
}

#[test]
fn builtin_strategy_forwards_to_its_rule() {
    let window: Vec<Price> =
        (0..10u64).map(|i| bot_sample("X", (100 + 2 * i) * SCALE, 2000 * SCALE)).collect();
    let momentum = BuiltinStrategy::Momentum(MomentumStrategy::new(10, 20_000));
    let reversion = BuiltinStrategy::MeanReversion(MeanReversionStrategy::new(10, 30_000));
    assert_eq!(momentum.name(), "MomentumStrategy");
    assert_eq!(reversion.name(), "MeanReversionStrategy");
    assert_eq!(
        momentum.analyze(&window, &quiet_book("X")),
        MomentumStrategy::new(10, 20_000).analyze(&window, &quiet_book("X"))
    );
    assert_eq!(
        reversion.analyze(&window, &quiet_book("X")),
        MeanReversionStrategy::new(10, 30_000).analyze(&window, &quiet_book("X"))
    );
    assert_eq!(momentum.analyze(&window, &quiet_book("X")).unwrap().action, OrderSide::Buy);
    assert_eq!(reversion.analyze(&window, &quiet_book("X")).unwrap().action, OrderSide::Sell);
}
