//! The orchestrator: it owns the strategies, the risk manager, the market
//! feed, the order coordinator and the price history, and exposes the
//! start/stop state machine together with the single steps that the polling
//! loops take. The loops themselves, their waiting and their scheduling,
//! belong to the caller.

use vstd::prelude::*;
use crate::clock::unix_seconds;
use crate::executor::{holds_id, without_id, CancelOutcome, OrderExecutor};
use crate::feed::{is_ordered_book, is_quote, is_simulated_book, MarketDataFeed};
use crate::history::{retained, PriceHistory};
use crate::lookup::texts;
use crate::risk::{
    assess, records_trade, RejectReason, RiskDecision, RiskManager, RiskState,
};
use crate::strategy::{MeanReversionStrategy, MomentumStrategy, TradingStrategy};
use crate::types::{
    default_limits, Order, OrderBook, OrderSide, OrderType, Position, Price, RiskParams,
    TradingSignal,
};

verus! {

/// Samples that a symbol needs before strategies are run on it.
pub const MIN_HISTORY: usize = 10;

/// The strategies that a bot made by `TradingBot::new` runs.
pub enum BuiltinStrategy {
    Momentum(MomentumStrategy),
    MeanReversion(MeanReversionStrategy),
}

impl TradingStrategy for BuiltinStrategy {
    open spec fn signal(&self, prices: Seq<Price>, orderbook: &OrderBook) -> Option<
        TradingSignal,
    > {
        match self {
            BuiltinStrategy::Momentum(s) => s.signal(prices, orderbook),
            BuiltinStrategy::MeanReversion(s) => s.signal(prices, orderbook),
        }
    }

    open spec fn label(&self) -> Seq<char> {
        match self {
            BuiltinStrategy::Momentum(s) => s.label(),
            BuiltinStrategy::MeanReversion(s) => s.label(),
        }
    }

    fn analyze(&self, prices: &[Price], orderbook: &OrderBook) -> (r: Option<TradingSignal>) {
        match self {
            BuiltinStrategy::Momentum(s) => s.analyze(prices, orderbook),
            BuiltinStrategy::MeanReversion(s) => s.analyze(prices, orderbook),
        }
    }

    fn name(&self) -> (r: &str) {
        match self {
            BuiltinStrategy::Momentum(s) => s.name(),
            BuiltinStrategy::MeanReversion(s) => s.name(),
        }
    }
}

/// A polling loop that the caller is to run after a start.
#[derive(Debug, PartialEq, Eq)]
pub enum Task {
    /// Poll the market feed for this symbol and record what comes.
    Ingest(String),
    /// Poll the history, run the strategies and trade on their signals.
    Decide,
}

/// What became of an order handed to `execute_order`.
#[derive(Debug, PartialEq, Eq)]
pub enum OrderOutcome {
    /// The risk manager refused the order; nothing was changed.
    Rejected(RejectReason),
    /// The gateway failed with this reason; nothing was changed.
    Failed(String),
    /// The order is pending under this id and its trade is in the ledger.
    Submitted(String),
}

/// The signals that `strategies` give, in the order of the strategies.
pub open spec fn signals_from<S: TradingStrategy>(
    strategies: Seq<S>,
    prices: Seq<Price>,
    orderbook: &OrderBook,
) -> Seq<TradingSignal>
    decreases strategies.len(),
{
    if strategies.len() == 0 {
        Seq::empty()
    } else {
        let earlier = signals_from(strategies.drop_last(), prices, orderbook);
        match strategies.last().signal(prices, orderbook) {
            Some(signal) => earlier.push(signal),
            None => earlier,
        }
    }
}

/// Whether `order` is the market order that acts on `signal`: the signal's
/// symbol, direction and size, and no limit price.
pub open spec fn acts_on(order: Order, signal: TradingSignal) -> bool {
    &&& order.symbol@ == signal.symbol@
    &&& order.side == signal.action
    &&& order.order_type == OrderType::Market
    &&& order.quantity == signal.quantity
    &&& order.price.is_none()
}

/// The market order that acts on `signal`, under the given id and creation
/// time.
pub fn order_from_signal(signal: &TradingSignal, id: String, timestamp: u64) -> (order: Order)
    ensures
        acts_on(order, *signal),
        order.id == id,
        order.timestamp == timestamp,
{
    Order {
        id,
        symbol: signal.symbol.clone(),
        side: signal.action,
        order_type: OrderType::Market,
        quantity: signal.quantity,
        price: None,
        timestamp,
    }
}

/// Calls `uuid::Uuid::new_v4` and writes the identifier out as text. The
/// identifier is random: nothing is claimed of the text. The call fails only
/// where the operating system has no random bytes to give.
#[verifier::external_body]
fn fresh_order_id() -> String {
    uuid::Uuid::new_v4().to_string()
}

/// The market order that acts on `signal`, under a fresh random id and
/// stamped with the clock's time.
pub fn new_order(signal: &TradingSignal) -> (order: Order)
    ensures
        acts_on(order, *signal),
{
    order_from_signal(signal, fresh_order_id(), unix_seconds())
}

/// What a bot holds.
pub struct BotState<S> {
    /// The registered strategies, in the order in which they are run.
    pub strategies: Seq<S>,
    pub risk: RiskState,
    /// The pending orders, oldest first.
    pub pending: Seq<Order>,
    /// The retained samples of each recorded symbol, oldest first.
    pub history: Map<Seq<char>, Seq<Price>>,
    /// The recorded symbols, in the order in which they first appeared.
    pub recorded: Seq<Seq<char>>,
    /// The symbols that the market feed was made for.
    pub feed_symbols: Seq<Seq<char>>,
    pub running: bool,
}

impl<S> BotState<S> {
    /// The retained samples of `symbol`; none for a symbol never recorded.
    pub open spec fn samples(self, symbol: Seq<char>) -> Seq<Price> {
        if self.history.contains_key(symbol) {
            self.history[symbol]
        } else {
            Seq::empty()
        }
    }

    /// The test that a symbol holds enough samples for the strategies.
    pub open spec fn is_ready(self) -> spec_fn(Seq<char>) -> bool {
        |s: Seq<char>| self.samples(s).len() >= MIN_HISTORY
    }
}

impl<S: TradingStrategy> BotState<S> {
    /// The signals due for `symbol` against `orderbook`: those of the
    /// strategies on the symbol's samples, once there are `MIN_HISTORY` of
    /// them.
    pub open spec fn due_signals(self, symbol: Seq<char>, orderbook: &OrderBook) -> Seq<
        TradingSignal,
    > {
        if self.samples(symbol).len() >= MIN_HISTORY {
            signals_from(self.strategies, self.samples(symbol), orderbook)
        } else {
            Seq::empty()
        }
    }
}

/// The trading engine's state machine: stopped at first, running between
/// `start` and `stop`.
pub struct TradingBot<S: TradingStrategy> {
    strategies: Vec<S>,
    risk_manager: RiskManager,
    market_feed: MarketDataFeed,
    order_executor: OrderExecutor,
    price_history: PriceHistory,
    is_running: bool,
}

impl<S: TradingStrategy> View for TradingBot<S> {
    type V = BotState<S>;

    closed spec fn view(&self) -> BotState<S> {
        BotState {
            strategies: self.strategies@,
            risk: self.risk_manager@,
            pending: self.order_executor@,
            history: self.price_history@,
            recorded: self.price_history.symbols(),
            feed_symbols: self.market_feed.symbols(),
            running: self.is_running,
        }
    }
}

impl TradingBot<BuiltinStrategy> {
    /// A stopped bot for `symbols` with the built-in strategies, momentum
    /// over 10 samples above 2% and mean reversion over 20 samples above 3%,
    /// the default limits, and nothing recorded, held or pending.
    pub fn new(symbols: Vec<String>) -> (bot: Self)
        ensures
            !bot@.running,
            bot@.risk.params == default_limits(),
            bot@.risk.daily_pnl == 0,
            bot@.risk.positions == Map::<Seq<char>, Position>::empty(),
            bot@.pending == Seq::<Order>::empty(),
            bot@.history == Map::<Seq<char>, Seq<Price>>::empty(),
            bot@.recorded == Seq::<Seq<char>>::empty(),
            bot@.feed_symbols == texts(symbols@),
            bot@.strategies.len() == 2,
            match bot@.strategies[0] {
                BuiltinStrategy::Momentum(s) => s.lookback_period() == 10
                    && s.momentum_threshold() == 20_000,
                BuiltinStrategy::MeanReversion(_) => false,
            },
            match bot@.strategies[1] {
                BuiltinStrategy::Momentum(_) => false,
                BuiltinStrategy::MeanReversion(s) => s.lookback_period() == 20
                    && s.deviation_threshold() == 30_000,
            },
    {
        let mut strategies: Vec<BuiltinStrategy> = Vec::new();
        strategies.push(BuiltinStrategy::Momentum(MomentumStrategy::new(10, 20_000)));
        strategies.push(BuiltinStrategy::MeanReversion(MeanReversionStrategy::new(20, 30_000)));
        Self::with_strategies(symbols, strategies, RiskParams::default())
    }
}

impl<S: TradingStrategy> TradingBot<S> {
    /// A stopped bot for `symbols` that runs `strategies` in their order under
    /// the limits `params`, with nothing recorded, held or pending.
    pub fn with_strategies(symbols: Vec<String>, strategies: Vec<S>, params: RiskParams) -> (bot:
        Self)
        ensures
            !bot@.running,
            bot@.strategies == strategies@,
            bot@.risk.params == params,
            bot@.risk.daily_pnl == 0,
            bot@.risk.positions == Map::<Seq<char>, Position>::empty(),
            bot@.pending == Seq::<Order>::empty(),
            bot@.history == Map::<Seq<char>, Seq<Price>>::empty(),
            bot@.recorded == Seq::<Seq<char>>::empty(),
            bot@.feed_symbols == texts(symbols@),
    {
        Self {
            strategies,
            risk_manager: RiskManager::new(params),
            market_feed: MarketDataFeed::new(symbols),
            order_executor: OrderExecutor::new(),
            price_history: PriceHistory::new(),
            is_running: false,
        }
    }

    /// Whether the bot is running.
    pub fn is_running(&self) -> (r: bool)
        ensures
            r == self@.running,
    {
        self.is_running
    }

    /// The risk manager.
    pub fn risk_manager(&self) -> (r: &RiskManager)
        ensures
            r@ == self@.risk,
    {
        &self.risk_manager
    }

    /// The order coordinator.
    pub fn order_executor(&self) -> (r: &OrderExecutor)
        ensures
            r@ == self@.pending,
    {
        &self.order_executor
    }

    /// The price history.
    pub fn price_history(&self) -> (r: &PriceHistory)
        ensures
            r@ == self@.history,
            r.symbols() == self@.recorded,
    {
        &self.price_history
    }

    /// The market feed.
    pub fn market_feed(&self) -> (r: &MarketDataFeed)
        ensures
            r.symbols() == self@.feed_symbols,
    {
        &self.market_feed
    }

    /// Starts the bot. From the stopped state it begins to run and names the
    /// loops that the caller is to run: one ingestion loop for each of
    /// `symbols`, in their order, and after them exactly one decision loop. A
    /// bot that is already running keeps running and asks for no new loop.
    pub fn start(&mut self, symbols: Vec<String>) -> (tasks: Vec<Task>)
        ensures
            final(self)@ == (BotState { running: true, ..old(self)@ }),
            old(self)@.running ==> tasks@.len() == 0,
            !old(self)@.running ==> {
                &&& tasks@.len() == symbols@.len() + 1
                &&& forall|i: int|
                    0 <= i < symbols@.len() ==> (#[trigger] tasks@[i]) == Task::Ingest(symbols@[i])
                &&& tasks@[symbols@.len() as int] == Task::Decide
            },
    {
        let mut tasks: Vec<Task> = Vec::new();
        if self.is_running {
            return tasks;
        }
        self.is_running = true;
        let mut i: usize = 0;
        while i < symbols.len()
            invariant
                i <= symbols@.len(),
                tasks@.len() == i,
                forall|k: int| 0 <= k < i ==> (#[trigger] tasks@[k]) == Task::Ingest(symbols@[k]),
            decreases symbols@.len() - i,
        {
            tasks.push(Task::Ingest(symbols[i].clone()));
            i = i + 1;
        }
        tasks.push(Task::Decide);
        tasks
    }

    /// Stops the bot. Every loop that asks afterwards, through `ingest` or
    /// `ready_symbols`, is told to do nothing more.
    pub fn stop(&mut self)
        ensures
            final(self)@ == (BotState { running: false, ..old(self)@ }),
    {
        self.is_running = false;
    }

    /// Books what the market feed had for `symbol` on one tick: a quote is
    /// appended to the symbol's history, and no quote changes nothing.
    pub fn record_price(&mut self, symbol: &str, quote: Option<Price>)
        ensures
            match quote {
                Some(sample) => final(self)@ == (BotState {
                    history: old(self)@.history.insert(
                        symbol@,
                        retained(old(self)@.samples(symbol@).push(sample)),
                    ),
                    recorded: if old(self)@.history.contains_key(symbol@) {
                        old(self)@.recorded
                    } else {
                        old(self)@.recorded.push(symbol@)
                    },
                    ..old(self)@
                }),
                None => final(self)@ == old(self)@,
            },
    {
        match quote {
            Some(sample) => {
                self.price_history.record(symbol, sample);
            },
            None => {},
        }
    }

    /// One step of the ingestion loop of `symbol`. While the bot runs, a quote
    /// is asked of the market feed and recorded, and `true` is returned: the
    /// loop is to go on. Once the bot is stopped nothing is asked or changed,
    /// and `false` is returned: the loop is to end.
    pub fn ingest(&mut self, symbol: &str) -> (polling: bool)
        ensures
            polling == old(self)@.running,
            !polling ==> final(self)@ == old(self)@,
            polling ==> exists|sample: Price|
                {
                    &&& #[trigger] is_quote(sample, symbol@)
                    &&& final(self)@ == (BotState {
                        history: old(self)@.history.insert(
                            symbol@,
                            retained(old(self)@.samples(symbol@).push(sample)),
                        ),
                        recorded: if old(self)@.history.contains_key(symbol@) {
                            old(self)@.recorded
                        } else {
                            old(self)@.recorded.push(symbol@)
                        },
                        ..old(self)@
                    })
                },
    {
        if !self.is_running {
            return false;
        }
        let quote = self.market_feed.get_price(symbol);
        self.record_price(symbol, quote);
        true
    }

    /// The symbols that the decision loop is to look at on this tick: while
    /// the bot runs, those with at least `MIN_HISTORY` samples, in the order in
    /// which they first appeared; none once the bot is stopped.
    pub fn ready_symbols(&self) -> (r: Vec<String>)
        ensures
            texts(r@) == (if self@.running {
                self@.recorded.filter(self@.is_ready())
            } else {
                Seq::empty()
            }),
            !self@.running ==> r@.len() == 0,
    {
        if !self.is_running {
            return Vec::new();
        }
        let found = self.price_history.symbols_with(MIN_HISTORY);
        // both tests ask the same of every symbol
        assert(self.price_history.holds_at_least(MIN_HISTORY) =~= self@.is_ready());
        found
    }

    /// Runs every strategy on the samples of `symbol` against `orderbook` and
    /// returns their signals in the order of the strategies. A symbol with
    /// fewer than `MIN_HISTORY` samples gets no signal.
    pub fn evaluate(&self, symbol: &str, orderbook: &OrderBook) -> (signals: Vec<TradingSignal>)
        ensures
            signals@ == self@.due_signals(symbol@, orderbook),
    {
        let mut signals: Vec<TradingSignal> = Vec::new();
        let prices = self.price_history.snapshot(symbol);
        if prices.len() < MIN_HISTORY {
            return signals;
        }
        let mut i: usize = 0;
        while i < self.strategies.len()
            invariant
                i <= self.strategies@.len(),
                prices@ == self@.samples(symbol@),
                signals@ == signals_from(self.strategies@.subrange(0, i as int), prices@, orderbook),
            decreases self.strategies@.len() - i,
        {
            proof {
                let upto = self.strategies@.subrange(0, i + 1);
                assert(upto.drop_last() =~= self.strategies@.subrange(0, i as int));
            }
            match self.strategies[i].analyze(prices.as_slice(), orderbook) {
                Some(signal) => {
                    signals.push(signal);
                },
                None => {},
            }
            i = i + 1;
        }
        assert(self.strategies@.subrange(0, i as int) =~= self.strategies@);
        signals
    }

    /// Asks the market feed for the order book of `symbol` and evaluates the
    /// symbol against it. Whatever book came, the signals are those due
    /// against it.
    pub fn scan(&self, symbol: &str) -> (signals: Vec<TradingSignal>)
        ensures
            exists|orderbook: OrderBook|
                {
                    &&& #[trigger] is_simulated_book(orderbook, symbol@)
                    &&& is_ordered_book(orderbook)
                    &&& signals@ == self@.due_signals(symbol@, &orderbook)
                },
    {
        match self.market_feed.get_orderbook(symbol) {
            Some(orderbook) => {
                let signals = self.evaluate(symbol, &orderbook);
                assert(is_simulated_book(orderbook, symbol@));
                signals
            },
            None => Vec::new(),
        }
    }

    /// Validates `order` against the current ledger with `price` as its
    /// reference price, changing nothing.
    pub fn review_order(&self, order: &Order, price: u64) -> (decision: RiskDecision)
        ensures
            decision == assess(
                self@.risk.params,
                self@.risk.daily_pnl,
                self@.risk.held(order.symbol@),
                *order,
                price as int,
            ),
    {
        self.risk_manager.validate_order(order, price)
    }

    /// Books the gateway's answer `reply` to `order`, validating and
    /// committing in one step.
    ///
    /// The order is validated against the ledger as it is now. A refused order
    /// changes nothing, whatever the gateway said. An accepted order that the
    /// gateway failed changes nothing either. An accepted order that the
    /// gateway took becomes pending, and its trade, the order's size signed by
    /// its direction at `price`, is recorded in the ledger exactly once.
    pub fn execute_order(&mut self, order: Order, price: u64, reply: Result<(), String>) -> (outcome:
        OrderOutcome)
        ensures
            ({
                let before = old(self)@;
                let after = final(self)@;
                let verdict = assess(
                    before.risk.params,
                    before.risk.daily_pnl,
                    before.risk.held(order.symbol@),
                    order,
                    price as int,
                );
                match (verdict, reply) {
                    (RiskDecision::Reject(reason), _) => {
                        &&& outcome == OrderOutcome::Rejected(reason)
                        &&& after == before
                    },
                    (RiskDecision::Accept, Err(reason)) => {
                        &&& outcome == OrderOutcome::Failed(reason)
                        &&& after == before
                    },
                    (RiskDecision::Accept, Ok(_)) => {
                        &&& outcome matches OrderOutcome::Submitted(id) && id@ == order.id@
                        &&& after.pending == before.pending.push(order)
                        &&& records_trade(
                            before.risk,
                            after.risk,
                            order.symbol@,
                            order.signed_quantity(),
                            price as int,
                        )
                        &&& after == (BotState {
                            pending: after.pending,
                            risk: after.risk,
                            ..before
                        })
                    },
                }
            }),
    {
        match self.risk_manager.validate_order(&order, price) {
            RiskDecision::Reject(reason) => OrderOutcome::Rejected(reason),
            RiskDecision::Accept => {
                let delta: i64 = match order.side {
                    OrderSide::Buy => order.quantity,
                    OrderSide::Sell => -order.quantity,
                };
                let symbol = order.symbol.clone();
                match self.order_executor.submit_order(order, reply) {
                    Err(reason) => OrderOutcome::Failed(reason),
                    Ok(id) => {
                        let recorded = self.risk_manager.update_position(
                            symbol.as_str(),
                            delta,
                            price,
                        );
                        // an accepted order's trade always fits the ledger
                        assert(recorded);
                        OrderOutcome::Submitted(id)
                    },
                }
            },
        }
    }

    /// Removes every pending order with the id `order_id`; an id that is not
    /// pending changes nothing.
    pub fn cancel_order(&mut self, order_id: &str) -> (outcome: CancelOutcome)
        ensures
            final(self)@ == (BotState {
                pending: without_id(old(self)@.pending, order_id@),
                ..old(self)@
            }),
            outcome == (if holds_id(old(self)@.pending, order_id@) {
                CancelOutcome::Removed
            } else {
                CancelOutcome::NotFound
            }),
            outcome == CancelOutcome::NotFound ==> final(self)@ == old(self)@,
    {
        self.order_executor.cancel_order(order_id)
    }

    /// Replaces the day's cumulative profit and loss; zero starts a new day.
    pub fn set_daily_pnl(&mut self, value: i64)
        ensures
            final(self)@ == (BotState {
                risk: RiskState { daily_pnl: value as int, ..old(self)@.risk },
                ..old(self)@
            }),
    {
        self.risk_manager.set_daily_pnl(value);
    }
}

} // verus!
