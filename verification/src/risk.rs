//! The risk manager: limits, the daily profit-and-loss counter and the
//! position ledger.

use vstd::prelude::*;
use crate::arith::{lemma_product_bound, magnitude, quotient_toward_zero};
use crate::lookup::{first_index, lemma_first_index_is, lemma_first_index_none, lemma_first_index_push};
use crate::types::{Order, OrderSide, OrderType, Position, RiskParams, SCALE};
use crate::wide::{wide_le, wide_product, Wide};

verus! {

/// Why an order was refused.
#[derive(Debug, Clone, Copy, PartialEq, Eq, Structural)]
pub enum RejectReason {
    /// The day's cumulative loss is already beyond the limit.
    DailyLossLimit,
    /// The position that the order would leave is larger than the limit.
    PositionLimit,
    /// The loss that the order risks at its stop is larger than the limit.
    LossExposure,
    /// The order's size is zero or negative.
    InvalidQuantity,
    /// A limit order without a limit price, or a market order with one.
    InvalidLimitPrice,
    /// The position that the order would leave cannot be written down in the
    /// ledger's 64-bit fields.
    LedgerOverflow,
}

/// Outcome of validating an order.
#[derive(Debug, Clone, Copy, PartialEq, Eq, Structural)]
pub enum RiskDecision {
    Accept,
    Reject(RejectReason),
}

impl RiskDecision {
    /// Whether the order may be submitted.
    pub fn is_accepted(&self) -> (r: bool)
        ensures
            r == (*self == RiskDecision::Accept),
    {
        match self {
            RiskDecision::Accept => true,
            RiskDecision::Reject(_) => false,
        }
    }
}

/// What the risk manager knows: its limits, the day's cumulative profit and
/// loss, and the position held in each symbol that has ever traded.
pub struct RiskState {
    pub params: RiskParams,
    pub daily_pnl: int,
    pub positions: Map<Seq<char>, Position>,
}

impl RiskState {
    /// The position held in `symbol`, if the symbol has ever traded.
    pub open spec fn held(self, symbol: Seq<char>) -> Option<Position> {
        if self.positions.contains_key(symbol) {
            Some(self.positions[symbol])
        } else {
            None
        }
    }
}

/// Signed size held, zero where there is no position.
pub open spec fn held_quantity(held: Option<Position>) -> int {
    match held {
        Some(p) => p.quantity as int,
        None => 0,
    }
}

/// Average entry price held, zero where there is no position.
pub open spec fn held_avg_price(held: Option<Position>) -> int {
    match held {
        Some(p) => p.avg_price as int,
        None => 0,
    }
}

/// Average entry price after a trade of `delta` at `price` on a position of
/// `quantity` entered at `avg_price`: the volume-weighted average
/// `(quantity * avg_price + delta * price) / (quantity + delta)`, rounded
/// toward zero. A trade that leaves the position flat leaves the average as it
/// was.
pub open spec fn next_avg_price(quantity: int, avg_price: int, delta: int, price: int) -> int {
    if quantity + delta == 0 {
        avg_price
    } else {
        quotient_toward_zero(quantity * avg_price + delta * price, quantity + delta)
    }
}

/// Whether `x` can be stored in a signed 64-bit field.
pub open spec fn fits_i64(x: int) -> bool {
    i64::MIN <= x <= i64::MAX
}

/// Whether the position after a trade of `delta` at `price` can be stored.
pub open spec fn recordable(quantity: int, avg_price: int, delta: int, price: int) -> bool {
    fits_i64(quantity + delta) && fits_i64(next_avg_price(quantity, avg_price, delta, price))
}

/// Whether `after` is `before` with one trade of `delta` at `price` recorded
/// in the position of `symbol`: that position, opened if it was not there,
/// has the new size and the new average price, and nothing else differs.
pub open spec fn records_trade(
    before: RiskState,
    after: RiskState,
    symbol: Seq<char>,
    delta: int,
    price: int,
) -> bool {
    let held = before.held(symbol);
    &&& after.params == before.params
    &&& after.daily_pnl == before.daily_pnl
    &&& after.positions.dom() == before.positions.dom().insert(symbol)
    &&& after.positions[symbol].symbol@ == symbol
    &&& after.positions[symbol].quantity == held_quantity(held) + delta
    &&& after.positions[symbol].avg_price == next_avg_price(
        held_quantity(held),
        held_avg_price(held),
        delta,
        price,
    )
    &&& after.positions[symbol].unrealized_pnl == (match held {
        Some(p) => p.unrealized_pnl,
        None => 0,
    })
    &&& forall|s: Seq<char>|
        s != symbol && before.positions.contains_key(s) ==> after.positions[s]
            == before.positions[s]
}

/// The verdict on an order against limits, the day's profit and loss, and the
/// position held in the order's symbol.
///
/// The three limit checks come first and in this order, the first that fails
/// deciding: the daily loss, the size of the resulting position (only where a
/// position exists), and the loss risked, `quantity * price * stop_loss_pct`,
/// against `max_loss_per_trade`. An order that passes them is still refused
/// when it is malformed or when its effect could not be recorded.
pub open spec fn assess(
    params: RiskParams,
    daily_pnl: int,
    held: Option<Position>,
    order: Order,
    price: int,
) -> RiskDecision {
    if daily_pnl < -(params.max_daily_loss as int) {
        RiskDecision::Reject(RejectReason::DailyLossLimit)
    } else if held.is_some() && magnitude(held.unwrap().quantity + order.signed_quantity())
        > params.max_position_size {
        RiskDecision::Reject(RejectReason::PositionLimit)
    } else if order.quantity * price * params.stop_loss_pct > params.max_loss_per_trade * SCALE
        * SCALE {
        RiskDecision::Reject(RejectReason::LossExposure)
    } else if order.quantity <= 0 {
        RiskDecision::Reject(RejectReason::InvalidQuantity)
    } else if (order.order_type == OrderType::Limit) != order.price.is_some() {
        RiskDecision::Reject(RejectReason::InvalidLimitPrice)
    } else if !recordable(
        held_quantity(held),
        held_avg_price(held),
        order.signed_quantity(),
        price,
    ) {
        RiskDecision::Reject(RejectReason::LedgerOverflow)
    } else {
        RiskDecision::Accept
    }
}

/// A day's loss beyond the limit refuses every order, whatever the order, the
/// position and the price.
pub proof fn lemma_daily_loss_rejects(
    params: RiskParams,
    daily_pnl: int,
    held: Option<Position>,
    order: Order,
    price: int,
)
    requires
        daily_pnl < -(params.max_daily_loss as int),
    ensures
        assess(params, daily_pnl, held, order, price) == RiskDecision::Reject(
            RejectReason::DailyLossLimit,
        ),
{
}

/// Within the daily limit, an order that would leave an existing position
/// larger than the limit is refused for the position's size.
pub proof fn lemma_oversized_position_rejects(
    params: RiskParams,
    daily_pnl: int,
    held: Position,
    order: Order,
    price: int,
)
    requires
        daily_pnl >= -(params.max_daily_loss as int),
        magnitude(held.quantity + order.signed_quantity()) > params.max_position_size,
    ensures
        assess(params, daily_pnl, Some(held), order, price) == RiskDecision::Reject(
            RejectReason::PositionLimit,
        ),
{
}

/// An accepted order is well formed, passes each of the three limits, and
/// its trade can be recorded.
pub proof fn lemma_accepted_order(
    params: RiskParams,
    daily_pnl: int,
    held: Option<Position>,
    order: Order,
    price: int,
)
    requires
        assess(params, daily_pnl, held, order, price) == RiskDecision::Accept,
    ensures
        order.well_formed(),
        daily_pnl >= -(params.max_daily_loss as int),
        held.is_some() ==> magnitude(held.unwrap().quantity + order.signed_quantity())
            <= params.max_position_size,
        order.quantity * price * params.stop_loss_pct <= params.max_loss_per_trade * SCALE * SCALE,
        recordable(held_quantity(held), held_avg_price(held), order.signed_quantity(), price),
{
}

/// A trade into a flat position sets the average price to the trade's price:
/// the average that the position had before it went flat plays no part.
pub proof fn lemma_flat_position_takes_trade_price(avg_price: int, delta: int, price: int)
    requires
        delta != 0,
        price >= 0,
    ensures
        next_avg_price(0, avg_price, delta, price) == price,
{
    let size = magnitude(delta);
    assert(magnitude(delta * price) == size * price) by (nonlinear_arith)
        requires
            size == magnitude(delta),
            price >= 0,
    ;
    assert((size * price) / size == price) by (nonlinear_arith)
        requires
            size > 0,
            price >= 0,
    ;
    assert((delta * price >= 0) == (delta > 0) || price == 0) by (nonlinear_arith)
        requires
            delta != 0,
            price >= 0,
    ;
}

/// Recording is not idempotent: the same trade recorded twice is counted
/// twice in the position's size.
pub proof fn lemma_trade_recorded_twice_counts_twice(
    before: RiskState,
    between: RiskState,
    after: RiskState,
    symbol: Seq<char>,
    delta: int,
    price: int,
)
    requires
        records_trade(before, between, symbol, delta, price),
        records_trade(between, after, symbol, delta, price),
    ensures
        after.positions[symbol].quantity == held_quantity(before.held(symbol)) + 2 * delta,
        delta != 0 ==> after.positions[symbol].quantity != between.positions[symbol].quantity,
{
}

/// A total beyond 128 bits divided by a size of at most 64 bits gives an
/// average beyond 64 bits.
proof fn lemma_overflowing_total(total: int, quantity: int)
    requires
        total > i128::MAX || total < i128::MIN,
        quantity != 0,
        fits_i64(quantity),
    ensures
        !fits_i64(quotient_toward_zero(total, quantity)),
{
    let t = magnitude(total);
    let q = magnitude(quantity);
    assert(t / q >= 0x1_0000_0000_0000_0000) by (nonlinear_arith)
        requires
            t >= 0x8000_0000_0000_0000_0000_0000_0000_0000,
            0 < q <= 0x8000_0000_0000_0000,
    ;
}

/// Magnitude of a 128-bit integer.
fn magnitude_of(x: i128) -> (r: u128)
    ensures
        r == magnitude(x as int),
{
    if x >= 0 {
        x as u128
    } else {
        (-(x + 1)) as u128 + 1
    }
}

/// The position's size and average price after a trade, where both can be
/// stored.
fn project(held_quantity: i64, held_avg_price: i64, delta: i64, price: u64) -> (r: Option<
    (i64, i64),
>)
    ensures
        r.is_some() == recordable(
            held_quantity as int,
            held_avg_price as int,
            delta as int,
            price as int,
        ),
        r.is_some() ==> r.unwrap().0 == held_quantity + delta,
        r.is_some() ==> r.unwrap().1 == next_avg_price(
            held_quantity as int,
            held_avg_price as int,
            delta as int,
            price as int,
        ),
{
    let quantity: i128 = held_quantity as i128 + delta as i128;
    if quantity < i64::MIN as i128 || quantity > i64::MAX as i128 {
        return None;
    }
    if quantity == 0 {
        return Some((0, held_avg_price));
    }
    proof {
        lemma_product_bound(
            magnitude(held_quantity as int),
            magnitude(held_avg_price as int),
            0x8000_0000_0000_0000,
            0x8000_0000_0000_0000,
        );
        lemma_product_bound(
            magnitude(delta as int),
            price as int,
            0x8000_0000_0000_0000,
            u64::MAX as int,
        );
        assert(magnitude(held_quantity * held_avg_price) == magnitude(held_quantity as int)
            * magnitude(held_avg_price as int)) by (nonlinear_arith);
        assert(magnitude(delta * price) == magnitude(delta as int) * price) by (nonlinear_arith)
            requires
                price >= 0,
        ;
    }
    let held_cost: i128 = (held_quantity as i128) * (held_avg_price as i128);
    let trade_cost: i128 = (delta as i128) * (price as i128);
    if (trade_cost > 0 && held_cost > i128::MAX - trade_cost) || (trade_cost < 0 && held_cost
        < i128::MIN - trade_cost) {
        proof {
            lemma_overflowing_total(held_cost + trade_cost, quantity as int);
        }
        return None;
    }
    let total: i128 = held_cost + trade_cost;
    let quotient: u128 = magnitude_of(total) / magnitude_of(quantity);
    if (total >= 0) == (quantity > 0) {
        if quotient <= i64::MAX as u128 {
            Some((quantity as i64, quotient as i64))
        } else {
            None
        }
    } else {
        if quotient <= 0x8000_0000_0000_0000 {
            Some((quantity as i64, (-(quotient as i128)) as i64))
        } else {
            None
        }
    }
}

/// Validates orders against the limits and keeps the position ledger.
pub struct RiskManager {
    params: RiskParams,
    daily_pnl: i64,
    /// One entry per symbol that has traded, in the order of first trade.
    positions: Vec<Position>,
}

impl View for RiskManager {
    type V = RiskState;

    closed spec fn view(&self) -> RiskState {
        RiskState {
            params: self.params,
            daily_pnl: self.daily_pnl as int,
            positions: Map::new(
                |s: Seq<char>| first_index(self.symbols(), s).is_some(),
                |s: Seq<char>| self.positions@[first_index(self.symbols(), s).unwrap()],
            ),
        }
    }
}

impl RiskManager {
    /// The symbols of the ledger's entries, in order.
    closed spec fn symbols(&self) -> Seq<Seq<char>> {
        Seq::new(self.positions@.len(), |i: int| self.positions@[i].symbol@)
    }

    /// A manager with the given limits, no loss so far and an empty ledger.
    pub fn new(params: RiskParams) -> (r: Self)
        ensures
            r@.params == params,
            r@.daily_pnl == 0,
            r@.positions == Map::<Seq<char>, Position>::empty(),
    {
        let r = Self { params, daily_pnl: 0, positions: Vec::new() };
        r
    }

    /// The limits in force.
    pub fn params(&self) -> (r: RiskParams)
        ensures
            r == self@.params,
    {
        self.params
    }

    /// The day's cumulative profit and loss, in millionths.
    pub fn daily_pnl(&self) -> (r: i64)
        ensures
            r == self@.daily_pnl,
    {
        self.daily_pnl
    }

    /// Replaces the day's cumulative profit and loss; zero starts a new day.
    pub fn set_daily_pnl(&mut self, value: i64)
        ensures
            final(self)@ == (RiskState { daily_pnl: value as int, ..old(self)@ }),
    {
        self.daily_pnl = value;
    }

    /// Index of the entry for `symbol`, if there is one.
    fn find(&self, symbol: &str) -> (r: Option<usize>)
        ensures
            match r {
                Some(i) => i < self.positions@.len() && first_index(self.symbols(), symbol@)
                    == Some(i as int),
                None => first_index(self.symbols(), symbol@).is_none() && forall|j: int|
                    0 <= j < self.positions@.len() ==> self.positions@[j].symbol@ != symbol@,
            },
    {
        let key = symbol.to_owned();
        let mut i: usize = 0;
        while i < self.positions.len()
            invariant
                i <= self.positions@.len(),
                key@ == symbol@,
                forall|j: int| 0 <= j < i ==> self.symbols()[j] != symbol@,
            decreases self.positions@.len() - i,
        {
            if self.positions[i].symbol == key {
                proof {
                    lemma_first_index_is(self.symbols(), symbol@, i as int);
                }
                return Some(i);
            }
            i = i + 1;
        }
        proof {
            lemma_first_index_none(self.symbols(), symbol@);
            assert forall|j: int| 0 <= j < self.positions@.len() implies self.positions@[j].symbol@
                != symbol@ by {
                assert(self.symbols()[j] != symbol@);
            }
        }
        None
    }

    /// The position held in `symbol`, if it has ever traded.
    pub fn position(&self, symbol: &str) -> (r: Option<Position>)
        ensures
            r.is_some() == self@.positions.contains_key(symbol@),
            r.is_some() ==> r.unwrap() == self@.positions[symbol@],
    {
        match self.find(symbol) {
            Some(i) => Some(self.positions[i].clone()),
            None => None,
        }
    }

    /// Decides whether `order` may be submitted with `current_price` as its
    /// reference price. Nothing is changed, so the same order against the same
    /// state always gets the same verdict.
    pub fn validate_order(&self, order: &Order, current_price: u64) -> (decision: RiskDecision)
        ensures
            decision == assess(
                self@.params,
                self@.daily_pnl,
                self@.held(order.symbol@),
                *order,
                current_price as int,
            ),
    {
        if (self.daily_pnl as i128) < -(self.params.max_daily_loss as i128) {
            return RiskDecision::Reject(RejectReason::DailyLossLimit);
        }
        let slot = self.find(order.symbol.as_str());
        let (held_quantity, held_avg_price): (i64, i64) = match slot {
            Some(i) => (self.positions[i].quantity, self.positions[i].avg_price),
            None => (0, 0),
        };
        if slot.is_some() {
            let resulting: i128 = match order.side {
                OrderSide::Buy => held_quantity as i128 + order.quantity as i128,
                OrderSide::Sell => held_quantity as i128 - order.quantity as i128,
            };
            let limit: i128 = self.params.max_position_size as i128;
            if resulting > limit || resulting < -limit {
                return RiskDecision::Reject(RejectReason::PositionLimit);
            }
        }
        if order.quantity > 0 {
            proof {
                lemma_product_bound(
                    order.quantity as int,
                    current_price as int,
                    i64::MAX as int,
                    u64::MAX as int,
                );
                lemma_product_bound(
                    self.params.max_loss_per_trade as int,
                    SCALE * SCALE,
                    u64::MAX as int,
                    SCALE * SCALE,
                );
                assert(order.quantity * current_price * self.params.stop_loss_pct == (
                order.quantity * current_price) * self.params.stop_loss_pct);
                assert(self.params.max_loss_per_trade * SCALE * SCALE
                    == self.params.max_loss_per_trade * (SCALE * SCALE)) by (nonlinear_arith);
            }
            let notional: u128 = (order.quantity as u128) * (current_price as u128);
            let risked = wide_product(notional, self.params.stop_loss_pct);
            let budget = Wide {
                high: 0,
                low: (self.params.max_loss_per_trade as u128) * ((SCALE as u128) * (SCALE as u128)),
            };
            if !wide_le(&risked, &budget) {
                return RiskDecision::Reject(RejectReason::LossExposure);
            }
        } else {
            proof {
                // an order without a positive size risks nothing
                assert(order.quantity * current_price * self.params.stop_loss_pct <= 0)
                    by (nonlinear_arith)
                    requires
                        order.quantity <= 0,
                        current_price >= 0,
                        self.params.stop_loss_pct >= 0,
                ;
                assert(self.params.max_loss_per_trade * SCALE * SCALE >= 0) by (nonlinear_arith)
                    requires
                        self.params.max_loss_per_trade >= 0,
                        SCALE >= 0,
                ;
            }
        }
        if order.quantity <= 0 {
            return RiskDecision::Reject(RejectReason::InvalidQuantity);
        }
        let is_limit = match order.order_type {
            OrderType::Limit => true,
            OrderType::Market => false,
        };
        if is_limit != order.price.is_some() {
            return RiskDecision::Reject(RejectReason::InvalidLimitPrice);
        }
        let delta: i64 = match order.side {
            OrderSide::Buy => order.quantity,
            OrderSide::Sell => -order.quantity,
        };
        match project(held_quantity, held_avg_price, delta, current_price) {
            Some(_) => RiskDecision::Accept,
            None => RiskDecision::Reject(RejectReason::LedgerOverflow),
        }
    }

    /// Records a trade of `quantity` (bought above zero, sold below) at `price`
    /// in the position of `symbol`, creating the position where there was none.
    ///
    /// Returns whether the trade was recorded. It is, unless the new size or
    /// the new average price would not fit the ledger's fields; the ledger is
    /// then left as it was. Every call that records counts: the same trade
    /// recorded twice is held twice.
    pub fn update_position(&mut self, symbol: &str, quantity: i64, price: u64) -> (recorded: bool)
        ensures
            recorded == recordable(
                held_quantity(old(self)@.held(symbol@)),
                held_avg_price(old(self)@.held(symbol@)),
                quantity as int,
                price as int,
            ),
            recorded ==> records_trade(
                old(self)@,
                final(self)@,
                symbol@,
                quantity as int,
                price as int,
            ),
            !recorded ==> final(self)@ == old(self)@,
    {
        let slot = self.find(symbol);
        match slot {
            Some(i) => {
                let current = &self.positions[i];
                match project(current.quantity, current.avg_price, quantity, price) {
                    Some((next_size, next_avg)) => {
                        let updated = Position {
                            symbol: current.symbol.clone(),
                            quantity: next_size,
                            avg_price: next_avg,
                            unrealized_pnl: current.unrealized_pnl,
                        };
                        self.positions.set(i, updated);
                        proof {
                            assert(self.symbols() =~= old(self).symbols());
                            assert(self@.positions.dom() =~= old(self)@.positions.dom().insert(
                                symbol@,
                            ));
                        }
                        true
                    },
                    None => false,
                }
            },
            None => {
                match project(0, 0, quantity, price) {
                    Some((next_size, next_avg)) => {
                        let opened = Position {
                            symbol: symbol.to_owned(),
                            quantity: next_size,
                            avg_price: next_avg,
                            unrealized_pnl: 0,
                        };
                        self.positions.push(opened);
                        proof {
                            assert(self.symbols() =~= old(self).symbols().push(symbol@));
                            assert forall|s: Seq<char>| #[trigger]
                                first_index(self.symbols(), s) == (if s == symbol@ {
                                Some(old(self).positions@.len() as int)
                            } else {
                                first_index(old(self).symbols(), s)
                            }) by {
                                lemma_first_index_push(old(self).symbols(), symbol@, s);
                                assert forall|j: int|
                                    0 <= j < old(self).symbols().len() implies old(
                                    self,
                                ).symbols()[j] != symbol@ by {
                                    assert(old(self).positions@[j].symbol@ != symbol@);
                                }
                            }
                            assert(self@.positions.dom() =~= old(self)@.positions.dom().insert(
                                symbol@,
                            ));
                        }
                        true
                    },
                    None => false,
                }
            },
        }
    }
}

} // verus!
