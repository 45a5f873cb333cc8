//! Market and order data.
//!
//! Every real-valued quantity is carried as an integer count of millionths:
//! a price of 101.25 is `101_250_000`, a fraction of 2% is `20_000`. Prices and
//! volumes are unsigned; order quantities are signed so that a negative one can
//! be named and refused; ledger quantities are signed, long above zero and
//! short below.

use vstd::prelude::*;

verus! {

/// Number of fixed-point steps in one whole unit.
pub const SCALE: u64 = 1_000_000;

/// One observation of a symbol's market price.
#[derive(Debug, PartialEq, Eq)]
pub struct Price {
    pub symbol: String,
    /// Traded price, in millionths.
    pub price: u64,
    /// Seconds since the Unix epoch.
    pub timestamp: u64,
    /// Traded volume, in millionths.
    pub volume: u64,
}

impl Clone for Price {
    fn clone(&self) -> (r: Self)
        ensures
            r == *self,
    {
        Price {
            symbol: self.symbol.clone(),
            price: self.price,
            timestamp: self.timestamp,
            volume: self.volume,
        }
    }
}

/// Resting liquidity of one symbol: `(price, quantity)` levels, bids from the
/// highest price down and asks from the lowest price up.
#[derive(Debug, PartialEq, Eq)]
pub struct OrderBook {
    pub symbol: String,
    pub bids: Vec<(u64, u64)>,
    pub asks: Vec<(u64, u64)>,
    pub timestamp: u64,
}

/// Direction of an order or of a signal.
#[derive(Debug, Clone, Copy, PartialEq, Eq, Structural)]
pub enum OrderSide {
    Buy,
    Sell,
}

/// How an order is priced.
#[derive(Debug, Clone, Copy, PartialEq, Eq, Structural)]
pub enum OrderType {
    Market,
    Limit,
}

/// An instruction to trade.
#[derive(Debug, PartialEq, Eq)]
pub struct Order {
    pub id: String,
    pub symbol: String,
    pub side: OrderSide,
    pub order_type: OrderType,
    /// Size in millionths; an order is only well formed with a positive size.
    pub quantity: i64,
    /// Limit price in millionths; present exactly for limit orders.
    pub price: Option<u64>,
    /// Seconds since the Unix epoch at creation.
    pub timestamp: u64,
}

impl Order {
    /// The signed change that filling this order makes to a position: the
    /// quantity for a buy, its negation for a sell.
    pub open spec fn signed_quantity(&self) -> int {
        match self.side {
            OrderSide::Buy => self.quantity as int,
            OrderSide::Sell => -(self.quantity as int),
        }
    }

    /// Whether the order's own fields fit together: a positive size, and a
    /// limit price exactly when it is a limit order.
    pub open spec fn well_formed(&self) -> bool {
        &&& self.quantity > 0
        &&& (self.order_type == OrderType::Limit) == self.price.is_some()
    }
}

impl Clone for Order {
    fn clone(&self) -> (r: Self)
        ensures
            r == *self,
    {
        Order {
            id: self.id.clone(),
            symbol: self.symbol.clone(),
            side: self.side,
            order_type: self.order_type,
            quantity: self.quantity,
            price: self.price,
            timestamp: self.timestamp,
        }
    }
}

/// Net holding in one symbol.
#[derive(Debug, PartialEq, Eq)]
pub struct Position {
    pub symbol: String,
    /// Signed size in millionths.
    pub quantity: i64,
    /// Volume-weighted average entry price in millionths. It only carries
    /// meaning while `quantity` is not zero.
    pub avg_price: i64,
    /// Mark-to-market figure kept for reporting; ledger updates never touch it.
    pub unrealized_pnl: i64,
}

impl Clone for Position {
    fn clone(&self) -> (r: Self)
        ensures
            r == *self,
    {
        Position {
            symbol: self.symbol.clone(),
            quantity: self.quantity,
            avg_price: self.avg_price,
            unrealized_pnl: self.unrealized_pnl,
        }
    }
}

/// A strategy's recommendation.
#[derive(Debug, PartialEq, Eq)]
pub struct TradingSignal {
    pub symbol: String,
    pub action: OrderSide,
    /// Strength of the recommendation, in millionths of one: `0 ..= SCALE`.
    pub confidence: u64,
    /// Reference price in millionths.
    pub target_price: u64,
    /// Suggested size in millionths.
    pub quantity: i64,
}

impl Clone for TradingSignal {
    fn clone(&self) -> (r: Self)
        ensures
            r == *self,
    {
        TradingSignal {
            symbol: self.symbol.clone(),
            action: self.action,
            confidence: self.confidence,
            target_price: self.target_price,
            quantity: self.quantity,
        }
    }
}

/// Limits that the risk manager enforces.
#[derive(Debug, Clone, Copy, PartialEq, Eq, Structural)]
pub struct RiskParams {
    /// Largest absolute position per symbol, in millionths.
    pub max_position_size: u64,
    /// Largest loss tolerated on one trade, in millionths.
    pub max_loss_per_trade: u64,
    /// Largest cumulative loss tolerated in one day, in millionths.
    pub max_daily_loss: u64,
    /// Stop-loss distance as a fraction of the price, in millionths of one.
    pub stop_loss_pct: u64,
    /// Take-profit distance as a fraction of the price, in millionths of one.
    pub take_profit_pct: u64,
}

/// The limits that `RiskParams::default` gives: positions of at most 1 000,
/// at most 100 risked per trade, at most 500 lost per day, a stop at 2% and a
/// target at 4%.
pub open spec fn default_limits() -> RiskParams {
    RiskParams {
        max_position_size: 1_000_000_000,
        max_loss_per_trade: 100_000_000,
        max_daily_loss: 500_000_000,
        stop_loss_pct: 20_000,
        take_profit_pct: 40_000,
    }
}

impl Default for RiskParams {
    fn default() -> (r: Self)
        ensures
            r == default_limits(),
    {
        RiskParams {
            max_position_size: 1_000_000_000,
            max_loss_per_trade: 100_000_000,
            max_daily_loss: 500_000_000,
            stop_loss_pct: 20_000,
            take_profit_pct: 40_000,
        }
    }
}

} // verus!
