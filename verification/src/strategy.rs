//! Strategies: pure evaluators that turn a window of prices into at most one
//! signal.

use vstd::prelude::*;
use crate::arith::{distance, lemma_mean_bound, lemma_product_bound, lemma_scaled_le_quotient};
use crate::wide::{wide_le, wide_product};
use crate::types::{OrderBook, OrderSide, Price, TradingSignal, SCALE};

verus! {

/// Mean traded volume, in millionths, that a momentum signal needs to exceed.
pub const MIN_MEAN_VOLUME: u64 = 1_000_000_000;

/// Size of every momentum signal, in millionths.
pub const MOMENTUM_QUANTITY: i64 = 100_000_000;

/// Size of every mean-reversion signal, in millionths.
pub const REVERSION_QUANTITY: i64 = 50_000_000;

/// Sum of the traded volumes of `prices[from .. to]`.
pub open spec fn volume_total(prices: Seq<Price>, from: int, to: int) -> int
    decreases to - from,
{
    if from >= to {
        0
    } else {
        volume_total(prices, from, to - 1) + prices[to - 1].volume
    }
}

/// Sum of the prices of `prices[from .. to]`.
pub open spec fn price_total(prices: Seq<Price>, from: int, to: int) -> int
    decreases to - from,
{
    if from >= to {
        0
    } else {
        price_total(prices, from, to - 1) + prices[to - 1].price
    }
}

/// The ratio `part / whole` in millionths, rounded down and capped at one.
pub open spec fn capped_ratio(part: int, whole: int) -> int {
    let ratio = part * SCALE / whole;
    if ratio < SCALE {
        ratio
    } else {
        SCALE as int
    }
}

/// What the momentum rule recommends.
///
/// The window is the last `lookback` samples. The relative change is that of
/// the latest price against the window's oldest price, the base. A signal is
/// due exactly when the window holds at least two samples, the base is
/// positive, the size of the relative change exceeds `threshold` (in
/// millionths) and the window's mean volume exceeds `MIN_MEAN_VOLUME`. Both
/// comparisons are exact: they are made on cross-multiplied integers.
pub open spec fn momentum_signal(lookback: int, threshold: int, prices: Seq<Price>) -> Option<
    TradingSignal,
> {
    let n = prices.len() as int;
    if n < lookback || lookback < 2 {
        None
    } else {
        let latest = prices[n - 1].price as int;
        let base = prices[n - lookback].price as int;
        let change = distance(latest, base);
        let volume = volume_total(prices, n - lookback, n);
        if base > 0 && change * SCALE > threshold * base && volume > MIN_MEAN_VOLUME * lookback {
            Some(
                TradingSignal {
                    symbol: prices[0].symbol,
                    action: if latest > base {
                        OrderSide::Buy
                    } else {
                        OrderSide::Sell
                    },
                    confidence: capped_ratio(change, base) as u64,
                    target_price: prices[n - 1].price,
                    quantity: MOMENTUM_QUANTITY,
                },
            )
        } else {
            None
        }
    }
}

/// What the mean-reversion rule recommends.
///
/// The window is the last `lookback` samples and `total` the sum of its
/// prices, so that the mean is `total / lookback` and the relative deviation
/// of the latest price from the mean is `(latest * lookback - total) / total`.
/// A signal is due exactly when the window is not empty, the total is
/// positive and the size of the deviation exceeds `threshold` (in
/// millionths); the comparison is exact. A price above the mean sells, one
/// below it buys, and the target is the mean rounded down.
pub open spec fn mean_reversion_signal(lookback: int, threshold: int, prices: Seq<Price>) -> Option<
    TradingSignal,
> {
    let n = prices.len() as int;
    if n < lookback || lookback < 1 {
        None
    } else {
        let total = price_total(prices, n - lookback, n);
        let latest = prices[n - 1].price * lookback;
        let spread = distance(latest, total);
        if total > 0 && spread * SCALE > threshold * total {
            Some(
                TradingSignal {
                    symbol: prices[0].symbol,
                    action: if latest > total {
                        OrderSide::Sell
                    } else {
                        OrderSide::Buy
                    },
                    confidence: capped_ratio(spread, total) as u64,
                    target_price: (total / lookback) as u64,
                    quantity: REVERSION_QUANTITY,
                },
            )
        } else {
            None
        }
    }
}

/// A momentum signal follows the move: it buys exactly when the latest price
/// is above the base and sells exactly when it is below, at the latest price,
/// in the fixed size, with a confidence that is the size of the relative
/// change capped at one.
pub proof fn lemma_momentum_signal_follows(lookback: int, threshold: int, prices: Seq<Price>)
    requires
        threshold >= 0,
        momentum_signal(lookback, threshold, prices).is_some(),
    ensures
        ({
            let signal = momentum_signal(lookback, threshold, prices).unwrap();
            let latest = prices[prices.len() - 1].price;
            let base = prices[prices.len() - lookback].price;
            &&& 2 <= lookback <= prices.len()
            &&& latest != base
            &&& (signal.action == OrderSide::Buy) == (latest > base)
            &&& (signal.action == OrderSide::Sell) == (latest < base)
            &&& signal.target_price == latest
            &&& signal.quantity == MOMENTUM_QUANTITY
            &&& signal.confidence == capped_ratio(distance(latest as int, base as int), base as int)
            &&& signal.confidence <= SCALE
        }),
{
    let n = prices.len() as int;
    let latest = prices[n - 1].price as int;
    let base = prices[n - lookback].price as int;
    let change = distance(latest, base);
    assert(threshold * base >= 0) by (nonlinear_arith)
        requires
            threshold >= 0,
            base >= 0,
    ;
    assert(change * SCALE / base >= 0) by (nonlinear_arith)
        requires
            change >= 0,
            base > 0,
            SCALE > 0,
    ;
}

/// A mean-reversion signal trades against the deviation: it sells exactly
/// when the latest price is above the window's mean and buys exactly when it
/// is below, in the fixed size, with the mean rounded down as its target.
pub proof fn lemma_mean_reversion_signal_opposes(
    lookback: int,
    threshold: int,
    prices: Seq<Price>,
)
    requires
        threshold >= 0,
        mean_reversion_signal(lookback, threshold, prices).is_some(),
    ensures
        ({
            let signal = mean_reversion_signal(lookback, threshold, prices).unwrap();
            let n = prices.len() as int;
            let total = price_total(prices, n - lookback, n);
            let latest = prices[n - 1].price;
            &&& 1 <= lookback <= n
            &&& (signal.action == OrderSide::Sell) == (latest * lookback > total)
            &&& (signal.action == OrderSide::Buy) == (latest * lookback < total)
            &&& signal.target_price == total / lookback
            &&& signal.quantity == REVERSION_QUANTITY
            &&& signal.confidence <= SCALE
        }),
{
    let n = prices.len() as int;
    let total = price_total(prices, n - lookback, n);
    let latest = prices[n - 1].price * lookback;
    let spread = distance(latest, total);
    assert(threshold * total >= 0) by (nonlinear_arith)
        requires
            threshold >= 0,
            total >= 0,
    ;
    assert(spread * SCALE / total >= 0) by (nonlinear_arith)
        requires
            spread >= 0,
            total > 0,
            SCALE > 0,
    ;
    lemma_price_total_bound(prices, n - lookback, n);
    lemma_mean_bound(total, lookback, u64::MAX as int);
}

/// A sum of prices is at most as many times the largest price as it has terms.
pub proof fn lemma_price_total_bound(prices: Seq<Price>, from: int, to: int)
    requires
        0 <= from <= to <= prices.len(),
    ensures
        0 <= price_total(prices, from, to) <= (to - from) * u64::MAX,
    decreases to - from,
{
    if from < to {
        lemma_price_total_bound(prices, from, to - 1);
        assert((to - from) * u64::MAX == (to - 1 - from) * u64::MAX + u64::MAX)
            by (nonlinear_arith);
    }
}

/// An evaluator of price windows. An implementation holds no mutable state:
/// what `analyze` returns is a function of its arguments, named by `signal`.
pub trait TradingStrategy: Send + Sync {
    /// The signal that `analyze` returns for a window and an order book.
    spec fn signal(&self, prices: Seq<Price>, orderbook: &OrderBook) -> Option<TradingSignal>;

    /// The text that `name` returns.
    spec fn label(&self) -> Seq<char>;

    /// Evaluates a window of prices, oldest first, against an order book.
    fn analyze(&self, prices: &[Price], orderbook: &OrderBook) -> (r: Option<TradingSignal>)
        ensures
            r == self.signal(prices@, orderbook),
    ;

    /// A name for diagnostics.
    fn name(&self) -> (r: &str)
        ensures
            r@ == self.label(),
    ;
}

/// The sum of the traded volumes from `prices[from]` on.
fn sum_volumes(prices: &[Price], from: usize) -> (total: u128)
    requires
        from <= prices.len(),
    ensures
        total == volume_total(prices@, from as int, prices.len() as int),
        total <= (prices.len() - from) * u64::MAX,
{
    let n = prices.len();
    let mut total: u128 = 0;
    let mut i: usize = from;
    while i < n
        invariant
            n == prices.len(),
            from <= i <= n,
            total == volume_total(prices@, from as int, i as int),
            total <= (i - from) * u64::MAX,
        decreases n - i,
    {
        proof {
            lemma_product_bound(i + 1 - from, u64::MAX as int, u64::MAX as int, u64::MAX as int);
            assert((i + 1 - from) * u64::MAX == (i - from) * u64::MAX + u64::MAX)
                by (nonlinear_arith);
        }
        total = total + prices[i].volume as u128;
        i = i + 1;
    }
    total
}

/// The sum of the prices from `prices[from]` on.
fn sum_prices(prices: &[Price], from: usize) -> (total: u128)
    requires
        from <= prices.len(),
    ensures
        total == price_total(prices@, from as int, prices.len() as int),
        total <= (prices.len() - from) * u64::MAX,
{
    let n = prices.len();
    let mut total: u128 = 0;
    let mut i: usize = from;
    while i < n
        invariant
            n == prices.len(),
            from <= i <= n,
            total == price_total(prices@, from as int, i as int),
            total <= (i - from) * u64::MAX,
        decreases n - i,
    {
        proof {
            lemma_product_bound(i + 1 - from, u64::MAX as int, u64::MAX as int, u64::MAX as int);
            assert((i + 1 - from) * u64::MAX == (i - from) * u64::MAX + u64::MAX)
                by (nonlinear_arith);
        }
        total = total + prices[i].price as u128;
        i = i + 1;
    }
    total
}

/// `part / whole` in millionths, rounded down and capped at one.
///
/// The scaled numerator may be wider than 128 bits, so the quotient is not
/// computed by a division: it is searched for among the millionths below
/// one, each candidate tested by an exact wide product.
fn capped_ratio_of(part: u128, whole: u128) -> (r: u64)
    requires
        0 < whole,
    ensures
        r == capped_ratio(part as int, whole as int),
        r <= SCALE,
{
    let ghost scaled: int = part * SCALE;
    let ghost ratio: int = scaled / (whole as int);
    proof {
        assert(scaled >= 0) by (nonlinear_arith)
            requires
                scaled == part * SCALE,
                part >= 0,
                SCALE >= 0,
        ;
        assert(ratio >= 0) by (nonlinear_arith)
            requires
                ratio == scaled / (whole as int),
                scaled >= 0,
                whole > 0,
        ;
        // `ratio >= SCALE` exactly when `part >= whole`
        lemma_scaled_le_quotient(SCALE as int, scaled, whole as int);
        assert((SCALE * whole <= part * SCALE) == (whole <= part)) by (nonlinear_arith)
            requires
                SCALE > 0,
        ;
    }
    if part >= whole {
        return SCALE;
    }
    let numerator = wide_product(part, SCALE);
    let mut low: u64 = 0;
    let mut high: u64 = SCALE;
    while high - low > 1
        invariant
            0 < whole,
            numerator.value() == scaled,
            scaled >= 0,
            ratio == scaled / (whole as int),
            low <= ratio < high <= SCALE,
        decreases high - low,
    {
        let middle: u64 = low + (high - low) / 2;
        let candidate = wide_product(whole, middle);
        proof {
            lemma_scaled_le_quotient(middle as int, scaled, whole as int);
            assert(whole * middle == middle * whole) by (nonlinear_arith);
        }
        if wide_le(&candidate, &numerator) {
            low = middle;
        } else {
            high = middle;
        }
    }
    low
}

/// Follows a price that has moved far enough on enough volume.
pub struct MomentumStrategy {
    lookback_period: usize,
    momentum_threshold: u64,
}

impl MomentumStrategy {
    /// A momentum rule over the last `lookback_period` samples that fires on a
    /// relative change above `momentum_threshold`, given in millionths.
    pub fn new(lookback_period: usize, momentum_threshold: u64) -> (r: Self)
        ensures
            r.lookback_period() == lookback_period,
            r.momentum_threshold() == momentum_threshold,
    {
        Self { lookback_period, momentum_threshold }
    }

    /// Number of samples in the window.
    pub closed spec fn lookback_period(&self) -> usize {
        self.lookback_period
    }

    /// Relative change, in millionths, that a signal must exceed.
    pub closed spec fn momentum_threshold(&self) -> u64 {
        self.momentum_threshold
    }
}

impl TradingStrategy for MomentumStrategy {
    open spec fn signal(&self, prices: Seq<Price>, orderbook: &OrderBook) -> Option<
        TradingSignal,
    > {
        momentum_signal(self.lookback_period() as int, self.momentum_threshold() as int, prices)
    }

    open spec fn label(&self) -> Seq<char> {
        "MomentumStrategy"@
    }

    fn analyze(&self, prices: &[Price], orderbook: &OrderBook) -> (r: Option<TradingSignal>) {
        let n = prices.len();
        let lookback = self.lookback_period;
        if n < lookback || lookback < 2 {
            return None;
        }
        let latest: u64 = prices[n - 1].price;
        let base: u64 = prices[n - lookback].price;
        if base == 0 {
            return None;
        }
        let change: u64 = if latest >= base {
            latest - base
        } else {
            base - latest
        };
        let volume: u128 = sum_volumes(prices, n - lookback);
        proof {
            lemma_product_bound(
                self.momentum_threshold as int,
                base as int,
                u64::MAX as int,
                u64::MAX as int,
            );
            lemma_product_bound(change as int, SCALE as int, u64::MAX as int, SCALE as int);
            lemma_product_bound(
                MIN_MEAN_VOLUME as int,
                lookback as int,
                MIN_MEAN_VOLUME as int,
                u64::MAX as int,
            );
        }
        let moved = (change as u128) * (SCALE as u128) > (self.momentum_threshold as u128) * (
        base as u128);
        let liquid = volume > (MIN_MEAN_VOLUME as u128) * (lookback as u128);
        if moved && liquid {
            let action = if latest > base {
                OrderSide::Buy
            } else {
                OrderSide::Sell
            };
            Some(
                TradingSignal {
                    symbol: prices[0].symbol.clone(),
                    action,
                    confidence: capped_ratio_of(change as u128, base as u128),
                    target_price: latest,
                    quantity: MOMENTUM_QUANTITY,
                },
            )
        } else {
            None
        }
    }

    fn name(&self) -> (r: &str) {
        "MomentumStrategy"
    }
}

/// Trades against a price that has strayed from its recent mean.
pub struct MeanReversionStrategy {
    lookback_period: usize,
    deviation_threshold: u64,
}

impl MeanReversionStrategy {
    /// A mean-reversion rule over the last `lookback_period` samples that fires
    /// on a relative deviation above `deviation_threshold`, given in millionths.
    pub fn new(lookback_period: usize, deviation_threshold: u64) -> (r: Self)
        ensures
            r.lookback_period() == lookback_period,
            r.deviation_threshold() == deviation_threshold,
    {
        Self { lookback_period, deviation_threshold }
    }

    /// Number of samples in the window.
    pub closed spec fn lookback_period(&self) -> usize {
        self.lookback_period
    }

    /// Relative deviation, in millionths, that a signal must exceed.
    pub closed spec fn deviation_threshold(&self) -> u64 {
        self.deviation_threshold
    }
}

impl TradingStrategy for MeanReversionStrategy {
    open spec fn signal(&self, prices: Seq<Price>, orderbook: &OrderBook) -> Option<
        TradingSignal,
    > {
        mean_reversion_signal(
            self.lookback_period() as int,
            self.deviation_threshold() as int,
            prices,
        )
    }

    open spec fn label(&self) -> Seq<char> {
        "MeanReversionStrategy"@
    }

    fn analyze(&self, prices: &[Price], orderbook: &OrderBook) -> (r: Option<TradingSignal>) {
        let n = prices.len();
        let lookback = self.lookback_period;
        if n < lookback || lookback < 1 {
            return None;
        }
        let total: u128 = sum_prices(prices, n - lookback);
        if total == 0 {
            return None;
        }
        proof {
            lemma_product_bound(
                prices[n - 1].price as int,
                lookback as int,
                u64::MAX as int,
                u64::MAX as int,
            );
            lemma_product_bound(
                lookback as int,
                u64::MAX as int,
                u64::MAX as int,
                u64::MAX as int,
            );
        }
        let latest: u128 = (prices[n - 1].price as u128) * (lookback as u128);
        let spread: u128 = if latest >= total {
            latest - total
        } else {
            total - latest
        };
        // `spread * SCALE > threshold * total`, both sides possibly wider than 128 bits
        let scaled_spread = wide_product(spread, SCALE);
        let scaled_total = wide_product(total, self.deviation_threshold);
        proof {
            assert(total * self.deviation_threshold == self.deviation_threshold * total)
                by (nonlinear_arith);
        }
        if !wide_le(&scaled_spread, &scaled_total) {
            let action = if latest > total {
                OrderSide::Sell
            } else {
                OrderSide::Buy
            };
            proof {
                lemma_mean_bound(total as int, lookback as int, u64::MAX as int);
            }
            Some(
                TradingSignal {
                    symbol: prices[0].symbol.clone(),
                    action,
                    confidence: capped_ratio_of(spread, total),
                    target_price: (total / (lookback as u128)) as u64,
                    quantity: REVERSION_QUANTITY,
                },
            )
        } else {
            None
        }
    }

    fn name(&self) -> (r: &str) {
        "MeanReversionStrategy"
    }
}

} // verus!
