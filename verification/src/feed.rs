//! A simulated market-data source: random quotes and order books in fixed
//! ranges, stamped with the system clock.

use rand::Rng;
use vstd::prelude::*;
use crate::clock::unix_seconds;
use crate::lookup::texts;
use crate::types::{OrderBook, Price};

verus! {

/// Lowest simulated price: 0.1.
pub const MIN_PRICE: u64 = 100_000;

/// Bound above every simulated price: 100.
pub const MAX_PRICE: u64 = 100_000_000;

/// Lowest simulated volume: 100.
pub const MIN_VOLUME: u64 = 100_000_000;

/// Bound above every simulated volume: 10 000.
pub const MAX_VOLUME: u64 = 10_000_000_000;

/// Distance between neighbouring levels of a simulated book: 0.01.
pub const PRICE_STEP: u64 = 10_000;

/// Lowest simulated level size: 10.
pub const MIN_SIZE: u64 = 10_000_000;

/// Bound above every simulated level size: 1 000.
pub const MAX_SIZE: u64 = 1_000_000_000;

/// Number of levels on each side of a simulated book.
pub const BOOK_DEPTH: usize = 5;

/// Makes `rand::rngs::ThreadRng` known as a type whose values are carried
/// through without being looked into.
#[verifier::external_type_specification]
#[verifier::external_body]
pub struct ExThreadRng(rand::rngs::ThreadRng);

/// Calls `rand::thread_rng`, which hands out the calling thread's generator.
/// Nothing is claimed of the generator. The call fails only where the
/// operating system has no entropy to seed it with.
#[verifier::external_body]
fn thread_generator() -> rand::rngs::ThreadRng {
    rand::thread_rng()
}

/// Calls `Rng::gen_range` on the half-open range `low..high`. The range must
/// not be empty, or the call panics; what it returns lies in the range. Which
/// value it is, is left open.
#[verifier::external_body]
fn random_between(generator: &mut rand::rngs::ThreadRng, low: u64, high: u64) -> (r: u64)
    requires
        low < high,
    ensures
        low <= r < high,
{
    generator.gen_range(low..high)
}

/// Whether `quote` is a simulated quote for `symbol`: under that symbol, with
/// price and volume in their ranges.
pub open spec fn is_quote(quote: Price, symbol: Seq<char>) -> bool {
    &&& quote.symbol@ == symbol
    &&& MIN_PRICE <= quote.price < MAX_PRICE
    &&& MIN_VOLUME <= quote.volume < MAX_VOLUME
}

/// Whether `book` is the ladder around `base`: on each side one level per
/// entry of `sizes`, the bids stepping down from `base` by `PRICE_STEP` and
/// the asks stepping up, each level with its size from `sizes`.
pub open spec fn is_ladder(
    book: OrderBook,
    symbol: Seq<char>,
    base: int,
    sizes: Seq<(u64, u64)>,
    timestamp: u64,
) -> bool {
    &&& book.symbol@ == symbol
    &&& book.timestamp == timestamp
    &&& book.bids@.len() == sizes.len()
    &&& book.asks@.len() == sizes.len()
    &&& forall|i: int|
        0 <= i < sizes.len() ==> {
            &&& (#[trigger] book.bids@[i]).0 == base - (i + 1) * PRICE_STEP
            &&& book.bids@[i].1 == sizes[i].0
        }
    &&& forall|i: int|
        0 <= i < sizes.len() ==> {
            &&& (#[trigger] book.asks@[i]).0 == base + (i + 1) * PRICE_STEP
            &&& book.asks@[i].1 == sizes[i].1
        }
}

/// Whether the bids of `book` fall strictly and its asks rise strictly, with
/// every bid below every ask.
pub open spec fn is_ordered_book(book: OrderBook) -> bool {
    &&& forall|i: int, j: int|
        0 <= i < j < book.bids@.len() ==> book.bids@[i].0 > book.bids@[j].0
    &&& forall|i: int, j: int|
        0 <= i < j < book.asks@.len() ==> book.asks@[i].0 < book.asks@[j].0
    &&& forall|i: int, j: int|
        0 <= i < book.bids@.len() && 0 <= j < book.asks@.len() ==> book.bids@[i].0
            < book.asks@[j].0
}

/// Whether `book` is a simulated book for `symbol`: a ladder of `BOOK_DEPTH`
/// levels a side around a price in `MIN_PRICE .. MAX_PRICE`, with every level
/// size in `MIN_SIZE .. MAX_SIZE`.
pub open spec fn is_simulated_book(book: OrderBook, symbol: Seq<char>) -> bool {
    exists|base: int, sizes: Seq<(u64, u64)>|
        {
            &&& #[trigger] is_ladder(book, symbol, base, sizes, book.timestamp)
            &&& MIN_PRICE <= base < MAX_PRICE
            &&& sizes.len() == BOOK_DEPTH
            &&& forall|i: int|
                0 <= i < sizes.len() ==> MIN_SIZE <= (#[trigger] sizes[i]).0 < MAX_SIZE && MIN_SIZE
                    <= sizes[i].1 < MAX_SIZE
        }
}

/// A ladder is an ordered book.
pub proof fn lemma_ladder_is_ordered(
    book: OrderBook,
    symbol: Seq<char>,
    base: int,
    sizes: Seq<(u64, u64)>,
    timestamp: u64,
)
    requires
        is_ladder(book, symbol, base, sizes, timestamp),
    ensures
        is_ordered_book(book),
{
    assert forall|i: int, j: int| 0 <= i < j < book.bids@.len() implies book.bids@[i].0
        > book.bids@[j].0 by {
        assert((i + 1) * PRICE_STEP < (j + 1) * PRICE_STEP) by (nonlinear_arith)
            requires
                0 <= i < j,
                PRICE_STEP > 0,
        ;
    }
    assert forall|i: int, j: int| 0 <= i < j < book.asks@.len() implies book.asks@[i].0
        < book.asks@[j].0 by {
        assert((i + 1) * PRICE_STEP < (j + 1) * PRICE_STEP) by (nonlinear_arith)
            requires
                0 <= i < j,
                PRICE_STEP > 0,
        ;
    }
    assert forall|i: int, j: int|
        0 <= i < book.bids@.len() && 0 <= j < book.asks@.len() implies book.bids@[i].0
        < book.asks@[j].0 by {
        assert((i + 1) * PRICE_STEP > 0 && (j + 1) * PRICE_STEP > 0) by (nonlinear_arith)
            requires
                0 <= i,
                0 <= j,
                PRICE_STEP > 0,
        ;
    }
}

/// The ladder around `base_price` with the level sizes `sizes`, each entry
/// giving the size of a bid and of the ask at the same distance.
pub fn book_around(symbol: &str, base_price: u64, sizes: &Vec<(u64, u64)>, timestamp: u64) -> (book:
    OrderBook)
    requires
        sizes@.len() * PRICE_STEP <= base_price,
        base_price + sizes@.len() * PRICE_STEP <= u64::MAX,
    ensures
        is_ladder(book, symbol@, base_price as int, sizes@, timestamp),
        is_ordered_book(book),
{
    let mut bids: Vec<(u64, u64)> = Vec::new();
    let mut asks: Vec<(u64, u64)> = Vec::new();
    let mut i: usize = 0;
    while i < sizes.len()
        invariant
            i <= sizes@.len(),
            sizes@.len() * PRICE_STEP <= base_price,
            base_price + sizes@.len() * PRICE_STEP <= u64::MAX,
            bids@.len() == i,
            asks@.len() == i,
            forall|k: int|
                0 <= k < i ==> {
                    &&& (#[trigger] bids@[k]).0 == base_price - (k + 1) * PRICE_STEP
                    &&& bids@[k].1 == sizes@[k].0
                },
            forall|k: int|
                0 <= k < i ==> {
                    &&& (#[trigger] asks@[k]).0 == base_price + (k + 1) * PRICE_STEP
                    &&& asks@[k].1 == sizes@[k].1
                },
        decreases sizes@.len() - i,
    {
        proof {
            assert(0 <= (i + 1) * PRICE_STEP <= sizes@.len() * PRICE_STEP) by (nonlinear_arith)
                requires
                    0 <= i < sizes@.len(),
                    PRICE_STEP > 0,
            ;
        }
        let offset: u64 = (i as u64 + 1) * PRICE_STEP;
        bids.push((base_price - offset, sizes[i].0));
        asks.push((base_price + offset, sizes[i].1));
        i = i + 1;
    }
    let book = OrderBook { symbol: symbol.to_owned(), bids, asks, timestamp };
    proof {
        lemma_ladder_is_ordered(book, symbol@, base_price as int, sizes@, timestamp);
    }
    book
}

/// Source of simulated quotes and order books.
pub struct MarketDataFeed {
    symbols: Vec<String>,
}

impl MarketDataFeed {
    /// A feed for `symbols`.
    pub fn new(symbols: Vec<String>) -> (r: Self)
        ensures
            r.symbols() == texts(symbols@),
    {
        Self { symbols }
    }

    /// The symbols that the feed was made for.
    pub closed spec fn symbols(&self) -> Seq<Seq<char>> {
        texts(self.symbols@)
    }

    /// The symbols that the feed was made for, as they were given.
    pub fn symbol_list(&self) -> (r: &Vec<String>)
        ensures
            texts(r@) == self.symbols(),
    {
        &self.symbols
    }

    /// A quote for `symbol`: always present, with a random price in
    /// `MIN_PRICE .. MAX_PRICE`, a random volume in `MIN_VOLUME .. MAX_VOLUME`
    /// and the clock's time.
    pub fn get_price(&self, symbol: &str) -> (r: Option<Price>)
        ensures
            r.is_some(),
            is_quote(r.unwrap(), symbol@),
    {
        let mut generator = thread_generator();
        let price = random_between(&mut generator, MIN_PRICE, MAX_PRICE);
        let timestamp = unix_seconds();
        let volume = random_between(&mut generator, MIN_VOLUME, MAX_VOLUME);
        Some(Price { symbol: symbol.to_owned(), price, timestamp, volume })
    }

    /// An order book for `symbol`: always present, the ladder of `BOOK_DEPTH`
    /// levels a side around a random price in `MIN_PRICE .. MAX_PRICE`, with
    /// random level sizes in `MIN_SIZE .. MAX_SIZE`.
    pub fn get_orderbook(&self, symbol: &str) -> (r: Option<OrderBook>)
        ensures
            r.is_some(),
            is_ordered_book(r.unwrap()),
            is_simulated_book(r.unwrap(), symbol@),
    {
        let mut generator = thread_generator();
        let base_price = random_between(&mut generator, MIN_PRICE, MAX_PRICE);
        let mut sizes: Vec<(u64, u64)> = Vec::new();
        let mut i: usize = 0;
        while i < BOOK_DEPTH
            invariant
                i <= BOOK_DEPTH,
                sizes@.len() == i,
                forall|k: int|
                    0 <= k < i ==> MIN_SIZE <= (#[trigger] sizes@[k]).0 < MAX_SIZE && MIN_SIZE
                        <= sizes@[k].1 < MAX_SIZE,
            decreases BOOK_DEPTH - i,
        {
            let bid_size = random_between(&mut generator, MIN_SIZE, MAX_SIZE);
            let ask_size = random_between(&mut generator, MIN_SIZE, MAX_SIZE);
            sizes.push((bid_size, ask_size));
            i = i + 1;
        }
        let timestamp = unix_seconds();
        let book = book_around(symbol, base_price, &sizes, timestamp);
        Some(book)
    }
}

} // verus!
