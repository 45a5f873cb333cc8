use trading_bot::history::{PriceHistory, MAX_SAMPLES};
use trading_bot::types::Price;

fn numbered_sample(symbol: &str, number: u64) -> Price {
    Price { symbol: symbol.to_string(), price: number, timestamp: number, volume: 1 }
}

#[test]
fn new_history_is_empty() {
    let history = PriceHistory::new();
    assert!(history.snapshot("BTC/USD").is_empty());
    assert_eq!(history.sample_count("BTC/USD"), 0);
    assert!(history.symbols_with(0).is_empty());
}

#[test]
fn samples_come_back_in_the_order_recorded() {
    let mut history = PriceHistory::new();
    for number in 1..=5 {
        history.record("X", numbered_sample("X", number));
    }
    let snapshot = history.snapshot("X");
    let prices: Vec<u64> = snapshot.iter().map(|s| s.price).collect();
    assert_eq!(prices, vec![1, 2, 3, 4, 5]);
    assert_eq!(snapshot[0], numbered_sample("X", 1));
    assert_eq!(history.sample_count("X"), 5);
}

#[test]
fn history_is_capped_and_evicts_the_oldest_first() {
    assert_eq!(MAX_SAMPLES, 1000);
    let mut history = PriceHistory::new();
    for number in 1..=1000 {
        history.record("X", numbered_sample("X", number));
        assert!(history.sample_count("X") <= 1000);
    }
    let full = history.snapshot("X");
    assert_eq!(full.len(), 1000);
    assert_eq!(full[0].price, 1);
    assert_eq!(full[999].price, 1000);

    history.record("X", numbered_sample("X", 1001));
    let snapshot = history.snapshot("X");
    assert_eq!(snapshot.len(), 1000);
    assert!(snapshot.iter().all(|s| s.price != 1));
    let prices: Vec<u64> = snapshot.iter().map(|s| s.price).collect();
    let expected: Vec<u64> = (2..=1001).collect();
    assert_eq!(prices, expected);
}

#[test]
fn history_stays_capped_over_many_records() {
    let mut history = PriceHistory::new();
    for number in 1..=2500 {
        history.record("X", numbered_sample("X", number));
        assert!(history.sample_count("X") <= MAX_SAMPLES);
    }
    let snapshot = history.snapshot("X");
    assert_eq!(snapshot.len(), 1000);
    assert_eq!(snapshot[0].price, 1501);
    assert_eq!(snapshot[999].price, 2500);
}

#[test]
fn symbols_are_kept_apart() {
    let mut history = PriceHistory::new();
    history.record("A", numbered_sample("A", 1));
    history.record("B", numbered_sample("B", 10));
    history.record("A", numbered_sample("A", 2));
    assert_eq!(history.sample_count("A"), 2);
    assert_eq!(history.sample_count("B"), 1);
    assert_eq!(history.snapshot("B"), vec![numbered_sample("B", 10)]);
    assert!(history.snapshot("C").is_empty());
    assert!(history.snapshot("").is_empty());
    assert!(history.snapshot("a").is_empty());
}

#[test]
fn sample_is_filed_under_the_symbol_given() {
    let mut history = PriceHistory::new();
    history.record("A", numbered_sample("other", 1));
    assert_eq!(history.snapshot("A"), vec![numbered_sample("other", 1)]);
    assert!(history.snapshot("other").is_empty());
}

#[test]
fn snapshot_is_a_copy() {
    let mut history = PriceHistory::new();
    history.record("A", numbered_sample("A", 1));
    let mut snapshot = history.snapshot("A");
    snapshot.clear();
    history.record("A", numbered_sample("A", 2));
    assert_eq!(history.sample_count("A"), 2);
}

#[test]
fn symbols_with_enough_samples_in_order_of_appearance() {
    let mut history = PriceHistory::new();
    history.record("C", numbered_sample("C", 1));
    history.record("A", numbered_sample("A", 1));
    history.record("B", numbered_sample("B", 1));
    history.record("A", numbered_sample("A", 2));
    history.record("C", numbered_sample("C", 2));
    history.record("C", numbered_sample("C", 3));
    assert_eq!(history.symbols_with(0), vec!["C", "A", "B"]);
    assert_eq!(history.symbols_with(1), vec!["C", "A", "B"]);
    assert_eq!(history.symbols_with(2), vec!["C", "A"]);
    assert_eq!(history.symbols_with(3), vec!["C"]);
    assert!(history.symbols_with(4).is_empty());
}
