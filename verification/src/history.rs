//! The price history: for each symbol, its most recent samples in the order
//! in which they arrived.

use vstd::prelude::*;
use crate::lookup::{
    first_index, is_first, lemma_first_index_exists, lemma_first_index_is, lemma_first_index_none,
    lemma_first_index_push, texts,
};
use crate::types::Price;

verus! {

/// Most samples kept per symbol.
pub const MAX_SAMPLES: usize = 1000;

/// The most recent `MAX_SAMPLES` items of `samples`, in their order.
pub open spec fn retained(samples: Seq<Price>) -> Seq<Price> {
    if samples.len() > MAX_SAMPLES {
        samples.subrange(samples.len() - MAX_SAMPLES, samples.len() as int)
    } else {
        samples
    }
}

/// What is retained is never longer than `MAX_SAMPLES`, and it is the most
/// recent part of what was recorded, in the same order.
pub proof fn lemma_retained_is_recent(samples: Seq<Price>)
    ensures
        retained(samples).len() <= MAX_SAMPLES,
        retained(samples).len() <= samples.len(),
        samples.len() <= MAX_SAMPLES ==> retained(samples) == samples,
        forall|i: int|
            0 <= i < retained(samples).len() ==> retained(samples)[i] == samples[samples.len()
                - retained(samples).len() + i],
{
}

/// Eviction is first in, first out: recording into a full series drops
/// exactly its oldest sample and keeps the others in their order, with the
/// new sample last.
pub proof fn lemma_full_series_drops_oldest(samples: Seq<Price>, sample: Price)
    requires
        samples.len() == MAX_SAMPLES,
    ensures
        retained(samples.push(sample)) == samples.drop_first().push(sample),
        retained(samples.push(sample)).len() == MAX_SAMPLES,
{
}

/// The samples of one symbol.
struct Series {
    symbol: String,
    samples: Vec<Price>,
}

/// Bounded per-symbol price history. The view maps each symbol that has ever
/// been recorded to its retained samples, oldest first.
pub struct PriceHistory {
    /// One series per symbol, in the order in which symbols first appeared.
    series: Vec<Series>,
}

impl View for PriceHistory {
    type V = Map<Seq<char>, Seq<Price>>;

    closed spec fn view(&self) -> Map<Seq<char>, Seq<Price>> {
        Map::new(
            |s: Seq<char>| first_index(self.symbols(), s).is_some(),
            |s: Seq<char>| self.series@[first_index(self.symbols(), s).unwrap()].samples@,
        )
    }
}

impl PriceHistory {
    /// No series holds more than `MAX_SAMPLES` samples, and no symbol has two
    /// series.
    #[verifier::type_invariant]
    closed spec fn bounded_and_distinct(&self) -> bool {
        &&& forall|i: int|
            0 <= i < self.series@.len() ==> (#[trigger] self.series@[i]).samples@.len()
                <= MAX_SAMPLES
        &&& forall|i: int, j: int|
            0 <= i < j < self.series@.len() ==> self.series@[i].symbol@ != self.series@[j].symbol@
    }

    /// The symbols recorded so far, in the order in which they first appeared.
    pub closed spec fn symbols(&self) -> Seq<Seq<char>> {
        Seq::new(self.series@.len(), |i: int| self.series@[i].symbol@)
    }

    /// The retained samples of `symbol`, oldest first; none for a symbol that
    /// was never recorded.
    pub open spec fn samples(&self, symbol: Seq<char>) -> Seq<Price> {
        if self@.contains_key(symbol) {
            self@[symbol]
        } else {
            Seq::empty()
        }
    }

    /// The test that a symbol holds at least `min_samples` samples.
    pub open spec fn holds_at_least(&self, min_samples: usize) -> spec_fn(Seq<char>) -> bool {
        |s: Seq<char>| self.samples(s).len() >= min_samples
    }

    /// The recorded symbols are exactly the symbols that the view has samples
    /// for.
    pub proof fn lemma_symbols_are_the_keys(&self, symbol: Seq<char>)
        ensures
            self@.contains_key(symbol) == self.symbols().contains(symbol),
    {
        let keys = self.symbols();
        if keys.contains(symbol) {
            let i = choose|i: int| 0 <= i < keys.len() && keys[i] == symbol;
            lemma_first_index_exists(keys, symbol, i);
        }
    }

    /// An empty history.
    pub fn new() -> (r: Self)
        ensures
            r@ == Map::<Seq<char>, Seq<Price>>::empty(),
            r.symbols() == Seq::<Seq<char>>::empty(),
    {
        let r = Self { series: Vec::new() };
        r
    }

    /// Index of the series of `symbol`, if there is one.
    fn find(&self, symbol: &str) -> (r: Option<usize>)
        ensures
            match r {
                Some(i) => i < self.series@.len() && first_index(self.symbols(), symbol@) == Some(
                    i as int,
                ),
                None => first_index(self.symbols(), symbol@).is_none() && forall|j: int|
                    0 <= j < self.symbols().len() ==> self.symbols()[j] != symbol@,
            },
    {
        let key = symbol.to_owned();
        let mut i: usize = 0;
        while i < self.series.len()
            invariant
                i <= self.series@.len(),
                key@ == symbol@,
                forall|j: int| 0 <= j < i ==> self.symbols()[j] != symbol@,
            decreases self.series@.len() - i,
        {
            if self.series[i].symbol == key {
                proof {
                    lemma_first_index_is(self.symbols(), symbol@, i as int);
                }
                return Some(i);
            }
            i = i + 1;
        }
        proof {
            lemma_first_index_none(self.symbols(), symbol@);
        }
        None
    }

    /// Appends `sample` to the series of `symbol`, opening the series if the
    /// symbol is new, and drops the oldest sample once the series is longer
    /// than `MAX_SAMPLES`.
    pub fn record(&mut self, symbol: &str, sample: Price)
        ensures
            final(self)@ == old(self)@.insert(
                symbol@,
                retained(old(self).samples(symbol@).push(sample)),
            ),
            final(self).symbols() == (if old(self)@.contains_key(symbol@) {
                old(self).symbols()
            } else {
                old(self).symbols().push(symbol@)
            }),
            final(self).samples(symbol@).len() <= MAX_SAMPLES,
    {
        proof {
            use_type_invariant(&*self);
        }
        let slot = self.find(symbol);
        let mut series: Vec<Series> = Vec::new();
        core::mem::swap(&mut self.series, &mut series);
        match slot {
            Some(i) => {
                let entry = &mut series[i];
                entry.samples.push(sample);
                if entry.samples.len() > MAX_SAMPLES {
                    entry.samples.remove(0);
                }
            },
            None => {
                let mut samples: Vec<Price> = Vec::new();
                samples.push(sample);
                series.push(Series { symbol: symbol.to_owned(), samples });
            },
        }
        proof {
            assert forall|a: int, b: int| 0 <= a < b < series@.len() implies series@[a].symbol@
                != series@[b].symbol@ by {
                if b >= old(self).series@.len() {
                    assert(old(self).symbols()[a] != symbol@);
                }
            }
        }
        core::mem::swap(&mut self.series, &mut series);
        proof {
            match slot {
                Some(i) => {
                    assert(self.symbols() =~= old(self).symbols());
                },
                None => {
                    assert(self.symbols() =~= old(self).symbols().push(symbol@));
                    assert forall|s: Seq<char>| #[trigger]
                        first_index(self.symbols(), s) == (if s == symbol@ {
                        Some(old(self).series@.len() as int)
                    } else {
                        first_index(old(self).symbols(), s)
                    }) by {
                        lemma_first_index_push(old(self).symbols(), symbol@, s);
                    }
                },
            }
        }
    }

    /// A copy of the retained samples of `symbol`, oldest first; empty for a
    /// symbol that was never recorded.
    pub fn snapshot(&self, symbol: &str) -> (r: Vec<Price>)
        ensures
            r@ == self.samples(symbol@),
            r@.len() <= MAX_SAMPLES,
    {
        proof {
            use_type_invariant(self);
        }
        let mut copy: Vec<Price> = Vec::new();
        match self.find(symbol) {
            Some(i) => {
                let samples = &self.series[i].samples;
                let mut k: usize = 0;
                while k < samples.len()
                    invariant
                        k <= samples@.len(),
                        copy@ == samples@.subrange(0, k as int),
                    decreases samples@.len() - k,
                {
                    copy.push(samples[k].clone());
                    k = k + 1;
                }
            },
            None => {},
        }
        copy
    }

    /// Number of samples retained for `symbol`.
    pub fn sample_count(&self, symbol: &str) -> (n: usize)
        ensures
            n == self.samples(symbol@).len(),
            n <= MAX_SAMPLES,
    {
        proof {
            use_type_invariant(self);
        }
        match self.find(symbol) {
            Some(i) => self.series[i].samples.len(),
            None => 0,
        }
    }

    /// The symbols that hold at least `min_samples` samples, in the order in
    /// which they first appeared.
    pub fn symbols_with(&self, min_samples: usize) -> (r: Vec<String>)
        ensures
            texts(r@) == self.symbols().filter(self.holds_at_least(min_samples)),
    {
        proof {
            use_type_invariant(self);
        }
        let mut found: Vec<String> = Vec::new();
        let mut i: usize = 0;
        assert(Seq::<Seq<char>>::empty().filter(self.holds_at_least(min_samples)) =~= Seq::<
            Seq<char>,
        >::empty()) by {
            reveal(Seq::filter);
        }
        while i < self.series.len()
            invariant
                i <= self.series@.len(),
                self.bounded_and_distinct(),
                texts(found@) == self.symbols().subrange(0, i as int).filter(
                    self.holds_at_least(min_samples),
                ),
            decreases self.series@.len() - i,
        {
            let entry = &self.series[i];
            proof {
                let upto = self.symbols().subrange(0, i + 1);
                assert(upto.drop_last() =~= self.symbols().subrange(0, i as int));
                lemma_first_index_is(self.symbols(), entry.symbol@, i as int);
                reveal(Seq::filter);
            }
            if entry.samples.len() >= min_samples {
                found.push(entry.symbol.clone());
            }
            i = i + 1;
        }
        assert(self.symbols().subrange(0, i as int) =~= self.symbols());
        found
    }
}

} // verus!
