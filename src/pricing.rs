//! Price history and the classification of each new observation.
//!
//! Prices are held as whole minor units (pence), so every comparison and
//! percentage below is exact.
use vstd::prelude::*;

verus! {

/// What an ingestion event calls for.
#[derive(Clone, Copy, Debug, PartialEq, Eq, Structural)]
pub enum Classification {
    FirstObservation,
    PriceIncreased,
    PriceDecreased,
    NewHistoricalLow,
    NoNotification,
    Error,
}

/// One recorded price of a product.
#[derive(Clone, Copy, Debug, PartialEq, Eq, Structural)]
pub struct PriceObservation {
    /// Price in pence.
    pub price: u64,
    /// Price of the observation recorded just before this one, if any.
    pub previous_price: Option<u64>,
    /// Seconds since the Unix epoch.
    pub timestamp: u64,
}

/// The classification rule: `previous` is the latest prior price, `low` the
/// lowest prior price.
pub open spec fn classification_of(new_price: u64, previous: Option<u64>, low: Option<u64>) -> Classification {
    match previous {
        Option::None => Classification::FirstObservation,
        Option::Some(p) => if new_price < p {
            match low {
                Option::None => Classification::NewHistoricalLow,
                Option::Some(l) => if new_price <= l {
                    Classification::NewHistoricalLow
                } else {
                    Classification::PriceDecreased
                },
            }
        } else if new_price > p {
            Classification::PriceIncreased
        } else {
            Classification::NoNotification
        },
    }
}

/// Whether a classification is worth telling subscribers about.
pub open spec fn notifies(c: Classification) -> bool {
    match c {
        Classification::NoNotification | Classification::Error => false,
        _ => true,
    }
}

/// Price of the latest observation of `s`.
pub open spec fn last_price_of(s: Seq<PriceObservation>) -> Option<u64> {
    if s.len() == 0 {
        Option::None
    } else {
        Option::Some(s.last().price)
    }
}

/// The earliest observation of `s` that holds its lowest price.
pub open spec fn low_entry_of(s: Seq<PriceObservation>) -> Option<PriceObservation>
    decreases s.len(),
{
    if s.len() == 0 {
        Option::None
    } else {
        match low_entry_of(s.drop_last()) {
            Option::None => Option::Some(s.last()),
            Option::Some(e) => if s.last().price < e.price {
                Option::Some(s.last())
            } else {
                Option::Some(e)
            },
        }
    }
}

/// The historical low of `s`: the lowest price it holds.
pub open spec fn lowest_price_of(s: Seq<PriceObservation>) -> Option<u64> {
    match low_entry_of(s) {
        Option::None => Option::None,
        Option::Some(e) => Option::Some(e.price),
    }
}

/// Every observation carries the price of the one before it.
pub open spec fn is_linked(s: Seq<PriceObservation>) -> bool {
    forall|i: int|
        0 <= i < s.len() ==> #[trigger] s[i].previous_price == if i == 0 {
            Option::<u64>::None
        } else {
            Option::Some(s[i - 1].price)
        }
}

/// The observation that ingesting `price` at `timestamp` appends to `s`.
pub open spec fn next_observation(s: Seq<PriceObservation>, price: u64, timestamp: u64) -> PriceObservation {
    PriceObservation { price, previous_price: last_price_of(s), timestamp }
}

/// The history after ingesting `price` at `timestamp`.
pub open spec fn ingested(s: Seq<PriceObservation>, price: u64, timestamp: u64) -> Seq<PriceObservation> {
    s.push(next_observation(s, price, timestamp))
}

/// How ingesting `price` into `s` is classified.
pub open spec fn ingest_class(s: Seq<PriceObservation>, price: u64) -> Classification {
    classification_of(price, last_price_of(s), lowest_price_of(s))
}

/// The history that ingesting `prices` one after another, each at the
/// matching entry of `times`, builds from nothing.
pub open spec fn replay(prices: Seq<u64>, times: Seq<u64>) -> Seq<PriceObservation>
    decreases prices.len(),
{
    if prices.len() == 0 {
        Seq::empty()
    } else {
        let before = replay(prices.drop_last(), times);
        ingested(before, prices.last(), times[prices.len() - 1])
    }
}

/// Classifies a new price against the latest prior price and the lowest
/// prior price.
pub fn classify(new_price: u64, previous: Option<u64>, low: Option<u64>) -> (r: Classification)
    ensures
        r == classification_of(new_price, previous, low),
{
    match previous {
        Option::None => Classification::FirstObservation,
        Option::Some(p) => {
            if new_price < p {
                match low {
                    Option::None => Classification::NewHistoricalLow,
                    Option::Some(l) => {
                        if new_price <= l {
                            Classification::NewHistoricalLow
                        } else {
                            Classification::PriceDecreased
                        }
                    },
                }
            } else if new_price > p {
                Classification::PriceIncreased
            } else {
                Classification::NoNotification
            }
        },
    }
}

/// Decides what to record and how to classify a new price, given what a
/// store reports as the product's latest and lowest prior prices.
pub fn plan_ingest(price: u64, timestamp: u64, previous: Option<u64>, low: Option<u64>) -> (r: (
    Classification,
    PriceObservation,
))
    ensures
        r.0 == classification_of(price, previous, low),
        r.1 == (PriceObservation { price, previous_price: previous, timestamp }),
        previous is None ==> r.0 == Classification::FirstObservation,
{
    (classify(price, previous, low), PriceObservation { price, previous_price: previous, timestamp })
}

/// Whether a classification calls for a notification.
pub fn should_notify(c: Classification) -> (r: bool)
    ensures
        r == notifies(c),
{
    match c {
        Classification::NoNotification | Classification::Error => false,
        _ => true,
    }
}

/// The append-only price history of one product.
pub struct PriceHistory {
    observations: Vec<PriceObservation>,
}

impl View for PriceHistory {
    type V = Seq<PriceObservation>;

    closed spec fn view(&self) -> Seq<PriceObservation> {
        self.observations@
    }
}

impl PriceHistory {
    /// Each observation carries the price of the one before it.
    pub open spec fn wf(&self) -> bool {
        is_linked(self@)
    }

    pub fn new() -> (r: PriceHistory)
        ensures
            r@.len() == 0,
            r.wf(),
    {
        PriceHistory { observations: Vec::new() }
    }

    pub fn len(&self) -> (r: usize)
        ensures
            r == self@.len(),
    {
        self.observations.len()
    }

    /// The observation at position `i`, oldest first.
    pub fn get(&self, i: usize) -> (r: PriceObservation)
        requires
            i < self@.len(),
        ensures
            r == self@[i as int],
    {
        self.observations[i]
    }

    /// Price of the latest observation, if any.
    pub fn previous_price(&self) -> (r: Option<u64>)
        ensures
            r == last_price_of(self@),
    {
        let n = self.observations.len();
        if n == 0 {
            Option::None
        } else {
            Option::Some(self.observations[n - 1].price)
        }
    }

    /// The earliest observation that holds the lowest price, if any.
    pub fn historical_low(&self) -> (r: Option<PriceObservation>)
        ensures
            r == low_entry_of(self@),
    {
        let mut best: Option<PriceObservation> = Option::None;
        let mut i: usize = 0;
        while i < self.observations.len()
            invariant
                i <= self@.len(),
                best == low_entry_of(self@.take(i as int)),
            decreases self@.len() - i,
        {
            let o = self.observations[i];
            proof {
                assert(self@.take(i + 1).drop_last() =~= self@.take(i as int));
            }
            best = match best {
                Option::None => Option::Some(o),
                Option::Some(e) => if o.price < e.price {
                    Option::Some(o)
                } else {
                    Option::Some(e)
                },
            };
            i = i + 1;
        }
        proof {
            assert(self@.take(i as int) =~= self@);
        }
        best
    }

    /// The lowest price recorded, if any.
    pub fn lowest_price(&self) -> (r: Option<u64>)
        ensures
            r == lowest_price_of(self@),
    {
        match self.historical_low() {
            Option::None => Option::None,
            Option::Some(e) => Option::Some(e.price),
        }
    }

    /// Records `price` observed at `timestamp` and classifies it against the
    /// history as it stood before.
    pub fn ingest(&mut self, price: u64, timestamp: u64) -> (r: (Classification, PriceObservation))
        requires
            old(self).wf(),
        ensures
            final(self).wf(),
            r.0 == ingest_class(old(self)@, price),
            r.1 == next_observation(old(self)@, price, timestamp),
            final(self)@ == ingested(old(self)@, price, timestamp),
    {
        let previous = self.previous_price();
        let low = self.lowest_price();
        let r = plan_ingest(price, timestamp, previous, low);
        self.observations.push(r.1);
        proof {
            let s = final(self)@;
            assert forall|i: int| 0 <= i < s.len() implies #[trigger] s[i].previous_price == if i == 0 {
                Option::<u64>::None
            } else {
                Option::Some(s[i - 1].price)
            } by {
                if i < s.len() - 1 {
                    assert(s[i] == old(self)@[i]);
                }
            }
        }
        r
    }
}

/// The lowest price of a non-empty history is held by one of its
/// observations and is no greater than any of them.
pub proof fn lemma_low_is_minimum(s: Seq<PriceObservation>)
    requires
        s.len() > 0,
    ensures
        low_entry_of(s) is Some,
        s.contains(low_entry_of(s)->0),
        forall|j: int| 0 <= j < s.len() ==> low_entry_of(s)->0.price <= #[trigger] s[j].price,
    decreases s.len(),
{
    let rest = s.drop_last();
    if rest.len() > 0 {
        lemma_low_is_minimum(rest);
        let e = low_entry_of(rest)->0;
        let k = choose|k: int| 0 <= k < rest.len() && rest[k] == e;
        assert(s[k] == e);
        assert forall|j: int| 0 <= j < s.len() implies low_entry_of(s)->0.price <= #[trigger] s[j].price by {
            if j < s.len() - 1 {
                assert(s[j] == rest[j]);
            }
        }
    }
    assert(s[s.len() - 1] == s.last());
}

/// A product with no prior observation gets `FirstObservation`, and its
/// recorded observation has no previous price.
pub proof fn lemma_first_observation(s: Seq<PriceObservation>, price: u64, timestamp: u64)
    requires
        s.len() == 0,
    ensures
        ingest_class(s, price) == Classification::FirstObservation,
        ingested(s, price, timestamp).last().previous_price is None,
{
}

/// After a run of ingestions, every observation but the first records the
/// price of the observation just before it.
pub proof fn lemma_previous_is_predecessor(prices: Seq<u64>, times: Seq<u64>)
    requires
        times.len() >= prices.len(),
    ensures
        replay(prices, times).len() == prices.len(),
        forall|n: int| 0 <= n < prices.len() ==> #[trigger] replay(prices, times)[n].price == prices[n],
        forall|n: int|
            0 < n < prices.len() ==> #[trigger] replay(prices, times)[n].previous_price == Option::Some(
                prices[n - 1],
            ),
        prices.len() > 0 ==> replay(prices, times)[0].previous_price is None,
    decreases prices.len(),
{
    if prices.len() > 0 {
        let p = prices.drop_last();
        lemma_previous_is_predecessor(p, times);
        let r = replay(prices, times);
        assert forall|n: int| 0 <= n < prices.len() implies #[trigger] r[n].price == prices[n] by {
            if n < prices.len() - 1 {
                assert(r[n] == replay(p, times)[n]);
                assert(p[n] == prices[n]);
            }
        }
        assert forall|n: int| 0 < n < prices.len() implies #[trigger] r[n].previous_price == Option::Some(
            prices[n - 1],
        ) by {
            if n < prices.len() - 1 {
                assert(r[n] == replay(p, times)[n]);
                assert(p[n - 1] == prices[n - 1]);
            } else {
                assert(replay(p, times)[n - 1].price == p[n - 1]);
            }
        }
    }
}

/// After a run of ingestions, the historical low is the smallest of all the
/// prices ingested.
pub proof fn lemma_low_after_run(prices: Seq<u64>, times: Seq<u64>)
    requires
        times.len() >= prices.len(),
        prices.len() > 0,
    ensures
        prices.contains(lowest_price_of(replay(prices, times))->0),
        forall|n: int| 0 <= n < prices.len() ==> lowest_price_of(replay(prices, times))->0 <= #[trigger] prices[n],
{
    lemma_previous_is_predecessor(prices, times);
    let r = replay(prices, times);
    lemma_low_is_minimum(r);
    let k = choose|k: int| 0 <= k < r.len() && r[k] == low_entry_of(r)->0;
    assert(r[k].price == prices[k]);
    assert forall|n: int| 0 <= n < prices.len() implies lowest_price_of(r)->0 <= #[trigger] prices[n] by {
        assert(r[n].price == prices[n]);
    }
}

/// Once a product has history, a new price that differs from the latest
/// one is a new historical low exactly when it is at or below the lowest
/// price so far; the historical low afterwards is the smaller of the two.
pub proof fn lemma_new_low_iff_at_or_below_minimum(s: Seq<PriceObservation>, price: u64, timestamp: u64)
    requires
        s.len() > 0,
        price != s.last().price,
    ensures
        ingest_class(s, price) == Classification::NewHistoricalLow <==> price <= lowest_price_of(s)->0,
        lowest_price_of(ingested(s, price, timestamp)) == Option::Some(
            if price < lowest_price_of(s)->0 { price } else { lowest_price_of(s)->0 },
        ),
{
    lemma_low_is_minimum(s);
    assert(s[s.len() - 1] == s.last());
    assert(ingested(s, price, timestamp).drop_last() =~= s);
}

} // verus!
