//! A scrape run over every tracked product, in order, where one product's
//! failure never ends the run.
use vstd::prelude::*;
use crate::notify::{
    NotificationContent, colour_of, footer_of, format_notification, heading_of, shown_percentage,
};
use crate::pricing::{
    Classification, PriceHistory, PriceObservation, classification_of, ingest_class, ingested,
    next_observation, notifies, plan_ingest,
};
use crate::sites::{SiteError, opt_view, resolution, resolve, scrape, scrape_result};

verus! {

/// A product being monitored.
pub struct TrackedProduct {
    pub product_id: u64,
    pub site_id: u64,
    /// The product page.
    pub link: String,
    /// The name shown in notifications.
    pub name: String,
    /// The saved image file, if any.
    pub image_file: Option<String>,
}

/// Why one product of a run was not processed to the end.
#[derive(Clone, Copy, Debug, PartialEq, Eq, Structural)]
pub enum Failure {
    Site(SiteError),
    StorageFailed,
}

/// How one product of a run ended.
#[derive(Clone, Copy, Debug, PartialEq, Eq, Structural)]
pub enum ProductOutcome {
    Ingested(Classification),
    Failed(Failure),
}

/// The product a run turns to next: products are taken in order, one after
/// each recorded outcome, whatever the outcome was.
pub open spec fn next_index(count: nat, outcomes: Seq<ProductOutcome>) -> Option<nat> {
    if outcomes.len() < count {
        Option::Some(outcomes.len())
    } else {
        Option::None
    }
}

/// The state of a run over the tracked products.
pub struct ScrapeRun {
    products: Vec<TrackedProduct>,
    outcomes: Vec<ProductOutcome>,
}

impl ScrapeRun {
    pub closed spec fn count(&self) -> nat {
        self.products@.len()
    }

    pub closed spec fn product_at(&self, i: int) -> TrackedProduct {
        self.products@[i]
    }

    /// The outcome of each product handled so far, in order.
    pub closed spec fn outcomes(&self) -> Seq<ProductOutcome> {
        self.outcomes@
    }

    pub open spec fn wf(&self) -> bool {
        self.outcomes().len() <= self.count()
    }

    /// A run over `products`, in the order given.
    pub fn new(products: Vec<TrackedProduct>) -> (r: ScrapeRun)
        ensures
            r.wf(),
            r.count() == products@.len(),
            forall|i: int| 0 <= i < products@.len() ==> r.product_at(i) == products@[i],
            r.outcomes().len() == 0,
    {
        ScrapeRun { products, outcomes: Vec::new() }
    }

    /// The position of the product to handle next, or `None` at the end.
    pub fn next_product(&self) -> (r: Option<usize>)
        requires
            self.wf(),
        ensures
            match r {
                Option::Some(i) => next_index(self.count(), self.outcomes()) == Option::Some(i as nat),
                Option::None => next_index(self.count(), self.outcomes()) is None,
            },
    {
        if self.outcomes.len() < self.products.len() {
            Option::Some(self.outcomes.len())
        } else {
            Option::None
        }
    }

    /// The product at position `i`.
    pub fn product(&self, i: usize) -> (r: &TrackedProduct)
        requires
            i < self.count(),
        ensures
            *r == self.product_at(i as int),
    {
        &self.products[i]
    }

    /// Records how the current product ended and moves to the next.
    pub fn record(&mut self, outcome: ProductOutcome)
        requires
            old(self).wf(),
            old(self).outcomes().len() < old(self).count(),
        ensures
            final(self).wf(),
            final(self).count() == old(self).count(),
            forall|i: int| 0 <= i < old(self).count() ==> final(self).product_at(i) == old(self).product_at(i),
            final(self).outcomes() == old(self).outcomes().push(outcome),
    {
        self.outcomes.push(outcome);
    }

    /// Whether every product has been handled.
    pub fn is_done(&self) -> (r: bool)
        requires
            self.wf(),
        ensures
            r <==> self.outcomes().len() == self.count(),
    {
        self.outcomes.len() == self.products.len()
    }
}

/// `n` is the notification for `product` of classification `c`, for the
/// observation `o` and the historical low `low` before it.
pub open spec fn content_for(
    n: NotificationContent,
    product: TrackedProduct,
    c: Classification,
    o: PriceObservation,
    low: Option<PriceObservation>,
) -> bool {
    &&& n.classification == c
    &&& n.price == o.price
    &&& n.previous_price == o.previous_price
    &&& n.title@ == product.name@
    &&& n.url@ == product.link@
    &&& n.heading@ == heading_of(c)
    &&& n.percentage == shown_percentage(c, o)
    &&& n.colour == colour_of(c)
    &&& n.footer == footer_of(o, low)
    &&& opt_view(n.image_file) == opt_view(product.image_file)
}

pub open spec fn low_price_of(low: Option<PriceObservation>) -> Option<u64> {
    match low {
        Option::Some(l) => Option::Some(l.price),
        Option::None => Option::None,
    }
}

/// Where the handling of one product stands: each step names the outside
/// work to do next.
pub enum Step {
    /// Fetch the product page.
    Fetch,
    /// Read the product's latest and lowest prior prices; the page showed
    /// this price.
    ReadHistory(u64),
    /// Append the observation; the notification follows once it is stored.
    Append(Classification, PriceObservation, Option<NotificationContent>),
    /// Deliver the notification to every subscribed endpoint.
    Notify(Classification, NotificationContent),
    /// Handling is over.
    Finished(ProductOutcome),
}

/// What the outside work of a step gave.
pub enum Event {
    PageFetched(String),
    FetchFailed,
    HistoryRead(Option<u64>, Option<PriceObservation>),
    StorageFailed,
    Appended,
    Delivered,
}

/// The first step for `product`: a link that resolves to no adapter ends
/// its handling before anything is fetched.
pub fn begin_product(product: &TrackedProduct) -> (r: Step)
    ensures
        match resolution(product.link@) {
            Result::Err(e) => r == Step::Finished(ProductOutcome::Failed(Failure::Site(e))),
            Result::Ok(_) => r == Step::Fetch,
        },
{
    match resolve(product.link.as_str()) {
        Result::Err(e) => Step::Finished(ProductOutcome::Failed(Failure::Site(e))),
        Result::Ok(_) => Step::Fetch,
    }
}

/// The step that follows `step` once its outside work gave `event`;
/// `timestamp` is when the page was read. A storage failure ends the
/// product's handling, and no notification follows it. An event that does
/// not answer the step leaves it unchanged.
pub fn advance(product: &TrackedProduct, step: Step, event: Event, timestamp: u64) -> (r: Step)
    ensures
        match (step, event) {
            (Step::Fetch, Event::PageFetched(page)) => match scrape_result(product.link@, page@) {
                Result::Err(e) => r == Step::Finished(ProductOutcome::Failed(Failure::Site(e))),
                Result::Ok(p) => r == Step::ReadHistory(p),
            },
            (Step::Fetch, Event::FetchFailed) => r == Step::Finished(
                ProductOutcome::Failed(Failure::Site(SiteError::FetchFailed)),
            ),
            (Step::ReadHistory(p), Event::HistoryRead(prev, low)) => r matches Step::Append(
                c,
                o,
                content,
            ) && c == classification_of(p, prev, low_price_of(low)) && o == (PriceObservation {
                price: p,
                previous_price: prev,
                timestamp,
            }) && (content is Some <==> notifies(c)) && (content matches Option::Some(n)
                ==> content_for(n, *product, c, o, low)),
            (Step::ReadHistory(_), Event::StorageFailed) | (Step::Append(_, _, _), Event::StorageFailed)
            | (Step::Notify(_, _), Event::StorageFailed) => r == Step::Finished(
                ProductOutcome::Failed(Failure::StorageFailed),
            ),
            (Step::Append(c, _, Option::Some(n)), Event::Appended) => r == Step::Notify(c, n),
            (Step::Append(c, _, Option::None), Event::Appended) => r == Step::Finished(
                ProductOutcome::Ingested(c),
            ),
            (Step::Notify(c, _), Event::Delivered) => r == Step::Finished(ProductOutcome::Ingested(c)),
            _ => r == step,
        },
{
    match (step, event) {
        (Step::Fetch, Event::PageFetched(page)) => match scrape(product.link.as_str(), page.as_str()) {
            Result::Err(e) => Step::Finished(ProductOutcome::Failed(Failure::Site(e))),
            Result::Ok(p) => Step::ReadHistory(p),
        },
        (Step::Fetch, Event::FetchFailed) => Step::Finished(
            ProductOutcome::Failed(Failure::Site(SiteError::FetchFailed)),
        ),
        (Step::ReadHistory(p), Event::HistoryRead(prev, low)) => {
            let (c, o, content) = process_reading(product, p, timestamp, prev, low);
            Step::Append(c, o, content)
        },
        (Step::ReadHistory(_), Event::StorageFailed) => Step::Finished(
            ProductOutcome::Failed(Failure::StorageFailed),
        ),
        (Step::Append(_, _, _), Event::StorageFailed) => Step::Finished(
            ProductOutcome::Failed(Failure::StorageFailed),
        ),
        (Step::Notify(_, _), Event::StorageFailed) => Step::Finished(
            ProductOutcome::Failed(Failure::StorageFailed),
        ),
        (Step::Append(c, _, Option::Some(n)), Event::Appended) => Step::Notify(c, n),
        (Step::Append(c, _, Option::None), Event::Appended) => Step::Finished(ProductOutcome::Ingested(c)),
        (Step::Notify(c, _), Event::Delivered) => Step::Finished(ProductOutcome::Ingested(c)),
        (step, _) => step,
    }
}

/// What follows a price reading for `product`, given what the store holds
/// of its history: the classification, the observation to record, and the
/// notification to dispatch, if any.
pub fn process_reading(
    product: &TrackedProduct,
    price: u64,
    timestamp: u64,
    previous: Option<u64>,
    low: Option<PriceObservation>,
) -> (r: (Classification, PriceObservation, Option<NotificationContent>))
    ensures
        r.0 == classification_of(
            price,
            previous,
            match low {
                Option::Some(l) => Option::Some(l.price),
                Option::None => Option::None,
            },
        ),
        r.1 == (PriceObservation { price, previous_price: previous, timestamp }),
        r.2 is Some <==> notifies(r.0),
        r.2 matches Option::Some(n) ==> content_for(n, *product, r.0, r.1, low),
{
    let low_price = match low {
        Option::Some(l) => Option::Some(l.price),
        Option::None => Option::None,
    };
    let (c, obs) = plan_ingest(price, timestamp, previous, low_price);
    let image = product.image_file.clone();
    let content = format_notification(product, c, obs, low, image);
    (c, obs, content)
}

/// Reads the price on `page`, fetched from `url`, and records it in
/// `history`; where the link or the page yields no price, nothing is
/// recorded.
pub fn ingest_page(history: &mut PriceHistory, url: &str, page: &str, timestamp: u64) -> (r: Result<
    (Classification, PriceObservation),
    SiteError,
>)
    requires
        old(history).wf(),
    ensures
        final(history).wf(),
        match scrape_result(url@, page@) {
            Result::Err(e) => r == Result::<(Classification, PriceObservation), SiteError>::Err(e)
                && final(history)@ == old(history)@,
            Result::Ok(p) => r == Result::<(Classification, PriceObservation), SiteError>::Ok(
                (ingest_class(old(history)@, p), next_observation(old(history)@, p, timestamp)),
            ) && final(history)@ == ingested(old(history)@, p, timestamp),
        },
{
    match scrape(url, page) {
        Result::Err(e) => Result::Err(e),
        Result::Ok(price) => Result::Ok(history.ingest(price, timestamp)),
    }
}

/// A product whose link resolves to no adapter does not stop the run: the
/// next product in the list is handled after it, as after a success.
pub proof fn lemma_failed_product_does_not_stop_run(count: nat, outcomes: Seq<ProductOutcome>, e: SiteError)
    requires
        outcomes.len() + 1 < count,
    ensures
        next_index(count, outcomes.push(ProductOutcome::Failed(Failure::Site(e)))) == Option::Some(
            outcomes.len() + 1,
        ),
        next_index(count, outcomes.push(ProductOutcome::Failed(Failure::Site(e)))) == next_index(
            count,
            outcomes.push(ProductOutcome::Ingested(Classification::NoNotification)),
        ),
{
}

} // verus!
