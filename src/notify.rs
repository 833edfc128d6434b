//! What a notification says about a price change, and the delivery of one
//! notification to every endpoint subscribed to the product.
use vstd::prelude::*;
use crate::pricing::{Classification, PriceObservation, notifies};
use crate::run::TrackedProduct;
use crate::sites::opt_view;

verus! {

/// The embed colour for each classification.
pub open spec fn colour_of(c: Classification) -> u32 {
    match c {
        Classification::NoNotification => 0xFFFFFF,
        Classification::PriceDecreased | Classification::NewHistoricalLow => 0x77dd77,
        Classification::PriceIncreased => 0xdd7777,
        Classification::FirstObservation => 0xdddd77,
        Classification::Error => 0x865AB3,
    }
}

/// A signed percentage: its sign, and its size in hundredths of a percent.
/// The sign is kept even where the size rounds to zero.
#[derive(Clone, Copy, Debug, PartialEq, Eq, Structural)]
pub struct Percentage {
    pub negative: bool,
    pub hundredths: u128,
}

/// The change from `old` to `new` as a percentage of `old`, its size
/// rounded half away from zero to a hundredth of a percent. It is 100%
/// where `old` is zero; otherwise it is negative exactly when the price did
/// not fall.
pub open spec fn percentage_of(new_price: u64, old_price: u64) -> Percentage {
    if old_price == 0 {
        Percentage { negative: false, hundredths: 10000 }
    } else {
        let d: int = if new_price >= old_price {
            new_price - old_price
        } else {
            old_price - new_price
        };
        Percentage {
            negative: new_price >= old_price,
            hundredths: ((20000 * d + old_price) / (2 * old_price as int)) as u128,
        }
    }
}

/// The heading of a notification's body.
pub open spec fn heading_of(c: Classification) -> Seq<char> {
    match c {
        Classification::FirstObservation => "PRICE FOUND"@,
        Classification::PriceIncreased => "PRICE INCREASED"@,
        Classification::PriceDecreased => "PRICE DECREASED"@,
        Classification::NewHistoricalLow => "NEW HISTORICAL LOW"@,
        _ => Seq::empty(),
    }
}

/// The colour that a notification of this classification is shown in.
pub fn get_webhook_colour(c: Classification) -> (r: u32)
    ensures
        r == colour_of(c),
{
    match c {
        Classification::NoNotification => 0xFFFFFF,
        Classification::PriceDecreased | Classification::NewHistoricalLow => 0x77dd77,
        Classification::PriceIncreased => 0xdd7777,
        Classification::FirstObservation => 0xdddd77,
        Classification::Error => 0x865AB3,
    }
}

/// The signed percentage change from `old_price` to `new_price`.
pub fn difference_as_percentage(new_price: u64, old_price: u64) -> (r: Percentage)
    ensures
        r == percentage_of(new_price, old_price),
        old_price == 0 ==> r == (Percentage { negative: false, hundredths: 10000 }),
        old_price > 0 ==> (r.negative <==> new_price >= old_price),
        new_price < old_price ==> !r.negative && r.hundredths <= 10000,
{
    if old_price == 0 {
        return Percentage { negative: false, hundredths: 10000 };
    }
    let d: u64 = if new_price >= old_price {
        new_price - old_price
    } else {
        old_price - new_price
    };
    let num: u128 = 20000 * (d as u128) + old_price as u128;
    let den: u128 = 2 * (old_price as u128);
    let magnitude: u128 = num / den;
    proof {
        if new_price < old_price {
            assert(num < 10001 * den) by (nonlinear_arith)
                requires
                    den == 2 * old_price,
                    num == 20000 * d + old_price,
                    d <= old_price,
                    old_price > 0,
            ;
            assert(magnitude <= 10000) by (nonlinear_arith)
                requires
                    magnitude == num / den,
                    num < 10001 * den,
                    den > 0,
            ;
        }
    }
    Percentage { negative: new_price >= old_price, hundredths: magnitude }
}

/// The heading of a notification's body.
pub fn heading(c: Classification) -> (r: &'static str)
    ensures
        r@ == heading_of(c),
{
    proof {
        reveal_strlit("PRICE FOUND");
        reveal_strlit("PRICE INCREASED");
        reveal_strlit("PRICE DECREASED");
        reveal_strlit("NEW HISTORICAL LOW");
        reveal_strlit("");
    }
    match c {
        Classification::FirstObservation => "PRICE FOUND",
        Classification::PriceIncreased => "PRICE INCREASED",
        Classification::PriceDecreased => "PRICE DECREASED",
        Classification::NewHistoricalLow => "NEW HISTORICAL LOW",
        _ => "",
    }
}

/// The footer of a notification: the historical low, when it occurred, and
/// how far it is from the current price.
#[derive(Clone, Copy, Debug, PartialEq, Eq, Structural)]
pub struct LowFooter {
    pub low_price: u64,
    pub low_timestamp: u64,
    /// The absolute difference between the historical low and the current
    /// price, in pence.
    pub difference: u64,
}

/// Everything a notification shows; rendering it as text is left to the
/// transport.
pub struct NotificationContent {
    pub title: String,
    pub url: String,
    pub classification: Classification,
    pub heading: &'static str,
    pub price: u64,
    /// The price before this change; absent for a first observation.
    pub previous_price: Option<u64>,
    /// The signed change, where a previous price exists and the
    /// classification is a change.
    pub percentage: Option<Percentage>,
    pub colour: u32,
    pub footer: Option<LowFooter>,
    /// The saved image file of the product, if any.
    pub image_file: Option<String>,
}

/// The footer for the current price and the historical low.
pub open spec fn footer_of(current: PriceObservation, low: Option<PriceObservation>) -> Option<LowFooter> {
    match low {
        Option::None => Option::None,
        Option::Some(l) => Option::Some(
            LowFooter {
                low_price: l.price,
                low_timestamp: l.timestamp,
                difference: if l.price >= current.price {
                    (l.price - current.price) as u64
                } else {
                    (current.price - l.price) as u64
                },
            },
        ),
    }
}

/// The percentage shown for a change.
pub open spec fn shown_percentage(c: Classification, current: PriceObservation) -> Option<Percentage> {
    match c {
        Classification::PriceIncreased | Classification::PriceDecreased
        | Classification::NewHistoricalLow => match current.previous_price {
            Option::Some(p) => Option::Some(percentage_of(current.price, p)),
            Option::None => Option::None,
        },
        _ => Option::None,
    }
}

/// The footer of a notification.
pub fn low_footer(current: PriceObservation, low: Option<PriceObservation>) -> (r: Option<LowFooter>)
    ensures
        r == footer_of(current, low),
{
    match low {
        Option::None => Option::None,
        Option::Some(l) => Option::Some(
            LowFooter {
                low_price: l.price,
                low_timestamp: l.timestamp,
                difference: if l.price >= current.price {
                    l.price - current.price
                } else {
                    current.price - l.price
                },
            },
        ),
    }
}

/// The notification for one ingestion, or `None` where the classification
/// calls for none. `low` is the historical low as it stood before `current`.
pub fn format_notification(
    product: &TrackedProduct,
    c: Classification,
    current: PriceObservation,
    low: Option<PriceObservation>,
    image_file: Option<String>,
) -> (r: Option<NotificationContent>)
    ensures
        r is None <==> !notifies(c),
        r matches Option::Some(n) ==> {
            &&& n.title@ == product.name@
            &&& n.url@ == product.link@
            &&& n.classification == c
            &&& n.heading@ == heading_of(c)
            &&& n.price == current.price
            &&& n.previous_price == current.previous_price
            &&& n.percentage == shown_percentage(c, current)
            &&& n.colour == colour_of(c)
            &&& n.footer == footer_of(current, low)
            &&& n.image_file == image_file
        },
{
    match c {
        Classification::NoNotification | Classification::Error => return Option::None,
        _ => {},
    }
    let percentage = match c {
        Classification::PriceIncreased | Classification::PriceDecreased
        | Classification::NewHistoricalLow => match current.previous_price {
            Option::Some(p) => Option::Some(difference_as_percentage(current.price, p)),
            Option::None => Option::None,
        },
        _ => Option::None,
    };
    Option::Some(
        NotificationContent {
            title: product.name.clone(),
            url: product.link.clone(),
            classification: c,
            heading: heading(c),
            price: current.price,
            previous_price: current.previous_price,
            percentage,
            colour: get_webhook_colour(c),
            footer: low_footer(current, low),
            image_file,
        },
    )
}

/// The address under which a product's saved image is served.
pub fn image_url(base: &str, file: &str) -> (r: String)
    ensures
        r@ == base@ + "/"@ + file@,
{
    let mut url = base.to_owned();
    url.append("/");
    url.append(file);
    url
}

/// How one delivery attempt went.
#[derive(Clone, Copy, Debug, PartialEq, Eq, Structural)]
pub enum Delivery {
    Sent,
    Failed,
}

/// The endpoint that a dispatch goes to next: attempts are made in order,
/// one per endpoint, whatever the earlier ones returned.
pub open spec fn next_target(targets: Seq<Seq<char>>, outcomes: Seq<Delivery>) -> Option<Seq<char>> {
    if outcomes.len() < targets.len() {
        Option::Some(targets[outcomes.len() as int])
    } else {
        Option::None
    }
}

/// The delivery of one notification to every subscribed endpoint.
pub struct Dispatch {
    targets: Vec<String>,
    outcomes: Vec<Delivery>,
}

impl Dispatch {
    /// The endpoints that delivery is attempted to.
    pub closed spec fn targets(&self) -> Seq<Seq<char>> {
        self.targets@.map_values(|s: String| s@)
    }

    /// The outcome of each attempt so far, in order.
    pub closed spec fn outcomes(&self) -> Seq<Delivery> {
        self.outcomes@
    }

    pub open spec fn wf(&self) -> bool {
        self.outcomes().len() <= self.targets().len()
    }

    /// Starts a dispatch of `content` to `endpoints`; with no content there
    /// is nothing to deliver and no endpoint is tried.
    pub fn new(content: Option<&NotificationContent>, endpoints: Vec<String>) -> (r: Dispatch)
        ensures
            r.wf(),
            r.outcomes().len() == 0,
            content is None ==> r.targets().len() == 0,
            content is Some ==> r.targets() == endpoints@.map_values(|s: String| s@),
    {
        let targets = match content {
            Option::None => Vec::new(),
            Option::Some(_) => endpoints,
        };
        let r = Dispatch { targets, outcomes: Vec::new() };
        proof {
            if content is None {
                assert(r.targets() =~= Seq::<Seq<char>>::empty());
            }
        }
        r
    }

    /// The endpoint to attempt next, or `None` when every endpoint has been
    /// attempted.
    pub fn next_endpoint(&self) -> (r: Option<String>)
        requires
            self.wf(),
        ensures
            opt_view(r) == next_target(self.targets(), self.outcomes()),
    {
        if self.outcomes.len() < self.targets.len() {
            Option::Some(self.targets[self.outcomes.len()].clone())
        } else {
            Option::None
        }
    }

    /// Records how the attempt to the current endpoint went.
    pub fn record(&mut self, d: Delivery)
        requires
            old(self).wf(),
            old(self).outcomes().len() < old(self).targets().len(),
        ensures
            final(self).wf(),
            final(self).targets() == old(self).targets(),
            final(self).outcomes() == old(self).outcomes().push(d),
    {
        self.outcomes.push(d);
    }

    /// Whether every endpoint has been attempted.
    pub fn is_done(&self) -> (r: bool)
        requires
            self.wf(),
        ensures
            r <==> self.outcomes().len() == self.targets().len(),
    {
        self.outcomes.len() == self.targets.len()
    }
}

/// A failed delivery does not stop the dispatch: after any outcomes, the
/// next endpoint in line is attempted, the same as after a success.
pub proof fn lemma_failure_does_not_block(targets: Seq<Seq<char>>, outcomes: Seq<Delivery>)
    requires
        outcomes.len() + 1 < targets.len(),
    ensures
        next_target(targets, outcomes.push(Delivery::Failed)) == Option::Some(
            targets[outcomes.len() as int + 1],
        ),
        next_target(targets, outcomes.push(Delivery::Failed)) == next_target(
            targets,
            outcomes.push(Delivery::Sent),
        ),
{
}

} // verus!
