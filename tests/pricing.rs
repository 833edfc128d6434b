use price_tracker::notify::{difference_as_percentage, Percentage};

fn pct(negative: bool, hundredths: u128) -> Percentage {
    Percentage { negative, hundredths }
}
use price_tracker::pricing::{classify, plan_ingest, should_notify, Classification, PriceHistory};

fn run(prices: &[u64]) -> (PriceHistory, Vec<Classification>) {
    let mut h = PriceHistory::new();
    let mut cs = Vec::new();
    for (i, p) in prices.iter().enumerate() {
        let (c, _) = h.ingest(*p, 1_700_000_000 + i as u64);
        cs.push(c);
    }
    (h, cs)
}

#[test]
fn first_observation_has_no_previous_price() {
    let mut h = PriceHistory::new();
    let (c, o) = h.ingest(1999, 10);
    assert_eq!(c, Classification::FirstObservation);
    assert_eq!(o.previous_price, None);
    assert_eq!(h.len(), 1);
    assert_eq!(h.get(0), o);
}

#[test]
fn first_observation_of_zero_price() {
    let (_, cs) = run(&[0]);
    assert_eq!(cs, vec![Classification::FirstObservation]);
}

#[test]
fn previous_price_is_predecessor() {
    let prices = [500, 700, 300, 300, 900];
    let (h, _) = run(&prices);
    assert_eq!(h.get(0).previous_price, None);
    for n in 1..prices.len() {
        assert_eq!(h.get(n).previous_price, Some(prices[n - 1]));
        assert_eq!(h.get(n).price, prices[n]);
    }
}

#[test]
fn historical_low_is_minimum_of_all() {
    let prices = [900, 400, 700, 400, 800];
    let (h, _) = run(&prices);
    assert_eq!(h.lowest_price(), Some(400));
    let low = h.historical_low().unwrap();
    assert_eq!(low.price, 400);
    assert_eq!(low.timestamp, 1_700_000_001);
}

#[test]
fn new_low_fires_on_tie_with_minimum() {
    let (_, cs) = run(&[500, 800, 500]);
    assert_eq!(cs[2], Classification::NewHistoricalLow);
}

#[test]
fn decrease_above_low_is_plain_decrease() {
    let (_, cs) = run(&[500, 900, 700]);
    assert_eq!(cs[2], Classification::PriceDecreased);
}

#[test]
fn example_sequence_of_classifications() {
    let (h, cs) = run(&[1000, 800, 800, 1200, 500]);
    assert_eq!(
        cs,
        vec![
            Classification::FirstObservation,
            Classification::NewHistoricalLow,
            Classification::NoNotification,
            Classification::PriceIncreased,
            Classification::NewHistoricalLow,
        ]
    );
    let pcts: Vec<Option<Percentage>> = (0..5)
        .map(|i| {
            let o = h.get(i);
            match cs[i] {
                Classification::NoNotification | Classification::FirstObservation => None,
                _ => Some(difference_as_percentage(o.price, o.previous_price.unwrap())),
            }
        })
        .collect();
    assert_eq!(pcts, vec![None, Some(pct(false, 2000)), None, Some(pct(true, 5000)), Some(pct(false, 5833))]);
}

#[test]
fn classify_rule() {
    assert_eq!(classify(10, None, None), Classification::FirstObservation);
    assert_eq!(classify(10, Some(10), Some(5)), Classification::NoNotification);
    assert_eq!(classify(11, Some(10), Some(5)), Classification::PriceIncreased);
    assert_eq!(classify(9, Some(10), Some(5)), Classification::PriceDecreased);
    assert_eq!(classify(5, Some(10), Some(5)), Classification::NewHistoricalLow);
    assert_eq!(classify(4, Some(10), None), Classification::NewHistoricalLow);
}

#[test]
fn plan_ingest_keeps_previous_price() {
    let (c, o) = plan_ingest(250, 42, Some(300), Some(200));
    assert_eq!(c, Classification::PriceDecreased);
    assert_eq!(o.previous_price, Some(300));
    assert_eq!(o.timestamp, 42);
    let (c, o) = plan_ingest(0, 1, None, None);
    assert_eq!(c, Classification::FirstObservation);
    assert_eq!(o.previous_price, None);
}

#[test]
fn notify_gate() {
    assert!(should_notify(Classification::FirstObservation));
    assert!(should_notify(Classification::PriceIncreased));
    assert!(should_notify(Classification::PriceDecreased));
    assert!(should_notify(Classification::NewHistoricalLow));
    assert!(!should_notify(Classification::NoNotification));
    assert!(!should_notify(Classification::Error));
}

#[test]
fn percentage_edges() {
    assert_eq!(difference_as_percentage(500, 0), pct(false, 10000));
    assert_eq!(difference_as_percentage(0, 0), pct(false, 10000));
    assert_eq!(difference_as_percentage(120, 100), pct(true, 2000));
    assert_eq!(difference_as_percentage(100, 100), pct(true, 0));
    assert_eq!(difference_as_percentage(80, 100), pct(false, 2000));
    assert_eq!(difference_as_percentage(2, 3), pct(false, 3333));
    assert_eq!(difference_as_percentage(1, 3), pct(false, 6667));
    assert!(difference_as_percentage(u64::MAX, 1).negative);
    assert_eq!(difference_as_percentage(99_999, 100_000), pct(false, 0));
    assert_eq!(difference_as_percentage(100_001, 100_000), pct(true, 0));
    assert_eq!(difference_as_percentage(99_950, 100_000), pct(false, 5));
    assert_eq!(difference_as_percentage(0, 100), pct(false, 10000));
}
