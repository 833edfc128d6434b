use price_tracker::notify::{
    format_notification, get_webhook_colour, Percentage, heading, image_url, low_footer, Delivery, Dispatch,
};
use price_tracker::pricing::{Classification, PriceHistory, PriceObservation};
use price_tracker::run::{ingest_page, process_reading, Failure, ProductOutcome, ScrapeRun, TrackedProduct};
use price_tracker::sites::{resolve, SiteError};

fn product(id: u64, link: &str) -> TrackedProduct {
    TrackedProduct {
        product_id: id,
        site_id: 1,
        link: link.to_string(),
        name: format!("Game {id}"),
        image_file: Some(format!("{id}.png")),
    }
}

#[test]
fn colours_by_classification() {
    assert_eq!(get_webhook_colour(Classification::NoNotification), 0xFFFFFF);
    assert_eq!(get_webhook_colour(Classification::PriceDecreased), 0x77dd77);
    assert_eq!(get_webhook_colour(Classification::NewHistoricalLow), 0x77dd77);
    assert_eq!(get_webhook_colour(Classification::PriceIncreased), 0xdd7777);
    assert_eq!(get_webhook_colour(Classification::FirstObservation), 0xdddd77);
    assert_eq!(get_webhook_colour(Classification::Error), 0x865AB3);
}

#[test]
fn headings() {
    assert_eq!(heading(Classification::NewHistoricalLow), "NEW HISTORICAL LOW");
    assert_eq!(heading(Classification::FirstObservation), "PRICE FOUND");
    assert_eq!(heading(Classification::NoNotification), "");
}

#[test]
fn footer_difference() {
    let cur = PriceObservation { price: 700, previous_price: Some(900), timestamp: 5 };
    let low = PriceObservation { price: 600, previous_price: None, timestamp: 1 };
    let f = low_footer(cur, Some(low)).unwrap();
    assert_eq!(f.low_price, 600);
    assert_eq!(f.low_timestamp, 1);
    assert_eq!(f.difference, 100);
    assert_eq!(low_footer(cur, None), None);
    let above = PriceObservation { price: 1200, previous_price: Some(1000), timestamp: 6 };
    let low = PriceObservation { price: 800, previous_price: None, timestamp: 2 };
    assert_eq!(low_footer(above, Some(low)).unwrap().difference, 400);
}

#[test]
fn no_content_without_change() {
    let p = product(1, "https://www.cdkeys.com/a");
    let cur = PriceObservation { price: 700, previous_price: Some(700), timestamp: 5 };
    assert!(format_notification(&p, Classification::NoNotification, cur, None, None).is_none());
    assert!(format_notification(&p, Classification::Error, cur, None, None).is_none());
}

#[test]
fn content_of_a_decrease() {
    let p = product(1, "https://www.cdkeys.com/a");
    let cur = PriceObservation { price: 800, previous_price: Some(1000), timestamp: 5 };
    let low = PriceObservation { price: 750, previous_price: None, timestamp: 1 };
    let n = format_notification(&p, Classification::PriceDecreased, cur, Some(low), Some("1.png".to_string()))
        .unwrap();
    assert_eq!(n.title, "Game 1");
    assert_eq!(n.url, "https://www.cdkeys.com/a");
    assert_eq!(n.heading, "PRICE DECREASED");
    assert_eq!(n.percentage, Some(Percentage { negative: false, hundredths: 2000 }));
    assert_eq!(n.colour, 0x77dd77);
    assert_eq!(n.footer.unwrap().difference, 50);
    assert_eq!(n.image_file.as_deref(), Some("1.png"));
}

#[test]
fn image_url_joins_with_slash() {
    assert_eq!(image_url("https://img.example", "7.png"), "https://img.example/7.png");
}

#[test]
fn failed_endpoint_does_not_block_next() {
    let p = product(1, "https://www.cdkeys.com/a");
    let (_, _, content) = process_reading(&p, 900, 2, None, None);
    let mut d = Dispatch::new(content.as_ref(), vec!["https://a.example/hook".to_string(), "https://b.example/hook".to_string()]);
    assert_eq!(d.next_endpoint().as_deref(), Some("https://a.example/hook"));
    d.record(Delivery::Failed);
    assert_eq!(d.next_endpoint().as_deref(), Some("https://b.example/hook"));
    d.record(Delivery::Sent);
    assert!(d.is_done());
    assert_eq!(d.next_endpoint(), None);
}

#[test]
fn no_dispatch_without_content() {
    let d = Dispatch::new(None, vec!["https://a.example/hook".to_string()]);
    assert!(d.is_done());
    assert_eq!(d.next_endpoint(), None);
}

#[test]
fn unsupported_product_does_not_stop_run() {
    let products = vec![
        product(1, "https://www.unknownstore.example/item"),
        product(2, "https://www.cdkeys.com/b"),
    ];
    let mut r = ScrapeRun::new(products);
    let i = r.next_product().unwrap();
    assert_eq!(i, 0);
    let e = resolve(&r.product(i).link).unwrap_err();
    assert_eq!(e, SiteError::UnsupportedSite);
    r.record(ProductOutcome::Failed(Failure::Site(e)));
    let j = r.next_product().unwrap();
    assert_eq!(j, 1);
    assert_eq!(r.product(j).product_id, 2);
    assert!(resolve(&r.product(j).link).is_ok());
    r.record(ProductOutcome::Ingested(Classification::FirstObservation));
    assert!(r.is_done());
    assert_eq!(r.next_product(), None);
}

#[test]
fn process_reading_first_price() {
    let p = product(3, "https://www.cdkeys.com/c");
    let (c, o, n) = process_reading(&p, 1299, 9, None, None);
    assert_eq!(c, Classification::FirstObservation);
    assert_eq!(o.previous_price, None);
    let n = n.unwrap();
    assert_eq!(n.percentage, None);
    assert_eq!(n.footer, None);
    assert_eq!(n.image_file.as_deref(), Some("3.png"));
}

#[test]
fn process_reading_unchanged_price() {
    let p = product(3, "https://www.cdkeys.com/c");
    let low = PriceObservation { price: 1000, previous_price: None, timestamp: 1 };
    let (c, o, n) = process_reading(&p, 1299, 9, Some(1299), Some(low));
    assert_eq!(c, Classification::NoNotification);
    assert_eq!(o.previous_price, Some(1299));
    assert!(n.is_none());
}

#[test]
fn unsupported_site_records_nothing() {
    let mut h = PriceHistory::new();
    let page = r#"<meta property="product:price:amount" content="5.00">"#;
    let r = ingest_page(&mut h, "https://www.unknownstore.example/item", page, 1);
    assert_eq!(r.err(), Some(SiteError::UnsupportedSite));
    assert_eq!(h.len(), 0);
    let r = ingest_page(&mut h, "https://www.cdkeys.com/item", page, 2).ok().unwrap();
    assert_eq!(r.0, Classification::FirstObservation);
    assert_eq!(r.1.price, 500);
    assert_eq!(h.len(), 1);
}
