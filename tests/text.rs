use price_tracker::notify::{format_notification, LowFooter, Percentage};
use price_tracker::pricing::{Classification, PriceObservation};
use price_tracker::run::TrackedProduct;
use price_tracker::text::{money_text, notification_body, notification_footer, percentage_string};

fn game() -> TrackedProduct {
    TrackedProduct {
        product_id: 1,
        site_id: 1,
        link: "https://www.cdkeys.com/g".to_string(),
        name: "G".to_string(),
        image_file: None,
    }
}

#[test]
fn money_amounts() {
    assert_eq!(money_text(0), "0.00");
    assert_eq!(money_text(5), "0.05");
    assert_eq!(money_text(1299), "12.99");
    assert_eq!(money_text(100000), "1000.00");
    assert_eq!(money_text(u64::MAX), "184467440737095516.15");
}

#[test]
fn percentage_strings() {
    let p = |negative, hundredths| Percentage { negative, hundredths };
    assert_eq!(percentage_string(p(true, 5000)), "-50.00");
    assert_eq!(percentage_string(p(false, 5833)), "58.33");
    assert_eq!(percentage_string(p(false, 0)), "0.00");
    assert_eq!(percentage_string(p(true, 0)), "-0.00");
    assert_eq!(percentage_string(p(true, 7)), "-0.07");
}

#[test]
fn body_of_first_price() {
    let cur = PriceObservation { price: 1299, previous_price: None, timestamp: 1 };
    let n = format_notification(&game(), Classification::FirstObservation, cur, None, None).unwrap();
    assert_eq!(notification_body(&n), "**PRICE FOUND**\n£12.99");
}

#[test]
fn body_of_increase() {
    let cur = PriceObservation { price: 1200, previous_price: Some(800), timestamp: 1 };
    let n = format_notification(&game(), Classification::PriceIncreased, cur, None, None).unwrap();
    assert_eq!(notification_body(&n), "**PRICE INCREASED**\n**£12.00** changed from £8.00 | -50.00%");
}

#[test]
fn body_of_new_low() {
    let cur = PriceObservation { price: 500, previous_price: Some(1200), timestamp: 1 };
    let n = format_notification(&game(), Classification::NewHistoricalLow, cur, None, None).unwrap();
    assert_eq!(notification_body(&n), "**NEW HISTORICAL LOW**\n**£5.00** changed from £12.00 | 58.33%");
}

#[test]
fn footer_text_with_low() {
    let f = LowFooter { low_price: 800, low_timestamp: 0, difference: 400 };
    assert_eq!(
        notification_footer(Some(f), "01-01-2024"),
        "Historical low: £8.00, which occurred on: 01-01-2024 Difference of: £4.00"
    );
    assert_eq!(notification_footer(None, "x"), "");
}
