use price_tracker::price_text::parse_pence;
use price_tracker::sites::{
    accept_image, any_out_of_stock, join_each, join_pieces, trim_text, choose_edition, description_from, trim_platform, image_from_kind, import, join_with_newlines, lookup_site,
    price_from_reading, registered_sites, resolve, scrape, Site, SiteError, CDKeys,
};

const PAGE: &str = r#"<html><head><meta property="product:price:amount" content="24.99"></head>
<body><h1 class="page-title" data-text="Space Game"></h1><span>In Stock</span>
<div class="description"><p>First part.</p><p>Second part.</p><p>Read More</p></div>
<div class="product attribute-icon attribute platforms"><div class="value"> Steam </div></div>
<img class="gallery-placeholder__image" src="https://img.example/g.png">
</body></html>"#;

const OUT_OF_STOCK: &str = r#"<html><head><meta property="product:price:amount" content="24.99"></head>
<body><span> Out of Stock </span></body></html>"#;

const NO_PRICE: &str = "<html><body><span>In Stock</span></body></html>";

#[test]
fn unknown_host_is_unsupported() {
    assert_eq!(resolve("https://www.unknownstore.example/item").err(), Some(SiteError::UnsupportedSite));
}

#[test]
fn bad_links_are_invalid() {
    assert_eq!(resolve("not a url").err(), Some(SiteError::InvalidUrl));
    assert_eq!(resolve("mailto:someone@example.com").err(), Some(SiteError::InvalidUrl));
}

#[test]
fn known_host_resolves() {
    assert_eq!(resolve("https://www.cdkeys.com/some-game").ok(), Some(Site::CdKeys));
    assert_eq!(lookup_site(&"www.cdkeys.com".to_string()), Some(Site::CdKeys));
    assert_eq!(lookup_site(&"cdkeys.com".to_string()), None);
}

#[test]
fn price_text_to_pence() {
    assert_eq!(parse_pence("12.99"), Some(1299));
    assert_eq!(parse_pence("12"), Some(1200));
    assert_eq!(parse_pence("12.5"), Some(1250));
    assert_eq!(parse_pence("0.07"), Some(7));
    assert_eq!(parse_pence("12."), Some(1200));
    assert_eq!(parse_pence("12.999"), Some(1300));
    assert_eq!(parse_pence("12.994"), Some(1299));
    assert_eq!(parse_pence("12.995"), Some(1300));
    assert_eq!(parse_pence("0.005"), Some(1));
    assert_eq!(parse_pence("0.0049"), Some(0));
    assert_eq!(parse_pence("12.3x4"), None);
    assert_eq!(parse_pence("184467440737095516.155"), None);
    assert_eq!(parse_pence(".5"), Some(50));
    assert_eq!(parse_pence(".99"), Some(99));
    assert_eq!(parse_pence("."), None);
    assert_eq!(parse_pence(".999"), Some(100));
    assert_eq!(parse_pence("+5"), None);
    assert_eq!(parse_pence("1e2"), None);
    assert_eq!(parse_pence(""), None);
    assert_eq!(parse_pence("abc"), None);
    assert_eq!(parse_pence("1.2x"), None);
    assert_eq!(parse_pence("18446744073709551615"), None);
    assert_eq!(parse_pence("184467440737095516.15"), Some(u64::MAX));
}

#[test]
fn reading_errors() {
    assert_eq!(price_from_reading(true, Some(Some("1.00".to_string()))), Err(SiteError::OutOfStock));
    assert_eq!(price_from_reading(false, None), Err(SiteError::PriceNotFound));
    assert_eq!(price_from_reading(false, Some(None)), Err(SiteError::ParseFailed));
    assert_eq!(price_from_reading(false, Some(Some("free".to_string()))), Err(SiteError::ParseFailed));
    assert_eq!(price_from_reading(false, Some(Some("9.99".to_string()))), Ok(999));
}

#[test]
fn scrape_reads_price_from_page() {
    assert_eq!(scrape("https://www.cdkeys.com/space-game", PAGE), Ok(2499));
    assert_eq!(CDKeys::price_from_page(PAGE), Ok(2499));
}

#[test]
fn scrape_out_of_stock() {
    assert_eq!(scrape("https://www.cdkeys.com/space-game", OUT_OF_STOCK), Err(SiteError::OutOfStock));
}

#[test]
fn scrape_without_price() {
    assert_eq!(scrape("https://www.cdkeys.com/space-game", NO_PRICE), Err(SiteError::PriceNotFound));
}

#[test]
fn scrape_unsupported_site() {
    assert_eq!(scrape("https://www.unknownstore.example/item", PAGE), Err(SiteError::UnsupportedSite));
}

#[test]
fn import_reads_details() {
    let g = import("https://www.cdkeys.com/space-game", PAGE).ok().unwrap();
    assert_eq!(g.title, "Space Game");
    assert_eq!(g.description.as_deref(), Some("First part.\nSecond part."));
    assert_eq!(g.platform.as_deref(), Some("Steam"));
    assert_eq!(g.edition, None);
    assert_eq!(g.url, "https://www.cdkeys.com/space-game");
    assert_eq!(g.image_src.as_deref(), Some("https://img.example/g.png"));
    assert!(g.image.is_none());
}

#[test]
fn import_without_title() {
    assert_eq!(import("https://www.cdkeys.com/x", NO_PRICE).err(), Some(SiteError::ParseFailed));
    assert_eq!(import("https://www.unknownstore.example/item", PAGE).err(), Some(SiteError::UnsupportedSite));
}

#[test]
fn description_drops_last_paragraph() {
    let ps = vec!["a".to_string(), "b".to_string(), "Read More".to_string()];
    assert_eq!(description_from(Some(ps)).as_deref(), Some("a\nb"));
    assert_eq!(description_from(Some(vec![])), None);
    assert_eq!(description_from(None), None);
    assert_eq!(description_from(Some(vec!["only".to_string()])).as_deref(), Some(""));
    assert_eq!(join_with_newlines(&vec!["x".to_string(), "y".to_string()]), "x\ny");
}

#[test]
fn image_types() {
    assert_eq!(image_from_kind(vec![1], Some("png".to_string())).ok().map(|i| i.extension), Some("png".to_string()));
    assert_eq!(image_from_kind(vec![1], Some("gif".to_string())).err(), Some(SiteError::UnsupportedImage));
    assert_eq!(image_from_kind(vec![1], None).err(), Some(SiteError::UnsupportedImage));
}

#[test]
fn image_sniffed_by_content() {
    let png = vec![0x89, 0x50, 0x4E, 0x47, 0x0D, 0x0A, 0x1A, 0x0A, 0, 0, 0, 0];
    let img = accept_image(png.clone()).ok().unwrap();
    assert_eq!(img.extension, "png");
    assert_eq!(img.raw, png);
    let gif = b"GIF89a\0\0\0\0".to_vec();
    assert_eq!(accept_image(gif).err(), Some(SiteError::UnsupportedImage));
    assert_eq!(accept_image(vec![0, 1, 2, 3]).err(), Some(SiteError::UnsupportedImage));
}

const EDITIONS: &str = r#"<html><body><h1 class="page-title" data-text="Space Game"></h1>
<div class="product-info-selection_editions"><select>
<option> Standard </option><option selected> Deluxe Edition </option></select></div>
</body></html>"#;

const EDITIONS_NONE_SELECTED: &str = r#"<html><body><h1 class="page-title" data-text="Space Game"></h1>
<div class="product-info-selection_editions"><select>
<option> Standard </option><option> Deluxe </option></select></div>
</body></html>"#;

#[test]
fn edition_from_page() {
    let g = import("https://www.cdkeys.com/space-game", EDITIONS).ok().unwrap();
    assert_eq!(g.edition.as_deref(), Some(" Deluxe Edition "));
    let g = import("https://www.cdkeys.com/space-game", EDITIONS_NONE_SELECTED).ok().unwrap();
    assert_eq!(g.edition.as_deref(), Some("Standard"));
}

#[test]
fn edition_choice_rule() {
    let opts = vec![(false, " a ".to_string()), (true, " b ".to_string()), (true, "c".to_string())];
    assert_eq!(choose_edition(Some(opts)).as_deref(), Some(" b "));
    assert_eq!(choose_edition(Some(vec![(false, " a ".to_string())])).as_deref(), Some("a"));
    assert_eq!(choose_edition(Some(vec![])), None);
    assert_eq!(choose_edition(None), None);
}

#[test]
fn stock_marker_is_trimmed() {
    assert!(any_out_of_stock(&vec!["x".to_string(), "  Out of Stock\n".to_string()]));
    assert!(!any_out_of_stock(&vec!["Out of Stock soon".to_string()]));
    assert!(!any_out_of_stock(&vec![]));
}

#[test]
fn platform_trimmed() {
    assert_eq!(trim_platform(Some("  PC ".to_string())).as_deref(), Some("PC"));
    assert_eq!(trim_platform(None), None);
}

#[test]
fn joining_text_pieces() {
    let p = vec!["a".to_string(), "b".to_string(), "c".to_string()];
    assert_eq!(join_pieces(&p, ", "), "a, b, c");
    assert_eq!(join_pieces(&vec![], " "), "");
    let groups = vec![p.clone(), vec!["x".to_string()], vec![]];
    assert_eq!(join_each(&groups, " "), vec!["a b c".to_string(), "x".to_string(), String::new()]);
}

#[test]
fn stock_marker_split_over_elements() {
    let page = r#"<html><head><meta property="product:price:amount" content="3.00"></head>
<body><span> Out of <b>Stock</b> </span></body></html>"#;
    assert_eq!(scrape("https://www.cdkeys.com/x", page), Err(SiteError::OutOfStock));
}

#[test]
fn paragraph_pieces_joined_by_space() {
    let page = r#"<html><body><h1 class="page-title" data-text="T"></h1>
<div class="description"><p>One <b>two</b></p><p>Read More</p></div></body></html>"#;
    let g = import("https://www.cdkeys.com/x", page).ok().unwrap();
    assert_eq!(g.description.as_deref(), Some("One  two"));
}

#[test]
fn trimming_matches_white_space() {
    for t in ["", "   ", "a", "  a b  ", "\t\n x\r\n", "\u{3000}y\u{a0}", "\u{2003}z\u{205f}", "\u{200b}w\u{200b}", "é é "] {
        assert_eq!(trim_text(t), t.trim(), "{t:?}");
    }
    assert_eq!(trim_text("\u{200b}w\u{200b}"), "\u{200b}w\u{200b}");
    assert_eq!(trim_text(" \u{85}Out of Stock\u{2028}"), "Out of Stock");
}

#[test]
fn registry_lists_each_site_with_its_host() {
    let sites = registered_sites();
    assert_eq!(sites, vec![Site::CdKeys]);
    assert_eq!(Site::CdKeys.host(), "www.cdkeys.com");
    for site in sites {
        assert_eq!(lookup_site(&site.host().to_string()), Some(site));
    }
    assert_eq!(Site::CdKeys.price_from_page(PAGE), Ok(2499));
}
