//! Site adapters: which storefront a product link belongs to, and what each
//! storefront's product page says about price and product details.
use vstd::prelude::*;
use crate::price_text::{parse_pence, pence_value};

verus! {

/// Why a site adapter could not deliver.
#[derive(Clone, Copy, Debug, PartialEq, Eq, Structural)]
pub enum SiteError {
    /// The link cannot be parsed or has no host.
    InvalidUrl,
    /// No adapter is registered for the link's host.
    UnsupportedSite,
    /// The page could not be fetched.
    FetchFailed,
    /// The page was fetched but its content could not be read.
    ParseFailed,
    /// The page says the product is out of stock.
    OutOfStock,
    /// The page holds no recognisable price.
    PriceNotFound,
    /// A downloaded image is of no recognised or allowed type.
    UnsupportedImage,
}

/// The storefronts that have an adapter.
#[derive(Clone, Copy, Debug, PartialEq, Eq, Structural)]
pub enum Site {
    CdKeys,
}

/// A product image and the file extension of its type.
pub struct Image {
    pub raw: Vec<u8>,
    pub extension: String,
}

/// Product details read from a storefront's product page.
pub struct GameImport {
    pub title: String,
    pub edition: Option<String>,
    pub platform: Option<String>,
    pub description: Option<String>,
    pub url: String,
    /// Where the page says the product image is; fetched separately.
    pub image_src: Option<String>,
    pub image: Option<Image>,
}

/// The host that the `url` crate's parser finds in a link: `None` where the
/// link does not parse, `Some(None)` where it has no host.
pub uninterp spec fn url_host(u: Seq<char>) -> Option<Option<Seq<char>>>;

/// The text pieces of each `span` element of the page, in the order that
/// scraper's `select` yields the elements.
pub uninterp spec fn span_pieces_of(page: Seq<char>) -> Seq<Seq<Seq<char>>>;

/// The characters with Unicode's `White_Space` property.
pub open spec fn is_white_space(c: char) -> bool {
    ||| '\u{9}' <= c && c <= '\u{d}'
    ||| c == ' ' || c == '\u{85}' || c == '\u{a0}' || c == '\u{1680}'
    ||| '\u{2000}' <= c && c <= '\u{200a}'
    ||| c == '\u{2028}' || c == '\u{2029}' || c == '\u{202f}' || c == '\u{205f}'
    ||| c == '\u{3000}'
}

/// `s` without its leading white space.
pub open spec fn trim_start(s: Seq<char>) -> Seq<char>
    decreases s.len(),
{
    if s.len() > 0 && is_white_space(s[0]) {
        trim_start(s.drop_first())
    } else {
        s
    }
}

/// `s` without its trailing white space.
pub open spec fn trim_end(s: Seq<char>) -> Seq<char>
    decreases s.len(),
{
    if s.len() > 0 && is_white_space(s.last()) {
        trim_end(s.drop_last())
    } else {
        s
    }
}

/// A text without its leading and trailing white space.
pub open spec fn trimmed(s: Seq<char>) -> Seq<char> {
    trim_end(trim_start(s))
}

/// The first `meta[property="product:price:amount"]` element that
/// scraper's `select` yields for the page: `None` if there is none, else
/// its `content` attribute.
pub uninterp spec fn price_meta_of(page: Seq<char>) -> Option<Option<Seq<char>>>;

/// The `data-text` attribute of the first `.page-title` element that
/// scraper's `select` yields for the page.
pub uninterp spec fn title_of(page: Seq<char>) -> Option<Seq<char>>;

/// The text pieces of each paragraph in the first `.description` element
/// that scraper's `select` yields for the page, in the order it yields
/// them, or `None` if there is no such element.
pub uninterp spec fn paragraph_pieces_of(page: Seq<char>) -> Option<Seq<Seq<Seq<char>>>>;

/// The options, in the order scraper's `select` yields them, of the first
/// select inside the first edition selector that it yields for the page:
/// whether each is marked selected, and its text pieces; `None` where there
/// is no such select.
pub uninterp spec fn edition_option_pieces_of(page: Seq<char>) -> Option<Seq<(bool, Seq<Seq<char>>)>>;

/// The text pieces of the first platform value that scraper's `select`
/// yields for the page.
pub uninterp spec fn platform_pieces_of(page: Seq<char>) -> Option<Seq<Seq<char>>>;

/// The `src` of the first gallery image that scraper's `select` yields
/// for the page.
pub uninterp spec fn image_src_of(page: Seq<char>) -> Option<Seq<char>>;

/// The file extension that the `infer` crate recognises from the leading
/// bytes of a file.
pub uninterp spec fn inferred_extension(bytes: Seq<u8>) -> Option<Seq<char>>;

pub open spec fn opt_view(o: Option<String>) -> Option<Seq<char>> {
    match o {
        Option::None => Option::None,
        Option::Some(s) => Option::Some(s@),
    }
}

pub open spec fn opt_opt_view(o: Option<Option<String>>) -> Option<Option<Seq<char>>> {
    match o {
        Option::None => Option::None,
        Option::Some(i) => Option::Some(opt_view(i)),
    }
}

pub open spec fn strings_view(v: Seq<String>) -> Seq<Seq<char>> {
    v.map_values(|s: String| s@)
}

pub open spec fn pieces_view(v: Seq<Vec<String>>) -> Seq<Seq<Seq<char>>> {
    v.map_values(|p: Vec<String>| strings_view(p@))
}

/// The texts of `ps` joined, with `sep` between each two.
pub open spec fn join_with(ps: Seq<Seq<char>>, sep: Seq<char>) -> Seq<char>
    decreases ps.len(),
{
    if ps.len() == 0 {
        Seq::empty()
    } else if ps.len() == 1 {
        ps[0]
    } else {
        join_with(ps.drop_last(), sep) + sep + ps.last()
    }
}

/// Each group of text pieces joined with `sep`.
pub open spec fn joined_all(v: Seq<Seq<Seq<char>>>, sep: Seq<char>) -> Seq<Seq<char>> {
    v.map_values(|p: Seq<Seq<char>>| join_with(p, sep))
}

/// The text of each `span` element of the page, in the order scraper's
/// `select` yields them.
pub open spec fn span_texts_of(page: Seq<char>) -> Seq<Seq<char>> {
    joined_all(span_pieces_of(page), Seq::empty())
}

/// The text of each paragraph of the page's description, its pieces joined
/// by a space.
pub open spec fn paragraphs_of(page: Seq<char>) -> Option<Seq<Seq<char>>> {
    match paragraph_pieces_of(page) {
        Option::None => Option::None,
        Option::Some(ps) => Option::Some(joined_all(ps, " "@)),
    }
}

/// The edition options, each option's pieces joined by a space.
pub open spec fn edition_options_of(page: Seq<char>) -> Option<Seq<(bool, Seq<char>)>> {
    match edition_option_pieces_of(page) {
        Option::None => Option::None,
        Option::Some(os) => Option::Some(
            os.map_values(|o: (bool, Seq<Seq<char>>)| (o.0, join_with(o.1, " "@))),
        ),
    }
}

/// The platform value's text, its pieces joined.
pub open spec fn platform_text_of(page: Seq<char>) -> Option<Seq<char>> {
    match platform_pieces_of(page) {
        Option::None => Option::None,
        Option::Some(p) => Option::Some(join_with(p, Seq::empty())),
    }
}

/// Relies on `url::Url::parse` (re-exported by reqwest) and `Url::host_str`.
#[verifier::external_body]
fn host_of(url: &str) -> (r: Option<Option<String>>)
    ensures
        opt_opt_view(r) == url_host(url@),
{
    match reqwest::Url::parse(url) {
        Ok(parsed) => Some(parsed.host_str().map(String::from)),
        Err(_) => None,
    }
}

/// Relies on scraper's `Html::parse_document`, `Html::select` and
/// `ElementRef::text`.
#[verifier::external_body]
fn span_pieces(page: &str) -> (r: Vec<Vec<String>>)
    ensures
        pieces_view(r@) == span_pieces_of(page@),
{
    let document = scraper::Html::parse_document(page);
    let selector = scraper::Selector::parse("span").unwrap();
    document.select(&selector).map(|e| e.text().map(String::from).collect()).collect()
}

/// `text` without its leading and trailing white space.
pub fn trim_text(text: &str) -> (r: String)
    ensures
        r@ == trimmed(text@),
{
    let n = text.unicode_len();
    let ghost s = text@;
    let mut a: usize = 0;
    proof {
        assert(s.skip(0) =~= s);
    }
    while a < n
        invariant
            s == text@,
            n == s.len(),
            a <= n,
            trim_start(s) == trim_start(s.skip(a as int)),
        ensures
            trim_start(s) == s.skip(a as int),
        decreases n - a,
    {
        let c = text.get_char(a);
        proof {
            assert(s.skip(a as int)[0] == c);
        }
        if !is_white_space_char(c) {
            break;
        }
        proof {
            assert(s.skip(a as int).drop_first() =~= s.skip(a + 1));
        }
        a = a + 1;
    }
    proof {
        if a == n {
            assert(s.skip(a as int) =~= Seq::<char>::empty());
        }
    }
    let ghost t = s.skip(a as int);
    let mut b: usize = n;
    while b > a
        invariant
            s == text@,
            n == s.len(),
            a <= b <= n,
            t == s.skip(a as int),
            trim_end(t) == trim_end(s.subrange(a as int, b as int)),
        ensures
            trim_end(t) == s.subrange(a as int, b as int),
        decreases b - a,
    {
        let c = text.get_char(b - 1);
        if !is_white_space_char(c) {
            break;
        }
        proof {
            assert(s.subrange(a as int, b as int).drop_last() =~= s.subrange(a as int, b - 1));
        }
        b = b - 1;
    }
    proof {
        assert(t =~= s.subrange(a as int, n as int));
        if b == a {
            assert(s.subrange(a as int, b as int) =~= Seq::<char>::empty());
        }
    }
    text.substring_char(a, b).to_owned()
}

/// Whether `c` is white space.
pub fn is_white_space_char(c: char) -> (r: bool)
    ensures
        r == is_white_space(c),
{
    ('\u{9}' <= c && c <= '\u{d}') || c == ' ' || c == '\u{85}' || c == '\u{a0}' || c == '\u{1680}'
        || ('\u{2000}' <= c && c <= '\u{200a}') || c == '\u{2028}' || c == '\u{2029}'
        || c == '\u{202f}' || c == '\u{205f}' || c == '\u{3000}'
}

/// Relies on scraper's `Html::parse_document`, `Html::select` and
/// `Element::attr`.
#[verifier::external_body]
fn price_meta(page: &str) -> (r: Option<Option<String>>)
    ensures
        opt_opt_view(r) == price_meta_of(page@),
{
    let document = scraper::Html::parse_document(page);
    let selector = scraper::Selector::parse(r#"meta[property="product:price:amount"]"#).unwrap();
    document.select(&selector).next().map(|e| e.value().attr("content").map(String::from))
}

/// Relies on scraper's `Html::parse_document`, `Html::select` and
/// `Element::attr`.
#[verifier::external_body]
fn title_attr(page: &str) -> (r: Option<String>)
    ensures
        opt_view(r) == title_of(page@),
{
    let document = scraper::Html::parse_document(page);
    let selector = scraper::Selector::parse(".page-title").unwrap();
    document.select(&selector).next().and_then(|e| e.value().attr("data-text").map(String::from))
}

/// Relies on scraper's `Html::parse_document`, `select` and `text`.
#[verifier::external_body]
fn paragraph_pieces(page: &str) -> (r: Option<Vec<Vec<String>>>)
    ensures
        match r {
            Option::None => paragraph_pieces_of(page@) is None,
            Option::Some(v) => paragraph_pieces_of(page@) == Option::Some(pieces_view(v@)),
        },
{
    let document = scraper::Html::parse_document(page);
    let div = scraper::Selector::parse(".description").unwrap();
    let p = scraper::Selector::parse("p").unwrap();
    document.select(&div).next().map(|d| {
        d.select(&p).map(|e| e.text().map(String::from).collect()).collect()
    })
}

pub open spec fn options_view(v: Seq<(bool, String)>) -> Seq<(bool, Seq<char>)> {
    v.map_values(|o: (bool, String)| (o.0, o.1@))
}

pub open spec fn opt_options_view(v: Option<Vec<(bool, String)>>) -> Option<Seq<(bool, Seq<char>)>> {
    match v {
        Option::None => Option::None,
        Option::Some(v) => Option::Some(options_view(v@)),
    }
}

pub open spec fn option_pieces_view(v: Seq<(bool, Vec<String>)>) -> Seq<(bool, Seq<Seq<char>>)> {
    v.map_values(|o: (bool, Vec<String>)| (o.0, strings_view(o.1@)))
}

/// Relies on scraper's `Html::parse_document`, `select`, `Element::attr` and
/// `ElementRef::text`.
#[verifier::external_body]
fn edition_option_pieces(page: &str) -> (r: Option<Vec<(bool, Vec<String>)>>)
    ensures
        match r {
            Option::None => edition_option_pieces_of(page@) is None,
            Option::Some(v) => edition_option_pieces_of(page@) == Option::Some(option_pieces_view(v@)),
        },
{
    let document = scraper::Html::parse_document(page);
    let div = scraper::Selector::parse("div.product-info-selection_editions").unwrap();
    let select = scraper::Selector::parse("select").unwrap();
    let option = scraper::Selector::parse("option").unwrap();
    let s = document.select(&div).next()?.select(&select).next()?;
    Some(s.select(&option).map(|o| {
        (o.value().attr("selected").is_some(), o.text().map(String::from).collect())
    }).collect())
}

/// Relies on scraper's `Html::parse_document`, `Html::select` and
/// `ElementRef::text`.
#[verifier::external_body]
fn platform_pieces(page: &str) -> (r: Option<Vec<String>>)
    ensures
        match r {
            Option::None => platform_pieces_of(page@) is None,
            Option::Some(v) => platform_pieces_of(page@) == Option::Some(strings_view(v@)),
        },
{
    let document = scraper::Html::parse_document(page);
    let selector = scraper::Selector::parse("div.product.attribute-icon.attribute.platforms .value").unwrap();
    document.select(&selector).next().map(|e| e.text().map(String::from).collect())
}

/// Relies on scraper's `Html::parse_document`, `Html::select` and
/// `Element::attr`.
#[verifier::external_body]
fn gallery_image_src(page: &str) -> (r: Option<String>)
    ensures
        opt_view(r) == image_src_of(page@),
{
    let document = scraper::Html::parse_document(page);
    let selector = scraper::Selector::parse("img.gallery-placeholder__image").unwrap();
    document.select(&selector).next().and_then(|e| e.value().attr("src").map(String::from))
}

/// Relies on `infer::get` and `Type::extension`.
#[verifier::external_body]
fn image_extension(bytes: &Vec<u8>) -> (r: Option<String>)
    ensures
        opt_view(r) == inferred_extension(bytes@),
{
    infer::get(bytes).map(|kind| kind.extension().to_string())
}

/// Whether some `span` of the page reads "Out of Stock" once trimmed.
pub open spec fn out_of_stock_marked(page: Seq<char>) -> bool {
    any_out_of_stock_text(span_texts_of(page))
}

pub open spec fn any_out_of_stock_text(spans: Seq<Seq<char>>) -> bool {
    exists|i: int| 0 <= i < spans.len() && trimmed(#[trigger] spans[i]) == "Out of Stock"@
}

/// `i` is the first option marked selected.
pub open spec fn first_selected_at(opts: Seq<(bool, Seq<char>)>, i: int) -> bool {
    0 <= i < opts.len() && opts[i].0 && forall|j: int| 0 <= j < i ==> !(#[trigger] opts[j]).0
}

/// The edition shown: the first option marked selected, else the first
/// option trimmed.
pub open spec fn edition_choice(opts: Option<Seq<(bool, Seq<char>)>>) -> Option<Seq<char>> {
    match opts {
        Option::None => Option::None,
        Option::Some(o) => if exists|i: int| first_selected_at(o, i) {
            Option::Some(o[choose|i: int| first_selected_at(o, i)].1)
        } else if o.len() > 0 {
            Option::Some(trimmed(o[0].1))
        } else {
            Option::None
        },
    }
}

/// The edition that the page's edition selector shows.
pub open spec fn edition_of(page: Seq<char>) -> Option<Seq<char>> {
    edition_choice(edition_options_of(page))
}

/// The platform that the page names, trimmed.
pub open spec fn platform_of(page: Seq<char>) -> Option<Seq<char>> {
    match platform_text_of(page) {
        Option::None => Option::None,
        Option::Some(t) => Option::Some(trimmed(t)),
    }
}

/// The host each adapter serves.
pub open spec fn site_host(site: Site) -> Seq<char> {
    match site {
        Site::CdKeys => "www.cdkeys.com"@,
    }
}

/// The registered adapters, in the order they are looked up.
pub open spec fn registry() -> Seq<Site> {
    seq![Site::CdKeys]
}

/// The first adapter of `reg` that serves host `h`.
pub open spec fn find_site(reg: Seq<Site>, h: Seq<char>) -> Option<Site>
    decreases reg.len(),
{
    if reg.len() == 0 {
        Option::None
    } else if site_host(reg[0]) == h {
        Option::Some(reg[0])
    } else {
        find_site(reg.drop_first(), h)
    }
}

/// The adapter registered for a host: hosts match exactly.
pub open spec fn site_for_host(h: Seq<char>) -> Option<Site> {
    find_site(registry(), h)
}

/// The price that the adapter `site` reads from a product page.
pub open spec fn site_page_price(site: Site, page: Seq<char>) -> Result<u64, SiteError> {
    match site {
        Site::CdKeys => page_price(page),
    }
}

/// Which adapter a link resolves to.
pub open spec fn resolution(u: Seq<char>) -> Result<Site, SiteError> {
    match url_host(u) {
        Option::Some(Option::Some(h)) => match site_for_host(h) {
            Option::Some(site) => Result::Ok(site),
            Option::None => Result::Err(SiteError::UnsupportedSite),
        },
        _ => Result::Err(SiteError::InvalidUrl),
    }
}

/// The price a product page reports, from whether it is marked out of
/// stock and what its price element holds.
pub open spec fn reading_price(out_of_stock: bool, meta: Option<Option<Seq<char>>>) -> Result<u64, SiteError> {
    if out_of_stock {
        Result::Err(SiteError::OutOfStock)
    } else {
        match meta {
            Option::None => Result::Err(SiteError::PriceNotFound),
            Option::Some(Option::None) => Result::Err(SiteError::ParseFailed),
            Option::Some(Option::Some(t)) => match pence_value(t) {
                Option::Some(v) => if v <= u64::MAX {
                    Result::Ok(v as u64)
                } else {
                    Result::Err(SiteError::ParseFailed)
                },
                Option::None => Result::Err(SiteError::ParseFailed),
            },
        }
    }
}

/// The price that a product page reports.
pub open spec fn page_price(page: Seq<char>) -> Result<u64, SiteError> {
    reading_price(out_of_stock_marked(page), price_meta_of(page))
}

/// What scraping `page`, fetched from `url`, yields.
pub open spec fn scrape_result(url: Seq<char>, page: Seq<char>) -> Result<u64, SiteError> {
    match resolution(url) {
        Result::Err(e) => Result::Err(e),
        Result::Ok(site) => site_page_price(site, page),
    }
}

/// The lines of `ps` joined by newlines.
pub open spec fn join_lines(ps: Seq<Seq<char>>) -> Seq<char> {
    join_with(ps, "\n"@)
}

/// A product description from the page's paragraphs: the last paragraph is
/// a "read more" link and is left out.
pub open spec fn description_text(ps: Option<Seq<Seq<char>>>) -> Option<Seq<char>> {
    match ps {
        Option::Some(ps) => if ps.len() == 0 {
            Option::None
        } else {
            Option::Some(join_lines(ps.drop_last()))
        },
        Option::None => Option::None,
    }
}

/// Whether an image of this extension may be kept.
pub open spec fn allowed_extension(e: Seq<char>) -> bool {
    e == "png"@ || e == "jpeg"@ || e == "jpg"@
}

/// The registered adapters, in the order they are looked up. A new site is
/// added here, with its host and its page readers on `Site`.
pub fn registered_sites() -> (r: Vec<Site>)
    ensures
        r@ == registry(),
{
    let mut r: Vec<Site> = Vec::new();
    r.push(Site::CdKeys);
    proof {
        assert(r@ =~= registry());
    }
    r
}

impl Site {
    /// The host this adapter serves.
    pub fn host(&self) -> (r: &'static str)
        ensures
            r@ == site_host(*self),
    {
        proof {
            reveal_strlit("www.cdkeys.com");
        }
        match self {
            Site::CdKeys => "www.cdkeys.com",
        }
    }

    /// The price this adapter reads from a product page.
    pub fn price_from_page(&self, page: &str) -> (r: Result<u64, SiteError>)
        ensures
            r == site_page_price(*self, page@),
    {
        match self {
            Site::CdKeys => CDKeys::price_from_page(page),
        }
    }

    /// The product details this adapter reads from a product page.
    pub fn details_from_page(&self, url: &str, page: &str) -> (r: Result<GameImport, SiteError>)
        ensures
            match title_of(page@) {
                Option::None => r == Result::<GameImport, SiteError>::Err(SiteError::ParseFailed),
                Option::Some(t) => r matches Result::Ok(g) && g.title@ == t && g.url@ == url@
                    && opt_view(g.description) == description_text(paragraphs_of(page@))
                    && opt_view(g.edition) == edition_of(page@)
                    && opt_view(g.platform) == platform_of(page@)
                    && opt_view(g.image_src) == image_src_of(page@)
                    && g.image is None,
            },
    {
        match self {
            Site::CdKeys => CDKeys::details_from_page(url, page),
        }
    }
}

/// The adapter registered for `host`.
pub fn lookup_site(host: &String) -> (r: Option<Site>)
    ensures
        r == site_for_host(host@),
{
    let reg = registered_sites();
    let mut i: usize = 0;
    proof {
        assert(reg@.skip(0) =~= reg@);
    }
    while i < reg.len()
        invariant
            reg@ == registry(),
            i <= reg@.len(),
            find_site(reg@, host@) == find_site(reg@.skip(i as int), host@),
        decreases reg@.len() - i,
    {
        let site = reg[i];
        let candidate = site.host().to_owned();
        proof {
            assert(reg@.skip(i as int)[0] == site);
            assert(reg@.skip(i as int).drop_first() =~= reg@.skip(i + 1));
        }
        if *host == candidate {
            return Option::Some(site);
        }
        i = i + 1;
    }
    Option::None
}

/// Resolves a product link to the adapter of its storefront.
pub fn resolve(url: &str) -> (r: Result<Site, SiteError>)
    ensures
        r == resolution(url@),
{
    match host_of(url) {
        Option::Some(Option::Some(host)) => match lookup_site(&host) {
            Option::Some(site) => Result::Ok(site),
            Option::None => Result::Err(SiteError::UnsupportedSite),
        },
        _ => Result::Err(SiteError::InvalidUrl),
    }
}

/// The price from a product page's stock marker and price element.
pub fn price_from_reading(out_of_stock: bool, meta: Option<Option<String>>) -> (r: Result<u64, SiteError>)
    ensures
        r == reading_price(out_of_stock, opt_opt_view(meta)),
{
    if out_of_stock {
        return Result::Err(SiteError::OutOfStock);
    }
    match meta {
        Option::None => Result::Err(SiteError::PriceNotFound),
        Option::Some(Option::None) => Result::Err(SiteError::ParseFailed),
        Option::Some(Option::Some(text)) => match parse_pence(text.as_str()) {
            Option::Some(v) => Result::Ok(v),
            Option::None => Result::Err(SiteError::ParseFailed),
        },
    }
}

/// Whether any of the texts reads "Out of Stock" once trimmed.
pub fn any_out_of_stock(spans: &Vec<String>) -> (r: bool)
    ensures
        r == any_out_of_stock_text(strings_view(spans@)),
{
    let marker = "Out of Stock".to_owned();
    let mut i: usize = 0;
    while i < spans.len()
        invariant
            i <= spans@.len(),
            marker@ == "Out of Stock"@,
            forall|j: int| 0 <= j < i ==> trimmed(#[trigger] strings_view(spans@)[j]) != "Out of Stock"@,
        decreases spans@.len() - i,
    {
        let t = trim_text(spans[i].as_str());
        if t == marker {
            assert(strings_view(spans@)[i as int] == spans@[i as int]@);
            return true;
        }
        i = i + 1;
    }
    false
}

/// The edition among the options of an edition selector: the first one
/// marked selected, else the first one trimmed.
pub fn choose_edition(options: Option<Vec<(bool, String)>>) -> (r: Option<String>)
    ensures
        opt_view(r) == edition_choice(opt_options_view(options)),
{
    let ghost input = options;
    let opts = match options {
        Option::None => return Option::None,
        Option::Some(v) => v,
    };
    let ghost o = options_view(opts@);
    let mut i: usize = 0;
    while i < opts.len()
        invariant
            o == options_view(opts@),
            opt_options_view(input) == Option::Some(o),
            input == options,
            i <= opts@.len(),
            forall|j: int| 0 <= j < i ==> !(#[trigger] o[j]).0,
        decreases opts@.len() - i,
    {
        if opts[i].0 {
            proof {
                assert(o[i as int] == (opts@[i as int].0, opts@[i as int].1@));
                assert(first_selected_at(o, i as int));
                assert forall|k: int| first_selected_at(o, k) implies k == i by {
                    if k < i {
                        assert(!o[k].0);
                    } else if k > i {
                        assert(!o[i as int].0);
                    }
                }
                let c = choose|k: int| first_selected_at(o, k);
                assert(c == i);
            }
            let chosen = opts[i].1.clone();

            return Option::Some(chosen);
        }
        i = i + 1;
    }
    proof {
        assert forall|k: int| !first_selected_at(o, k) by {
            if 0 <= k < o.len() {
                assert(!o[k].0);
            }
        }
    }
    if opts.len() > 0 {
        assert(o[0] == (opts@[0].0, opts@[0].1@));
        Option::Some(trim_text(opts[0].1.as_str()))
    } else {
        Option::None
    }
}

/// The platform text, trimmed.
pub fn trim_platform(text: Option<String>) -> (r: Option<String>)
    ensures
        opt_view(r) == match opt_view(text) {
            Option::None => Option::None,
            Option::Some(t) => Option::Some(trimmed(t)),
        },
{
    match text {
        Option::None => Option::None,
        Option::Some(t) => Option::Some(trim_text(t.as_str())),
    }
}

/// Joins texts with `sep` between each two.
pub fn join_pieces(ps: &Vec<String>, sep: &str) -> (r: String)
    ensures
        r@ == join_with(strings_view(ps@), sep@),
{
    let mut out = String::new();
    let mut i: usize = 0;
    while i < ps.len()
        invariant
            i <= ps@.len(),
            out@ == join_with(strings_view(ps@).take(i as int), sep@),
        decreases ps@.len() - i,
    {
        proof {
            assert(strings_view(ps@).take(i + 1).drop_last() =~= strings_view(ps@).take(i as int));
        }
        if i > 0 {
            out.append(sep);
        }
        out.append(ps[i].as_str());
        i = i + 1;
    }
    proof {
        assert(strings_view(ps@).take(i as int) =~= strings_view(ps@));
    }
    out
}

/// Joins lines with newlines.
pub fn join_with_newlines(ps: &Vec<String>) -> (r: String)
    ensures
        r@ == join_lines(strings_view(ps@)),
{
    join_pieces(ps, "\n")
}

/// Joins each group of text pieces with `sep`.
pub fn join_each(groups: &Vec<Vec<String>>, sep: &str) -> (r: Vec<String>)
    ensures
        strings_view(r@) == joined_all(pieces_view(groups@), sep@),
{
    let mut out: Vec<String> = Vec::new();
    let mut i: usize = 0;
    while i < groups.len()
        invariant
            i <= groups@.len(),
            out@.len() == i,
            forall|j: int| 0 <= j < i ==> (#[trigger] out@[j])@ == join_with(strings_view(groups@[j]@), sep@),
        decreases groups@.len() - i,
    {
        let joined = join_pieces(&groups[i], sep);
        out.push(joined);
        i = i + 1;
    }
    proof {
        assert(strings_view(out@) =~= joined_all(pieces_view(groups@), sep@));
    }
    out
}

/// Joins each option's text pieces with a space.
pub fn join_option_texts(options: &Vec<(bool, Vec<String>)>) -> (r: Vec<(bool, String)>)
    ensures
        options_view(r@) == option_pieces_view(options@).map_values(
            |o: (bool, Seq<Seq<char>>)| (o.0, join_with(o.1, " "@)),
        ),
{
    let mut out: Vec<(bool, String)> = Vec::new();
    let mut i: usize = 0;
    while i < options.len()
        invariant
            i <= options@.len(),
            out@.len() == i,
            forall|j: int|
                0 <= j < i ==> (#[trigger] out@[j]).0 == options@[j].0 && out@[j].1@ == join_with(
                    strings_view(options@[j].1@),
                    " "@,
                ),
        decreases options@.len() - i,
    {
        let joined = join_pieces(&options[i].1, " ");
        out.push((options[i].0, joined));
        i = i + 1;
    }
    proof {
        assert(options_view(out@) =~= option_pieces_view(options@).map_values(
            |o: (bool, Seq<Seq<char>>)| (o.0, join_with(o.1, " "@)),
        ));
    }
    out
}

/// The text of each `span` of the page.
fn span_texts(page: &str) -> (r: Vec<String>)
    ensures
        strings_view(r@) == span_texts_of(page@),
{
    proof {
        reveal_strlit("");
        assert(""@ =~= Seq::<char>::empty());
    }
    join_each(&span_pieces(page), "")
}

/// The paragraphs of the page's description.
fn description_paragraphs(page: &str) -> (r: Option<Vec<String>>)
    ensures
        match r {
            Option::None => paragraphs_of(page@) is None,
            Option::Some(v) => paragraphs_of(page@) == Option::Some(strings_view(v@)),
        },
{
    match paragraph_pieces(page) {
        Option::None => Option::None,
        Option::Some(ps) => Option::Some(join_each(&ps, " ")),
    }
}

/// The options of the page's edition selector.
fn edition_options(page: &str) -> (r: Option<Vec<(bool, String)>>)
    ensures
        match r {
            Option::None => edition_options_of(page@) is None,
            Option::Some(v) => edition_options_of(page@) == Option::Some(options_view(v@)),
        },
{
    match edition_option_pieces(page) {
        Option::None => Option::None,
        Option::Some(os) => Option::Some(join_option_texts(&os)),
    }
}

/// The text of the page's platform value.
fn platform_raw(page: &str) -> (r: Option<String>)
    ensures
        opt_view(r) == platform_text_of(page@),
{
    proof {
        reveal_strlit("");
        assert(""@ =~= Seq::<char>::empty());
    }
    match platform_pieces(page) {
        Option::None => Option::None,
        Option::Some(p) => Option::Some(join_pieces(&p, "")),
    }
}

/// The product description from the page's paragraphs.
pub fn description_from(paragraphs: Option<Vec<String>>) -> (r: Option<String>)
    ensures
        opt_view(r) == description_text(match paragraphs {
            Option::None => Option::None,
            Option::Some(v) => Option::Some(strings_view(v@)),
        }),
{
    match paragraphs {
        Option::None => Option::None,
        Option::Some(mut ps) => {
            if ps.len() == 0 {
                Option::None
            } else {
                let ghost all = ps@;
                ps.pop();
                proof {
                    assert(strings_view(ps@) =~= strings_view(all).drop_last());
                }
                Option::Some(join_with_newlines(&ps))
            }
        },
    }
}

/// Keeps a downloaded image whose recognised type is allowed.
pub fn image_from_kind(raw: Vec<u8>, extension: Option<String>) -> (r: Result<Image, SiteError>)
    ensures
        match opt_view(extension) {
            Option::Some(e) => if allowed_extension(e) {
                r matches Result::Ok(img) && img.raw@ == raw@ && img.extension@ == e
            } else {
                r == Result::<Image, SiteError>::Err(SiteError::UnsupportedImage)
            },
            Option::None => r == Result::<Image, SiteError>::Err(SiteError::UnsupportedImage),
        },
{
    match extension {
        Option::None => Result::Err(SiteError::UnsupportedImage),
        Option::Some(e) => {
            let png = "png".to_owned();
            let jpeg = "jpeg".to_owned();
            let jpg = "jpg".to_owned();
            if e == png || e == jpeg || e == jpg {
                Result::Ok(Image { raw, extension: e })
            } else {
                Result::Err(SiteError::UnsupportedImage)
            }
        },
    }
}

/// Checks the type of a downloaded image by its content and keeps it if
/// the type is allowed.
pub fn accept_image(raw: Vec<u8>) -> (r: Result<Image, SiteError>)
    ensures
        match inferred_extension(raw@) {
            Option::Some(e) => if allowed_extension(e) {
                r matches Result::Ok(img) && img.raw@ == raw@ && img.extension@ == e
            } else {
                r == Result::<Image, SiteError>::Err(SiteError::UnsupportedImage)
            },
            Option::None => r == Result::<Image, SiteError>::Err(SiteError::UnsupportedImage),
        },
{
    let extension = image_extension(&raw);
    image_from_kind(raw, extension)
}

/// The adapter for www.cdkeys.com.
pub struct CDKeys;

impl CDKeys {
    /// The price on a product page of this storefront.
    pub fn price_from_page(page: &str) -> (r: Result<u64, SiteError>)
        ensures
            r == page_price(page@),
    {
        let spans = span_texts(page);
        let out_of_stock = any_out_of_stock(&spans);
        let meta = price_meta(page);
        price_from_reading(out_of_stock, meta)
    }

    /// The product details on a product page of this storefront, or
    /// `ParseFailed` where the page has no title.
    pub fn details_from_page(url: &str, page: &str) -> (r: Result<GameImport, SiteError>)
        ensures
            match title_of(page@) {
                Option::None => r == Result::<GameImport, SiteError>::Err(SiteError::ParseFailed),
                Option::Some(t) => r matches Result::Ok(g) && g.title@ == t && g.url@ == url@
                    && opt_view(g.description) == description_text(paragraphs_of(page@))
                    && opt_view(g.edition) == edition_of(page@)
                    && opt_view(g.platform) == platform_of(page@)
                    && opt_view(g.image_src) == image_src_of(page@)
                    && g.image is None,
            },
    {
        let title = match title_attr(page) {
            Option::None => return Result::Err(SiteError::ParseFailed),
            Option::Some(t) => t,
        };
        let paragraphs = description_paragraphs(page);
        let description = description_from(paragraphs);
        Result::Ok(GameImport {
            title,
            edition: choose_edition(edition_options(page)),
            platform: trim_platform(platform_raw(page)),
            description,
            url: url.to_owned(),
            image_src: gallery_image_src(page),
            image: Option::None,
        })
    }
}

/// A storefront adapter that reads the current price from a product page.
pub trait Scraper {
    fn scrape(url: &str, page: &str) -> Result<u64, SiteError>;
}

/// A storefront adapter that reads product details from a product page.
pub trait Importer {
    fn import(url: &str, page: &str) -> Result<GameImport, SiteError>;
}

impl Scraper for CDKeys {
    fn scrape(url: &str, page: &str) -> (r: Result<u64, SiteError>)
        ensures
            r == page_price(page@),
    {
        CDKeys::price_from_page(page)
    }
}

impl Importer for CDKeys {
    fn import(url: &str, page: &str) -> (r: Result<GameImport, SiteError>)
        ensures
            match title_of(page@) {
                Option::None => r == Result::<GameImport, SiteError>::Err(SiteError::ParseFailed),
                Option::Some(t) => r matches Result::Ok(g) && g.title@ == t && g.url@ == url@
                    && opt_view(g.description) == description_text(paragraphs_of(page@))
                    && opt_view(g.edition) == edition_of(page@)
                    && opt_view(g.platform) == platform_of(page@)
                    && opt_view(g.image_src) == image_src_of(page@)
                    && g.image is None,
            },
    {
        CDKeys::details_from_page(url, page)
    }
}

/// The current price on `page`, the product page fetched from `url`, read
/// by the adapter that `url` resolves to.
pub fn scrape(url: &str, page: &str) -> (r: Result<u64, SiteError>)
    ensures
        r == scrape_result(url@, page@),
{
    match resolve(url) {
        Result::Err(e) => Result::Err(e),
        Result::Ok(site) => site.price_from_page(page),
    }
}

/// The product details on `page`, the product page fetched from `url`, read
/// by the adapter that `url` resolves to.
pub fn import(url: &str, page: &str) -> (r: Result<GameImport, SiteError>)
    ensures
        resolution(url@) matches Result::Err(e) ==> r == Result::<GameImport, SiteError>::Err(e),
        resolution(url@) is Ok ==> match title_of(page@) {
            Option::None => r == Result::<GameImport, SiteError>::Err(SiteError::ParseFailed),
            Option::Some(t) => r matches Result::Ok(g) && g.title@ == t && g.url@ == url@
                && opt_view(g.description) == description_text(paragraphs_of(page@))
                && opt_view(g.edition) == edition_of(page@)
                && opt_view(g.platform) == platform_of(page@)
                && opt_view(g.image_src) == image_src_of(page@)
                && g.image is None,
        },
{
    match resolve(url) {
        Result::Err(e) => Result::Err(e),
        Result::Ok(site) => site.details_from_page(url, page),
    }
}

/// A link whose host has no adapter is refused as an unsupported site,
/// whatever page was fetched from it.
pub proof fn lemma_unknown_host_unsupported(u: Seq<char>, h: Seq<char>, page: Seq<char>)
    requires
        url_host(u) == Option::Some(Option::Some(h)),
        forall|i: int| 0 <= i < registry().len() ==> site_host(#[trigger] registry()[i]) != h,
    ensures
        resolution(u) == Result::<Site, SiteError>::Err(SiteError::UnsupportedSite),
        scrape_result(u, page) == Result::<u64, SiteError>::Err(SiteError::UnsupportedSite),
{
    lemma_no_site_found(registry(), h);
}

/// A host that no adapter of `reg` serves finds none.
proof fn lemma_no_site_found(reg: Seq<Site>, h: Seq<char>)
    requires
        forall|i: int| 0 <= i < reg.len() ==> site_host(#[trigger] reg[i]) != h,
    ensures
        find_site(reg, h) is None,
    decreases reg.len(),
{
    if reg.len() > 0 {
        assert(site_host(reg[0]) != h);
        assert forall|i: int| 0 <= i < reg.drop_first().len() implies site_host(
            #[trigger] reg.drop_first()[i],
        ) != h by {
            assert(reg.drop_first()[i] == reg[i + 1]);
        }
        lemma_no_site_found(reg.drop_first(), h);
    }
}

} // verus!
