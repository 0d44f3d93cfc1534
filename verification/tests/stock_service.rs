use trading_simulator::document::{Document, Number, Value};
use trading_simulator::models::stock_models::{
    Metric, PriceData, StockData, StockListingPayload, StockListingResponse,
};
use trading_simulator::routes;
use trading_simulator::services::stock_service::{
    company_financials, company_key_statistics, company_profile, company_query, company_ticker,
    listing_entry, partition_name, price_window, stockList, stock_details, sub_document,
    text_or_default, ticker_filter, window_filter, zip_price_data, CompanyMatch, StockError,
    StoreStep, COMPANY_COLLECTION, COMPANY_DATABASE, DEFAULT_PAGE_SIZE, PRICE_DATABASE,
};

fn text(s: &str) -> Value {
    Value::Text(s.to_string())
}

fn double(x: f64) -> Value {
    Value::Double(x.to_bits())
}

fn doc(entries: Vec<(&str, Value)>) -> Document {
    let mut d = Document::new();
    for (k, v) in entries {
        d.insert(k.to_string(), v);
    }
    d
}

fn payload(user: Option<&str>, industry: Option<&str>, page: Option<u32>, size: Option<u32>) -> StockListingPayload {
    StockListingPayload {
        user_id: user.map(|s| s.to_string()),
        industry: industry.map(|s| s.to_string()),
        sector: "Technology".to_string(),
        page,
        items_per_page: size,
    }
}

fn company(name: &str, ticker: &str) -> Document {
    doc(vec![("name", text(name)), ("ticker", text(ticker))])
}

fn window_document(closes: Vec<f64>, timestamps: Vec<i64>) -> Document {
    doc(vec![
        ("symbol", text("AAPL")),
        ("period", text("1mo")),
        ("interval", text("1d")),
        ("closes", Value::Array(closes.into_iter().map(double).collect())),
        ("timestamps", Value::Array(timestamps.into_iter().map(Value::Int64).collect())),
    ])
}

fn price(date: &str, value: f64) -> PriceData {
    PriceData { date: date.to_string(), price: Number::Float(value.to_bits()) }
}

#[test]
fn pagination_second_page_of_five() {
    let query = company_query(&payload(Some("u1"), None, Some(2), Some(5)));
    assert_eq!(query.skip, 10);
    assert_eq!(query.limit, 5);
}

#[test]
fn pagination_defaults() {
    assert_eq!(DEFAULT_PAGE_SIZE, 10);
    let query = company_query(&payload(Some("u1"), None, None, None));
    assert_eq!(query.skip, 0);
    assert_eq!(query.limit, 10);
    let query = company_query(&payload(Some("u1"), None, Some(3), None));
    assert_eq!(query.skip, 30);
    assert_eq!(query.limit, 10);
    let query = company_query(&payload(Some("u1"), None, None, Some(7)));
    assert_eq!(query.skip, 0);
    assert_eq!(query.limit, 7);
    let query = company_query(&payload(Some("u1"), None, Some(4), Some(0)));
    assert_eq!(query.skip, 0);
    assert_eq!(query.limit, 0);
}

#[test]
fn pagination_does_not_overflow() {
    let query = company_query(&payload(Some("u1"), None, Some(u32::MAX), Some(u32::MAX)));
    assert_eq!(query.skip, 18_446_744_065_119_617_025);
    assert_eq!(query.limit, 4_294_967_295);
}

#[test]
fn filter_matches_sector_and_industry() {
    let query = company_query(&payload(Some("u1"), None, None, None));
    assert_eq!(query.filter.get("profile.sector"), Some(&text("Technology")));
    assert_eq!(query.filter.get("profile.industry"), None);
    assert_eq!(query.filter.entries.len(), 1);
    let query = company_query(&payload(Some("u1"), Some("Semiconductors"), None, None));
    assert_eq!(query.filter.get("profile.sector"), Some(&text("Technology")));
    assert_eq!(query.filter.get("profile.industry"), Some(&text("Semiconductors")));
    assert_eq!(query.filter.entries.len(), 2);
}

#[test]
fn the_store_is_laid_out_by_name() {
    assert_eq!(COMPANY_DATABASE, "trading_simulator");
    assert_eq!(COMPANY_COLLECTION, "companies");
    assert_eq!(PRICE_DATABASE, "stock_data");
}

#[test]
fn partition_is_named_by_ticker() {
    assert_eq!(partition_name("AAPL"), "AAPL");
    assert_eq!(partition_name(""), "");
}

#[test]
fn window_filter_asks_for_one_month_of_days() {
    let filter = window_filter("MSFT");
    assert_eq!(filter.get("symbol"), Some(&text("MSFT")));
    assert_eq!(filter.get("period"), Some(&text("1mo")));
    assert_eq!(filter.get("interval"), Some(&text("1d")));
    assert_eq!(filter.entries.len(), 3);
}

#[test]
fn ticker_filter_matches_ticker_only() {
    let filter = ticker_filter("MSFT");
    assert_eq!(filter.get("ticker"), Some(&text("MSFT")));
    assert_eq!(filter.entries.len(), 1);
}

#[test]
fn zip_stops_at_the_shorter_series() {
    let closes = vec![Number::Float(1.5f64.to_bits()), Number::Int(2), Number::Int(3)];
    let window = zip_price_data(&closes, &vec![1704153600, 1704240000]);
    assert_eq!(
        window,
        vec![
            price("2024-01-02T00:00:00+00:00", 1.5),
            PriceData { date: "2024-01-03T00:00:00+00:00".to_string(), price: Number::Int(2) },
        ]
    );
    let window = zip_price_data(&closes[..1].to_vec(), &vec![1704153600, 1704240000, 0]);
    assert_eq!(window, vec![price("2024-01-02T00:00:00+00:00", 1.5)]);
    assert_eq!(zip_price_data(&closes, &vec![]), vec![]);
    assert_eq!(zip_price_data(&vec![], &vec![1, 2, 3]), vec![]);
    assert_eq!(zip_price_data(&vec![], &vec![]), vec![]);
}

#[test]
fn window_of_a_price_document() {
    let window = price_window(&window_document(vec![189.95, 191.25], vec![1704153600, 1704240000]));
    assert_eq!(
        window,
        vec![price("2024-01-02T00:00:00+00:00", 189.95), price("2024-01-03T00:00:00+00:00", 191.25)]
    );
}

#[test]
fn window_of_unequal_series_is_truncated() {
    let window = price_window(&window_document(vec![1.0, 2.0, 3.0], vec![1704153600]));
    assert_eq!(window, vec![price("2024-01-02T00:00:00+00:00", 1.0)]);
    let window = price_window(&window_document(vec![1.0], vec![1704153600, 1704240000]));
    assert_eq!(window, vec![price("2024-01-02T00:00:00+00:00", 1.0)]);
}

#[test]
fn window_without_series_is_empty() {
    assert_eq!(price_window(&Document::new()), vec![]);
    assert_eq!(price_window(&doc(vec![("closes", Value::Array(vec![double(1.0)]))])), vec![]);
    assert_eq!(price_window(&doc(vec![("timestamps", Value::Array(vec![Value::Int64(1)]))])), vec![]);
    let d = doc(vec![("closes", text("1.0")), ("timestamps", Value::Array(vec![Value::Int64(1)]))]);
    assert_eq!(price_window(&d), vec![]);
}

#[test]
fn window_with_a_bad_item_is_empty() {
    let d = doc(vec![
        ("closes", Value::Array(vec![double(1.0), text("n/a")])),
        ("timestamps", Value::Array(vec![Value::Int64(1), Value::Int64(2)])),
    ]);
    assert_eq!(price_window(&d), vec![]);
    let d = doc(vec![
        ("closes", Value::Array(vec![double(1.0), double(2.0)])),
        ("timestamps", Value::Array(vec![Value::Int64(1), double(2.0)])),
    ]);
    assert_eq!(price_window(&d), vec![]);
}

#[test]
fn window_timestamp_out_of_range_is_dated_at_the_epoch() {
    let window = price_window(&window_document(vec![1.0], vec![i64::MAX]));
    assert_eq!(window, vec![price("1970-01-01T00:00:00+00:00", 1.0)]);
}

#[test]
fn identity_fields_default_to_empty() {
    let d = doc(vec![("name", Value::Int32(1)), ("other", text("x"))]);
    assert_eq!(text_or_default(&d, "name"), "");
    assert_eq!(text_or_default(&d, "ticker"), "");
    assert_eq!(text_or_default(&d, "other"), "x");
    assert_eq!(company_ticker(&d), "");
    assert_eq!(company_ticker(&company("Apple Inc.", "AAPL")), "AAPL");
}

#[test]
fn entry_of_company_with_window() {
    let w = window_document(vec![189.95], vec![1704153600]);
    let entry = listing_entry(&company("Apple Inc.", "AAPL"), Some(&w));
    assert_eq!(
        entry,
        StockData {
            name: "Apple Inc.".to_string(),
            ticker: "AAPL".to_string(),
            price_data: vec![price("2024-01-02T00:00:00+00:00", 189.95)],
        }
    );
}

#[test]
fn entry_of_company_without_window_has_empty_prices() {
    let entry = listing_entry(&company("Apple Inc.", "AAPL"), None);
    assert_eq!(
        entry,
        StockData { name: "Apple Inc.".to_string(), ticker: "AAPL".to_string(), price_data: vec![] }
    );
}

#[test]
fn listing_rejects_missing_user() {
    let matches = vec![CompanyMatch { company: company("Apple Inc.", "AAPL"), window: None }];
    let r = stockList(&payload(None, None, None, None), &matches);
    assert_eq!(r, Err(StockError::MissingUser));
    assert_eq!(routes::stock_listing::FAILURE_STATUS, 400);
    assert_eq!(StockError::MissingUser.message(), "Missing user ID");
}

#[test]
fn listing_without_matches_is_empty() {
    let r = stockList(&payload(Some("u1"), None, None, None), &vec![]);
    assert_eq!(r, Ok(StockListingResponse { documents: vec![] }));
}

#[test]
fn listing_keeps_order_and_companies_without_window() {
    let matches = vec![
        CompanyMatch { company: company("Zeta", "ZZZ"), window: None },
        CompanyMatch {
            company: company("Apple Inc.", "AAPL"),
            window: Some(window_document(vec![1.0, 2.0], vec![1704153600, 1704240000])),
        },
        CompanyMatch { company: doc(vec![("ticker", text("NONAME"))]), window: Some(Document::new()) },
    ];
    let r = stockList(&payload(Some("u1"), None, None, None), &matches).unwrap();
    assert_eq!(r.documents.len(), 3);
    assert_eq!(r.documents[0], StockData { name: "Zeta".to_string(), ticker: "ZZZ".to_string(), price_data: vec![] });
    assert_eq!(r.documents[1].ticker, "AAPL");
    assert_eq!(
        r.documents[1].price_data,
        vec![price("2024-01-02T00:00:00+00:00", 1.0), price("2024-01-03T00:00:00+00:00", 2.0)]
    );
    assert_eq!(r.documents[2], StockData { name: "".to_string(), ticker: "NONAME".to_string(), price_data: vec![] });
}

fn figure(fmt: &str, raw: f64) -> Value {
    Value::Document(doc(vec![("fmt", text(fmt)), ("raw", double(raw))]))
}

fn full_company() -> Document {
    doc(vec![
        ("name", text("Apple Inc.")),
        ("ticker", text("AAPL")),
        ("profile", Value::Document(doc(vec![("sector", text("Technology")), ("city", text("Cupertino"))]))),
        ("financials", Value::Document(doc(vec![("beta", figure("1.29", 1.29))]))),
        ("keyStatistics", Value::Document(doc(vec![("pegRatio", figure("2.1", 2.1))]))),
    ])
}

fn history_document(period: &str) -> Document {
    doc(vec![
        ("symbol", text("AAPL")),
        ("period", text(period)),
        ("interval", text("1d")),
        ("closes", Value::Array(vec![double(189.95)])),
        ("timestamps", Value::Array(vec![Value::Int64(1704153600)])),
    ])
}

#[test]
fn sub_documents_are_found_by_key() {
    let c = full_company();
    assert!(sub_document(&c, "profile").is_some());
    assert!(sub_document(&c, "name").is_none());
    assert!(sub_document(&c, "missing").is_none());
    assert!(sub_document(&doc(vec![("profile", Value::Null)]), "profile").is_none());
}

#[test]
fn details_merge_company_and_history() {
    let c = full_company();
    let history = vec![history_document("1mo"), history_document("1y")];
    let r = stock_details("AAPL", Some(&c), &history).unwrap();
    assert_eq!(r.ticker, "AAPL");
    let financials = r.financials.unwrap();
    assert_eq!(financials.beta, Some(Metric { fmt: Some("1.29".to_string()), raw: Some(Number::Float(1.29f64.to_bits())) }));
    assert_eq!(financials.open, None);
    assert_eq!(r.key_statistics.unwrap().peg_ratio.unwrap().fmt, Some("2.1".to_string()));
    let profile = r.profile.unwrap();
    assert_eq!(profile.sector, Some("Technology".to_string()));
    assert_eq!(profile.city, Some("Cupertino".to_string()));
    assert_eq!(profile.address, None);
    let price_data = r.price_data.unwrap();
    assert_eq!(price_data.len(), 2);
    assert_eq!(price_data[0].period, "1mo");
    assert_eq!(price_data[1].period, "1y");
    assert_eq!(price_data[0].closes, Some(vec![Number::Float(189.95f64.to_bits())]));
    assert_eq!(price_data[0].timestamps, Some(vec![1704153600]));
    assert_eq!(price_data[0].highs, None);
}

#[test]
fn details_without_company_echo_the_ticker() {
    let r = stock_details("NOPE", None, &vec![]).unwrap();
    assert_eq!(r.ticker, "NOPE");
    assert_eq!(r.financials, None);
    assert_eq!(r.key_statistics, None);
    assert_eq!(r.profile, None);
    assert_eq!(r.price_data, Some(vec![]));
}

#[test]
fn details_without_company_still_hold_history() {
    let r = stock_details("AAPL", None, &vec![history_document("1mo")]).unwrap();
    assert_eq!(r.financials, None);
    assert_eq!(r.price_data.unwrap().len(), 1);
}

#[test]
fn details_sub_documents_are_independent() {
    let c = doc(vec![
        ("ticker", text("AAPL")),
        ("financials", text("not a document")),
        ("keyStatistics", Value::Document(doc(vec![("pegRatio", text("wrong shape"))]))),
        ("profile", Value::Document(doc(vec![("city", text("Cupertino"))]))),
    ]);
    assert_eq!(company_financials(Some(&c)), None);
    assert_eq!(company_key_statistics(Some(&c)), None);
    assert_eq!(company_profile(Some(&c)).unwrap().city, Some("Cupertino".to_string()));
    assert_eq!(company_financials(None), None);
    assert_eq!(company_key_statistics(None), None);
    assert_eq!(company_profile(None), None);
    let r = stock_details("AAPL", Some(&c), &vec![]).unwrap();
    assert_eq!(r.financials, None);
    assert_eq!(r.key_statistics, None);
    assert!(r.profile.is_some());
}

#[test]
fn details_fail_on_wrong_shaped_history() {
    let bad = doc(vec![
        ("period", text("1mo")),
        ("interval", text("1d")),
        ("closes", Value::Array(vec![double(1.0), text("n/a")])),
    ]);
    let history = vec![history_document("1mo"), bad, history_document("1y")];
    let r = stock_details("AAPL", Some(&full_company()), &history);
    assert_eq!(r, Err(StockError::DecodeFailed { ticker: "AAPL".to_string() }));
    let e = r.unwrap_err();
    assert_eq!(e.message(), "Data parsing failed for price data");
    assert_eq!(routes::stock_details::FAILURE_STATUS, 500);
}

#[test]
fn details_accept_history_missing_highs_and_lows() {
    let d = doc(vec![("period", text("1mo")), ("interval", text("1d"))]);
    let r = stock_details("AAPL", None, &vec![d]).unwrap();
    let price_data = r.price_data.unwrap();
    assert_eq!(price_data[0].highs, None);
    assert_eq!(price_data[0].lows, None);
}

#[test]
fn only_the_missing_user_is_a_client_error() {
    assert!(StockError::MissingUser.is_client_error());
    assert!(!StockError::DecodeFailed { ticker: "AAPL".to_string() }.is_client_error());
    for step in [
        StoreStep::CompanyQuery,
        StoreStep::CompanyCursor,
        StoreStep::PriceWindow,
        StoreStep::CompanyLookup,
        StoreStep::HistoryQuery,
        StoreStep::HistoryCursor,
    ] {
        assert!(!StockError::StoreQueryFailed { step, about: None }.is_client_error());
    }
}

#[test]
fn every_error_has_its_message() {
    let store = |step| StockError::StoreQueryFailed { step, about: None };
    assert_eq!(store(StoreStep::CompanyQuery).message(), "Error querying companies collection");
    assert_eq!(store(StoreStep::CompanyCursor).message(), "Error fetching document from cursor");
    assert_eq!(store(StoreStep::PriceWindow).message(), "Error fetching price data");
    assert_eq!(store(StoreStep::CompanyLookup).message(), "Database query failed for company data");
    assert_eq!(store(StoreStep::HistoryQuery).message(), "Database query failed for stock price data");
    assert_eq!(store(StoreStep::HistoryCursor).message(), "Cursor failed during stock price data retrieval");
}
