use trading_simulator::document::{Document, Number, Value};
use trading_simulator::models::stock_models::{
    PriceData, StockData, StockDetailsResponse, StockListingPayload, StockListingResponse,
};
use trading_simulator::services::pipeline::{Action, Details, Listing, StoreReply, StoreRequest};
use trading_simulator::services::stock_service::{CompanyQuery, StockError, StoreStep};

fn text(s: &str) -> Value {
    Value::Text(s.to_string())
}

fn double(x: f64) -> Value {
    Value::Double(x.to_bits())
}

fn doc(entries: Vec<(&str, Value)>) -> Document {
    let mut d = Document::new();
    for (k, v) in entries {
        d.insert(k.to_string(), v);
    }
    d
}

fn figure(fmt: &str, raw: f64) -> Value {
    Value::Document(doc(vec![("fmt", text(fmt)), ("raw", double(raw))]))
}

fn company(name: &str, ticker: &str, sector: &str, industry: &str) -> Document {
    doc(vec![
        ("name", text(name)),
        ("ticker", text(ticker)),
        ("profile", Value::Document(doc(vec![("sector", text(sector)), ("industry", text(industry))]))),
        ("financials", Value::Document(doc(vec![("beta", figure("1.29", 1.29))]))),
    ])
}

fn price_document(ticker: &str, period: &str, interval: &str, closes: Vec<f64>, timestamps: Vec<i64>) -> Document {
    doc(vec![
        ("symbol", text(ticker)),
        ("period", text(period)),
        ("interval", text(interval)),
        ("closes", Value::Array(closes.into_iter().map(double).collect())),
        ("timestamps", Value::Array(timestamps.into_iter().map(Value::Int64).collect())),
    ])
}

/// A store in memory. Documents leave it when they are handed out.
struct FakeStore {
    companies: Vec<Document>,
    partitions: Vec<(String, Vec<Document>)>,
    cursor: Vec<Document>,
    accesses: usize,
    fail_at: Option<usize>,
}

fn path<'a>(d: &'a Document, dotted: &str) -> Option<&'a Value> {
    let mut parts = dotted.split('.');
    let mut value = d.get(parts.next().unwrap())?;
    for part in parts {
        value = value.as_document()?.get(part)?;
    }
    Some(value)
}

fn matches(d: &Document, filter: &Document) -> bool {
    filter.entries.iter().all(|(key, wanted)| path(d, key) == Some(wanted))
}

impl FakeStore {
    fn new(companies: Vec<Document>, partitions: Vec<(&str, Vec<Document>)>) -> FakeStore {
        FakeStore {
            companies,
            partitions: partitions.into_iter().map(|(k, v)| (k.to_string(), v)).collect(),
            cursor: Vec::new(),
            accesses: 0,
            fail_at: None,
        }
    }

    fn take_partition(&mut self, name: &str) -> Vec<Document> {
        match self.partitions.iter().position(|(k, _)| k == name) {
            Some(i) => self.partitions.remove(i).1,
            None => Vec::new(),
        }
    }

    fn answer(&mut self, request: StoreRequest) -> StoreReply {
        self.accesses += 1;
        if self.fail_at == Some(self.accesses) {
            return StoreReply::Failed;
        }
        match request {
            StoreRequest::FindCompanies(CompanyQuery { filter, skip, limit }) => {
                let all = std::mem::take(&mut self.companies);
                let mut found: Vec<Document> = all
                    .into_iter()
                    .filter(|c| matches(c, &filter))
                    .skip(skip as usize)
                    .take(limit as usize)
                    .collect();
                found.reverse();
                self.cursor = found;
                StoreReply::Opened
            }
            StoreRequest::FindCompany { filter } => {
                let all = std::mem::take(&mut self.companies);
                StoreReply::Found(all.into_iter().find(|c| matches(c, &filter)))
            }
            StoreRequest::FindWindow { partition, filter } => {
                let all = self.take_partition(&partition);
                StoreReply::Found(all.into_iter().find(|d| matches(d, &filter)))
            }
            StoreRequest::ScanHistory { partition } => {
                let mut all = self.take_partition(&partition);
                all.reverse();
                self.cursor = all;
                StoreReply::Opened
            }
            StoreRequest::Next => match self.cursor.pop() {
                Some(d) => StoreReply::Item(d),
                None => StoreReply::Exhausted,
            },
        }
    }
}

fn list(store: &mut FakeStore, payload: &StockListingPayload) -> Result<StockListingResponse, StockError> {
    let (mut state, mut action) = Listing::start(payload);
    loop {
        match action {
            Action::Ask(request) => {
                assert!(!state.is_done());
                let reply = store.answer(request);
                (state, action) = state.advance(reply);
            }
            Action::Respond(response) => {
                assert!(state.is_done());
                return Ok(response);
            }
            Action::Fail(error) => {
                assert!(state.is_done());
                return Err(error);
            }
        }
    }
}

fn detail(store: &mut FakeStore, ticker: &str) -> Result<StockDetailsResponse, StockError> {
    let (mut state, mut action) = Details::start(ticker);
    loop {
        match action {
            Action::Ask(request) => {
                assert!(!state.is_done());
                let reply = store.answer(request);
                (state, action) = state.advance(reply);
            }
            Action::Respond(response) => {
                assert!(state.is_done());
                return Ok(response);
            }
            Action::Fail(error) => {
                assert!(state.is_done());
                return Err(error);
            }
        }
    }
}

fn payload(user: Option<&str>, sector: &str, industry: Option<&str>, page: Option<u32>, size: Option<u32>) -> StockListingPayload {
    StockListingPayload {
        user_id: user.map(|s| s.to_string()),
        industry: industry.map(|s| s.to_string()),
        sector: sector.to_string(),
        page,
        items_per_page: size,
    }
}

fn market() -> FakeStore {
    FakeStore::new(
        vec![
            company("Apple Inc.", "AAPL", "Technology", "Consumer Electronics"),
            company("Exxon Mobil", "XOM", "Energy", "Oil & Gas"),
            company("NVIDIA", "NVDA", "Technology", "Semiconductors"),
            company("Microsoft", "MSFT", "Technology", "Software"),
        ],
        vec![
            (
                "AAPL",
                vec![
                    price_document("AAPL", "1y", "1wk", vec![150.0], vec![1672531200]),
                    price_document("AAPL", "1mo", "1d", vec![189.95, 191.25], vec![1704153600, 1704240000]),
                ],
            ),
            ("NVDA", vec![price_document("NVDA", "1y", "1wk", vec![400.0], vec![1672531200])]),
            ("XOM", vec![price_document("XOM", "1mo", "1d", vec![100.0], vec![1704153600])]),
        ],
    )
}

fn price(date: &str, value: f64) -> PriceData {
    PriceData { date: date.to_string(), price: Number::Float(value.to_bits()) }
}

#[test]
fn missing_user_never_reaches_the_store() {
    let mut store = market();
    let r = list(&mut store, &payload(None, "Technology", None, None, None));
    assert_eq!(r, Err(StockError::MissingUser));
    assert_eq!(store.accesses, 0);
}

#[test]
fn start_asks_for_the_page() {
    let (state, action) = Listing::start(&payload(Some("u"), "Energy", Some("Oil & Gas"), Some(2), Some(5)));
    assert!(!state.is_done());
    match action {
        Action::Ask(StoreRequest::FindCompanies(query)) => {
            assert_eq!(query.skip, 10);
            assert_eq!(query.limit, 5);
            assert_eq!(query.filter.get("profile.sector"), Some(&text("Energy")));
            assert_eq!(query.filter.get("profile.industry"), Some(&text("Oil & Gas")));
        }
        other => panic!("unexpected action {:?}", other),
    }
}

#[test]
fn sector_without_companies_lists_nothing() {
    let mut store = market();
    let r = list(&mut store, &payload(Some("u"), "Utilities", None, None, None));
    assert_eq!(r, Ok(StockListingResponse { documents: vec![] }));
    assert_eq!(store.accesses, 2);
}

#[test]
fn listing_round_trip_through_a_fake_store() {
    let mut store = market();
    let r = list(&mut store, &payload(Some("u"), "Technology", None, None, None)).unwrap();
    assert_eq!(
        r.documents,
        vec![
            StockData {
                name: "Apple Inc.".to_string(),
                ticker: "AAPL".to_string(),
                price_data: vec![
                    price("2024-01-02T00:00:00+00:00", 189.95),
                    price("2024-01-03T00:00:00+00:00", 191.25),
                ],
            },
            StockData { name: "NVIDIA".to_string(), ticker: "NVDA".to_string(), price_data: vec![] },
            StockData { name: "Microsoft".to_string(), ticker: "MSFT".to_string(), price_data: vec![] },
        ]
    );
    // one query, four cursor reads, three window lookups
    assert_eq!(store.accesses, 8);
}

#[test]
fn listing_respects_industry_and_page() {
    let mut store = market();
    let r = list(&mut store, &payload(Some("u"), "Technology", Some("Software"), None, None)).unwrap();
    assert_eq!(r.documents.len(), 1);
    assert_eq!(r.documents[0].ticker, "MSFT");
    let mut store = market();
    let r = list(&mut store, &payload(Some("u"), "Technology", None, Some(1), Some(2))).unwrap();
    assert_eq!(r.documents.len(), 1);
    assert_eq!(r.documents[0].ticker, "MSFT");
    let mut store = market();
    let r = list(&mut store, &payload(Some("u"), "Technology", None, Some(0), Some(2))).unwrap();
    assert_eq!(r.documents.len(), 2);
    assert_eq!(r.documents[0].ticker, "AAPL");
    assert_eq!(r.documents[1].ticker, "NVDA");
}

#[test]
fn listing_asks_for_the_window_in_the_partition_of_the_ticker() {
    let (state, _) = Listing::start(&payload(Some("u"), "Technology", None, None, None));
    let (state, action) = state.advance(StoreReply::Opened);
    assert_eq!(action, Action::Ask(StoreRequest::Next));
    let (state, action) = state.advance(StoreReply::Item(company("Apple Inc.", "AAPL", "Technology", "x")));
    match action {
        Action::Ask(StoreRequest::FindWindow { partition, filter }) => {
            assert_eq!(partition, "AAPL");
            assert_eq!(filter.get("symbol"), Some(&text("AAPL")));
            assert_eq!(filter.get("period"), Some(&text("1mo")));
            assert_eq!(filter.get("interval"), Some(&text("1d")));
        }
        other => panic!("unexpected action {:?}", other),
    }
    let (state, action) = state.advance(StoreReply::Found(None));
    assert_eq!(action, Action::Ask(StoreRequest::Next));
    let (state, action) = state.advance(StoreReply::Exhausted);
    assert!(state.is_done());
    assert_eq!(
        action,
        Action::Respond(StockListingResponse {
            documents: vec![StockData { name: "Apple Inc.".to_string(), ticker: "AAPL".to_string(), price_data: vec![] }],
        })
    );
}

#[test]
fn listing_fails_where_the_store_fails() {
    let expected = [
        (1, StoreStep::CompanyQuery, None),
        (2, StoreStep::CompanyCursor, None),
        (3, StoreStep::PriceWindow, Some("AAPL".to_string())),
        (4, StoreStep::CompanyCursor, None),
        (5, StoreStep::PriceWindow, Some("NVDA".to_string())),
    ];
    for (at, step, about) in expected {
        let mut store = market();
        store.fail_at = Some(at);
        let r = list(&mut store, &payload(Some("u"), "Technology", None, None, None));
        assert_eq!(r, Err(StockError::StoreQueryFailed { step, about }));
        assert_eq!(store.accesses, at);
    }
}

#[test]
fn listing_takes_replies_out_of_turn_as_store_failures() {
    let (state, _) = Listing::start(&payload(Some("u"), "Technology", None, None, None));
    let (state, action) = state.advance(StoreReply::Exhausted);
    assert!(state.is_done());
    assert_eq!(action, Action::Fail(StockError::StoreQueryFailed { step: StoreStep::CompanyQuery, about: None }));
    let (state, action) = state.advance(StoreReply::Opened);
    assert!(state.is_done());
    assert_eq!(action, Action::Fail(StockError::StoreQueryFailed { step: StoreStep::CompanyCursor, about: None }));
    let (state, _) = Listing::start(&payload(Some("u"), "Technology", None, None, None));
    let (state, _) = state.advance(StoreReply::Opened);
    let (state, action) = state.advance(StoreReply::Found(None));
    assert!(state.is_done());
    assert_eq!(action, Action::Fail(StockError::StoreQueryFailed { step: StoreStep::CompanyCursor, about: None }));
}

#[test]
fn details_round_trip_through_a_fake_store() {
    let mut store = market();
    let r = detail(&mut store, "AAPL").unwrap();
    assert_eq!(r.ticker, "AAPL");
    let financials = r.financials.unwrap();
    assert_eq!(financials.beta.unwrap().fmt, Some("1.29".to_string()));
    assert_eq!(financials.day_high, None);
    assert_eq!(r.key_statistics, None);
    let profile = r.profile.unwrap();
    assert_eq!(profile.sector, Some("Technology".to_string()));
    assert_eq!(profile.industry, Some("Consumer Electronics".to_string()));
    assert_eq!(profile.country, None);
    let history = r.price_data.unwrap();
    assert_eq!(history.len(), 2);
    assert_eq!(history[0].period, "1y");
    assert_eq!(history[0].interval, "1wk");
    assert_eq!(history[0].closes, Some(vec![Number::Float(150.0f64.to_bits())]));
    assert_eq!(history[0].timestamps, Some(vec![1672531200]));
    assert_eq!(history[1].period, "1mo");
    assert_eq!(history[1].closes, Some(vec![Number::Float(189.95f64.to_bits()), Number::Float(191.25f64.to_bits())]));
    assert_eq!(history[1].timestamps, Some(vec![1704153600, 1704240000]));
    assert_eq!(history[1].highs, None);
    assert_eq!(history[1].volumes, None);
    // company lookup, scan, three cursor reads
    assert_eq!(store.accesses, 5);
}

#[test]
fn details_of_unknown_ticker_are_soft_empty() {
    let mut store = market();
    let r = detail(&mut store, "NOPE").unwrap();
    assert_eq!(
        r,
        StockDetailsResponse {
            ticker: "NOPE".to_string(),
            financials: None,
            key_statistics: None,
            price_data: Some(vec![]),
            profile: None,
        }
    );
}

#[test]
fn details_start_by_looking_the_company_up() {
    let (state, action) = Details::start("MSFT");
    assert!(!state.is_done());
    match action {
        Action::Ask(StoreRequest::FindCompany { filter }) => {
            assert_eq!(filter.get("ticker"), Some(&text("MSFT")));
            assert_eq!(filter.entries.len(), 1);
        }
        other => panic!("unexpected action {:?}", other),
    }
    let (_, action) = state.advance(StoreReply::Found(None));
    assert_eq!(action, Action::Ask(StoreRequest::ScanHistory { partition: "MSFT".to_string() }));
}

#[test]
fn details_fail_on_a_wrong_shaped_record() {
    let bad = doc(vec![
        ("period", text("1mo")),
        ("interval", text("1d")),
        ("closes", Value::Array(vec![double(1.0), text("n/a")])),
    ]);
    let mut store = FakeStore::new(
        vec![company("Apple Inc.", "AAPL", "Technology", "x")],
        vec![("AAPL", vec![price_document("AAPL", "1y", "1wk", vec![1.0], vec![1]), bad, price_document("AAPL", "5d", "1h", vec![1.0], vec![1])])],
    );
    let r = detail(&mut store, "AAPL");
    assert_eq!(r, Err(StockError::DecodeFailed { ticker: "AAPL".to_string() }));
    // the third record is never asked for
    assert_eq!(store.accesses, 4);
}

#[test]
fn details_fail_where_the_store_fails() {
    let expected = [(1, StoreStep::CompanyLookup), (2, StoreStep::HistoryQuery), (3, StoreStep::HistoryCursor), (5, StoreStep::HistoryCursor)];
    for (at, step) in expected {
        let mut store = market();
        store.fail_at = Some(at);
        let r = detail(&mut store, "AAPL");
        assert_eq!(r, Err(StockError::StoreQueryFailed { step, about: Some("AAPL".to_string()) }));
    }
}
