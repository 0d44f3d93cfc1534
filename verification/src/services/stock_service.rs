//! Listing the companies of a sector with their recent prices, and gathering
//! all that is known of one ticker.
//!
//! Nothing here talks to a store. The functions say which queries are to be
//! made and turn the documents that answer them into responses.

use crate::decode::{field_of, integers_field, integers_of, numbers_field, numbers_of, text_field, Field};
use crate::document::{document_of, text_of, Document, DocumentView, Number, Value, ValueView};
use crate::models::stock_models::{
    financials_of, key_statistics_of, price_history_of, profile_of, Financials, FinancialsView,
    KeyStatistics, KeyStatisticsView, PriceData, PriceDataDetails, PriceDataDetailsView,
    PriceDataView, Profile, ProfileView, StockData, StockDataView, StockDetailsResponse,
    StockDetailsResponseView, StockListingPayload, StockListingPayloadView, StockListingResponse,
    StockListingResponseView,
};
use crate::time::{date_text, timestamp_to_date};
use vstd::prelude::*;

verus! {

/// Companies on a page when the request names no number.
pub const DEFAULT_PAGE_SIZE: u32 = 10;

/// The logical database that holds the companies.
pub const COMPANY_DATABASE: &'static str = "trading_simulator";

/// The collection of the companies in their database.
pub const COMPANY_COLLECTION: &'static str = "companies";

/// The logical database that holds the prices, one partition for each ticker.
pub const PRICE_DATABASE: &'static str = "stock_data";

/// A round-trip to the store that can fail.
#[derive(Clone, Copy, Debug, PartialEq, Eq)]
pub enum StoreStep {
    /// Running the query for the companies of a sector.
    CompanyQuery,
    /// Taking the next company from the cursor of that query.
    CompanyCursor,
    /// Looking up the recent price window of one ticker.
    PriceWindow,
    /// Looking up the company of one ticker.
    CompanyLookup,
    /// Running the query for the price history of one ticker.
    HistoryQuery,
    /// Taking the next record from the cursor of that query.
    HistoryCursor,
}

/// Why a stock operation gave no response.
#[derive(Debug, PartialEq)]
pub enum StockError {
    /// The request does not say who asks.
    MissingUser,
    /// The store failed at `step`, which was about the ticker `about` where
    /// it was about one.
    StoreQueryFailed { step: StoreStep, about: Option<String> },
    /// A record of the price history of `ticker` does not have the shape of one.
    DecodeFailed { ticker: String },
}

/// The mathematical value of a [`StockError`].
pub enum StockErrorView {
    MissingUser,
    StoreQueryFailed { step: StoreStep, about: Option<Seq<char>> },
    DecodeFailed { ticker: Seq<char> },
}

impl View for StockError {
    type V = StockErrorView;

    open spec fn view(&self) -> StockErrorView {
        match self {
            StockError::MissingUser => StockErrorView::MissingUser,
            StockError::StoreQueryFailed { step, about } => StockErrorView::StoreQueryFailed {
                step: *step,
                about: about.deep_view(),
            },
            StockError::DecodeFailed { ticker } => StockErrorView::DecodeFailed { ticker: ticker@ },
        }
    }
}

impl DeepView for StockError {
    type V = StockErrorView;

    open spec fn deep_view(&self) -> StockErrorView {
        self@
    }
}

/// The short message of an error, as the boundary shows it.
pub open spec fn message_of(error: StockErrorView) -> Seq<char> {
    match error {
        StockErrorView::MissingUser => "Missing user ID"@,
        StockErrorView::StoreQueryFailed { step, about } => match step {
            StoreStep::CompanyQuery => "Error querying companies collection"@,
            StoreStep::CompanyCursor => "Error fetching document from cursor"@,
            StoreStep::PriceWindow => "Error fetching price data"@,
            StoreStep::CompanyLookup => "Database query failed for company data"@,
            StoreStep::HistoryQuery => "Database query failed for stock price data"@,
            StoreStep::HistoryCursor => "Cursor failed during stock price data retrieval"@,
        },
        StockErrorView::DecodeFailed { ticker } => "Data parsing failed for price data"@,
    }
}

/// Whether an error lies with the request rather than with the store or with
/// what it holds: only a request that does not say who asks does.
pub open spec fn blames_request(error: StockErrorView) -> bool {
    error is MissingUser
}

impl StockError {
    /// Whether the error lies with the request, so that the boundary answers
    /// with a client error; else it lies with the server.
    pub fn is_client_error(&self) -> (b: bool)
        ensures
            b == blames_request(self@),
    {
        match self {
            StockError::MissingUser => true,
            _ => false,
        }
    }

    /// The short message of the error.
    pub fn message(&self) -> (text: String)
        ensures
            text@ == message_of(self@),
    {
        match self {
            StockError::MissingUser => "Missing user ID".to_owned(),
            StockError::StoreQueryFailed { step, about } => match step {
                StoreStep::CompanyQuery => "Error querying companies collection".to_owned(),
                StoreStep::CompanyCursor => "Error fetching document from cursor".to_owned(),
                StoreStep::PriceWindow => "Error fetching price data".to_owned(),
                StoreStep::CompanyLookup => "Database query failed for company data".to_owned(),
                StoreStep::HistoryQuery => "Database query failed for stock price data".to_owned(),
                StoreStep::HistoryCursor => "Cursor failed during stock price data retrieval".to_owned(),
            },
            StockError::DecodeFailed { ticker } => "Data parsing failed for price data".to_owned(),
        }
    }
}

/// A query for one page of companies.
#[derive(Debug, PartialEq)]
pub struct CompanyQuery {
    /// Each entry asks that the field it names equal the value it holds.
    pub filter: Document,
    /// Matches to pass over before the first that is returned.
    pub skip: u64,
    /// The most matches to return.
    pub limit: i64,
}

/// The mathematical value of a [`CompanyQuery`].
pub struct CompanyQueryView {
    pub filter: DocumentView,
    pub skip: u64,
    pub limit: i64,
}

impl View for CompanyQuery {
    type V = CompanyQueryView;

    open spec fn view(&self) -> CompanyQueryView {
        CompanyQueryView { filter: self.filter@, skip: self.skip, limit: self.limit }
    }
}

/// The filter for the companies of a sector, narrowed to an industry where
/// one is given: equality on `profile.sector` and on `profile.industry`.
pub open spec fn sector_filter_of(sector: Seq<char>, industry: Option<Seq<char>>) -> DocumentView {
    let by_sector = Map::<Seq<char>, ValueView>::empty().insert(
        "profile.sector"@,
        ValueView::Text(sector),
    );
    match industry {
        Some(name) => by_sector.insert("profile.industry"@, ValueView::Text(name)),
        None => by_sector,
    }
}

/// Companies on a page: what the request says, ten by default.
pub open spec fn page_size_of(items_per_page: Option<u32>) -> int {
    match items_per_page {
        Some(n) => n as int,
        None => DEFAULT_PAGE_SIZE as int,
    }
}

/// Matches before the first of a 0-indexed page.
pub open spec fn skip_of(page: Option<u32>, items_per_page: Option<u32>) -> int {
    let index: int = match page {
        Some(p) => p as int,
        None => 0,
    };
    index * page_size_of(items_per_page)
}

/// The query that a request for a page stands for.
pub open spec fn company_query_of(payload: StockListingPayloadView) -> CompanyQueryView {
    CompanyQueryView {
        filter: sector_filter_of(payload.sector, payload.industry),
        skip: skip_of(payload.page, payload.items_per_page) as u64,
        limit: page_size_of(payload.items_per_page) as i64,
    }
}

/// Builds the query for the page of companies that `payload` asks for.
pub fn company_query(payload: &StockListingPayload) -> (query: CompanyQuery)
    ensures
        query@ == company_query_of(payload@),
        query.skip as int == skip_of(payload.page, payload.items_per_page),
        query.limit as int == page_size_of(payload.items_per_page),
{
    let mut filter = Document::new();
    filter.insert("profile.sector".to_owned(), Value::Text(payload.sector.clone()));
    match &payload.industry {
        Some(name) => {
            filter.insert("profile.industry".to_owned(), Value::Text(name.clone()));
        },
        None => {},
    }
    let index: u64 = match payload.page {
        Some(p) => p as u64,
        None => 0,
    };
    let size: u32 = match payload.items_per_page {
        Some(n) => n,
        None => DEFAULT_PAGE_SIZE,
    };
    assert(index * size <= 0xffff_ffff * 0xffff_ffff) by (nonlinear_arith)
        requires
            index <= 0xffff_ffff,
            size <= 0xffff_ffff,
    ;
    CompanyQuery { filter, skip: index * (size as u64), limit: size as i64 }
}

/// The name of the partition that holds the price documents of a ticker: the
/// ticker itself.
pub fn partition_name(ticker: &str) -> (name: String)
    ensures
        name@ == ticker@,
{
    ticker.to_owned()
}

/// The filter for the recent price window of a ticker: its one-month series
/// at one-day intervals.
pub open spec fn window_filter_of(ticker: Seq<char>) -> DocumentView {
    Map::<Seq<char>, ValueView>::empty().insert("symbol"@, ValueView::Text(ticker)).insert(
        "period"@,
        ValueView::Text("1mo"@),
    ).insert("interval"@, ValueView::Text("1d"@))
}

/// Builds the filter for the recent price window of a ticker.
pub fn window_filter(ticker: &str) -> (filter: Document)
    ensures
        filter@ == window_filter_of(ticker@),
{
    let mut filter = Document::new();
    filter.insert("symbol".to_owned(), Value::Text(ticker.to_owned()));
    filter.insert("period".to_owned(), Value::Text("1mo".to_owned()));
    filter.insert("interval".to_owned(), Value::Text("1d".to_owned()));
    filter
}

/// The filter for the company of a ticker: equality on `ticker`.
pub open spec fn ticker_filter_of(ticker: Seq<char>) -> DocumentView {
    Map::<Seq<char>, ValueView>::empty().insert("ticker"@, ValueView::Text(ticker))
}

/// Builds the filter for the company of a ticker.
pub fn ticker_filter(ticker: &str) -> (filter: Document)
    ensures
        filter@ == ticker_filter_of(ticker@),
{
    let mut filter = Document::new();
    filter.insert("ticker".to_owned(), Value::Text(ticker.to_owned()));
    filter
}

/// The lesser of two lengths.
pub open spec fn shorter(a: nat, b: nat) -> nat {
    if a <= b {
        a
    } else {
        b
    }
}

/// Closing prices paired with their dates, as far as both series go.
pub open spec fn zip_prices(closes: Seq<Number>, timestamps: Seq<i64>) -> Seq<PriceDataView> {
    Seq::new(
        shorter(closes.len(), timestamps.len()),
        |i: int| PriceDataView { date: date_text(timestamps[i]), price: closes[i] },
    )
}

/// Pairs each closing price with the date of its timestamp. Where one series
/// is longer than the other, what it has beyond the other's length is left out.
pub fn zip_price_data(closes: &Vec<Number>, timestamps: &Vec<i64>) -> (window: Vec<PriceData>)
    ensures
        window.deep_view() == zip_prices(closes@, timestamps@),
        window@.len() == shorter(closes@.len(), timestamps@.len()),
{
    let n: usize = if closes.len() <= timestamps.len() {
        closes.len()
    } else {
        timestamps.len()
    };
    let mut window: Vec<PriceData> = Vec::new();
    let mut i: usize = 0;
    while i < n
        invariant
            i <= n,
            n == shorter(closes@.len(), timestamps@.len()),
            window@.len() == i,
            forall|j: int|
                0 <= j < i ==> (#[trigger] window@[j])@ == (PriceDataView {
                    date: date_text(timestamps@[j]),
                    price: closes@[j],
                }),
        decreases n - i,
    {
        window.push(PriceData { date: timestamp_to_date(timestamps[i]), price: closes[i] });
        i = i + 1;
    }
    assert(window.deep_view() =~= zip_prices(closes@, timestamps@));
    window
}

/// The series under a field, or none of it where the field is absent or
/// malformed.
pub open spec fn series_or_empty<T>(f: Field<Seq<T>>) -> Seq<T> {
    match f {
        Field::Present(s) => s,
        _ => Seq::empty(),
    }
}

/// The price window that a price document holds: its `closes` zipped with its
/// `timestamps`.
pub open spec fn price_window_of(d: DocumentView) -> Seq<PriceDataView> {
    zip_prices(
        series_or_empty(field_of(d, "closes"@, |v: ValueView| numbers_of(v))),
        series_or_empty(field_of(d, "timestamps"@, |v: ValueView| integers_of(v))),
    )
}

/// Reads the price window of a price document.
pub fn price_window(d: &Document) -> (window: Vec<PriceData>)
    ensures
        window.deep_view() == price_window_of(d@),
{
    let closes = match numbers_field(d, "closes").lenient() {
        Some(s) => s,
        None => Vec::new(),
    };
    let timestamps = match integers_field(d, "timestamps").lenient() {
        Some(s) => s,
        None => Vec::new(),
    };
    assert(closes.deep_view() =~= closes@);
    assert(timestamps.deep_view() =~= timestamps@);
    assert(closes@ =~= series_or_empty(field_of(d@, "closes"@, |v: ValueView| numbers_of(v))));
    assert(timestamps@ =~= series_or_empty(
        field_of(d@, "timestamps"@, |v: ValueView| integers_of(v)),
    ));
    zip_price_data(&closes, &timestamps)
}

/// The text under a field, or the empty text where the field is absent or
/// malformed.
pub open spec fn text_or_empty(d: DocumentView, key: Seq<char>) -> Seq<char> {
    match field_of(d, key, |v: ValueView| text_of(v)) {
        Field::Present(s) => s,
        _ => Seq::empty(),
    }
}

/// Reads a text field, with the empty text for one that is absent or malformed.
pub fn text_or_default(d: &Document, key: &str) -> (text: String)
    ensures
        text@ == text_or_empty(d@, key@),
{
    match text_field(d, key).lenient() {
        Some(s) => s,
        None => String::new(),
    }
}

/// The ticker of a company document.
pub open spec fn company_ticker_of(company: DocumentView) -> Seq<char> {
    text_or_empty(company, "ticker"@)
}

/// Reads the ticker of a company document: empty where it has none.
pub fn company_ticker(company: &Document) -> (ticker: String)
    ensures
        ticker@ == company_ticker_of(company@),
{
    text_or_default(company, "ticker")
}

/// The listing entry of a company: its name and ticker, and the price window
/// of its price document, which is empty where there is no such document.
pub open spec fn listing_entry_of(
    company: DocumentView,
    window: Option<DocumentView>,
) -> StockDataView {
    StockDataView {
        name: text_or_empty(company, "name"@),
        ticker: company_ticker_of(company),
        price_data: match window {
            Some(d) => price_window_of(d),
            None => Seq::empty(),
        },
    }
}

/// Builds the listing entry of a company from its document and the price
/// document that was found for it, if any.
pub fn listing_entry(company: &Document, window: Option<&Document>) -> (entry: StockData)
    ensures
        entry@ == listing_entry_of(company@, window.deep_view()),
{
    let price_data = match window {
        Some(d) => price_window(d),
        None => {
            let none: Vec<PriceData> = Vec::new();
            assert(none.deep_view() =~= Seq::<PriceDataView>::empty());
            none
        },
    };
    StockData {
        name: text_or_default(company, "name"),
        ticker: company_ticker(company),
        price_data,
    }
}

/// A company that a query matched, with the price document that was found
/// for its ticker, if any.
#[derive(Debug, PartialEq)]
pub struct CompanyMatch {
    pub company: Document,
    pub window: Option<Document>,
}

/// The mathematical value of a [`CompanyMatch`].
pub struct CompanyMatchView {
    pub company: DocumentView,
    pub window: Option<DocumentView>,
}

impl View for CompanyMatch {
    type V = CompanyMatchView;

    open spec fn view(&self) -> CompanyMatchView {
        CompanyMatchView { company: self.company@, window: self.window.deep_view() }
    }
}

impl DeepView for CompanyMatch {
    type V = CompanyMatchView;

    open spec fn deep_view(&self) -> CompanyMatchView {
        self@
    }
}

/// The listing entries of the matched companies, one for each and in their
/// order.
pub open spec fn listing_of(matches: Seq<CompanyMatchView>) -> Seq<StockDataView> {
    Seq::new(matches.len(), |i: int| listing_entry_of(matches[i].company, matches[i].window))
}

/// What a request for a listing is answered with, given the companies that
/// its query matched: a rejection where the request does not say who asks,
/// else one entry for each company.
pub open spec fn list_stocks_of(
    payload: StockListingPayloadView,
    matches: Seq<CompanyMatchView>,
) -> Result<StockListingResponseView, StockErrorView> {
    if payload.user_id is None {
        Err(StockErrorView::MissingUser)
    } else {
        Ok(StockListingResponseView { documents: listing_of(matches) })
    }
}

/// Answers a request for a listing from the companies that its query matched.
///
/// The request is rejected with `MissingUser` where it does not say who asks.
/// Otherwise the response has one entry for each match, in their order; a
/// company without a price document is listed with an empty price window.
///
/// This function starts where the store has answered. Which requests a
/// listing makes of the store, and how it ends when the store fails, is
/// decided step by step by `pipeline::Listing`, which ends with this response.
#[allow(non_snake_case)]
pub fn stockList(payload: &StockListingPayload, matches: &Vec<CompanyMatch>) -> (r: Result<
    StockListingResponse,
    StockError,
>)
    ensures
        match r {
            Ok(response) => list_stocks_of(payload@, matches.deep_view()) == Ok::<
                StockListingResponseView,
                StockErrorView,
            >(response@),
            Err(e) => list_stocks_of(payload@, matches.deep_view()) == Err::<
                StockListingResponseView,
                StockErrorView,
            >(e@),
        },
        payload.user_id is None <==> r is Err,
        r matches Ok(response) ==> response.documents@.len() == matches@.len(),
{
    if payload.user_id.is_none() {
        return Err(StockError::MissingUser);
    }
    let mut documents: Vec<StockData> = Vec::new();
    let mut i: usize = 0;
    while i < matches.len()
        invariant
            i <= matches.len(),
            documents@.len() == i,
            forall|j: int|
                0 <= j < i ==> (#[trigger] documents@[j])@ == listing_entry_of(
                    matches@[j].company@,
                    matches@[j].window.deep_view(),
                ),
        decreases matches.len() - i,
    {
        let window = match &matches[i].window {
            Some(d) => Some(d),
            None => None,
        };
        documents.push(listing_entry(&matches[i].company, window));
        i = i + 1;
    }
    assert(documents.deep_view() =~= listing_of(matches.deep_view()));
    Ok(StockListingResponse { documents })
}

/// The sub-document under a field of a company document. A field that is
/// absent, or that holds anything but a document, has none.
pub open spec fn sub_document_of(company: DocumentView, key: Seq<char>) -> Option<DocumentView> {
    field_of(company, key, |v: ValueView| document_of(v)).value()
}

/// Reads the sub-document under a field.
pub fn sub_document<'a>(company: &'a Document, key: &str) -> (d: Option<&'a Document>)
    ensures
        d.deep_view() == sub_document_of(company@, key@),
{
    match company.get(key) {
        None => None,
        Some(v) => v.as_document(),
    }
}

/// The financial figures of a company: those of its `financials`
/// sub-document, where it has one that decodes.
pub open spec fn company_financials_of(company: Option<DocumentView>) -> Option<FinancialsView> {
    match company {
        Some(c) => match sub_document_of(c, "financials"@) {
            Some(d) => financials_of(d),
            None => None,
        },
        None => None,
    }
}

/// The key statistics of a company: those of its `keyStatistics`
/// sub-document, where it has one that decodes.
pub open spec fn company_key_statistics_of(company: Option<DocumentView>) -> Option<
    KeyStatisticsView,
> {
    match company {
        Some(c) => match sub_document_of(c, "keyStatistics"@) {
            Some(d) => key_statistics_of(d),
            None => None,
        },
        None => None,
    }
}

/// The profile of a company: that of its `profile` sub-document, where it has
/// one that decodes.
pub open spec fn company_profile_of(company: Option<DocumentView>) -> Option<ProfileView> {
    match company {
        Some(c) => match sub_document_of(c, "profile"@) {
            Some(d) => profile_of(d),
            None => None,
        },
        None => None,
    }
}

/// Reads the financial figures of a company, if there is a company.
pub fn company_financials(company: Option<&Document>) -> (r: Option<Financials>)
    ensures
        r.deep_view() == company_financials_of(company.deep_view()),
{
    match company {
        Some(c) => match sub_document(c, "financials") {
            Some(d) => Financials::decode(d),
            None => None,
        },
        None => None,
    }
}

/// Reads the key statistics of a company, if there is a company.
pub fn company_key_statistics(company: Option<&Document>) -> (r: Option<KeyStatistics>)
    ensures
        r.deep_view() == company_key_statistics_of(company.deep_view()),
{
    match company {
        Some(c) => match sub_document(c, "keyStatistics") {
            Some(d) => KeyStatistics::decode(d),
            None => None,
        },
        None => None,
    }
}

/// Reads the profile of a company, if there is a company.
pub fn company_profile(company: Option<&Document>) -> (r: Option<Profile>)
    ensures
        r.deep_view() == company_profile_of(company.deep_view()),
{
    match company {
        Some(c) => match sub_document(c, "profile") {
            Some(d) => Profile::decode(d),
            None => None,
        },
        None => None,
    }
}

/// Whether every document of a partition has the shape of a record of price
/// history.
pub open spec fn history_decodes(documents: Seq<DocumentView>) -> bool {
    forall|i: int| 0 <= i < documents.len() ==> price_history_of(#[trigger] documents[i]) is Some
}

/// The records of price history that the documents of a partition hold, one
/// for each and in their order.
pub open spec fn history_of(documents: Seq<DocumentView>) -> Seq<PriceDataDetailsView> {
    Seq::new(documents.len(), |i: int| price_history_of(documents[i]).unwrap())
}

/// What a request for the details of a ticker is answered with, given the
/// company document that was found for it, if any, and the documents of its
/// partition.
pub open spec fn stock_details_of(
    ticker: Seq<char>,
    company: Option<DocumentView>,
    history: Seq<DocumentView>,
) -> Result<StockDetailsResponseView, StockErrorView> {
    if history_decodes(history) {
        Ok(
            StockDetailsResponseView {
                ticker,
                financials: company_financials_of(company),
                key_statistics: company_key_statistics_of(company),
                price_data: Some(history_of(history)),
                profile: company_profile_of(company),
            },
        )
    } else {
        Err(StockErrorView::DecodeFailed { ticker })
    }
}

/// Gathers the details of a ticker from the company document that was found
/// for it, if any, and from the documents of its partition.
///
/// The request fails with `DecodeFailed` where one document of the partition
/// does not have the shape of a record of price history. Otherwise the ticker
/// is echoed, each document of the partition gives one record, and the three
/// sub-documents of the company are each there or not independently of the
/// others. Without a company all three are `None`, and that is no error.
///
/// This function starts where the store has answered. Which requests the
/// details make of the store, and how they end when the store fails, is
/// decided step by step by `pipeline::Details`, which ends with this response.
pub fn stock_details(ticker: &str, company: Option<&Document>, history: &Vec<Document>) -> (r:
    Result<StockDetailsResponse, StockError>)
    ensures
        match r {
            Ok(response) => stock_details_of(ticker@, company.deep_view(), history.deep_view())
                == Ok::<StockDetailsResponseView, StockErrorView>(response@),
            Err(e) => stock_details_of(ticker@, company.deep_view(), history.deep_view()) == Err::<
                StockDetailsResponseView,
                StockErrorView,
            >(e@),
        },
        r is Ok <==> history_decodes(history.deep_view()),
{
    let mut price_data: Vec<PriceDataDetails> = Vec::new();
    let mut i: usize = 0;
    while i < history.len()
        invariant
            i <= history.len(),
            price_data@.len() == i,
            forall|j: int|
                0 <= j < i ==> price_history_of(#[trigger] history.deep_view()[j]) == Some(
                    price_data@[j]@,
                ),
        decreases history.len() - i,
    {
        match PriceDataDetails::decode(&history[i]) {
            Some(record) => price_data.push(record),
            None => {
                assert(price_history_of(history.deep_view()[i as int]) is None);
                return Err(StockError::DecodeFailed { ticker: ticker.to_owned() });
            },
        }
        i = i + 1;
    }
    assert(price_data.deep_view() =~= history_of(history.deep_view()));
    Ok(
        StockDetailsResponse {
            ticker: ticker.to_owned(),
            financials: company_financials(company),
            key_statistics: company_key_statistics(company),
            price_data: Some(price_data),
            profile: company_profile(company),
        },
    )
}

} // verus!
