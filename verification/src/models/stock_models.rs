//! The records that the stock operations answer with, and how each is read
//! from a loosely-typed document.
//!
//! Inside a record every field is optional: a key that is missing, or that
//! holds a null, gives `None`. A value of the wrong shape is another matter:
//! it fails the record that it belongs to, and the caller decides whether that
//! loses one sub-document or the whole answer.

use crate::decode::{
    field_of, instants_field, instants_of, integer_field, integers_field, integers_of,
    number_field, numbers_field, numbers_of, text_field, Field,
};
use crate::document::{
    document_of, integer_of, number_of, text_of, Document, DocumentView, Number, Value, ValueView,
};
use crate::time::utc_representable;
use vstd::prelude::*;

verus! {

/// A request for one page of the companies of a sector.
#[derive(Debug, PartialEq)]
pub struct StockListingPayload {
    /// Who asks. A request without it is rejected; the value itself is not used.
    pub user_id: Option<String>,
    /// Narrows the sector to one industry.
    pub industry: Option<String>,
    pub sector: String,
    /// The 0-indexed page; the first where absent.
    pub page: Option<u32>,
    /// Companies on a page; ten where absent.
    pub items_per_page: Option<u32>,
}

/// The mathematical value of a [`StockListingPayload`].
pub struct StockListingPayloadView {
    pub user_id: Option<Seq<char>>,
    pub industry: Option<Seq<char>>,
    pub sector: Seq<char>,
    pub page: Option<u32>,
    pub items_per_page: Option<u32>,
}

impl View for StockListingPayload {
    type V = StockListingPayloadView;

    open spec fn view(&self) -> StockListingPayloadView {
        StockListingPayloadView {
            user_id: self.user_id.deep_view(),
            industry: self.industry.deep_view(),
            sector: self.sector@,
            page: self.page,
            items_per_page: self.items_per_page,
        }
    }
}

impl DeepView for StockListingPayload {
    type V = StockListingPayloadView;

    open spec fn deep_view(&self) -> StockListingPayloadView {
        self@
    }
}

/// One closing price with the date it belongs to.
#[derive(Debug, PartialEq)]
pub struct PriceData {
    /// RFC 3339 text of the instant, in UTC.
    pub date: String,
    pub price: Number,
}

/// The mathematical value of a [`PriceData`].
pub struct PriceDataView {
    pub date: Seq<char>,
    pub price: Number,
}

impl View for PriceData {
    type V = PriceDataView;

    open spec fn view(&self) -> PriceDataView {
        PriceDataView {
            date: self.date@,
            price: self.price,
        }
    }
}

impl DeepView for PriceData {
    type V = PriceDataView;

    open spec fn deep_view(&self) -> PriceDataView {
        self@
    }
}

/// One company of a listing with its recent price window.
#[derive(Debug, PartialEq)]
pub struct StockData {
    pub name: String,
    pub ticker: String,
    pub price_data: Vec<PriceData>,
}

/// The mathematical value of a [`StockData`].
pub struct StockDataView {
    pub name: Seq<char>,
    pub ticker: Seq<char>,
    pub price_data: Seq<PriceDataView>,
}

impl View for StockData {
    type V = StockDataView;

    open spec fn view(&self) -> StockDataView {
        StockDataView {
            name: self.name@,
            ticker: self.ticker@,
            price_data: self.price_data.deep_view(),
        }
    }
}

impl DeepView for StockData {
    type V = StockDataView;

    open spec fn deep_view(&self) -> StockDataView {
        self@
    }
}

/// The companies of one page, in the order in which the store gave them.
#[derive(Debug, PartialEq)]
pub struct StockListingResponse {
    pub documents: Vec<StockData>,
}

/// The mathematical value of a [`StockListingResponse`].
pub struct StockListingResponseView {
    pub documents: Seq<StockDataView>,
}

impl View for StockListingResponse {
    type V = StockListingResponseView;

    open spec fn view(&self) -> StockListingResponseView {
        StockListingResponseView {
            documents: self.documents.deep_view(),
        }
    }
}

impl DeepView for StockListingResponse {
    type V = StockListingResponseView;

    open spec fn deep_view(&self) -> StockListingResponseView {
        self@
    }
}

/// A figure in its two forms: as formatted text and as a raw number.
#[derive(Debug, PartialEq)]
pub struct Metric {
    pub fmt: Option<String>,
    pub raw: Option<Number>,
}

/// The mathematical value of a [`Metric`].
pub struct MetricView {
    pub fmt: Option<Seq<char>>,
    pub raw: Option<Number>,
}

impl View for Metric {
    type V = MetricView;

    open spec fn view(&self) -> MetricView {
        MetricView {
            fmt: self.fmt.deep_view(),
            raw: self.raw,
        }
    }
}

impl DeepView for Metric {
    type V = MetricView;

    open spec fn deep_view(&self) -> MetricView {
        self@
    }
}

/// Market capitalisation, as formatted text and as a raw number.
#[derive(Debug, PartialEq)]
pub struct MarketCap {
    pub fmt: Option<String>,
    pub raw: Option<Number>,
}

/// The mathematical value of a [`MarketCap`].
pub struct MarketCapView {
    pub fmt: Option<Seq<char>>,
    pub raw: Option<Number>,
}

impl View for MarketCap {
    type V = MarketCapView;

    open spec fn view(&self) -> MarketCapView {
        MarketCapView {
            fmt: self.fmt.deep_view(),
            raw: self.raw,
        }
    }
}

impl DeepView for MarketCap {
    type V = MarketCapView;

    open spec fn deep_view(&self) -> MarketCapView {
        self@
    }
}

/// Enterprise value, as formatted text and as a raw number.
#[derive(Debug, PartialEq)]
pub struct EnterpriseValue {
    pub fmt: Option<String>,
    pub raw: Option<Number>,
}

/// The mathematical value of a [`EnterpriseValue`].
pub struct EnterpriseValueView {
    pub fmt: Option<Seq<char>>,
    pub raw: Option<Number>,
}

impl View for EnterpriseValue {
    type V = EnterpriseValueView;

    open spec fn view(&self) -> EnterpriseValueView {
        EnterpriseValueView {
            fmt: self.fmt.deep_view(),
            raw: self.raw,
        }
    }
}

impl DeepView for EnterpriseValue {
    type V = EnterpriseValueView;

    open spec fn deep_view(&self) -> EnterpriseValueView {
        self@
    }
}

/// Shares outstanding, as formatted text and as a raw count.
#[derive(Debug, PartialEq)]
pub struct SharesOutstanding {
    pub fmt: Option<String>,
    pub raw: Option<i64>,
}

/// The mathematical value of a [`SharesOutstanding`].
pub struct SharesOutstandingView {
    pub fmt: Option<Seq<char>>,
    pub raw: Option<i64>,
}

impl View for SharesOutstanding {
    type V = SharesOutstandingView;

    open spec fn view(&self) -> SharesOutstandingView {
        SharesOutstandingView {
            fmt: self.fmt.deep_view(),
            raw: self.raw,
        }
    }
}

impl DeepView for SharesOutstanding {
    type V = SharesOutstandingView;

    open spec fn deep_view(&self) -> SharesOutstandingView {
        self@
    }
}

/// Where a company is and what it does.
#[derive(Debug, PartialEq)]
pub struct Profile {
    pub address: Option<String>,
    pub city: Option<String>,
    pub state: Option<String>,
    pub country: Option<String>,
    pub industry: Option<String>,
    pub sector: Option<String>,
    pub long_business_summary: Option<String>,
}

/// The mathematical value of a [`Profile`].
pub struct ProfileView {
    pub address: Option<Seq<char>>,
    pub city: Option<Seq<char>>,
    pub state: Option<Seq<char>>,
    pub country: Option<Seq<char>>,
    pub industry: Option<Seq<char>>,
    pub sector: Option<Seq<char>>,
    pub long_business_summary: Option<Seq<char>>,
}

impl View for Profile {
    type V = ProfileView;

    open spec fn view(&self) -> ProfileView {
        ProfileView {
            address: self.address.deep_view(),
            city: self.city.deep_view(),
            state: self.state.deep_view(),
            country: self.country.deep_view(),
            industry: self.industry.deep_view(),
            sector: self.sector.deep_view(),
            long_business_summary: self.long_business_summary.deep_view(),
        }
    }
}

impl DeepView for Profile {
    type V = ProfileView;

    open spec fn deep_view(&self) -> ProfileView {
        self@
    }
}

/// The financial figures of a company.
#[derive(Debug, PartialEq)]
pub struct Financials {
    pub beta: Option<Metric>,
    pub day_high: Option<Metric>,
    pub day_low: Option<Metric>,
    pub dividend_rate: Option<Metric>,
    pub dividend_yield: Option<Metric>,
    pub forward_pe: Option<Metric>,
    pub market_cap: Option<MarketCap>,
    pub open: Option<Metric>,
    pub previous_close: Option<Metric>,
    pub trailing_pe: Option<Metric>,
}

/// The mathematical value of a [`Financials`].
pub struct FinancialsView {
    pub beta: Option<MetricView>,
    pub day_high: Option<MetricView>,
    pub day_low: Option<MetricView>,
    pub dividend_rate: Option<MetricView>,
    pub dividend_yield: Option<MetricView>,
    pub forward_pe: Option<MetricView>,
    pub market_cap: Option<MarketCapView>,
    pub open: Option<MetricView>,
    pub previous_close: Option<MetricView>,
    pub trailing_pe: Option<MetricView>,
}

impl View for Financials {
    type V = FinancialsView;

    open spec fn view(&self) -> FinancialsView {
        FinancialsView {
            beta: self.beta.deep_view(),
            day_high: self.day_high.deep_view(),
            day_low: self.day_low.deep_view(),
            dividend_rate: self.dividend_rate.deep_view(),
            dividend_yield: self.dividend_yield.deep_view(),
            forward_pe: self.forward_pe.deep_view(),
            market_cap: self.market_cap.deep_view(),
            open: self.open.deep_view(),
            previous_close: self.previous_close.deep_view(),
            trailing_pe: self.trailing_pe.deep_view(),
        }
    }
}

impl DeepView for Financials {
    type V = FinancialsView;

    open spec fn deep_view(&self) -> FinancialsView {
        self@
    }
}

/// The key statistics of a company.
#[derive(Debug, PartialEq)]
pub struct KeyStatistics {
    pub enterprise_value: Option<EnterpriseValue>,
    pub forward_eps: Option<Metric>,
    pub peg_ratio: Option<Metric>,
    pub profit_margins: Option<Metric>,
    pub shares_outstanding: Option<SharesOutstanding>,
    pub trailing_eps: Option<Metric>,
}

/// The mathematical value of a [`KeyStatistics`].
pub struct KeyStatisticsView {
    pub enterprise_value: Option<EnterpriseValueView>,
    pub forward_eps: Option<MetricView>,
    pub peg_ratio: Option<MetricView>,
    pub profit_margins: Option<MetricView>,
    pub shares_outstanding: Option<SharesOutstandingView>,
    pub trailing_eps: Option<MetricView>,
}

impl View for KeyStatistics {
    type V = KeyStatisticsView;

    open spec fn view(&self) -> KeyStatisticsView {
        KeyStatisticsView {
            enterprise_value: self.enterprise_value.deep_view(),
            forward_eps: self.forward_eps.deep_view(),
            peg_ratio: self.peg_ratio.deep_view(),
            profit_margins: self.profit_margins.deep_view(),
            shares_outstanding: self.shares_outstanding.deep_view(),
            trailing_eps: self.trailing_eps.deep_view(),
        }
    }
}

impl DeepView for KeyStatistics {
    type V = KeyStatisticsView;

    open spec fn deep_view(&self) -> KeyStatisticsView {
        self@
    }
}

/// The price history of one period and interval, as parallel series.
#[derive(Debug, PartialEq)]
pub struct PriceDataDetails {
    pub period: String,
    pub interval: String,
    pub closes: Option<Vec<Number>>,
    pub highs: Option<Vec<Number>>,
    pub lows: Option<Vec<Number>>,
    pub opens: Option<Vec<Number>>,
    /// Whole seconds since the Unix epoch, each one an instant that can be represented.
    pub timestamps: Option<Vec<i64>>,
    pub volumes: Option<Vec<i64>>,
}

/// The mathematical value of a [`PriceDataDetails`].
pub struct PriceDataDetailsView {
    pub period: Seq<char>,
    pub interval: Seq<char>,
    pub closes: Option<Seq<Number>>,
    pub highs: Option<Seq<Number>>,
    pub lows: Option<Seq<Number>>,
    pub opens: Option<Seq<Number>>,
    pub timestamps: Option<Seq<i64>>,
    pub volumes: Option<Seq<i64>>,
}

impl View for PriceDataDetails {
    type V = PriceDataDetailsView;

    open spec fn view(&self) -> PriceDataDetailsView {
        PriceDataDetailsView {
            period: self.period@,
            interval: self.interval@,
            closes: self.closes.deep_view(),
            highs: self.highs.deep_view(),
            lows: self.lows.deep_view(),
            opens: self.opens.deep_view(),
            timestamps: self.timestamps.deep_view(),
            volumes: self.volumes.deep_view(),
        }
    }
}

impl DeepView for PriceDataDetails {
    type V = PriceDataDetailsView;

    open spec fn deep_view(&self) -> PriceDataDetailsView {
        self@
    }
}

/// All that is known of one ticker.
#[derive(Debug, PartialEq)]
pub struct StockDetailsResponse {
    pub ticker: String,
    pub financials: Option<Financials>,
    pub key_statistics: Option<KeyStatistics>,
    pub price_data: Option<Vec<PriceDataDetails>>,
    pub profile: Option<Profile>,
}

/// The mathematical value of a [`StockDetailsResponse`].
pub struct StockDetailsResponseView {
    pub ticker: Seq<char>,
    pub financials: Option<FinancialsView>,
    pub key_statistics: Option<KeyStatisticsView>,
    pub price_data: Option<Seq<PriceDataDetailsView>>,
    pub profile: Option<ProfileView>,
}

impl View for StockDetailsResponse {
    type V = StockDetailsResponseView;

    open spec fn view(&self) -> StockDetailsResponseView {
        StockDetailsResponseView {
            ticker: self.ticker@,
            financials: self.financials.deep_view(),
            key_statistics: self.key_statistics.deep_view(),
            price_data: self.price_data.deep_view(),
            profile: self.profile.deep_view(),
        }
    }
}

impl DeepView for StockDetailsResponse {
    type V = StockDetailsResponseView;

    open spec fn deep_view(&self) -> StockDetailsResponseView {
        self@
    }
}


/// Reads a figure from a value: a sub-document whose `fmt`, where present, is
/// text and whose `raw`, where present, is a number. Any other shape is `None`.
pub open spec fn metric_of(v: ValueView) -> Option<MetricView> {
    match v {
        ValueView::Document(d) => {
            let fmt = field_of(d, "fmt"@, |x: ValueView| text_of(x));
            let raw = field_of(d, "raw"@, |x: ValueView| number_of(x));
            if fmt is Malformed || raw is Malformed {
                None
            } else {
                Some(MetricView { fmt: fmt.value(), raw: raw.value() })
            }
        },
        _ => None,
    }
}

impl Metric {
    /// Reads a figure from a value. `None` where the value has another shape.
    pub fn decode(v: &Value) -> (r: Option<Metric>)
        ensures
            r.deep_view() == metric_of(v@),
    {
        let d = match v.as_document() {
            Some(d) => d,
            None => { return None; },
        };
        let fmt = text_field(d, "fmt");
        if fmt.is_malformed() {
            return None;
        }
        let raw = number_field(d, "raw");
        if raw.is_malformed() {
            return None;
        }
        Some(Metric { fmt: fmt.lenient(), raw: raw.lenient() })
    }
}

/// Reads a field that holds a figure.
pub fn metric_field(d: &Document, key: &str) -> (f: Field<Metric>)
    ensures
        f.deep_view() == field_of(d@, key@, |v: ValueView| metric_of(v)),
{
    match d.get(key) {
        None => Field::Absent,
        Some(Value::Null) => Field::Absent,
        Some(v) => match Metric::decode(v) {
            Some(x) => Field::Present(x),
            None => Field::Malformed,
        },
    }
}

/// Reads a market capitalisation from a value: a sub-document whose `fmt`, where present, is
/// text and whose `raw`, where present, is a number. Any other shape is `None`.
pub open spec fn market_cap_of(v: ValueView) -> Option<MarketCapView> {
    match v {
        ValueView::Document(d) => {
            let fmt = field_of(d, "fmt"@, |x: ValueView| text_of(x));
            let raw = field_of(d, "raw"@, |x: ValueView| number_of(x));
            if fmt is Malformed || raw is Malformed {
                None
            } else {
                Some(MarketCapView { fmt: fmt.value(), raw: raw.value() })
            }
        },
        _ => None,
    }
}

impl MarketCap {
    /// Reads a market capitalisation from a value. `None` where the value has another shape.
    pub fn decode(v: &Value) -> (r: Option<MarketCap>)
        ensures
            r.deep_view() == market_cap_of(v@),
    {
        let d = match v.as_document() {
            Some(d) => d,
            None => { return None; },
        };
        let fmt = text_field(d, "fmt");
        if fmt.is_malformed() {
            return None;
        }
        let raw = number_field(d, "raw");
        if raw.is_malformed() {
            return None;
        }
        Some(MarketCap { fmt: fmt.lenient(), raw: raw.lenient() })
    }
}

/// Reads a field that holds a market capitalisation.
pub fn market_cap_field(d: &Document, key: &str) -> (f: Field<MarketCap>)
    ensures
        f.deep_view() == field_of(d@, key@, |v: ValueView| market_cap_of(v)),
{
    match d.get(key) {
        None => Field::Absent,
        Some(Value::Null) => Field::Absent,
        Some(v) => match MarketCap::decode(v) {
            Some(x) => Field::Present(x),
            None => Field::Malformed,
        },
    }
}

/// Reads an enterprise value from a value: a sub-document whose `fmt`, where present, is
/// text and whose `raw`, where present, is a number. Any other shape is `None`.
pub open spec fn enterprise_value_of(v: ValueView) -> Option<EnterpriseValueView> {
    match v {
        ValueView::Document(d) => {
            let fmt = field_of(d, "fmt"@, |x: ValueView| text_of(x));
            let raw = field_of(d, "raw"@, |x: ValueView| number_of(x));
            if fmt is Malformed || raw is Malformed {
                None
            } else {
                Some(EnterpriseValueView { fmt: fmt.value(), raw: raw.value() })
            }
        },
        _ => None,
    }
}

impl EnterpriseValue {
    /// Reads an enterprise value from a value. `None` where the value has another shape.
    pub fn decode(v: &Value) -> (r: Option<EnterpriseValue>)
        ensures
            r.deep_view() == enterprise_value_of(v@),
    {
        let d = match v.as_document() {
            Some(d) => d,
            None => { return None; },
        };
        let fmt = text_field(d, "fmt");
        if fmt.is_malformed() {
            return None;
        }
        let raw = number_field(d, "raw");
        if raw.is_malformed() {
            return None;
        }
        Some(EnterpriseValue { fmt: fmt.lenient(), raw: raw.lenient() })
    }
}

/// Reads a field that holds an enterprise value.
pub fn enterprise_value_field(d: &Document, key: &str) -> (f: Field<EnterpriseValue>)
    ensures
        f.deep_view() == field_of(d@, key@, |v: ValueView| enterprise_value_of(v)),
{
    match d.get(key) {
        None => Field::Absent,
        Some(Value::Null) => Field::Absent,
        Some(v) => match EnterpriseValue::decode(v) {
            Some(x) => Field::Present(x),
            None => Field::Malformed,
        },
    }
}

/// Reads a count of shares from a value: a sub-document whose `fmt`, where present, is
/// text and whose `raw`, where present, is a number. Any other shape is `None`.
pub open spec fn shares_outstanding_of(v: ValueView) -> Option<SharesOutstandingView> {
    match v {
        ValueView::Document(d) => {
            let fmt = field_of(d, "fmt"@, |x: ValueView| text_of(x));
            let raw = field_of(d, "raw"@, |x: ValueView| integer_of(x));
            if fmt is Malformed || raw is Malformed {
                None
            } else {
                Some(SharesOutstandingView { fmt: fmt.value(), raw: raw.value() })
            }
        },
        _ => None,
    }
}

impl SharesOutstanding {
    /// Reads a count of shares from a value. `None` where the value has another shape.
    pub fn decode(v: &Value) -> (r: Option<SharesOutstanding>)
        ensures
            r.deep_view() == shares_outstanding_of(v@),
    {
        let d = match v.as_document() {
            Some(d) => d,
            None => { return None; },
        };
        let fmt = text_field(d, "fmt");
        if fmt.is_malformed() {
            return None;
        }
        let raw = integer_field(d, "raw");
        if raw.is_malformed() {
            return None;
        }
        Some(SharesOutstanding { fmt: fmt.lenient(), raw: raw.lenient() })
    }
}

/// Reads a field that holds a count of shares.
pub fn shares_outstanding_field(d: &Document, key: &str) -> (f: Field<SharesOutstanding>)
    ensures
        f.deep_view() == field_of(d@, key@, |v: ValueView| shares_outstanding_of(v)),
{
    match d.get(key) {
        None => Field::Absent,
        Some(Value::Null) => Field::Absent,
        Some(v) => match SharesOutstanding::decode(v) {
            Some(x) => Field::Present(x),
            None => Field::Malformed,
        },
    }
}

/// The profile that a sub-document holds. `None` where one of its fields has the wrong shape.
pub open spec fn profile_of(d: DocumentView) -> Option<ProfileView> {
    let address = field_of(d, "address"@, |v: ValueView| text_of(v));
    let city = field_of(d, "city"@, |v: ValueView| text_of(v));
    let state = field_of(d, "state"@, |v: ValueView| text_of(v));
    let country = field_of(d, "country"@, |v: ValueView| text_of(v));
    let industry = field_of(d, "industry"@, |v: ValueView| text_of(v));
    let sector = field_of(d, "sector"@, |v: ValueView| text_of(v));
    let long_business_summary = field_of(d, "longBusinessSummary"@, |v: ValueView| text_of(v));
    if address is Malformed || city is Malformed || state is Malformed || country is Malformed || industry is Malformed || sector is Malformed || long_business_summary is Malformed {
        None
    } else {
        Some(ProfileView {
            address: address.value(),
            city: city.value(),
            state: state.value(),
            country: country.value(),
            industry: industry.value(),
            sector: sector.value(),
            long_business_summary: long_business_summary.value(),
        })
    }
}

impl Profile {
    /// Reads a profile from a sub-document. A field that is absent is `None`; one field of the wrong shape fails the whole profile.
    pub fn decode(d: &Document) -> (r: Option<Profile>)
        ensures
            r.deep_view() == profile_of(d@),
    {
        let address = text_field(d, "address");
        if address.is_malformed() {
            return None;
        }
        let city = text_field(d, "city");
        if city.is_malformed() {
            return None;
        }
        let state = text_field(d, "state");
        if state.is_malformed() {
            return None;
        }
        let country = text_field(d, "country");
        if country.is_malformed() {
            return None;
        }
        let industry = text_field(d, "industry");
        if industry.is_malformed() {
            return None;
        }
        let sector = text_field(d, "sector");
        if sector.is_malformed() {
            return None;
        }
        let long_business_summary = text_field(d, "longBusinessSummary");
        if long_business_summary.is_malformed() {
            return None;
        }
        Some(Profile {
            address: address.lenient(),
            city: city.lenient(),
            state: state.lenient(),
            country: country.lenient(),
            industry: industry.lenient(),
            sector: sector.lenient(),
            long_business_summary: long_business_summary.lenient(),
        })
    }
}

/// The financial figures that a sub-document holds. `None` where one of them has the wrong shape.
pub open spec fn financials_of(d: DocumentView) -> Option<FinancialsView> {
    let beta = field_of(d, "beta"@, |v: ValueView| metric_of(v));
    let day_high = field_of(d, "dayHigh"@, |v: ValueView| metric_of(v));
    let day_low = field_of(d, "dayLow"@, |v: ValueView| metric_of(v));
    let dividend_rate = field_of(d, "dividendRate"@, |v: ValueView| metric_of(v));
    let dividend_yield = field_of(d, "dividendYield"@, |v: ValueView| metric_of(v));
    let forward_pe = field_of(d, "forwardPE"@, |v: ValueView| metric_of(v));
    let market_cap = field_of(d, "marketCap"@, |v: ValueView| market_cap_of(v));
    let open = field_of(d, "open"@, |v: ValueView| metric_of(v));
    let previous_close = field_of(d, "previousClose"@, |v: ValueView| metric_of(v));
    let trailing_pe = field_of(d, "trailingPE"@, |v: ValueView| metric_of(v));
    if beta is Malformed || day_high is Malformed || day_low is Malformed || dividend_rate is Malformed || dividend_yield is Malformed || forward_pe is Malformed || market_cap is Malformed || open is Malformed || previous_close is Malformed || trailing_pe is Malformed {
        None
    } else {
        Some(FinancialsView {
            beta: beta.value(),
            day_high: day_high.value(),
            day_low: day_low.value(),
            dividend_rate: dividend_rate.value(),
            dividend_yield: dividend_yield.value(),
            forward_pe: forward_pe.value(),
            market_cap: market_cap.value(),
            open: open.value(),
            previous_close: previous_close.value(),
            trailing_pe: trailing_pe.value(),
        })
    }
}

impl Financials {
    /// Reads the financial figures from a sub-document. A figure that is absent is `None`; one figure of the wrong shape fails them all.
    pub fn decode(d: &Document) -> (r: Option<Financials>)
        ensures
            r.deep_view() == financials_of(d@),
    {
        let beta = metric_field(d, "beta");
        if beta.is_malformed() {
            return None;
        }
        let day_high = metric_field(d, "dayHigh");
        if day_high.is_malformed() {
            return None;
        }
        let day_low = metric_field(d, "dayLow");
        if day_low.is_malformed() {
            return None;
        }
        let dividend_rate = metric_field(d, "dividendRate");
        if dividend_rate.is_malformed() {
            return None;
        }
        let dividend_yield = metric_field(d, "dividendYield");
        if dividend_yield.is_malformed() {
            return None;
        }
        let forward_pe = metric_field(d, "forwardPE");
        if forward_pe.is_malformed() {
            return None;
        }
        let market_cap = market_cap_field(d, "marketCap");
        if market_cap.is_malformed() {
            return None;
        }
        let open = metric_field(d, "open");
        if open.is_malformed() {
            return None;
        }
        let previous_close = metric_field(d, "previousClose");
        if previous_close.is_malformed() {
            return None;
        }
        let trailing_pe = metric_field(d, "trailingPE");
        if trailing_pe.is_malformed() {
            return None;
        }
        Some(Financials {
            beta: beta.lenient(),
            day_high: day_high.lenient(),
            day_low: day_low.lenient(),
            dividend_rate: dividend_rate.lenient(),
            dividend_yield: dividend_yield.lenient(),
            forward_pe: forward_pe.lenient(),
            market_cap: market_cap.lenient(),
            open: open.lenient(),
            previous_close: previous_close.lenient(),
            trailing_pe: trailing_pe.lenient(),
        })
    }
}

/// The key statistics that a sub-document holds. `None` where one of them has the wrong shape.
pub open spec fn key_statistics_of(d: DocumentView) -> Option<KeyStatisticsView> {
    let enterprise_value = field_of(d, "enterpriseValue"@, |v: ValueView| enterprise_value_of(v));
    let forward_eps = field_of(d, "forwardEPS"@, |v: ValueView| metric_of(v));
    let peg_ratio = field_of(d, "pegRatio"@, |v: ValueView| metric_of(v));
    let profit_margins = field_of(d, "profitMargins"@, |v: ValueView| metric_of(v));
    let shares_outstanding = field_of(d, "sharesOutstanding"@, |v: ValueView| shares_outstanding_of(v));
    let trailing_eps = field_of(d, "trailingEPS"@, |v: ValueView| metric_of(v));
    if enterprise_value is Malformed || forward_eps is Malformed || peg_ratio is Malformed || profit_margins is Malformed || shares_outstanding is Malformed || trailing_eps is Malformed {
        None
    } else {
        Some(KeyStatisticsView {
            enterprise_value: enterprise_value.value(),
            forward_eps: forward_eps.value(),
            peg_ratio: peg_ratio.value(),
            profit_margins: profit_margins.value(),
            shares_outstanding: shares_outstanding.value(),
            trailing_eps: trailing_eps.value(),
        })
    }
}

impl KeyStatistics {
    /// Reads the key statistics from a sub-document. A figure that is absent is `None`; one figure of the wrong shape fails them all.
    pub fn decode(d: &Document) -> (r: Option<KeyStatistics>)
        ensures
            r.deep_view() == key_statistics_of(d@),
    {
        let enterprise_value = enterprise_value_field(d, "enterpriseValue");
        if enterprise_value.is_malformed() {
            return None;
        }
        let forward_eps = metric_field(d, "forwardEPS");
        if forward_eps.is_malformed() {
            return None;
        }
        let peg_ratio = metric_field(d, "pegRatio");
        if peg_ratio.is_malformed() {
            return None;
        }
        let profit_margins = metric_field(d, "profitMargins");
        if profit_margins.is_malformed() {
            return None;
        }
        let shares_outstanding = shares_outstanding_field(d, "sharesOutstanding");
        if shares_outstanding.is_malformed() {
            return None;
        }
        let trailing_eps = metric_field(d, "trailingEPS");
        if trailing_eps.is_malformed() {
            return None;
        }
        Some(KeyStatistics {
            enterprise_value: enterprise_value.lenient(),
            forward_eps: forward_eps.lenient(),
            peg_ratio: peg_ratio.lenient(),
            profit_margins: profit_margins.lenient(),
            shares_outstanding: shares_outstanding.lenient(),
            trailing_eps: trailing_eps.lenient(),
        })
    }
}

/// A record of earnings. It has no fields yet.
#[derive(Debug, PartialEq)]
pub struct EarningsHistory {}

/// Whether every timestamp of a series, where there is a series, is an
/// instant that can be represented.
pub open spec fn instants_representable(timestamps: Option<Seq<i64>>) -> bool {
    timestamps matches Some(series) ==> forall|i: int|
        0 <= i < series.len() ==> utc_representable(#[trigger] series[i] as int)
}

/// Reads a field that must be there as text: absent or malformed, it is `None`.
pub open spec fn required_text(d: DocumentView, key: Seq<char>) -> Option<Seq<char>> {
    field_of(d, key, |v: ValueView| text_of(v)).value()
}

/// The price history that a document holds. `period` and `interval` must be
/// text. Each series may be absent, and is then `None`; a series that is no
/// array, or that has one item of the wrong type, fails the whole record.
pub open spec fn price_history_of(d: DocumentView) -> Option<PriceDataDetailsView> {
    let period = required_text(d, "period"@);
    let interval = required_text(d, "interval"@);
    let closes = field_of(d, "closes"@, |v: ValueView| numbers_of(v));
    let highs = field_of(d, "highs"@, |v: ValueView| numbers_of(v));
    let lows = field_of(d, "lows"@, |v: ValueView| numbers_of(v));
    let opens = field_of(d, "opens"@, |v: ValueView| numbers_of(v));
    let timestamps = field_of(d, "timestamps"@, |v: ValueView| instants_of(v));
    let volumes = field_of(d, "volumes"@, |v: ValueView| integers_of(v));
    if period is None || interval is None || closes is Malformed || highs is Malformed
        || lows is Malformed || opens is Malformed || timestamps is Malformed
        || volumes is Malformed {
        None
    } else {
        Some(PriceDataDetailsView {
            period: period.unwrap(),
            interval: interval.unwrap(),
            closes: closes.value(),
            highs: highs.value(),
            lows: lows.value(),
            opens: opens.value(),
            timestamps: timestamps.value(),
            volumes: volumes.value(),
        })
    }
}

impl PriceDataDetails {
    /// Reads one record of price history. `None` where the document does not
    /// have the shape of such a record.
    pub fn decode(d: &Document) -> (r: Option<PriceDataDetails>)
        ensures
            r.deep_view() == price_history_of(d@),
            r matches Some(record) ==> instants_representable(record@.timestamps),
    {
        let period = match text_field(d, "period").lenient() {
            Some(s) => s,
            None => { return None; },
        };
        let interval = match text_field(d, "interval").lenient() {
            Some(s) => s,
            None => { return None; },
        };
        let closes = numbers_field(d, "closes");
        if closes.is_malformed() {
            return None;
        }
        let highs = numbers_field(d, "highs");
        if highs.is_malformed() {
            return None;
        }
        let lows = numbers_field(d, "lows");
        if lows.is_malformed() {
            return None;
        }
        let opens = numbers_field(d, "opens");
        if opens.is_malformed() {
            return None;
        }
        let timestamps = instants_field(d, "timestamps");
        if timestamps.is_malformed() {
            return None;
        }
        let volumes = integers_field(d, "volumes");
        if volumes.is_malformed() {
            return None;
        }
        Some(PriceDataDetails {
            period,
            interval,
            closes: closes.lenient(),
            highs: highs.lenient(),
            lows: lows.lenient(),
            opens: opens.lenient(),
            timestamps: timestamps.lenient(),
            volumes: volumes.lenient(),
        })
    }
}

} // verus!
