//! Records written as documents.
//!
//! These functions say which document stands for a record: a field that is
//! present is written under its key, one that is absent is left out. They are
//! the inverse of decoding, and serve to say so.

use crate::document::{DocumentView, Number, ValueView};
use crate::models::stock_models::{
    EnterpriseValueView, FinancialsView, KeyStatisticsView, MarketCapView, MetricView,
    PriceDataDetailsView, ProfileView, SharesOutstandingView,
};
use crate::services::stock_service::{
    company_financials_of, company_key_statistics_of, company_profile_of, company_ticker_of,
    text_or_empty,
};
use vstd::prelude::*;

verus! {

/// The document `d` with `value` under `key`, where there is a value.
pub open spec fn with_field(d: DocumentView, key: Seq<char>, value: Option<ValueView>) -> DocumentView {
    match value {
        Some(v) => d.insert(key, v),
        None => d,
    }
}

/// A text as a value.
pub open spec fn text_value(text: Option<Seq<char>>) -> Option<ValueView> {
    match text {
        Some(s) => Some(ValueView::Text(s)),
        None => None,
    }
}

/// A number as a value: a double as a double, an integer as a 64-bit integer.
pub open spec fn number_value(n: Number) -> ValueView {
    match n {
        Number::Float(bits) => ValueView::Double(bits),
        Number::Int(i) => ValueView::Int64(i),
    }
}

/// A number as a value, where there is one.
pub open spec fn some_number_value(n: Option<Number>) -> Option<ValueView> {
    match n {
        Some(n) => Some(number_value(n)),
        None => None,
    }
}

/// An integer as a value, where there is one.
pub open spec fn some_integer_value(n: Option<i64>) -> Option<ValueView> {
    match n {
        Some(i) => Some(ValueView::Int64(i)),
        None => None,
    }
}

/// A series of numbers as an array, where there is one.
pub open spec fn numbers_value(series: Option<Seq<Number>>) -> Option<ValueView> {
    match series {
        Some(s) => Some(ValueView::Array(Seq::new(s.len(), |i: int| number_value(s[i])))),
        None => None,
    }
}

/// A series of integers as an array, where there is one.
pub open spec fn integers_value(series: Option<Seq<i64>>) -> Option<ValueView> {
    match series {
        Some(s) => Some(ValueView::Array(Seq::new(s.len(), |i: int| ValueView::Int64(s[i])))),
        None => None,
    }
}

/// A figure as a sub-document of `fmt` and `raw`.
pub open spec fn figure_value(fmt: Option<Seq<char>>, raw: Option<ValueView>) -> ValueView {
    ValueView::Document(
        with_field(with_field(Map::empty(), "fmt"@, text_value(fmt)), "raw"@, raw),
    )
}

/// A figure as a value, where there is one.
pub open spec fn metric_value(m: Option<MetricView>) -> Option<ValueView> {
    match m {
        Some(m) => Some(figure_value(m.fmt, some_number_value(m.raw))),
        None => None,
    }
}

/// A market capitalisation as a value, where there is one.
pub open spec fn market_cap_value(m: Option<MarketCapView>) -> Option<ValueView> {
    match m {
        Some(m) => Some(figure_value(m.fmt, some_number_value(m.raw))),
        None => None,
    }
}

/// An enterprise value as a value, where there is one.
pub open spec fn enterprise_value_value(m: Option<EnterpriseValueView>) -> Option<ValueView> {
    match m {
        Some(m) => Some(figure_value(m.fmt, some_number_value(m.raw))),
        None => None,
    }
}

/// A count of shares as a value, where there is one.
pub open spec fn shares_outstanding_value(m: Option<SharesOutstandingView>) -> Option<ValueView> {
    match m {
        Some(m) => Some(figure_value(m.fmt, some_integer_value(m.raw))),
        None => None,
    }
}

/// A profile as a document.
pub open spec fn profile_document(p: ProfileView) -> DocumentView {
    let d = Map::<Seq<char>, ValueView>::empty();
    let d = with_field(d, "address"@, text_value(p.address));
    let d = with_field(d, "city"@, text_value(p.city));
    let d = with_field(d, "state"@, text_value(p.state));
    let d = with_field(d, "country"@, text_value(p.country));
    let d = with_field(d, "industry"@, text_value(p.industry));
    let d = with_field(d, "sector"@, text_value(p.sector));
    with_field(d, "longBusinessSummary"@, text_value(p.long_business_summary))
}

/// Financial figures as a document.
pub open spec fn financials_document(f: FinancialsView) -> DocumentView {
    let d = Map::<Seq<char>, ValueView>::empty();
    let d = with_field(d, "beta"@, metric_value(f.beta));
    let d = with_field(d, "dayHigh"@, metric_value(f.day_high));
    let d = with_field(d, "dayLow"@, metric_value(f.day_low));
    let d = with_field(d, "dividendRate"@, metric_value(f.dividend_rate));
    let d = with_field(d, "dividendYield"@, metric_value(f.dividend_yield));
    let d = with_field(d, "forwardPE"@, metric_value(f.forward_pe));
    let d = with_field(d, "marketCap"@, market_cap_value(f.market_cap));
    let d = with_field(d, "open"@, metric_value(f.open));
    let d = with_field(d, "previousClose"@, metric_value(f.previous_close));
    with_field(d, "trailingPE"@, metric_value(f.trailing_pe))
}

/// Key statistics as a document.
pub open spec fn key_statistics_document(k: KeyStatisticsView) -> DocumentView {
    let d = Map::<Seq<char>, ValueView>::empty();
    let d = with_field(d, "enterpriseValue"@, enterprise_value_value(k.enterprise_value));
    let d = with_field(d, "forwardEPS"@, metric_value(k.forward_eps));
    let d = with_field(d, "pegRatio"@, metric_value(k.peg_ratio));
    let d = with_field(d, "profitMargins"@, metric_value(k.profit_margins));
    let d = with_field(d, "sharesOutstanding"@, shares_outstanding_value(k.shares_outstanding));
    with_field(d, "trailingEPS"@, metric_value(k.trailing_eps))
}

/// A record of price history as a price document of a ticker.
pub open spec fn price_document(ticker: Seq<char>, r: PriceDataDetailsView) -> DocumentView {
    let d = Map::<Seq<char>, ValueView>::empty();
    let d = d.insert("symbol"@, ValueView::Text(ticker));
    let d = d.insert("period"@, ValueView::Text(r.period));
    let d = d.insert("interval"@, ValueView::Text(r.interval));
    let d = with_field(d, "closes"@, numbers_value(r.closes));
    let d = with_field(d, "highs"@, numbers_value(r.highs));
    let d = with_field(d, "lows"@, numbers_value(r.lows));
    let d = with_field(d, "opens"@, numbers_value(r.opens));
    let d = with_field(d, "timestamps"@, integers_value(r.timestamps));
    with_field(d, "volumes"@, integers_value(r.volumes))
}

/// A sub-document as a value, where there is one.
pub open spec fn document_value(d: Option<DocumentView>) -> Option<ValueView> {
    match d {
        Some(d) => Some(ValueView::Document(d)),
        None => None,
    }
}

/// What is known of a company.
pub struct CompanyView {
    pub name: Seq<char>,
    pub ticker: Seq<char>,
    pub profile: Option<ProfileView>,
    pub financials: Option<FinancialsView>,
    pub key_statistics: Option<KeyStatisticsView>,
}

/// A company as a company document.
pub open spec fn company_document(c: CompanyView) -> DocumentView {
    let d = Map::<Seq<char>, ValueView>::empty();
    let d = d.insert("name"@, ValueView::Text(c.name));
    let d = d.insert("ticker"@, ValueView::Text(c.ticker));
    let d = with_field(
        d,
        "profile"@,
        document_value(
            match c.profile {
                Some(p) => Some(profile_document(p)),
                None => None,
            },
        ),
    );
    let d = with_field(
        d,
        "financials"@,
        document_value(
            match c.financials {
                Some(f) => Some(financials_document(f)),
                None => None,
            },
        ),
    );
    with_field(
        d,
        "keyStatistics"@,
        document_value(
            match c.key_statistics {
                Some(k) => Some(key_statistics_document(k)),
                None => None,
            },
        ),
    )
}

/// A series, or none of it where there is none.
pub open spec fn some_or_empty<T>(series: Option<Seq<T>>) -> Seq<T> {
    match series {
        Some(s) => s,
        None => Seq::empty(),
    }
}

/// What a company document tells of a company.
pub open spec fn company_record_of(d: DocumentView) -> CompanyView {
    CompanyView {
        name: text_or_empty(d, "name"@),
        ticker: company_ticker_of(d),
        profile: company_profile_of(Some(d)),
        financials: company_financials_of(Some(d)),
        key_statistics: company_key_statistics_of(Some(d)),
    }
}

} // verus!
