use trading_simulator::document::{Document, Number, Value};
use trading_simulator::models::stock_models::{
    enterprise_value_field, market_cap_field, metric_field, shares_outstanding_field,
    EnterpriseValue, Financials, KeyStatistics, MarketCap, Metric, PriceDataDetails, Profile,
    SharesOutstanding,
};
use trading_simulator::decode::Field;

fn text(s: &str) -> Value {
    Value::Text(s.to_string())
}

fn double(x: f64) -> Value {
    Value::Double(x.to_bits())
}

fn doc(entries: Vec<(&str, Value)>) -> Document {
    let mut d = Document::new();
    for (k, v) in entries {
        d.insert(k.to_string(), v);
    }
    d
}

fn figure(fmt: &str, raw: f64) -> Value {
    Value::Document(doc(vec![("fmt", text(fmt)), ("raw", double(raw))]))
}

fn metric(fmt: &str, raw: f64) -> Option<Metric> {
    Some(Metric { fmt: Some(fmt.to_string()), raw: Some(Number::Float(raw.to_bits())) })
}

#[test]
fn metric_with_both_halves() {
    assert_eq!(Metric::decode(&figure("1.29", 1.286802)), metric("1.29", 1.286802));
}

#[test]
fn metric_halves_are_independently_optional() {
    let only_fmt = Value::Document(doc(vec![("fmt", text("3%"))]));
    assert_eq!(Metric::decode(&only_fmt), Some(Metric { fmt: Some("3%".to_string()), raw: None }));
    let only_raw = Value::Document(doc(vec![("raw", Value::Int32(3))]));
    assert_eq!(Metric::decode(&only_raw), Some(Metric { fmt: None, raw: Some(Number::Int(3)) }));
    let nulls = Value::Document(doc(vec![("fmt", Value::Null), ("raw", Value::Null)]));
    assert_eq!(Metric::decode(&nulls), Some(Metric { fmt: None, raw: None }));
    let empty = Value::Document(Document::new());
    assert_eq!(Metric::decode(&empty), Some(Metric { fmt: None, raw: None }));
    let extra = Value::Document(doc(vec![("longFmt", text("x")), ("raw", Value::Int64(9))]));
    assert_eq!(Metric::decode(&extra), Some(Metric { fmt: None, raw: Some(Number::Int(9)) }));
}

#[test]
fn metric_of_wrong_shape_is_none() {
    assert_eq!(Metric::decode(&text("1.29")), None);
    assert_eq!(Metric::decode(&double(1.29)), None);
    assert_eq!(Metric::decode(&Value::Array(vec![text("1.29"), double(1.29)])), None);
    assert_eq!(Metric::decode(&Value::Other), None);
    assert_eq!(Metric::decode(&Value::Null), None);
    let bad_fmt = Value::Document(doc(vec![("fmt", Value::Int32(1)), ("raw", double(1.0))]));
    assert_eq!(Metric::decode(&bad_fmt), None);
    let bad_raw = Value::Document(doc(vec![("fmt", text("1")), ("raw", text("1"))]));
    assert_eq!(Metric::decode(&bad_raw), None);
}

#[test]
fn the_other_figures_decode_alike() {
    assert_eq!(
        MarketCap::decode(&figure("2.9T", 2.9e12)),
        Some(MarketCap { fmt: Some("2.9T".to_string()), raw: Some(Number::Float(2.9e12f64.to_bits())) })
    );
    assert_eq!(
        EnterpriseValue::decode(&figure("3T", 3e12)),
        Some(EnterpriseValue { fmt: Some("3T".to_string()), raw: Some(Number::Float(3e12f64.to_bits())) })
    );
    let shares = Value::Document(doc(vec![("fmt", text("15.5B")), ("raw", Value::Int64(15_500_000_000))]));
    assert_eq!(
        SharesOutstanding::decode(&shares),
        Some(SharesOutstanding { fmt: Some("15.5B".to_string()), raw: Some(15_500_000_000) })
    );
    assert_eq!(MarketCap::decode(&text("x")), None);
    assert_eq!(EnterpriseValue::decode(&Value::Bool(true)), None);
}

#[test]
fn shares_outstanding_wants_an_integer() {
    let shares = Value::Document(doc(vec![("raw", double(15.5e9))]));
    assert_eq!(SharesOutstanding::decode(&shares), None);
    let shares = Value::Document(doc(vec![("raw", Value::Int32(12))]));
    assert_eq!(SharesOutstanding::decode(&shares), Some(SharesOutstanding { fmt: None, raw: Some(12) }));
}

#[test]
fn figure_fields_have_three_outcomes() {
    let d = doc(vec![("good", figure("1", 1.0)), ("bad", text("1")), ("null", Value::Null)]);
    assert_eq!(metric_field(&d, "good"), Field::Present(metric("1", 1.0).unwrap()));
    assert_eq!(metric_field(&d, "bad"), Field::Malformed);
    assert_eq!(metric_field(&d, "null"), Field::Absent);
    assert_eq!(metric_field(&d, "missing"), Field::Absent);
    assert_eq!(market_cap_field(&d, "bad"), Field::Malformed);
    assert_eq!(market_cap_field(&d, "missing"), Field::Absent);
    assert_eq!(enterprise_value_field(&d, "bad"), Field::Malformed);
    assert_eq!(enterprise_value_field(&d, "null"), Field::Absent);
    assert_eq!(shares_outstanding_field(&d, "good"), Field::Malformed);
    assert_eq!(shares_outstanding_field(&d, "missing"), Field::Absent);
}

#[test]
fn financials_read_every_key() {
    let d = doc(vec![
        ("beta", figure("b", 1.0)),
        ("dayHigh", figure("dh", 2.0)),
        ("dayLow", figure("dl", 3.0)),
        ("dividendRate", figure("dr", 4.0)),
        ("dividendYield", figure("dy", 5.0)),
        ("forwardPE", figure("fpe", 6.0)),
        ("marketCap", figure("mc", 7.0)),
        ("open", figure("o", 8.0)),
        ("previousClose", figure("pc", 9.0)),
        ("trailingPE", figure("tpe", 10.0)),
    ]);
    let expected = Financials {
        beta: metric("b", 1.0),
        day_high: metric("dh", 2.0),
        day_low: metric("dl", 3.0),
        dividend_rate: metric("dr", 4.0),
        dividend_yield: metric("dy", 5.0),
        forward_pe: metric("fpe", 6.0),
        market_cap: Some(MarketCap { fmt: Some("mc".to_string()), raw: Some(Number::Float(7.0f64.to_bits())) }),
        open: metric("o", 8.0),
        previous_close: metric("pc", 9.0),
        trailing_pe: metric("tpe", 10.0),
    };
    assert_eq!(Financials::decode(&d), Some(expected));
}

#[test]
fn financials_of_an_empty_document_are_all_none() {
    let expected = Financials {
        beta: None,
        day_high: None,
        day_low: None,
        dividend_rate: None,
        dividend_yield: None,
        forward_pe: None,
        market_cap: None,
        open: None,
        previous_close: None,
        trailing_pe: None,
    };
    assert_eq!(Financials::decode(&Document::new()), Some(expected));
}

#[test]
fn financials_fail_on_one_figure_of_wrong_shape() {
    let d = doc(vec![("beta", figure("b", 1.0)), ("open", text("187.15"))]);
    assert_eq!(Financials::decode(&d), None);
    let d = doc(vec![("marketCap", Value::Int64(5))]);
    assert_eq!(Financials::decode(&d), None);
    let d = doc(vec![("snake_case_key", text("ignored")), ("day_high", text("ignored"))]);
    assert!(Financials::decode(&d).is_some());
}

#[test]
fn key_statistics_read_every_key() {
    let d = doc(vec![
        ("enterpriseValue", figure("ev", 1.0)),
        ("forwardEPS", figure("fe", 2.0)),
        ("pegRatio", figure("pr", 3.0)),
        ("profitMargins", figure("pm", 4.0)),
        ("sharesOutstanding", Value::Document(doc(vec![("fmt", text("so")), ("raw", Value::Int64(5))]))),
        ("trailingEPS", figure("te", 6.0)),
    ]);
    let expected = KeyStatistics {
        enterprise_value: Some(EnterpriseValue { fmt: Some("ev".to_string()), raw: Some(Number::Float(1.0f64.to_bits())) }),
        forward_eps: metric("fe", 2.0),
        peg_ratio: metric("pr", 3.0),
        profit_margins: metric("pm", 4.0),
        shares_outstanding: Some(SharesOutstanding { fmt: Some("so".to_string()), raw: Some(5) }),
        trailing_eps: metric("te", 6.0),
    };
    assert_eq!(KeyStatistics::decode(&d), Some(expected));
    let bad = doc(vec![("pegRatio", Value::Array(vec![]))]);
    assert_eq!(KeyStatistics::decode(&bad), None);
}

#[test]
fn profile_reads_every_key() {
    let d = doc(vec![
        ("address", text("One Apple Park Way")),
        ("city", text("Cupertino")),
        ("state", text("CA")),
        ("country", text("United States")),
        ("industry", text("Consumer Electronics")),
        ("sector", text("Technology")),
        ("longBusinessSummary", text("Designs phones.")),
    ]);
    let expected = Profile {
        address: Some("One Apple Park Way".to_string()),
        city: Some("Cupertino".to_string()),
        state: Some("CA".to_string()),
        country: Some("United States".to_string()),
        industry: Some("Consumer Electronics".to_string()),
        sector: Some("Technology".to_string()),
        long_business_summary: Some("Designs phones.".to_string()),
    };
    assert_eq!(Profile::decode(&d), Some(expected));
}

#[test]
fn profile_fields_are_optional_but_typed() {
    let d = doc(vec![("city", text("Cupertino")), ("state", Value::Null)]);
    let p = Profile::decode(&d).unwrap();
    assert_eq!(p.city, Some("Cupertino".to_string()));
    assert_eq!(p.state, None);
    assert_eq!(p.address, None);
    assert_eq!(p.long_business_summary, None);
    let bad = doc(vec![("city", Value::Int32(1))]);
    assert_eq!(Profile::decode(&bad), None);
}

fn history_document() -> Document {
    doc(vec![
        ("symbol", text("AAPL")),
        ("period", text("1mo")),
        ("interval", text("1d")),
        ("closes", Value::Array(vec![double(189.95), Value::Int32(190)])),
        ("highs", Value::Array(vec![double(191.0), double(192.5)])),
        ("lows", Value::Array(vec![double(188.0), double(189.5)])),
        ("opens", Value::Array(vec![double(188.5), double(190.5)])),
        ("timestamps", Value::Array(vec![Value::Int64(1704153600), Value::Int32(1704240000)])),
        ("volumes", Value::Array(vec![Value::Int64(1000), Value::Int32(2000)])),
    ])
}

#[test]
fn price_history_reads_every_series() {
    let r = PriceDataDetails::decode(&history_document()).unwrap();
    assert_eq!(r.period, "1mo");
    assert_eq!(r.interval, "1d");
    assert_eq!(r.closes, Some(vec![Number::Float(0x4067_be66_6666_6666), Number::Int(190)]));
    assert_eq!(r.highs, Some(vec![Number::Float(191.0f64.to_bits()), Number::Float(192.5f64.to_bits())]));
    assert_eq!(r.lows, Some(vec![Number::Float(188.0f64.to_bits()), Number::Float(189.5f64.to_bits())]));
    assert_eq!(r.opens, Some(vec![Number::Float(188.5f64.to_bits()), Number::Float(190.5f64.to_bits())]));
    assert_eq!(r.timestamps, Some(vec![1704153600, 1704240000]));
    assert_eq!(r.volumes, Some(vec![1000, 2000]));
}

#[test]
fn price_history_without_highs_and_lows() {
    let d = doc(vec![
        ("period", text("1y")),
        ("interval", text("1wk")),
        ("closes", Value::Array(vec![double(1.5)])),
    ]);
    let r = PriceDataDetails::decode(&d).unwrap();
    assert_eq!(r.period, "1y");
    assert_eq!(r.interval, "1wk");
    assert_eq!(r.closes, Some(vec![Number::Float(1.5f64.to_bits())]));
    assert_eq!(r.highs, None);
    assert_eq!(r.lows, None);
    assert_eq!(r.opens, None);
    assert_eq!(r.timestamps, None);
    assert_eq!(r.volumes, None);
}

#[test]
fn price_history_with_non_numeric_close_fails() {
    let d = doc(vec![
        ("period", text("1mo")),
        ("interval", text("1d")),
        ("closes", Value::Array(vec![double(1.5), text("n/a")])),
    ]);
    assert_eq!(PriceDataDetails::decode(&d), None);
}

#[test]
fn price_history_needs_period_and_interval() {
    let d = doc(vec![("interval", text("1d"))]);
    assert_eq!(PriceDataDetails::decode(&d), None);
    let d = doc(vec![("period", text("1mo"))]);
    assert_eq!(PriceDataDetails::decode(&d), None);
    let d = doc(vec![("period", text("1mo")), ("interval", Value::Null)]);
    assert_eq!(PriceDataDetails::decode(&d), None);
    let d = doc(vec![("period", Value::Int32(1)), ("interval", text("1d"))]);
    assert_eq!(PriceDataDetails::decode(&d), None);
    let d = doc(vec![("period", text("1mo")), ("interval", text("1d"))]);
    assert!(PriceDataDetails::decode(&d).is_some());
}

#[test]
fn price_history_fails_on_each_malformed_series() {
    for key in ["closes", "highs", "lows", "opens", "timestamps", "volumes"] {
        let d = doc(vec![("period", text("1mo")), ("interval", text("1d")), (key, text("oops"))]);
        assert_eq!(PriceDataDetails::decode(&d), None);
        let d = doc(vec![
            ("period", text("1mo")),
            ("interval", text("1d")),
            (key, Value::Array(vec![Value::Bool(true)])),
        ]);
        assert_eq!(PriceDataDetails::decode(&d), None);
    }
    let d = doc(vec![
        ("period", text("1mo")),
        ("interval", text("1d")),
        ("volumes", Value::Array(vec![double(1000.0)])),
    ]);
    assert_eq!(PriceDataDetails::decode(&d), None);
    let d = doc(vec![
        ("period", text("1mo")),
        ("interval", text("1d")),
        ("timestamps", Value::Array(vec![double(1704153600.0)])),
    ]);
    assert_eq!(PriceDataDetails::decode(&d), None);
}

// Known current behaviour, not a target: a timestamp that cannot be
// represented becomes the Unix epoch and the record still decodes.
#[test]
fn price_history_timestamps_fall_back_to_the_epoch() {
    let d = doc(vec![
        ("period", text("1mo")),
        ("interval", text("1d")),
        ("timestamps", Value::Array(vec![Value::Int64(i64::MAX), Value::Int64(1704153600)])),
    ]);
    let r = PriceDataDetails::decode(&d).unwrap();
    assert_eq!(r.timestamps, Some(vec![0, 1704153600]));
}
