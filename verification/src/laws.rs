//! What holds of the stock operations on every input.
//!
//! Each law is a proof about the functions that say what the operations do.
//! The executable functions are proved to compute exactly those, so the laws
//! hold of them too.

use crate::decode::{instants_of, integers_of, numbers_of};
use crate::document::{lookup, number_of, DocumentView, Number, ValueView};
use crate::encode::{
    company_document, company_record_of, document_value, enterprise_value_value,
    financials_document, integers_value, key_statistics_document, market_cap_value, metric_value,
    numbers_value, price_document, profile_document, shares_outstanding_value,
    some_or_empty, text_value, with_field, CompanyView,
};
use crate::models::stock_models::{
    enterprise_value_of, financials_of, instants_representable, key_statistics_of, market_cap_of,
    metric_of, price_history_of, profile_of, shares_outstanding_of, EnterpriseValueView,
    FinancialsView, KeyStatisticsView, MarketCapView, MetricView, PriceDataDetailsView,
    PriceDataView, ProfileView, SharesOutstandingView, StockDataView, StockDetailsResponseView,
    StockListingPayloadView, StockListingResponseView,
};
use crate::services::pipeline::{
    details_run, details_start, details_step, empty_listing, listing_actions, listing_run,
    listing_start, listing_step, ActionView, DetailsPhase, DetailsView, ListingPhase, ListingView,
    StoreReplyView,
};
use crate::services::stock_service::{
    company_ticker_of, history_decodes, history_of, list_stocks_of, listing_entry_of, listing_of,
    price_window_of, shorter, stock_details_of, text_or_empty, zip_prices, CompanyMatchView,
    StockErrorView,
};
use crate::time::date_text;
use vstd::prelude::*;

verus! {

/// A request that says who asks, and whose query matches no company, is
/// answered with an empty listing and no error.
pub proof fn law_no_match_lists_nothing(payload: StockListingPayloadView)
    requires
        payload.user_id is Some,
    ensures
        list_stocks_of(payload, Seq::empty()) == Ok::<StockListingResponseView, StockErrorView>(
            StockListingResponseView { documents: Seq::empty() },
        ),
{
    assert(listing_of(Seq::empty()) =~= Seq::empty());
}

/// Every matched company is listed, in the order of the matches, and one
/// without a price document is listed with an empty price window.
pub proof fn law_every_match_is_listed(matches: Seq<CompanyMatchView>, i: int)
    requires
        0 <= i < matches.len(),
    ensures
        listing_of(matches).len() == matches.len(),
        listing_of(matches)[i].name == text_or_empty(matches[i].company, "name"@),
        listing_of(matches)[i].ticker == company_ticker_of(matches[i].company),
        matches[i].window is None ==> listing_of(matches)[i].price_data == Seq::<
            PriceDataView,
        >::empty(),
{
}

/// Zipping closing prices with timestamps goes as far as the shorter of the
/// two, whatever their lengths, and pairs them place by place.
pub proof fn law_zip_stops_at_the_shorter(closes: Seq<Number>, timestamps: Seq<i64>)
    ensures
        zip_prices(closes, timestamps).len() == shorter(closes.len(), timestamps.len()),
        zip_prices(closes, timestamps).len() <= closes.len(),
        zip_prices(closes, timestamps).len() <= timestamps.len(),
        forall|i: int|
            0 <= i < zip_prices(closes, timestamps).len() ==> (#[trigger] zip_prices(
                closes,
                timestamps,
            )[i]) == (PriceDataView { date: date_text(timestamps[i]), price: closes[i] }),
{
}

/// The details of a ticker that has no company are no error: the ticker is
/// echoed, the three sub-documents are `None`, and the price history is what
/// the partition holds, which may be nothing.
pub proof fn law_details_without_company(ticker: Seq<char>, history: Seq<DocumentView>)
    requires
        history_decodes(history),
    ensures
        stock_details_of(ticker, None, history) == Ok::<StockDetailsResponseView, StockErrorView>(
            StockDetailsResponseView {
                ticker,
                financials: None,
                key_statistics: None,
                price_data: Some(history_of(history)),
                profile: None,
            },
        ),
        history.len() == 0 ==> history_of(history) == Seq::<PriceDataDetailsView>::empty(),
{
    if history.len() == 0 {
        assert(history_of(history) =~= Seq::empty());
    }
}

/// A listing that is taking companies ends, once it has been told of every
/// match, with the entries it had followed by one entry for each match.
pub proof fn lemma_listing_run(state: ListingView, matches: Seq<CompanyMatchView>)
    requires
        state.phase == ListingPhase::Fetching,
    ensures
        listing_run(state, matches) == ActionView::Respond(
            StockListingResponseView { documents: state.documents + listing_of(matches) },
        ),
    decreases matches.len(),
{
    if matches.len() == 0 {
        assert(state.documents + listing_of(matches) =~= state.documents);
    } else {
        let pricing = listing_step(state, StoreReplyView::Item(matches[0].company)).0;
        let fetching = listing_step(pricing, StoreReplyView::Found(matches[0].window)).0;
        let rest = matches.drop_first();
        lemma_listing_run(fetching, rest);
        assert(fetching.documents == state.documents.push(
            listing_entry_of(matches[0].company, matches[0].window),
        ));
        assert(fetching.documents + listing_of(rest) =~= state.documents + listing_of(matches));
    }
}

/// Run against a store that opens the cursor and hands out the matches, the
/// listing machine ends with the very response that the listing is defined
/// to have.
pub proof fn law_listing_machine_agrees(
    payload: StockListingPayloadView,
    matches: Seq<CompanyMatchView>,
)
    requires
        payload.user_id is Some,
    ensures
        list_stocks_of(payload, matches) == Ok::<StockListingResponseView, StockErrorView>(
            StockListingResponseView { documents: listing_of(matches) },
        ),
        listing_run(
            listing_step(listing_start(payload).0, StoreReplyView::Opened).0,
            matches,
        ) == ActionView::Respond(StockListingResponseView { documents: listing_of(matches) }),
{
    let opened = listing_step(listing_start(payload).0, StoreReplyView::Opened).0;
    lemma_listing_run(opened, matches);
    assert(opened.documents + listing_of(matches) =~= listing_of(matches));
}

/// A listing that has ended stays ended, and whatever it is told it asks
/// nothing of the store.
pub proof fn lemma_ended_listing_asks_nothing(replies: Seq<StoreReplyView>, i: int)
    requires
        0 <= i < replies.len(),
    ensures
        listing_actions(empty_listing(ListingPhase::Done), replies).len() == replies.len(),
        listing_actions(empty_listing(ListingPhase::Done), replies)[i] is Fail,
    decreases replies.len(),
{
    let done = empty_listing(ListingPhase::Done);
    let rest = replies.drop_first();
    assert(listing_step(done, replies[0]).0 == done);
    lemma_listing_actions_len(done, rest);
    if i > 0 {
        lemma_ended_listing_asks_nothing(rest, i - 1);
    }
}

/// A listing answers each reply with one action.
pub proof fn lemma_listing_actions_len(state: ListingView, replies: Seq<StoreReplyView>)
    ensures
        listing_actions(state, replies).len() == replies.len(),
    decreases replies.len(),
{
    if replies.len() > 0 {
        lemma_listing_actions_len(listing_step(state, replies[0]).0, replies.drop_first());
    }
}

/// A request that does not say who asks is rejected at once with
/// `MissingUser`, and the store is never asked anything: not at the start,
/// and not whatever the listing is told afterwards.
pub proof fn law_missing_user_never_reaches_the_store(
    payload: StockListingPayloadView,
    matches: Seq<CompanyMatchView>,
    replies: Seq<StoreReplyView>,
    i: int,
)
    requires
        payload.user_id is None,
        0 <= i < replies.len(),
    ensures
        list_stocks_of(payload, matches) == Err::<StockListingResponseView, StockErrorView>(
            StockErrorView::MissingUser,
        ),
        listing_start(payload).1 == ActionView::<StockListingResponseView>::Fail(
            StockErrorView::MissingUser,
        ),
        !(listing_actions(listing_start(payload).0, replies)[i] is Ask),
{
    lemma_ended_listing_asks_nothing(replies, i);
}

/// A gathering that is taking records ends, once it has been handed the
/// documents of the partition, with the records it had followed by one for
/// each document; or with `DecodeFailed`, where one of the documents is no
/// record of price history.
pub proof fn lemma_details_run(state: DetailsView, history: Seq<DocumentView>)
    requires
        state.phase == DetailsPhase::Fetching,
    ensures
        history_decodes(history) ==> details_run(state, history) == ActionView::Respond(
            StockDetailsResponseView {
                ticker: state.ticker,
                financials: state.financials,
                key_statistics: state.key_statistics,
                price_data: Some(state.price_data + history_of(history)),
                profile: state.profile,
            },
        ),
        !history_decodes(history) ==> details_run(state, history) == ActionView::<
            StockDetailsResponseView,
        >::Fail(StockErrorView::DecodeFailed { ticker: state.ticker }),
    decreases history.len(),
{
    if history.len() == 0 {
        assert(state.price_data + history_of(history) =~= state.price_data);
    } else {
        let rest = history.drop_first();
        let next = details_step(state, StoreReplyView::Item(history[0]));
        assert(history_decodes(history) <==> (price_history_of(
            history[0],
        ) is Some && history_decodes(rest))) by {
            if history_decodes(history) {
                assert forall|i: int| 0 <= i < rest.len() implies price_history_of(
                    #[trigger] rest[i],
                ) is Some by {
                    assert(rest[i] == history[i + 1]);
                }
            }
            if price_history_of(history[0]) is Some
                && history_decodes(rest) {
                assert forall|i: int| 0 <= i < history.len() implies price_history_of(
                    #[trigger] history[i],
                ) is Some by {
                    if i > 0 {
                        assert(history[i] == rest[i - 1]);
                    }
                }
            }
        }
        if next.1 is Ask {
            lemma_details_run(next.0, rest);
            if history_decodes(history) {
                assert(next.0.price_data + history_of(rest) =~= state.price_data + history_of(
                    history,
                ));
            }
        }
    }
}

/// Run against a store that answers with the company, if any, opens the
/// cursor and hands out the documents of the partition, the details machine
/// ends as the details are defined to: with the response, or with
/// `DecodeFailed` where one document is no record of price history.
pub proof fn law_details_machine_agrees(
    ticker: Seq<char>,
    company: Option<DocumentView>,
    history: Seq<DocumentView>,
)
    ensures
        ({
            let found = details_step(details_start(ticker).0, StoreReplyView::Found(company)).0;
            let opened = details_step(found, StoreReplyView::Opened).0;
            match stock_details_of(ticker, company, history) {
                Ok(response) => details_run(opened, history) == ActionView::Respond(response),
                Err(error) => details_run(opened, history) == ActionView::<
                    StockDetailsResponseView,
                >::Fail(error),
            }
        }),
{
    let found = details_step(details_start(ticker).0, StoreReplyView::Found(company)).0;
    let opened = details_step(found, StoreReplyView::Opened).0;
    lemma_details_run(opened, history);
    if history_decodes(history) {
        assert(opened.price_data + history_of(history) =~= history_of(history));
    }
}

/// A figure written as a value reads back as itself.
pub proof fn lemma_metric_value(m: Option<MetricView>)
    ensures
        m matches Some(x) ==> metric_of(metric_value(m).unwrap()) == Some(x),
{
    reveal_strlit("fmt");
    reveal_strlit("raw");
    assert("fmt"@ != "raw"@) by {
        assert("fmt"@[0] != "raw"@[0]);
    }
}

/// A market capitalisation written as a value reads back as itself.
pub proof fn lemma_market_cap_value(m: Option<MarketCapView>)
    ensures
        m matches Some(x) ==> market_cap_of(market_cap_value(m).unwrap()) == Some(x),
{
    reveal_strlit("fmt");
    reveal_strlit("raw");
    assert("fmt"@ != "raw"@) by {
        assert("fmt"@[0] != "raw"@[0]);
    }
}

/// An enterprise value written as a value reads back as itself.
pub proof fn lemma_enterprise_value_value(m: Option<EnterpriseValueView>)
    ensures
        m matches Some(x) ==> enterprise_value_of(enterprise_value_value(m).unwrap()) == Some(x),
{
    reveal_strlit("fmt");
    reveal_strlit("raw");
    assert("fmt"@ != "raw"@) by {
        assert("fmt"@[0] != "raw"@[0]);
    }
}

/// A count of shares written as a value reads back as itself.
pub proof fn lemma_shares_outstanding_value(m: Option<SharesOutstandingView>)
    ensures
        m matches Some(x) ==> shares_outstanding_of(shares_outstanding_value(m).unwrap()) == Some(
            x,
        ),
{
    reveal_strlit("fmt");
    reveal_strlit("raw");
    assert("fmt"@ != "raw"@) by {
        assert("fmt"@[0] != "raw"@[0]);
    }
}

/// A series of numbers written as an array reads back as itself.
pub proof fn lemma_numbers_value(series: Option<Seq<Number>>)
    ensures
        series matches Some(s) ==> numbers_of(numbers_value(series).unwrap()) == Some(s),
{
    if let Some(s) = series {
        assert(numbers_of(numbers_value(series).unwrap()).unwrap() =~= s);
    }
}

/// A series of integers written as an array reads back as itself.
pub proof fn lemma_integers_value(series: Option<Seq<i64>>)
    ensures
        series matches Some(s) ==> integers_of(integers_value(series).unwrap()) == Some(s),
{
    if let Some(s) = series {
        assert(integers_of(integers_value(series).unwrap()).unwrap() =~= s);
    }
}

/// A series of instants that can be represented, written as an array, reads
/// back as itself.
pub proof fn lemma_instants_value(series: Option<Seq<i64>>)
    requires
        instants_representable(series),
    ensures
        series matches Some(s) ==> instants_of(integers_value(series).unwrap()) == Some(s),
{
    lemma_integers_value(series);
    if let Some(s) = series {
        assert(instants_of(integers_value(series).unwrap()).unwrap() =~= s);
    }
}

/// A profile written as a document reads back as itself: every field that is
/// present comes back exactly, every field that is absent comes back absent.
pub proof fn law_profile_round_trip(p: ProfileView)
    ensures
        profile_of(profile_document(p)) == Some(p),
{
    reveal_strlit("address");
    reveal_strlit("city");
    reveal_strlit("state");
    reveal_strlit("country");
    reveal_strlit("industry");
    reveal_strlit("sector");
    reveal_strlit("longBusinessSummary");
    assert("address"@.len() == 7);
    assert("city"@.len() == 4);
    assert("state"@.len() == 5);
    assert("country"@.len() == 7);
    assert("industry"@.len() == 8);
    assert("sector"@.len() == 6);
    assert("longBusinessSummary"@.len() == 19);
    assert("address"@[0] != "country"@[0]);
    let d0 = Map::<Seq<char>, ValueView>::empty();
    let d1 = with_field(d0, "address"@, text_value(p.address));
    let d2 = with_field(d1, "city"@, text_value(p.city));
    let d3 = with_field(d2, "state"@, text_value(p.state));
    let d4 = with_field(d3, "country"@, text_value(p.country));
    let d5 = with_field(d4, "industry"@, text_value(p.industry));
    let d6 = with_field(d5, "sector"@, text_value(p.sector));
    let d7 = with_field(d6, "longBusinessSummary"@, text_value(p.long_business_summary));
    assert(d7 == profile_document(p));
    assert(!d0.contains_key("address"@));
    assert(lookup(d7, "address"@) == text_value(p.address));
    assert(!d1.contains_key("city"@));
    assert(lookup(d7, "city"@) == text_value(p.city));
    assert(!d2.contains_key("state"@));
    assert(lookup(d7, "state"@) == text_value(p.state));
    assert(!d3.contains_key("country"@));
    assert(lookup(d7, "country"@) == text_value(p.country));
    assert(!d4.contains_key("industry"@));
    assert(lookup(d7, "industry"@) == text_value(p.industry));
    assert(!d5.contains_key("sector"@));
    assert(lookup(d7, "sector"@) == text_value(p.sector));
    assert(!d6.contains_key("longBusinessSummary"@));
    assert(lookup(d7, "longBusinessSummary"@) == text_value(p.long_business_summary));
}


/// Financial figures written as a document read back as themselves.
pub proof fn law_financials_round_trip(f: FinancialsView)
    ensures
        financials_of(financials_document(f)) == Some(f),
{
    reveal_strlit("beta");
    reveal_strlit("dayHigh");
    reveal_strlit("dayLow");
    reveal_strlit("dividendRate");
    reveal_strlit("dividendYield");
    reveal_strlit("forwardPE");
    reveal_strlit("marketCap");
    reveal_strlit("open");
    reveal_strlit("previousClose");
    reveal_strlit("trailingPE");
    assert("beta"@.len() == 4);
    assert("dayHigh"@.len() == 7);
    assert("dayLow"@.len() == 6);
    assert("dividendRate"@.len() == 12);
    assert("dividendYield"@.len() == 13);
    assert("forwardPE"@.len() == 9);
    assert("marketCap"@.len() == 9);
    assert("open"@.len() == 4);
    assert("previousClose"@.len() == 13);
    assert("trailingPE"@.len() == 10);
    assert("beta"@[0] != "open"@[0]);
    assert("dividendYield"@[0] != "previousClose"@[0]);
    assert("forwardPE"@[0] != "marketCap"@[0]);
    let d0 = Map::<Seq<char>, ValueView>::empty();
    let d1 = with_field(d0, "beta"@, metric_value(f.beta));
    let d2 = with_field(d1, "dayHigh"@, metric_value(f.day_high));
    let d3 = with_field(d2, "dayLow"@, metric_value(f.day_low));
    let d4 = with_field(d3, "dividendRate"@, metric_value(f.dividend_rate));
    let d5 = with_field(d4, "dividendYield"@, metric_value(f.dividend_yield));
    let d6 = with_field(d5, "forwardPE"@, metric_value(f.forward_pe));
    let d7 = with_field(d6, "marketCap"@, market_cap_value(f.market_cap));
    let d8 = with_field(d7, "open"@, metric_value(f.open));
    let d9 = with_field(d8, "previousClose"@, metric_value(f.previous_close));
    let d10 = with_field(d9, "trailingPE"@, metric_value(f.trailing_pe));
    assert(d10 == financials_document(f));
    lemma_metric_value(f.beta);
    assert(!d0.contains_key("beta"@));
    assert(lookup(d10, "beta"@) == metric_value(f.beta));
    lemma_metric_value(f.day_high);
    assert(!d1.contains_key("dayHigh"@));
    assert(lookup(d10, "dayHigh"@) == metric_value(f.day_high));
    lemma_metric_value(f.day_low);
    assert(!d2.contains_key("dayLow"@));
    assert(lookup(d10, "dayLow"@) == metric_value(f.day_low));
    lemma_metric_value(f.dividend_rate);
    assert(!d3.contains_key("dividendRate"@));
    assert(lookup(d10, "dividendRate"@) == metric_value(f.dividend_rate));
    lemma_metric_value(f.dividend_yield);
    assert(!d4.contains_key("dividendYield"@));
    assert(lookup(d10, "dividendYield"@) == metric_value(f.dividend_yield));
    lemma_metric_value(f.forward_pe);
    assert(!d5.contains_key("forwardPE"@));
    assert(lookup(d10, "forwardPE"@) == metric_value(f.forward_pe));
    lemma_market_cap_value(f.market_cap);
    assert(!d6.contains_key("marketCap"@));
    assert(lookup(d10, "marketCap"@) == market_cap_value(f.market_cap));
    lemma_metric_value(f.open);
    assert(!d7.contains_key("open"@));
    assert(lookup(d10, "open"@) == metric_value(f.open));
    lemma_metric_value(f.previous_close);
    assert(!d8.contains_key("previousClose"@));
    assert(lookup(d10, "previousClose"@) == metric_value(f.previous_close));
    lemma_metric_value(f.trailing_pe);
    assert(!d9.contains_key("trailingPE"@));
    assert(lookup(d10, "trailingPE"@) == metric_value(f.trailing_pe));
}

/// Key statistics written as a document read back as themselves.
pub proof fn law_key_statistics_round_trip(k: KeyStatisticsView)
    ensures
        key_statistics_of(key_statistics_document(k)) == Some(k),
{
    reveal_strlit("enterpriseValue");
    reveal_strlit("forwardEPS");
    reveal_strlit("pegRatio");
    reveal_strlit("profitMargins");
    reveal_strlit("sharesOutstanding");
    reveal_strlit("trailingEPS");
    assert("enterpriseValue"@.len() == 15);
    assert("forwardEPS"@.len() == 10);
    assert("pegRatio"@.len() == 8);
    assert("profitMargins"@.len() == 13);
    assert("sharesOutstanding"@.len() == 17);
    assert("trailingEPS"@.len() == 11);
    let d0 = Map::<Seq<char>, ValueView>::empty();
    let d1 = with_field(d0, "enterpriseValue"@, enterprise_value_value(k.enterprise_value));
    let d2 = with_field(d1, "forwardEPS"@, metric_value(k.forward_eps));
    let d3 = with_field(d2, "pegRatio"@, metric_value(k.peg_ratio));
    let d4 = with_field(d3, "profitMargins"@, metric_value(k.profit_margins));
    let d5 = with_field(d4, "sharesOutstanding"@, shares_outstanding_value(k.shares_outstanding));
    let d6 = with_field(d5, "trailingEPS"@, metric_value(k.trailing_eps));
    assert(d6 == key_statistics_document(k));
    lemma_enterprise_value_value(k.enterprise_value);
    assert(!d0.contains_key("enterpriseValue"@));
    assert(lookup(d6, "enterpriseValue"@) == enterprise_value_value(k.enterprise_value));
    lemma_metric_value(k.forward_eps);
    assert(!d1.contains_key("forwardEPS"@));
    assert(lookup(d6, "forwardEPS"@) == metric_value(k.forward_eps));
    lemma_metric_value(k.peg_ratio);
    assert(!d2.contains_key("pegRatio"@));
    assert(lookup(d6, "pegRatio"@) == metric_value(k.peg_ratio));
    lemma_metric_value(k.profit_margins);
    assert(!d3.contains_key("profitMargins"@));
    assert(lookup(d6, "profitMargins"@) == metric_value(k.profit_margins));
    lemma_shares_outstanding_value(k.shares_outstanding);
    assert(!d4.contains_key("sharesOutstanding"@));
    assert(lookup(d6, "sharesOutstanding"@) == shares_outstanding_value(k.shares_outstanding));
    lemma_metric_value(k.trailing_eps);
    assert(!d5.contains_key("trailingEPS"@));
    assert(lookup(d6, "trailingEPS"@) == metric_value(k.trailing_eps));
}

/// What stands under each key of a price document: the ticker, the period and
/// the interval as texts, and each series that the record has as an array.
pub proof fn lemma_price_document_fields(ticker: Seq<char>, r: PriceDataDetailsView)
    ensures
        lookup(price_document(ticker, r), "symbol"@) == Some(ValueView::Text(ticker)),
        lookup(price_document(ticker, r), "period"@) == Some(ValueView::Text(r.period)),
        lookup(price_document(ticker, r), "interval"@) == Some(ValueView::Text(r.interval)),
        lookup(price_document(ticker, r), "closes"@) == numbers_value(r.closes),
        lookup(price_document(ticker, r), "highs"@) == numbers_value(r.highs),
        lookup(price_document(ticker, r), "lows"@) == numbers_value(r.lows),
        lookup(price_document(ticker, r), "opens"@) == numbers_value(r.opens),
        lookup(price_document(ticker, r), "timestamps"@) == integers_value(r.timestamps),
        lookup(price_document(ticker, r), "volumes"@) == integers_value(r.volumes),
{
    reveal_strlit("symbol");
    reveal_strlit("period");
    reveal_strlit("interval");
    reveal_strlit("closes");
    reveal_strlit("highs");
    reveal_strlit("lows");
    reveal_strlit("opens");
    reveal_strlit("timestamps");
    reveal_strlit("volumes");
    assert("symbol"@.len() == 6);
    assert("period"@.len() == 6);
    assert("interval"@.len() == 8);
    assert("closes"@.len() == 6);
    assert("highs"@.len() == 5);
    assert("lows"@.len() == 4);
    assert("opens"@.len() == 5);
    assert("timestamps"@.len() == 10);
    assert("volumes"@.len() == 7);
    assert("symbol"@[0] != "period"@[0]);
    assert("symbol"@[0] != "closes"@[0]);
    assert("period"@[0] != "closes"@[0]);
    assert("highs"@[0] != "opens"@[0]);
    let d0 = Map::<Seq<char>, ValueView>::empty();
    let d1 = d0.insert("symbol"@, ValueView::Text(ticker));
    let d2 = d1.insert("period"@, ValueView::Text(r.period));
    let d3 = d2.insert("interval"@, ValueView::Text(r.interval));
    let d4 = with_field(d3, "closes"@, numbers_value(r.closes));
    let d5 = with_field(d4, "highs"@, numbers_value(r.highs));
    let d6 = with_field(d5, "lows"@, numbers_value(r.lows));
    let d7 = with_field(d6, "opens"@, numbers_value(r.opens));
    let d8 = with_field(d7, "timestamps"@, integers_value(r.timestamps));
    let d9 = with_field(d8, "volumes"@, integers_value(r.volumes));
    assert(d9 == price_document(ticker, r));
    assert(!d0.contains_key("symbol"@));
    assert(lookup(d9, "symbol"@) == Some(ValueView::Text(ticker)));
    assert(!d1.contains_key("period"@));
    assert(lookup(d9, "period"@) == Some(ValueView::Text(r.period)));
    assert(!d2.contains_key("interval"@));
    assert(lookup(d9, "interval"@) == Some(ValueView::Text(r.interval)));
    assert(!d3.contains_key("closes"@));
    assert(lookup(d9, "closes"@) == numbers_value(r.closes));
    assert(!d4.contains_key("highs"@));
    assert(lookup(d9, "highs"@) == numbers_value(r.highs));
    assert(!d5.contains_key("lows"@));
    assert(lookup(d9, "lows"@) == numbers_value(r.lows));
    assert(!d6.contains_key("opens"@));
    assert(lookup(d9, "opens"@) == numbers_value(r.opens));
    assert(!d7.contains_key("timestamps"@));
    assert(lookup(d9, "timestamps"@) == integers_value(r.timestamps));
    assert(!d8.contains_key("volumes"@));
    assert(lookup(d9, "volumes"@) == integers_value(r.volumes));
}

/// A record of price history written as a price document reads back as itself,
/// provided that its timestamps are instants that can be represented.
pub proof fn law_price_history_round_trip(ticker: Seq<char>, r: PriceDataDetailsView)
    requires
        instants_representable(r.timestamps),
    ensures
        price_history_of(price_document(ticker, r)) == Some(r),
{
    lemma_price_document_fields(ticker, r);
    lemma_numbers_value(r.closes);
    lemma_numbers_value(r.highs);
    lemma_numbers_value(r.lows);
    lemma_numbers_value(r.opens);
    lemma_instants_value(r.timestamps);
    lemma_integers_value(r.volumes);
}

/// The price window of a price document pairs the closing prices that were
/// written with the dates of the timestamps that were written, as far as both go.
pub proof fn law_price_window_round_trip(ticker: Seq<char>, r: PriceDataDetailsView)
    ensures
        price_window_of(price_document(ticker, r)) == zip_prices(
            some_or_empty(r.closes),
            some_or_empty(r.timestamps),
        ),
{
    lemma_price_document_fields(ticker, r);
    lemma_numbers_value(r.closes);
    lemma_integers_value(r.timestamps);
}


/// A company written as a company document gives back its name and ticker, and
/// each of its three sub-documents exactly where it has one and `None` where it
/// has none.
pub proof fn law_company_round_trip(c: CompanyView)
    ensures
        company_record_of(company_document(c)) == c,
{
    reveal_strlit("name");
    reveal_strlit("ticker");
    reveal_strlit("profile");
    reveal_strlit("financials");
    reveal_strlit("keyStatistics");
    assert("name"@.len() == 4);
    assert("ticker"@.len() == 6);
    assert("profile"@.len() == 7);
    assert("financials"@.len() == 10);
    assert("keyStatistics"@.len() == 13);
    let d0 = Map::<Seq<char>, ValueView>::empty();
    let d1 = d0.insert("name"@, ValueView::Text(c.name));
    let d2 = d1.insert("ticker"@, ValueView::Text(c.ticker));
    let d3 = with_field(d2, "profile"@, document_value(match c.profile { Some(x) => Some(profile_document(x)), None => None }));
    let d4 = with_field(d3, "financials"@, document_value(match c.financials { Some(x) => Some(financials_document(x)), None => None }));
    let d5 = with_field(d4, "keyStatistics"@, document_value(match c.key_statistics { Some(x) => Some(key_statistics_document(x)), None => None }));
    assert(d5 == company_document(c));
    assert(!d0.contains_key("name"@));
    assert(lookup(d5, "name"@) == Some(ValueView::Text(c.name)));
    assert(!d1.contains_key("ticker"@));
    assert(lookup(d5, "ticker"@) == Some(ValueView::Text(c.ticker)));
    assert(!d2.contains_key("profile"@));
    assert(lookup(d5, "profile"@) == document_value(match c.profile { Some(x) => Some(profile_document(x)), None => None }));
    assert(!d3.contains_key("financials"@));
    assert(lookup(d5, "financials"@) == document_value(match c.financials { Some(x) => Some(financials_document(x)), None => None }));
    assert(!d4.contains_key("keyStatistics"@));
    assert(lookup(d5, "keyStatistics"@) == document_value(match c.key_statistics { Some(x) => Some(key_statistics_document(x)), None => None }));
    if let Some(p) = c.profile {
        law_profile_round_trip(p);
    }
    if let Some(f) = c.financials {
        law_financials_round_trip(f);
    }
    if let Some(k) = c.key_statistics {
        law_key_statistics_round_trip(k);
    }
}


/// A company and its price document, written as documents and then listed,
/// give the entry with the company's name and ticker and with the closing
/// prices that were written, each at the date of its timestamp.
pub proof fn law_listing_round_trip(c: CompanyView, r: PriceDataDetailsView)
    ensures
        listing_entry_of(company_document(c), Some(price_document(c.ticker, r))) == (StockDataView {
            name: c.name,
            ticker: c.ticker,
            price_data: zip_prices(some_or_empty(r.closes), some_or_empty(r.timestamps)),
        }),
        listing_entry_of(company_document(c), None) == (StockDataView {
            name: c.name,
            ticker: c.ticker,
            price_data: Seq::empty(),
        }),
{
    law_company_round_trip(c);
    law_price_window_round_trip(c.ticker, r);
}

/// A company and the records of its price history, written as documents and
/// then gathered, give back every field that was written exactly, and `None`
/// for every field that was not.
pub proof fn law_details_round_trip(c: CompanyView, records: Seq<PriceDataDetailsView>)
    requires
        forall|i: int| 0 <= i < records.len() ==> instants_representable(
            (#[trigger] records[i]).timestamps,
        ),
    ensures
        stock_details_of(
            c.ticker,
            Some(company_document(c)),
            Seq::new(records.len(), |i: int| price_document(c.ticker, records[i])),
        ) == Ok::<StockDetailsResponseView, StockErrorView>(
            StockDetailsResponseView {
                ticker: c.ticker,
                financials: c.financials,
                key_statistics: c.key_statistics,
                price_data: Some(records),
                profile: c.profile,
            },
        ),
{
    law_company_round_trip(c);
    let history = Seq::new(records.len(), |i: int| price_document(c.ticker, records[i]));
    assert forall|i: int| 0 <= i < history.len() implies price_history_of(#[trigger] history[i])
        == Some(records[i]) by {
        law_price_history_round_trip(c.ticker, records[i]);
    }
    assert(history_of(history) =~= records);
}

/// One item that is no number inside `closes` fails the details of the whole
/// ticker with `DecodeFailed`, whatever else the store holds.
pub proof fn law_malformed_closes_fail_details(
    ticker: Seq<char>,
    company: Option<DocumentView>,
    history: Seq<DocumentView>,
    i: int,
    items: Seq<ValueView>,
    j: int,
)
    requires
        0 <= i < history.len(),
        lookup(history[i], "closes"@) == Some(ValueView::Array(items)),
        0 <= j < items.len(),
        number_of(items[j]) is None,
    ensures
        price_history_of(history[i]) is None,
        stock_details_of(ticker, company, history) == Err::<
            StockDetailsResponseView,
            StockErrorView,
        >(StockErrorView::DecodeFailed { ticker }),
{
    assert(numbers_of(ValueView::Array(items)) is None);
}

/// A price document that decodes still decodes without its `highs` and
/// `lows`: the record is the same but for those two series, which are `None`.
pub proof fn law_missing_series_are_none(d: DocumentView)
    requires
        price_history_of(d) is Some,
    ensures
        price_history_of(d.remove("highs"@).remove("lows"@)) == Some(
            PriceDataDetailsView { highs: None, lows: None, ..price_history_of(d).unwrap() },
        ),
{
    reveal_strlit("period");
    reveal_strlit("interval");
    reveal_strlit("closes");
    reveal_strlit("highs");
    reveal_strlit("lows");
    reveal_strlit("opens");
    reveal_strlit("timestamps");
    reveal_strlit("volumes");
    assert("period"@.len() == 6);
    assert("interval"@.len() == 8);
    assert("closes"@.len() == 6);
    assert("highs"@.len() == 5);
    assert("lows"@.len() == 4);
    assert("opens"@.len() == 5);
    assert("timestamps"@.len() == 10);
    assert("volumes"@.len() == 7);
    assert("period"@[0] != "closes"@[0]);
    assert("highs"@[0] != "opens"@[0]);
    let e = d.remove("highs"@).remove("lows"@);
    assert(lookup(e, "period"@) == lookup(d, "period"@));
    assert(lookup(e, "interval"@) == lookup(d, "interval"@));
    assert(lookup(e, "closes"@) == lookup(d, "closes"@));
    assert(lookup(e, "opens"@) == lookup(d, "opens"@));
    assert(lookup(e, "timestamps"@) == lookup(d, "timestamps"@));
    assert(lookup(e, "volumes"@) == lookup(d, "volumes"@));
    assert(lookup(e, "highs"@) is None);
    assert(lookup(e, "lows"@) is None);
}


} // verus!
