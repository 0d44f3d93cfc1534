//! The two stock operations as step machines.
//!
//! An operation that needs the store does not reach for it. It says what it
//! asks of the store, and is told what the store replied; between a reply and
//! the next request lies one step, which is decided here. Whoever owns the
//! store connection runs the loop.
//!
//! A reply that does not answer the pending request counts as a failure of
//! the store at that request.

use crate::document::{Document, DocumentView};
use crate::models::stock_models::{
    price_history_of, Financials, PriceData, PriceDataView, FinancialsView, KeyStatistics, KeyStatisticsView,
    PriceDataDetails, PriceDataDetailsView, Profile, ProfileView, StockData, StockDataView,
    StockDetailsResponse, StockDetailsResponseView, StockListingPayload, StockListingPayloadView,
    StockListingResponse, StockListingResponseView,
};
use crate::services::stock_service::{
    company_financials, company_financials_of, company_key_statistics,
    company_key_statistics_of, company_profile, company_profile_of, company_query,
    company_query_of, company_ticker, company_ticker_of, listing_entry_of, partition_name,
    price_window, price_window_of, text_or_default, text_or_empty, ticker_filter,
    ticker_filter_of, window_filter, window_filter_of, CompanyMatchView, CompanyQuery,
    CompanyQueryView, StockError, StockErrorView, StoreStep,
};
use vstd::prelude::*;

verus! {

/// What an operation asks of the store.
#[derive(Debug, PartialEq)]
pub enum StoreRequest {
    /// Run a query on the companies and open a cursor on its matches.
    FindCompanies(CompanyQuery),
    /// Find the one company that matches a filter.
    FindCompany { filter: Document },
    /// Find the one price document of a partition that matches a filter.
    FindWindow { partition: String, filter: Document },
    /// Open a cursor on every price document of a partition.
    ScanHistory { partition: String },
    /// Take the next document from the open cursor.
    Next,
}

/// The mathematical value of a [`StoreRequest`].
pub enum StoreRequestView {
    FindCompanies(CompanyQueryView),
    FindCompany { filter: DocumentView },
    FindWindow { partition: Seq<char>, filter: DocumentView },
    ScanHistory { partition: Seq<char> },
    Next,
}

impl View for StoreRequest {
    type V = StoreRequestView;

    open spec fn view(&self) -> StoreRequestView {
        match self {
            StoreRequest::FindCompanies(query) => StoreRequestView::FindCompanies(query@),
            StoreRequest::FindCompany { filter } => StoreRequestView::FindCompany {
                filter: filter@,
            },
            StoreRequest::FindWindow { partition, filter } => StoreRequestView::FindWindow {
                partition: partition@,
                filter: filter@,
            },
            StoreRequest::ScanHistory { partition } => StoreRequestView::ScanHistory {
                partition: partition@,
            },
            StoreRequest::Next => StoreRequestView::Next,
        }
    }
}

/// What the store replied.
#[derive(Debug, PartialEq)]
pub enum StoreReply {
    /// The cursor is open.
    Opened,
    /// The next document of the cursor.
    Item(Document),
    /// The cursor has no more documents.
    Exhausted,
    /// The document that was looked for, or that there is none.
    Found(Option<Document>),
    /// The store failed.
    Failed,
}

/// The mathematical value of a [`StoreReply`].
pub enum StoreReplyView {
    Opened,
    Item(DocumentView),
    Exhausted,
    Found(Option<DocumentView>),
    Failed,
}

impl View for StoreReply {
    type V = StoreReplyView;

    open spec fn view(&self) -> StoreReplyView {
        match self {
            StoreReply::Opened => StoreReplyView::Opened,
            StoreReply::Item(d) => StoreReplyView::Item(d@),
            StoreReply::Exhausted => StoreReplyView::Exhausted,
            StoreReply::Found(d) => StoreReplyView::Found(d.deep_view()),
            StoreReply::Failed => StoreReplyView::Failed,
        }
    }
}

/// What an operation does next: ask the store, or end with a response or
/// with an error.
#[derive(Debug, PartialEq)]
pub enum Action<R> {
    Ask(StoreRequest),
    Respond(R),
    Fail(StockError),
}

/// The mathematical value of an [`Action`].
pub enum ActionView<R> {
    Ask(StoreRequestView),
    Respond(R),
    Fail(StockErrorView),
}

impl<R: View> View for Action<R> {
    type V = ActionView<R::V>;

    open spec fn view(&self) -> ActionView<R::V> {
        match self {
            Action::Ask(request) => ActionView::Ask(request@),
            Action::Respond(response) => ActionView::Respond(response@),
            Action::Fail(error) => ActionView::Fail(error@),
        }
    }
}

/// Where a listing stands.
#[derive(Clone, Copy, Debug, PartialEq, Eq)]
pub enum ListingPhase {
    /// The query for the companies has been sent.
    Opening,
    /// The next company has been asked for.
    Fetching,
    /// The price window of a company has been asked for.
    Pricing,
    /// The listing has ended.
    Done,
}

/// A listing under way.
#[derive(Debug, PartialEq)]
pub struct Listing {
    phase: ListingPhase,
    name: String,
    ticker: String,
    documents: Vec<StockData>,
}

/// The mathematical value of a [`Listing`].
pub struct ListingView {
    pub phase: ListingPhase,
    /// While `Pricing`: the name of the company whose price window is awaited.
    pub name: Seq<char>,
    /// While `Pricing`: its ticker.
    pub ticker: Seq<char>,
    /// The entries of the companies done with, in their order.
    pub documents: Seq<StockDataView>,
}

impl View for Listing {
    type V = ListingView;

    closed spec fn view(&self) -> ListingView {
        ListingView {
            phase: self.phase,
            name: self.name@,
            ticker: self.ticker@,
            documents: self.documents.deep_view(),
        }
    }
}

/// A listing in the given phase with nothing gathered.
pub open spec fn empty_listing(phase: ListingPhase) -> ListingView {
    ListingView { phase, name: Seq::empty(), ticker: Seq::empty(), documents: Seq::empty() }
}

/// The round-trip to the store that a listing waits for in a phase.
pub open spec fn listing_round_trip(phase: ListingPhase) -> StoreStep {
    match phase {
        ListingPhase::Opening => StoreStep::CompanyQuery,
        ListingPhase::Pricing => StoreStep::PriceWindow,
        _ => StoreStep::CompanyCursor,
    }
}

/// The failure of a listing on a reply that it cannot use.
pub open spec fn listing_failure(state: ListingView) -> StockErrorView {
    StockErrorView::StoreQueryFailed {
        step: listing_round_trip(state.phase),
        about: if state.phase == ListingPhase::Pricing {
            Some(state.ticker)
        } else {
            None
        },
    }
}

/// How a listing begins: with a rejection where the request does not say who
/// asks, and no request to the store; else with the query for its companies.
pub open spec fn listing_start(payload: StockListingPayloadView) -> (
    ListingView,
    ActionView<StockListingResponseView>,
) {
    if payload.user_id is None {
        (empty_listing(ListingPhase::Done), ActionView::Fail(StockErrorView::MissingUser))
    } else {
        (
            empty_listing(ListingPhase::Opening),
            ActionView::Ask(StoreRequestView::FindCompanies(company_query_of(payload))),
        )
    }
}

/// One step of a listing.
///
/// Once the cursor is open the listing takes company after company. For each
/// it asks for the price window in the partition of the company's ticker, and
/// with the answer, a document or none, the company is entered. When the
/// cursor is exhausted the entries are the response.
///
/// Any other reply ends the listing with a failure of the store at the
/// round-trip that was pending. A listing that has ended answers every reply
/// so, and asks nothing more.
pub open spec fn listing_step(state: ListingView, reply: StoreReplyView) -> (
    ListingView,
    ActionView<StockListingResponseView>,
) {
    match (state.phase, reply) {
        (ListingPhase::Opening, StoreReplyView::Opened) => (
            ListingView { phase: ListingPhase::Fetching, ..state },
            ActionView::Ask(StoreRequestView::Next),
        ),
        (ListingPhase::Fetching, StoreReplyView::Item(company)) => (
            ListingView {
                phase: ListingPhase::Pricing,
                name: text_or_empty(company, "name"@),
                ticker: company_ticker_of(company),
                documents: state.documents,
            },
            ActionView::Ask(
                StoreRequestView::FindWindow {
                    partition: company_ticker_of(company),
                    filter: window_filter_of(company_ticker_of(company)),
                },
            ),
        ),
        (ListingPhase::Fetching, StoreReplyView::Exhausted) => (
            empty_listing(ListingPhase::Done),
            ActionView::Respond(StockListingResponseView { documents: state.documents }),
        ),
        (ListingPhase::Pricing, StoreReplyView::Found(window)) => (
            ListingView {
                phase: ListingPhase::Fetching,
                name: Seq::empty(),
                ticker: Seq::empty(),
                documents: state.documents.push(
                    StockDataView {
                        name: state.name,
                        ticker: state.ticker,
                        price_data: match window {
                            Some(d) => price_window_of(d),
                            None => Seq::empty(),
                        },
                    },
                ),
            },
            ActionView::Ask(StoreRequestView::Next),
        ),
        _ => (empty_listing(ListingPhase::Done), ActionView::Fail(listing_failure(state))),
    }
}

impl Listing {
    fn done() -> (state: Listing)
        ensures
            state@ == empty_listing(ListingPhase::Done),
    {
        let state = Listing {
            phase: ListingPhase::Done,
            name: String::new(),
            ticker: String::new(),
            documents: Vec::new(),
        };
        assert(state.documents.deep_view() =~= Seq::<StockDataView>::empty());
        state
    }

    /// Begins a listing.
    pub fn start(payload: &StockListingPayload) -> (r: (Listing, Action<StockListingResponse>))
        ensures
            (r.0@, r.1@) == listing_start(payload@),
    {
        if payload.user_id.is_none() {
            return (Listing::done(), Action::Fail(StockError::MissingUser));
        }
        let state = Listing {
            phase: ListingPhase::Opening,
            name: String::new(),
            ticker: String::new(),
            documents: Vec::new(),
        };
        assert(state.documents.deep_view() =~= Seq::<StockDataView>::empty());
        (state, Action::Ask(StoreRequest::FindCompanies(company_query(payload))))
    }

    /// Whether the listing has ended.
    pub fn is_done(&self) -> (done: bool)
        ensures
            done == (self@.phase == ListingPhase::Done),
    {
        match self.phase {
            ListingPhase::Done => true,
            _ => false,
        }
    }

    fn fail(self) -> (r: (Listing, Action<StockListingResponse>))
        ensures
            r.0@ == empty_listing(ListingPhase::Done),
            r.1@ == ActionView::<StockListingResponseView>::Fail(listing_failure(self@)),
    {
        let (step, about) = match self.phase {
            ListingPhase::Opening => (StoreStep::CompanyQuery, None),
            ListingPhase::Pricing => (StoreStep::PriceWindow, Some(self.ticker)),
            _ => (StoreStep::CompanyCursor, None),
        };
        (Listing::done(), Action::Fail(StockError::StoreQueryFailed { step, about }))
    }

    /// Takes the listing one step on with the store's reply.
    pub fn advance(self, reply: StoreReply) -> (r: (Listing, Action<StockListingResponse>))
        ensures
            (r.0@, r.1@) == listing_step(self@, reply@),
    {
        match (self.phase, reply) {
            (ListingPhase::Opening, StoreReply::Opened) => {
                let state = Listing { phase: ListingPhase::Fetching, ..self };
                (state, Action::Ask(StoreRequest::Next))
            },
            (ListingPhase::Fetching, StoreReply::Item(company)) => {
                let ticker = company_ticker(&company);
                let request = StoreRequest::FindWindow {
                    partition: partition_name(ticker.as_str()),
                    filter: window_filter(ticker.as_str()),
                };
                let state = Listing {
                    phase: ListingPhase::Pricing,
                    name: text_or_default(&company, "name"),
                    ticker,
                    documents: self.documents,
                };
                (state, Action::Ask(request))
            },
            (ListingPhase::Fetching, StoreReply::Exhausted) => {
                (Listing::done(), Action::Respond(StockListingResponse { documents: self.documents }))
            },
            (ListingPhase::Pricing, StoreReply::Found(window)) => {
                let price_data = match &window {
                    Some(d) => price_window(d),
                    None => {
                        let none: Vec<PriceData> = Vec::new();
                        assert(none.deep_view() =~= Seq::<PriceDataView>::empty());
                        none
                    },
                };
                let ghost before = self.documents.deep_view();
                let mut documents = self.documents;
                let entry = StockData { name: self.name, ticker: self.ticker, price_data };
                documents.push(entry);
                assert(documents.deep_view() =~= before.push(entry@));
                let state = Listing {
                    phase: ListingPhase::Fetching,
                    name: String::new(),
                    ticker: String::new(),
                    documents,
                };
                (state, Action::Ask(StoreRequest::Next))
            },
            _ => self.fail(),
        }
    }
}

/// Where a gathering of details stands.
#[derive(Clone, Copy, Debug, PartialEq, Eq)]
pub enum DetailsPhase {
    /// The company of the ticker has been asked for.
    Company,
    /// The scan of the ticker's partition has been sent.
    Opening,
    /// The next record of price history has been asked for.
    Fetching,
    /// The gathering has ended.
    Done,
}

/// A gathering of the details of one ticker under way.
#[derive(Debug, PartialEq)]
pub struct Details {
    phase: DetailsPhase,
    ticker: String,
    financials: Option<Financials>,
    key_statistics: Option<KeyStatistics>,
    profile: Option<Profile>,
    price_data: Vec<PriceDataDetails>,
}

/// The mathematical value of a [`Details`].
pub struct DetailsView {
    pub phase: DetailsPhase,
    pub ticker: Seq<char>,
    pub financials: Option<FinancialsView>,
    pub key_statistics: Option<KeyStatisticsView>,
    pub profile: Option<ProfileView>,
    /// The records of price history read so far, in their order.
    pub price_data: Seq<PriceDataDetailsView>,
}

impl View for Details {
    type V = DetailsView;

    closed spec fn view(&self) -> DetailsView {
        DetailsView {
            phase: self.phase,
            ticker: self.ticker@,
            financials: self.financials.deep_view(),
            key_statistics: self.key_statistics.deep_view(),
            profile: self.profile.deep_view(),
            price_data: self.price_data.deep_view(),
        }
    }
}

/// A gathering that has ended and holds nothing.
pub open spec fn ended_details() -> DetailsView {
    DetailsView {
        phase: DetailsPhase::Done,
        ticker: Seq::empty(),
        financials: None,
        key_statistics: None,
        profile: None,
        price_data: Seq::empty(),
    }
}

/// The round-trip to the store that a gathering waits for in a phase.
pub open spec fn details_round_trip(phase: DetailsPhase) -> StoreStep {
    match phase {
        DetailsPhase::Company => StoreStep::CompanyLookup,
        DetailsPhase::Opening => StoreStep::HistoryQuery,
        _ => StoreStep::HistoryCursor,
    }
}

/// The failure of a gathering on a reply that it cannot use.
pub open spec fn details_failure(state: DetailsView) -> StockErrorView {
    StockErrorView::StoreQueryFailed {
        step: details_round_trip(state.phase),
        about: Some(state.ticker),
    }
}

/// How a gathering begins: by asking for the company of the ticker.
pub open spec fn details_start(ticker: Seq<char>) -> (
    DetailsView,
    ActionView<StockDetailsResponseView>,
) {
    (
        DetailsView {
            phase: DetailsPhase::Company,
            ticker,
            financials: None,
            key_statistics: None,
            profile: None,
            price_data: Seq::empty(),
        },
        ActionView::Ask(StoreRequestView::FindCompany { filter: ticker_filter_of(ticker) }),
    )
}

/// One step of a gathering.
///
/// With the company, or the news that there is none, the three sub-documents
/// are read and the partition of the ticker is scanned. Each document of the
/// partition must be a record of price history: one that is not ends the
/// gathering with `DecodeFailed`. When the cursor is exhausted, what has been
/// gathered is the response.
///
/// Any other reply ends the gathering with a failure of the store at the
/// round-trip that was pending. A gathering that has ended answers every
/// reply so, and asks nothing more.
pub open spec fn details_step(state: DetailsView, reply: StoreReplyView) -> (
    DetailsView,
    ActionView<StockDetailsResponseView>,
) {
    match (state.phase, reply) {
        (DetailsPhase::Company, StoreReplyView::Found(company)) => (
            DetailsView {
                phase: DetailsPhase::Opening,
                ticker: state.ticker,
                financials: company_financials_of(company),
                key_statistics: company_key_statistics_of(company),
                profile: company_profile_of(company),
                price_data: state.price_data,
            },
            ActionView::Ask(StoreRequestView::ScanHistory { partition: state.ticker }),
        ),
        (DetailsPhase::Opening, StoreReplyView::Opened) => (
            DetailsView { phase: DetailsPhase::Fetching, ..state },
            ActionView::Ask(StoreRequestView::Next),
        ),
        (DetailsPhase::Fetching, StoreReplyView::Item(document)) => match price_history_of(
            document,
        ) {
            Some(record) => (
                DetailsView { price_data: state.price_data.push(record), ..state },
                ActionView::Ask(StoreRequestView::Next),
            ),
            None => (
                ended_details(),
                ActionView::Fail(StockErrorView::DecodeFailed { ticker: state.ticker }),
            ),
        },
        (DetailsPhase::Fetching, StoreReplyView::Exhausted) => (
            ended_details(),
            ActionView::Respond(
                StockDetailsResponseView {
                    ticker: state.ticker,
                    financials: state.financials,
                    key_statistics: state.key_statistics,
                    price_data: Some(state.price_data),
                    profile: state.profile,
                },
            ),
        ),
        _ => (ended_details(), ActionView::Fail(details_failure(state))),
    }
}

impl Details {
    fn done() -> (state: Details)
        ensures
            state@ == ended_details(),
    {
        let state = Details {
            phase: DetailsPhase::Done,
            ticker: String::new(),
            financials: None,
            key_statistics: None,
            profile: None,
            price_data: Vec::new(),
        };
        assert(state.price_data.deep_view() =~= Seq::<PriceDataDetailsView>::empty());
        state
    }

    /// Begins to gather the details of a ticker.
    pub fn start(ticker: &str) -> (r: (Details, Action<StockDetailsResponse>))
        ensures
            (r.0@, r.1@) == details_start(ticker@),
    {
        let state = Details {
            phase: DetailsPhase::Company,
            ticker: ticker.to_owned(),
            financials: None,
            key_statistics: None,
            profile: None,
            price_data: Vec::new(),
        };
        assert(state.price_data.deep_view() =~= Seq::<PriceDataDetailsView>::empty());
        (state, Action::Ask(StoreRequest::FindCompany { filter: ticker_filter(ticker) }))
    }

    /// Whether the gathering has ended.
    pub fn is_done(&self) -> (done: bool)
        ensures
            done == (self@.phase == DetailsPhase::Done),
    {
        match self.phase {
            DetailsPhase::Done => true,
            _ => false,
        }
    }

    fn fail(self) -> (r: (Details, Action<StockDetailsResponse>))
        ensures
            r.0@ == ended_details(),
            r.1@ == ActionView::<StockDetailsResponseView>::Fail(details_failure(self@)),
    {
        let step = match self.phase {
            DetailsPhase::Company => StoreStep::CompanyLookup,
            DetailsPhase::Opening => StoreStep::HistoryQuery,
            _ => StoreStep::HistoryCursor,
        };
        (
            Details::done(),
            Action::Fail(StockError::StoreQueryFailed { step, about: Some(self.ticker) }),
        )
    }

    /// Takes the gathering one step on with the store's reply.
    pub fn advance(self, reply: StoreReply) -> (r: (Details, Action<StockDetailsResponse>))
        ensures
            (r.0@, r.1@) == details_step(self@, reply@),
    {
        match (self.phase, reply) {
            (DetailsPhase::Company, StoreReply::Found(found)) => {
                let company = match &found {
                    Some(d) => Some(d),
                    None => None,
                };
                let request = StoreRequest::ScanHistory {
                    partition: partition_name(self.ticker.as_str()),
                };
                let state = Details {
                    phase: DetailsPhase::Opening,
                    ticker: self.ticker,
                    financials: company_financials(company),
                    key_statistics: company_key_statistics(company),
                    profile: company_profile(company),
                    price_data: self.price_data,
                };
                (state, Action::Ask(request))
            },
            (DetailsPhase::Opening, StoreReply::Opened) => {
                let state = Details { phase: DetailsPhase::Fetching, ..self };
                (state, Action::Ask(StoreRequest::Next))
            },
            (DetailsPhase::Fetching, StoreReply::Item(document)) => {
                match PriceDataDetails::decode(&document) {
                    Some(record) => {
                        let ghost before = self.price_data.deep_view();
                        let ghost added = record@;
                        let mut price_data = self.price_data;
                        price_data.push(record);
                        assert(price_data.deep_view() =~= before.push(added));
                        let state = Details {
                            phase: self.phase,
                            ticker: self.ticker,
                            financials: self.financials,
                            key_statistics: self.key_statistics,
                            profile: self.profile,
                            price_data,
                        };
                        (state, Action::Ask(StoreRequest::Next))
                    },
                    None => (
                        Details::done(),
                        Action::Fail(StockError::DecodeFailed { ticker: self.ticker }),
                    ),
                }
            },
            (DetailsPhase::Fetching, StoreReply::Exhausted) => {
                let response = StockDetailsResponse {
                    ticker: self.ticker,
                    financials: self.financials,
                    key_statistics: self.key_statistics,
                    price_data: Some(self.price_data),
                    profile: self.profile,
                };
                (Details::done(), Action::Respond(response))
            },
            _ => self.fail(),
        }
    }
}

/// The last action of a listing that is in `state`, is told of each match in
/// turn, first its company and then the price document found for it, and is
/// told at last that the cursor is exhausted.
pub open spec fn listing_run(state: ListingView, matches: Seq<CompanyMatchView>) -> ActionView<
    StockListingResponseView,
>
    decreases matches.len(),
{
    if matches.len() == 0 {
        listing_step(state, StoreReplyView::Exhausted).1
    } else {
        let pricing = listing_step(state, StoreReplyView::Item(matches[0].company)).0;
        let fetching = listing_step(pricing, StoreReplyView::Found(matches[0].window)).0;
        listing_run(fetching, matches.drop_first())
    }
}

/// The last action of a gathering that is in `state`, is handed the documents
/// of the partition in turn for as long as it asks for more, and is told at
/// last that the cursor is exhausted.
pub open spec fn details_run(state: DetailsView, history: Seq<DocumentView>) -> ActionView<
    StockDetailsResponseView,
>
    decreases history.len(),
{
    if history.len() == 0 {
        details_step(state, StoreReplyView::Exhausted).1
    } else {
        let next = details_step(state, StoreReplyView::Item(history[0]));
        if next.1 is Ask {
            details_run(next.0, history.drop_first())
        } else {
            next.1
        }
    }
}

/// The actions of a listing that is in `state` and is handed the replies in
/// turn, whatever they are.
pub open spec fn listing_actions(state: ListingView, replies: Seq<StoreReplyView>) -> Seq<
    ActionView<StockListingResponseView>,
>
    decreases replies.len(),
{
    if replies.len() == 0 {
        Seq::empty()
    } else {
        let next = listing_step(state, replies[0]);
        seq![next.1] + listing_actions(next.0, replies.drop_first())
    }
}

} // verus!
