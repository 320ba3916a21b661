//! Asset sources: which request asks for a quote, what a reply says, and
//! how the last observation of a source changes.

use crate::decimal::{decimal, decimal_of};
use crate::json::{json_parse_of, parse, Json};
use crate::price::{is_decimal_text, Price};
use crate::timestamp::{has_date_time_form, is_stamp_text, Timestamp};
use vstd::prelude::*;

verus! {

/// Where the quote of an instrument comes from.
#[derive(Debug, PartialEq, Eq)]
pub enum Endpoint {
    /// A coin, quoted in US dollars by a public price aggregator.
    Crypto { coin: String },
    /// A ticker symbol, quoted by a provider that asks for an API key.
    Equity { symbol: String, api_key: String },
}

/// An [`Endpoint`], with each text as the sequence of its characters.
pub enum EndpointView {
    Crypto { coin: Seq<char> },
    Equity { symbol: Seq<char>, api_key: Seq<char> },
}

impl View for Endpoint {
    type V = EndpointView;

    open spec fn view(&self) -> EndpointView {
        match self {
            Endpoint::Crypto { coin } => EndpointView::Crypto { coin: coin@ },
            Endpoint::Equity { symbol, api_key } => EndpointView::Equity {
                symbol: symbol@,
                api_key: api_key@,
            },
        }
    }
}

impl EndpointView {
    /// The name of the instrument: the coin or the symbol.
    pub open spec fn instrument(self) -> Seq<char> {
        match self {
            EndpointView::Crypto { coin } => coin,
            EndpointView::Equity { symbol, api_key } => symbol,
        }
    }
}

/// One HTTP GET: the address and the query parameters in order.
#[derive(Debug, PartialEq, Eq)]
pub struct Request {
    pub url: String,
    pub query: Vec<(String, String)>,
}

/// A [`Request`], with each text as the sequence of its characters.
pub struct RequestView {
    pub url: Seq<char>,
    pub query: Seq<(Seq<char>, Seq<char>)>,
}

impl View for Request {
    type V = RequestView;

    open spec fn view(&self) -> RequestView {
        RequestView {
            url: self.url@,
            query: self.query@.map_values(|p: (String, String)| (p.0@, p.1@)),
        }
    }
}

/// The request that asks `endpoint` for its quote.
pub open spec fn request_of(endpoint: EndpointView) -> RequestView {
    match endpoint {
        EndpointView::Crypto { coin } => RequestView {
            url: "https://api.coingecko.com/api/v3/simple/price"@,
            query: seq![("ids"@, coin), ("vs_currencies"@, "usd"@)],
        },
        EndpointView::Equity { symbol, api_key } => RequestView {
            url: "https://www.alphavantage.co/query"@,
            query: seq![
                ("function"@, "GLOBAL_QUOTE"@),
                ("symbol"@, symbol),
                ("apikey"@, api_key),
            ],
        },
    }
}

impl Endpoint {
    /// The name of the instrument: the coin or the symbol.
    pub fn instrument(&self) -> (r: &str)
        ensures
            r@ == self@.instrument(),
    {
        match self {
            Endpoint::Crypto { coin } => coin.as_str(),
            Endpoint::Equity { symbol, api_key: _ } => symbol.as_str(),
        }
    }

    /// The request that asks this endpoint for its quote.
    pub fn request(&self) -> (r: Request)
        ensures
            r@ == request_of(self@),
    {
        match self {
            Endpoint::Crypto { coin } => {
                let mut query: Vec<(String, String)> = Vec::new();
                query.push((String::from_str("ids"), coin.clone()));
                query.push((String::from_str("vs_currencies"), String::from_str("usd")));
                let r = Request {
                    url: String::from_str("https://api.coingecko.com/api/v3/simple/price"),
                    query,
                };
                assert(r@.query =~= request_of(self@).query);
                r
            },
            Endpoint::Equity { symbol, api_key } => {
                let mut query: Vec<(String, String)> = Vec::new();
                query.push((String::from_str("function"), String::from_str("GLOBAL_QUOTE")));
                query.push((String::from_str("symbol"), symbol.clone()));
                query.push((String::from_str("apikey"), api_key.clone()));
                let r = Request { url: String::from_str("https://www.alphavantage.co/query"), query };
                assert(r@.query =~= request_of(self@).query);
                r
            },
        }
    }
}

/// What came back for a request.
#[derive(Debug, PartialEq, Eq)]
pub enum Reply {
    /// The body of a response with a success status, 200 to 299.
    Body(String),
    /// A response with any other status.
    Status(u16),
    /// No response: the reason, in words.
    Failed(String),
}

/// A [`Reply`], with each text as the sequence of its characters.
pub enum ReplyView {
    Body(Seq<char>),
    Status(u16),
    Failed(Seq<char>),
}

impl View for Reply {
    type V = ReplyView;

    open spec fn view(&self) -> ReplyView {
        match self {
            Reply::Body(body) => ReplyView::Body(body@),
            Reply::Status(status) => ReplyView::Status(*status),
            Reply::Failed(reason) => ReplyView::Failed(reason@),
        }
    }
}

/// Whether `status` is a success status: 200 to 299.
pub open spec fn is_success(status: u16) -> bool {
    200 <= status < 300
}

/// The reply that a response with the status `status` and the body `body`
/// is: its body where the status is a success, and else its status.
pub open spec fn reply_of(status: u16, body: Seq<char>) -> ReplyView {
    if is_success(status) {
        ReplyView::Body(body)
    } else {
        ReplyView::Status(status)
    }
}

/// Makes a reply of a response. Only a response with a success status
/// counts for its body; of any other, the status is all that is kept.
pub fn reply_of_response(status: u16, body: String) -> (r: Reply)
    ensures
        r@ == reply_of(status, body@),
{
    if 200 <= status && status < 300 {
        Reply::Body(body)
    } else {
        Reply::Status(status)
    }
}

/// Why a fetch gave no price.
#[derive(Debug, PartialEq, Eq)]
pub enum FetchError {
    /// No response came: the reason, in words.
    Transport(String),
    /// The response had a status other than success: none of 200 to 299.
    Protocol(u16),
    /// The body is no JSON document, or has no quote of the expected type
    /// in the expected place.
    Parse,
    /// The quote does not read as a number.
    Conversion,
}

/// A [`FetchError`], with each text as the sequence of its characters.
pub enum FetchErrorView {
    Transport(Seq<char>),
    Protocol(u16),
    Parse,
    Conversion,
}

impl View for FetchError {
    type V = FetchErrorView;

    open spec fn view(&self) -> FetchErrorView {
        match self {
            FetchError::Transport(reason) => FetchErrorView::Transport(reason@),
            FetchError::Protocol(status) => FetchErrorView::Protocol(*status),
            FetchError::Parse => FetchErrorView::Parse,
            FetchError::Conversion => FetchErrorView::Conversion,
        }
    }
}

impl Clone for FetchError {
    fn clone(&self) -> (r: FetchError)
        ensures
            r@ == self@,
    {
        match self {
            FetchError::Transport(reason) => FetchError::Transport(reason.clone()),
            FetchError::Protocol(status) => FetchError::Protocol(*status),
            FetchError::Parse => FetchError::Parse,
            FetchError::Conversion => FetchError::Conversion,
        }
    }
}

/// What `error` reads as in a message.
pub open spec fn message_of(error: FetchErrorView) -> Seq<char> {
    match error {
        FetchErrorView::Transport(reason) => reason,
        FetchErrorView::Protocol(status) => "status code "@ + decimal_of(status as nat),
        FetchErrorView::Parse => "the response holds no quote"@,
        FetchErrorView::Conversion => "the quote is not a number"@,
    }
}

impl FetchError {
    /// The error in words.
    pub fn message(&self) -> (r: String)
        ensures
            r@ == message_of(self@),
    {
        match self {
            FetchError::Transport(reason) => reason.clone(),
            FetchError::Protocol(status) => {
                let mut r = String::from_str("status code ");
                r.append(decimal(*status).as_str());
                r
            },
            FetchError::Parse => String::from_str("the response holds no quote"),
            FetchError::Conversion => String::from_str("the quote is not a number"),
        }
    }
}

/// The text of a quote, or the error, with each text taken by its view.
pub open spec fn quote_view(r: Result<String, FetchError>) -> Result<Seq<char>, FetchErrorView> {
    match r {
        Ok(text) => Ok(text@),
        Err(error) => Err(error@),
    }
}

/// The quote that `doc` holds for `endpoint`, as text still to be read as a
/// number. A coin's quote is the number under the coin's name and then
/// `usd`; a symbol's quote is the string under `Global Quote` and then
/// `05. price`. Anything else in that place, or nothing, is a parse error.
pub open spec fn quote_in(endpoint: EndpointView, doc: Json) -> Result<Seq<char>, FetchErrorView> {
    match endpoint {
        EndpointView::Crypto { coin } => match doc.member_of(coin) {
            Some(entry) => match entry.member_of("usd"@) {
                Some(Json::Number(text)) => Ok(text@),
                _ => Err(FetchErrorView::Parse),
            },
            None => Err(FetchErrorView::Parse),
        },
        EndpointView::Equity { symbol, api_key } => match doc.member_of("Global Quote"@) {
            Some(entry) => match entry.member_of("05. price"@) {
                Some(Json::Text(text)) => Ok(text@),
                _ => Err(FetchErrorView::Parse),
            },
            None => Err(FetchErrorView::Parse),
        },
    }
}

/// The quote that the response body `body` holds for `endpoint`.
pub open spec fn quote_in_body(endpoint: EndpointView, body: Seq<char>) -> Result<
    Seq<char>,
    FetchErrorView,
> {
    match json_parse_of(body) {
        Some(doc) => quote_in(endpoint, doc),
        None => Err(FetchErrorView::Parse),
    }
}

/// The quote that `reply` holds for `endpoint`: that of its body, a
/// protocol error for a status, a transport error where no response came.
pub open spec fn quote_in_reply(endpoint: EndpointView, reply: ReplyView) -> Result<
    Seq<char>,
    FetchErrorView,
> {
    match reply {
        ReplyView::Body(body) => quote_in_body(endpoint, body),
        ReplyView::Status(status) => Err(FetchErrorView::Protocol(status)),
        ReplyView::Failed(reason) => Err(FetchErrorView::Transport(reason)),
    }
}

/// A response holds a quote for `endpoint` exactly when its status is a
/// success, its body is a JSON document, and the document holds the quote.
/// A response with any other status is a protocol error, whatever its body.
pub proof fn lemma_quote_of_a_response(endpoint: EndpointView, status: u16, body: Seq<char>)
    ensures
        quote_in_reply(endpoint, reply_of(status, body)) is Ok <==> {
            &&& 200 <= status < 300
            &&& json_parse_of(body) matches Some(doc)
            &&& quote_in(endpoint, doc) is Ok
        },
        200 <= status < 300 ==> quote_in_reply(endpoint, reply_of(status, body)) == quote_in_body(
            endpoint,
            body,
        ),
        !(200 <= status < 300) ==> quote_in_reply(endpoint, reply_of(status, body)) == Err::<
            Seq<char>,
            FetchErrorView,
        >(FetchErrorView::Protocol(status)),
{
}

impl Endpoint {
    /// Finds the quote in a parsed response.
    pub fn quote_from(&self, doc: &Json) -> (r: Result<String, FetchError>)
        ensures
            quote_view(r) == quote_in(self@, *doc),
    {
        match self {
            Endpoint::Crypto { coin } => match doc.member(coin.as_str()) {
                Some(entry) => match entry.member("usd") {
                    Some(Json::Number(text)) => Ok(text.clone()),
                    _ => Err(FetchError::Parse),
                },
                None => Err(FetchError::Parse),
            },
            Endpoint::Equity { symbol: _, api_key: _ } => match doc.member("Global Quote") {
                Some(entry) => match entry.member("05. price") {
                    Some(Json::Text(text)) => Ok(text.clone()),
                    _ => Err(FetchError::Parse),
                },
                None => Err(FetchError::Parse),
            },
        }
    }

    /// Finds the quote in a response body.
    pub fn read_body(&self, body: &str) -> (r: Result<String, FetchError>)
        ensures
            quote_view(r) == quote_in_body(self@, body@),
    {
        match parse(body) {
            Some(doc) => self.quote_from(&doc),
            None => Err(FetchError::Parse),
        }
    }

    /// Finds the quote in whatever came back for the request.
    pub fn read_reply(&self, reply: Reply) -> (r: Result<String, FetchError>)
        ensures
            quote_view(r) == quote_in_reply(self@, reply@),
    {
        match reply {
            Reply::Body(body) => self.read_body(body.as_str()),
            Reply::Status(status) => Err(FetchError::Protocol(status)),
            Reply::Failed(reason) => Err(FetchError::Transport(reason)),
        }
    }
}

/// One tracked instrument: where its quote comes from, the file that its
/// observations go to, and its last observation. The timestamp and the
/// value of the observation change together or not at all.
#[derive(Debug)]
pub struct AssetSource {
    endpoint: Endpoint,
    sink_path: String,
    timestamp: Timestamp,
    value: Price,
}

/// An [`AssetSource`], with each text as the sequence of its characters.
pub struct SourceView {
    pub endpoint: EndpointView,
    pub sink_path: Seq<char>,
    pub timestamp: Seq<char>,
    pub value: Seq<char>,
}

impl View for AssetSource {
    type V = SourceView;

    closed spec fn view(&self) -> SourceView {
        SourceView {
            endpoint: self.endpoint@,
            sink_path: self.sink_path@,
            timestamp: self.timestamp@,
            value: self.value@,
        }
    }
}

impl AssetSource {
    /// The observation of every source is a timestamp and a price.
    #[verifier::type_invariant]
    pub open spec fn well_formed(&self) -> bool {
        is_stamp_text(self@.timestamp) && is_decimal_text(self@.value)
    }

    /// A source that has not been fetched yet: no timestamp, and the price `0`.
    pub fn new(endpoint: Endpoint, sink_path: String) -> (r: AssetSource)
        ensures
            r@ == (SourceView {
                endpoint: endpoint@,
                sink_path: sink_path@,
                timestamp: Seq::<char>::empty(),
                value: seq!['0'],
            }),
    {
        let timestamp = Timestamp::unset();
        let value = Price::zero();
        proof {
            use_type_invariant(&timestamp);
            use_type_invariant(&value);
        }
        AssetSource { endpoint, sink_path, timestamp, value }
    }

    /// Where the quote comes from.
    pub fn endpoint(&self) -> (r: &Endpoint)
        ensures
            r@ == self@.endpoint,
    {
        &self.endpoint
    }

    /// The path of the file that the observations go to.
    pub fn sink_path(&self) -> (r: &str)
        ensures
            r@ == self@.sink_path,
    {
        self.sink_path.as_str()
    }

    /// When the last successful fetch read the clock; unset before the first.
    pub fn timestamp(&self) -> (r: &Timestamp)
        ensures
            r@ == self@.timestamp,
    {
        &self.timestamp
    }

    /// The price that the last successful fetch gave; `0` before the first.
    pub fn value(&self) -> (r: &Price)
        ensures
            r@ == self@.value,
    {
        &self.value
    }

    /// Whether this source and `other` write to the same file.
    pub fn shares_sink_with(&self, other: &AssetSource) -> (r: bool)
        ensures
            r == (self@.sink_path == other@.sink_path),
    {
        self.sink_path == other.sink_path
    }

    /// Ends a fetch at the time `now`. `converted` is the quote read as a
    /// number. Where it is a price, the fetch has succeeded: the price and
    /// `now` become the observation. Where it is `None`, the quote was no
    /// number: the fetch fails with a conversion error and the observation
    /// stays as it was.
    pub fn record_at(&mut self, converted: Option<Price>, now: Timestamp) -> (r: Result<
        (),
        FetchError,
    >)
        ensures
            converted matches Some(price) ==> r is Ok && final(self)@ == (SourceView {
                timestamp: now@,
                value: price@,
                ..old(self)@
            }),
            converted is None ==> r == Err::<(), FetchError>(FetchError::Conversion)
                && final(self)@ == old(self)@,
        no_unwind
    {
        match converted {
            Some(price) => {
                proof {
                    use_type_invariant(&price);
                    use_type_invariant(&now);
                    use_type_invariant(&*self);
                }
                self.value = price;
                self.timestamp = now;
                Ok(())
            },
            None => Err(FetchError::Conversion),
        }
    }

    /// Ends a fetch as `record_at` does, at the time that the clock shows
    /// when the fetch has succeeded. A failed fetch does not read the clock.
    pub fn record(&mut self, converted: Option<Price>) -> (r: Result<(), FetchError>)
        ensures
            converted matches Some(price) ==> {
                &&& r is Ok
                &&& final(self)@.value == price@
                &&& has_date_time_form(final(self)@.timestamp)
                &&& final(self)@.endpoint == old(self)@.endpoint
                &&& final(self)@.sink_path == old(self)@.sink_path
            },
            converted is None ==> r == Err::<(), FetchError>(FetchError::Conversion)
                && final(self)@ == old(self)@,
    {
        match converted {
            Some(price) => self.record_at(Some(price), Timestamp::now()),
            None => self.record_at(None, Timestamp::unset()),
        }
    }
}

} // verus!
