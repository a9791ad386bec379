//! What every exchange client provides: the prices at the top of one
//! trading pair's order book, or the reason why there are none.
//!
//! The library does no arithmetic on prices. It picks the prices out as the
//! venue wrote them; their values and their mean are computed by the caller
//! and handed back as text.

use vstd::prelude::*;
use vstd::string::StringExecFns;

verus! {

/// The price of the first bid and of the first ask of a book, each as the
/// venue wrote it.
#[derive(Debug, PartialEq, Eq)]
pub struct BestPrices {
    pub best_bid: String,
    pub best_ask: String,
}

/// What `BestPrices` holds.
pub struct Prices {
    pub best_bid: Seq<char>,
    pub best_ask: Seq<char>,
}

impl View for BestPrices {
    type V = Prices;

    open spec fn view(&self) -> Prices {
        Prices { best_bid: self.best_bid@, best_ask: self.best_ask@ }
    }
}

/// The top of an order book: the best bid, the best ask and the mid-price,
/// each as the text that writes the number.
#[derive(Debug, PartialEq, Eq)]
pub struct OrderBookData {
    pub best_bid: String,
    pub best_ask: String,
    pub mid_price: String,
}

/// What `OrderBookData` holds.
pub struct Numbers {
    pub best_bid: Seq<char>,
    pub best_ask: Seq<char>,
    pub mid_price: Seq<char>,
}

impl View for OrderBookData {
    type V = Numbers;

    open spec fn view(&self) -> Numbers {
        Numbers { best_bid: self.best_bid@, best_ask: self.best_ask@, mid_price: self.mid_price@ }
    }
}

/// Why a client has no top of the book to give.
#[derive(Debug, PartialEq, Eq)]
pub enum ProviderError {
    /// The request brought no successful response; the text says why.
    Transport(String),
    /// The body is no JSON of the venue's shape, or a price is no number.
    Parse,
    /// The venue reports a status other than success.
    ApiStatus,
    /// The book has no bid or no ask.
    EmptyBook,
}

/// What a `ProviderError` holds.
pub enum Failure {
    Transport(Seq<char>),
    Parse,
    ApiStatus,
    EmptyBook,
}

impl View for ProviderError {
    type V = Failure;

    open spec fn view(&self) -> Failure {
        match self {
            ProviderError::Transport(why) => Failure::Transport(why@),
            ProviderError::Parse => Failure::Parse,
            ProviderError::ApiStatus => Failure::ApiStatus,
            ProviderError::EmptyBook => Failure::EmptyBook,
        }
    }
}

/// A result, both arms by their views.
pub open spec fn result_view<T: View, E: View>(r: Result<T, E>) -> Result<T::V, E::V> {
    match r {
        Ok(value) => Ok(value@),
        Err(error) => Err(error@),
    }
}

/// What an error says of itself: a transport error what the transport
/// said, each other error a fixed sentence.
pub open spec fn description_text(failure: Failure) -> Seq<char> {
    match failure {
        Failure::Transport(why) => why,
        Failure::Parse => "malformed response"@,
        Failure::ApiStatus => "API returned non-ok status"@,
        Failure::EmptyBook => "no order book data found"@,
    }
}

impl ProviderError {
    /// What the error says of itself.
    pub fn description(&self) -> (text: String)
        ensures
            text@ == description_text(self@),
    {
        match self {
            ProviderError::Transport(why) => why.clone(),
            ProviderError::Parse => String::from_str("malformed response"),
            ProviderError::ApiStatus => String::from_str("API returned non-ok status"),
            ProviderError::EmptyBook => String::from_str("no order book data found"),
        }
    }
}

/// How a request to a venue ended.
#[derive(Debug, PartialEq, Eq)]
pub enum Fetched {
    /// A response came, with this HTTP status and this body.
    Response { status: u16, body: String },
    /// No response came; the text says why.
    Failed(String),
}

/// Whether an HTTP status reports success.
pub open spec fn is_success(status: u16) -> bool {
    200 <= status <= 299
}

/// The body that a request brought: that of a response whose status
/// reports success. A request that failed, and a response with any other
/// status, is a transport error whatever its body holds.
pub open spec fn fetched_body(fetched: Fetched) -> Result<Seq<char>, Failure> {
    match fetched {
        Fetched::Failed(why) => Err(Failure::Transport(why@)),
        Fetched::Response { status, body } => if is_success(status) {
            Ok(body@)
        } else {
            Err(Failure::Transport("HTTP status reports a failure"@))
        },
    }
}

/// The body that a request brought, or the transport error.
pub fn body_of(fetched: &Fetched) -> (r: Result<&String, ProviderError>)
    ensures
        match r {
            Ok(body) => fetched_body(*fetched) == Ok::<Seq<char>, Failure>(body@),
            Err(e) => fetched_body(*fetched) == Err::<Seq<char>, Failure>(e@),
        },
{
    match fetched {
        Fetched::Failed(why) => Err(ProviderError::Transport(why.clone())),
        Fetched::Response { status, body } => if 200 <= *status && *status <= 299 {
            Ok(body)
        } else {
            Err(ProviderError::Transport(String::from_str("HTTP status reports a failure")))
        },
    }
}

/// The top of the book, given the prices that a client picked and the
/// numbers that were computed from them: a client's error stands; where the
/// prices were picked but could not be read as numbers, that is a parse
/// error, and no number stands in for them.
pub open spec fn snapshot(prices: Result<Prices, Failure>, numbers: Option<Numbers>) -> Result<
    Numbers,
    Failure,
> {
    match prices {
        Err(failure) => Err(failure),
        Ok(_) => match numbers {
            Some(computed) => Ok(computed),
            None => Err(Failure::Parse),
        },
    }
}

/// The top of the book, given the prices that a client picked and the
/// numbers that were computed from them, or `None` where they could not be
/// read as numbers.
pub fn order_book_data(
    prices: Result<BestPrices, ProviderError>,
    numbers: Option<OrderBookData>,
) -> (r: Result<OrderBookData, ProviderError>)
    ensures
        result_view(r) == snapshot(result_view(prices), option_view(numbers)),
{
    match prices {
        Err(error) => Err(error),
        Ok(_) => match numbers {
            Some(computed) => Ok(computed),
            None => Err(ProviderError::Parse),
        },
    }
}

/// An optional value by its view.
pub open spec fn option_view<T: View>(o: Option<T>) -> Option<T::V> {
    match o {
        Some(value) => Some(value@),
        None => None,
    }
}

/// Prices that cannot be read as numbers are a parse error, whatever the
/// prices are: nothing is returned in their place.
pub proof fn lemma_unreadable_price_is_parse_error(prices: Prices)
    ensures
        snapshot(Ok(prices), None) == Err::<Numbers, Failure>(Failure::Parse),
{
}

/// A client's error is the outcome, whatever numbers are handed in.
pub proof fn lemma_failure_stands(failure: Failure, numbers: Option<Numbers>)
    ensures
        snapshot(Err(failure), numbers) == Err::<Numbers, Failure>(failure),
{
}

/// A client of one exchange, bound to one trading pair.
pub trait OrderBookProvider {
    /// The address that the client asks.
    spec fn request(&self) -> Seq<char>;

    /// The prices that the client picks from what its request brought.
    spec fn picked(&self, fetched: Fetched) -> Result<Prices, Failure>;

    /// The address to ask for the order book.
    fn request_url(&self) -> (url: String)
        ensures
            url@ == self.request(),
    ;

    /// The prices at the top of the book in a response, as the venue wrote
    /// them, or the reason why there are none.
    fn get_order_book_data(&self, fetched: &Fetched) -> (r: Result<BestPrices, ProviderError>)
        ensures
            result_view(r) == self.picked(*fetched),
    ;
}

} // verus!
