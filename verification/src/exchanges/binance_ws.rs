//! The Binance streaming client: what to do on each event of its
//! connection. The connection itself is run elsewhere.

use crate::exchanges::orderbook_provider::{option_view, BestPrices, Numbers, OrderBookData, Prices};
use crate::json::{json_document, parse_document, Json};
use vstd::prelude::*;
use vstd::string::StringExecFns;

verus! {

/// The text of a URL as the `url` crate writes it once parsed, and `None`
/// where it parses none.
pub uninterp spec fn url_text(text: Seq<char>) -> Option<Seq<char>>;

/// Whether the `http` crate reads a text as a URI.
pub uninterp spec fn is_uri(text: Seq<char>) -> bool;

/// Calls `url::Url::parse` and, on success, `Url::as_str`. Trusted: the
/// result is the serialization of the URL that was parsed, which `url_text`
/// names, and `None` exactly where parsing fails.
#[verifier::external_body]
fn parse_url(text: &str) -> (r: Option<String>)
    ensures
        match r {
            Some(written) => url_text(text@) == Some(written@),
            None => url_text(text@).is_none(),
        },
{
    match url::Url::parse(text) {
        Ok(parsed) => Some(parsed.as_str().to_string()),
        Err(_) => None,
    }
}

/// Calls `str::parse` for an `http::Uri`. Trusted: the result tells whether
/// parsing succeeds, which `is_uri` names.
#[verifier::external_body]
fn parses_as_uri(text: &str) -> (accepted: bool)
    ensures
        accepted == is_uri(text@),
{
    text.parse::<http::Uri>().is_ok()
}

/// The text from which the address of a symbol's depth stream is read.
pub open spec fn stream_text(symbol: Seq<char>) -> Seq<char> {
    "wss://stream.binance.com:9443/ws/"@ + symbol + "@depth"@
}

/// The address of a symbol's depth stream: its text as the `url` crate
/// writes it, provided that it is a URL and that the `http` crate reads
/// what was written as a URI.
pub open spec fn stream_address(symbol: Seq<char>) -> Option<Seq<char>> {
    match url_text(stream_text(symbol)) {
        Some(written) => if is_uri(written) {
            Some(written)
        } else {
            None
        },
        None => None,
    }
}

/// The address of a symbol's depth stream.
pub fn stream_endpoint(symbol: &str) -> (r: Option<String>)
    ensures
        match r {
            Some(address) => stream_address(symbol@) == Some(address@),
            None => stream_address(symbol@).is_none(),
        },
{
    let mut text = String::from_str("wss://stream.binance.com:9443/ws/");
    text.append(symbol);
    text.append("@depth");
    match parse_url(text.as_str()) {
        Some(written) => if parses_as_uri(written.as_str()) {
            Some(written)
        } else {
            None
        },
        None => None,
    }
}

/// The price of the first level of the side under `key`: the side is an
/// array, its first entry an array, and the first field of that a string.
pub open spec fn first_price(update: Json, key: Seq<char>) -> Option<Seq<char>> {
    match update.get(key) {
        Some(Json::Array(levels)) => if levels@.len() == 0 {
            None
        } else {
            match levels@[0] {
                Json::Array(fields) => if fields@.len() == 0 {
                    None
                } else {
                    match fields@[0] {
                        Json::Text(price) => Some(price@),
                        _ => None,
                    }
                },
                _ => None,
            }
        },
        _ => None,
    }
}

/// The prices at the top of a depth update: that of the first ask under
/// `a` and of the first bid under `b`, as they are written. `None` where
/// either is missing.
pub open spec fn read_update(update: Json) -> Option<Prices> {
    match (first_price(update, "a"@), first_price(update, "b"@)) {
        (Some(ask), Some(bid)) => Some(Prices { best_bid: bid, best_ask: ask }),
        _ => None,
    }
}

/// The prices that a text frame writes, if it writes any.
pub open spec fn read_frame(text: Seq<char>) -> Option<Prices> {
    match json_document(text) {
        Some(update) => read_update(update),
        None => None,
    }
}

/// The price of the first level of the side under `key`.
pub fn decode_first_price<'a>(update: &'a Json, key: &str) -> (r: Option<&'a String>)
    ensures
        match r {
            Some(price) => first_price(*update, key@) == Some(price@),
            None => first_price(*update, key@).is_none(),
        },
{
    match update.member(key) {
        Some(Json::Array(levels)) => {
            if levels.len() == 0 {
                return None;
            }
            match &levels[0] {
                Json::Array(fields) => {
                    if fields.len() == 0 {
                        return None;
                    }
                    match &fields[0] {
                        Json::Text(price) => Some(price),
                        _ => None,
                    }
                },
                _ => None,
            }
        },
        _ => None,
    }
}

/// The prices at the top of a depth update.
pub fn decode_update(update: &Json) -> (r: Option<BestPrices>)
    ensures
        option_view(r) == read_update(*update),
{
    let ask = match decode_first_price(update, "a") {
        Some(price) => price,
        None => { return None; },
    };
    let bid = match decode_first_price(update, "b") {
        Some(price) => price,
        None => { return None; },
    };
    Some(BestPrices { best_bid: bid.clone(), best_ask: ask.clone() })
}

/// The line that reports a top of the book.
pub open spec fn report_text(data: Numbers) -> Seq<char> {
    "Highest Bid: "@ + data.best_bid + ", Lowest Ask: "@ + data.best_ask + ", Mid Price: "@
        + data.mid_price
}

/// What is reported of the prices of an update, given the numbers that
/// were computed from them: the line that names the three, or nothing where
/// the prices could not be read as numbers. No number stands in for a price
/// that could not be read.
pub open spec fn report_of(numbers: Option<Numbers>) -> Option<Seq<char>> {
    match numbers {
        Some(data) => Some(report_text(data)),
        None => None,
    }
}

/// The line to publish for the prices of an update, given the numbers that
/// were computed from them, or `None` where they could not be read as
/// numbers.
pub fn report_line(numbers: &Option<OrderBookData>) -> (line: Option<String>)
    ensures
        option_view(line) == report_of(option_view(*numbers)),
{
    match numbers {
        Some(data) => {
            let mut line = String::from_str("Highest Bid: ");
            line.append(data.best_bid.as_str());
            line.append(", Lowest Ask: ");
            line.append(data.best_ask.as_str());
            line.append(", Mid Price: ");
            line.append(data.mid_price.as_str());
            Some(line)
        },
        None => None,
    }
}

/// Whether the client has a connection.
#[derive(Clone, Copy, Debug, PartialEq, Eq, Structural)]
pub enum Connection {
    Disconnected,
    Connected,
}

/// What happened on the connection.
#[derive(Debug, PartialEq, Eq)]
pub enum Event {
    /// The connection was made.
    Opened,
    /// A text frame came.
    Text(String),
    /// A ping frame came, with this payload.
    Ping(Vec<u8>),
    /// A close frame came.
    Close,
    /// The transport reported an error; the text says which.
    Failed(String),
    /// A frame of another kind came.
    Other,
}

/// What the one who runs the connection is to do next.
#[derive(Debug, PartialEq, Eq)]
pub enum Action {
    /// Nothing: wait for the next event.
    Idle,
    /// Compute and publish the top of the book from these prices, then wait
    /// for the next event.
    Report(BestPrices),
    /// Send one pong frame with this payload, then wait for the next event.
    Pong(Vec<u8>),
    /// Stop: the task is over.
    Stop,
}

/// An action, its payload as a sequence.
pub enum Reaction {
    Idle,
    Report(Prices),
    Pong(Seq<u8>),
    Stop,
}

impl View for Action {
    type V = Reaction;

    open spec fn view(&self) -> Reaction {
        match self {
            Action::Idle => Reaction::Idle,
            Action::Report(prices) => Reaction::Report(prices@),
            Action::Pong(payload) => Reaction::Pong(payload@),
            Action::Stop => Reaction::Stop,
        }
    }
}

/// The state after an event. The connection is made when it opens and lost
/// on a close frame and on an error; nothing else changes it, and nothing
/// brings a lost connection back but opening it.
pub open spec fn next_state(state: Connection, event: Event) -> Connection {
    match (state, event) {
        (_, Event::Opened) => Connection::Connected,
        (Connection::Disconnected, _) => Connection::Disconnected,
        (Connection::Connected, Event::Close) => Connection::Disconnected,
        (Connection::Connected, Event::Failed(_)) => Connection::Disconnected,
        (Connection::Connected, _) => Connection::Connected,
    }
}

/// What an event calls for. While connected: the prices that a text frame
/// writes are to be reported, any other text is passed over; a ping is
/// answered by one pong with the same payload; a close frame or an error
/// ends the task. Without a connection, anything but its opening ends the
/// task.
pub open spec fn reaction(state: Connection, event: Event) -> Reaction {
    match (state, event) {
        (_, Event::Opened) => Reaction::Idle,
        (Connection::Disconnected, _) => Reaction::Stop,
        (Connection::Connected, Event::Text(text)) => match read_frame(text@) {
            Some(prices) => Reaction::Report(prices),
            None => Reaction::Idle,
        },
        (Connection::Connected, Event::Ping(payload)) => Reaction::Pong(payload@),
        (Connection::Connected, Event::Close) => Reaction::Stop,
        (Connection::Connected, Event::Failed(_)) => Reaction::Stop,
        (Connection::Connected, Event::Other) => Reaction::Idle,
    }
}

/// The Binance streaming client.
#[derive(Debug, PartialEq, Eq)]
pub struct BinanceWebSocket {
    pub state: Connection,
}

impl BinanceWebSocket {
    /// A client that has no connection yet.
    pub fn start() -> (client: BinanceWebSocket)
        ensures
            client.state == Connection::Disconnected,
    {
        BinanceWebSocket { state: Connection::Disconnected }
    }

    /// The address that the client connects to: the depth stream of
    /// `btcusdt`.
    pub fn endpoint() -> (r: Option<String>)
        ensures
            match r {
                Some(address) => stream_address("btcusdt"@) == Some(address@),
                None => stream_address("btcusdt"@).is_none(),
            },
    {
        stream_endpoint("btcusdt")
    }

    /// Takes one event: moves to the next state and says what to do.
    pub fn handle(&mut self, event: Event) -> (action: Action)
        ensures
            final(self).state == next_state(old(self).state, event),
            action@ == reaction(old(self).state, event),
    {
        match event {
            Event::Opened => {
                self.state = Connection::Connected;
                Action::Idle
            },
            Event::Text(text) => match self.state {
                Connection::Disconnected => Action::Stop,
                Connection::Connected => match parse_document(text.as_str()) {
                    Some(update) => match decode_update(&update) {
                        Some(prices) => Action::Report(prices),
                        None => Action::Idle,
                    },
                    None => Action::Idle,
                },
            },
            Event::Ping(payload) => match self.state {
                Connection::Disconnected => Action::Stop,
                Connection::Connected => Action::Pong(payload),
            },
            Event::Close => {
                self.state = Connection::Disconnected;
                Action::Stop
            },
            Event::Failed(_) => {
                self.state = Connection::Disconnected;
                Action::Stop
            },
            Event::Other => match self.state {
                Connection::Disconnected => Action::Stop,
                Connection::Connected => Action::Idle,
            },
        }
    }
}

/// A ping that comes while the client is connected is answered by exactly
/// one pong, with the ping's payload, and leaves the client connected.
pub proof fn lemma_ping_is_answered_once(payload: Vec<u8>)
    ensures
        reaction(Connection::Connected, Event::Ping(payload)) == Reaction::Pong(payload@),
        next_state(Connection::Connected, Event::Ping(payload)) == Connection::Connected,
{
}

/// Once the connection is lost, no frame brings it back: every event but
/// the opening of a connection ends the task and leaves the client
/// disconnected.
pub proof fn lemma_no_reconnect(event: Event)
    requires
        !(event is Opened),
    ensures
        reaction(Connection::Disconnected, event) == Reaction::Stop,
        next_state(Connection::Disconnected, event) == Connection::Disconnected,
{
}

} // verus!
