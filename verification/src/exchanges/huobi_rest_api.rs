//! The Huobi client: a status, then a tick with prices as numbers.

use crate::collect::{
    lemma_read_each_items, lemma_read_each_prefix, lemma_read_each_step, read_each,
};
use crate::exchanges::orderbook_provider::{
    body_of, fetched_body, is_success, result_view, BestPrices, Failure, Fetched,
    OrderBookProvider, Prices, ProviderError,
};
use crate::json::{json_document, parse_document, Json};
use vstd::prelude::*;
use vstd::string::StringExecFns;

verus! {

/// The order book in a response: each level is a price and a volume, each
/// as the text that writes the number; the first level of each side is the
/// best.
#[derive(Debug, PartialEq, Eq)]
pub struct HuobiTick {
    pub bids: Vec<(String, String)>,
    pub asks: Vec<(String, String)>,
    pub ts: u64,
    pub version: u64,
}

/// A response of Huobi.
#[derive(Debug, PartialEq, Eq)]
pub struct HuobiResponse {
    pub status: String,
    pub ch: String,
    pub ts: u64,
    pub tick: HuobiTick,
}

/// What a tick holds.
pub struct Tick {
    pub bids: Seq<(String, String)>,
    pub asks: Seq<(String, String)>,
    pub ts: u64,
    pub version: u64,
}

/// What a response holds.
pub struct Response {
    pub status: Seq<char>,
    pub ch: Seq<char>,
    pub ts: u64,
    pub tick: Tick,
}

impl View for HuobiTick {
    type V = Tick;

    open spec fn view(&self) -> Tick {
        Tick { bids: self.bids@, asks: self.asks@, ts: self.ts, version: self.version }
    }
}

impl View for HuobiResponse {
    type V = Response;

    open spec fn view(&self) -> Response {
        Response { status: self.status@, ch: self.ch@, ts: self.ts, tick: self.tick@ }
    }
}

/// The level that an entry of a side writes: an array of exactly a price
/// and a volume, both numbers.
pub open spec fn read_pair(entry: Json) -> Option<(String, String)> {
    match entry {
        Json::Array(fields) => {
            if fields@.len() != 2 {
                None
            } else {
                match (fields@[0], fields@[1]) {
                    (Json::Number(price), Json::Number(volume)) => Some(
                        (price.text, volume.text),
                    ),
                    _ => None,
                }
            }
        },
        _ => None,
    }
}

/// The levels that the entries of a side write, if each writes one.
pub open spec fn read_pairs(entries: Seq<Json>) -> Option<Seq<(String, String)>> {
    read_each(entries, |entry: Json| read_pair(entry))
}

/// The side of a tick under `key`: an array of levels.
pub open spec fn read_side(tick: Json, key: Seq<char>) -> Option<Seq<(String, String)>> {
    match tick.get(key) {
        Some(Json::Array(entries)) => read_pairs(entries@),
        _ => None,
    }
}

/// The count under `key`: a whole number that a `u64` holds.
pub open spec fn read_count_under(value: Json, key: Seq<char>) -> Option<u64> {
    match value.get(key) {
        Some(Json::Number(number)) => number.count,
        _ => None,
    }
}

/// The string under `key`.
pub open spec fn read_text_under(value: Json, key: Seq<char>) -> Option<Seq<char>> {
    match value.get(key) {
        Some(Json::Text(text)) => Some(text@),
        _ => None,
    }
}

/// The tick that a JSON value writes: an object with the sides `bids` and
/// `asks` and the counts `ts` and `version`.
pub open spec fn read_tick(value: Json) -> Option<Tick> {
    match (
        read_side(value, "bids"@),
        read_side(value, "asks"@),
        read_count_under(value, "ts"@),
        read_count_under(value, "version"@),
    ) {
        (Some(bids), Some(asks), Some(ts), Some(version)) => Some(Tick { bids, asks, ts, version }),
        _ => None,
    }
}

/// What follows the status in a response: the channel, the time and the
/// tick.
pub open spec fn read_rest(document: Json) -> Option<Response> {
    match (read_text_under(document, "ch"@), read_count_under(document, "ts"@), document.get("tick"@)) {
        (Some(ch), Some(ts), Some(value)) => match read_tick(value) {
            Some(tick) => Some(Response { status: "ok"@, ch, ts, tick }),
            None => None,
        },
        _ => None,
    }
}

/// The response that a document writes. The status is read first: without
/// a status string the document is a parse error; with a status other than
/// `ok` the venue has refused, whatever else the document holds; only then
/// is the rest read.
pub open spec fn read_response(document: Json) -> Result<Response, Failure> {
    match read_text_under(document, "status"@) {
        None => Err(Failure::Parse),
        Some(status) => if status != "ok"@ {
            Err(Failure::ApiStatus)
        } else {
            match read_rest(document) {
                Some(response) => Ok(response),
                None => Err(Failure::Parse),
            }
        },
    }
}

/// The response that a request brought.
pub open spec fn fetched_response(fetched: Fetched) -> Result<Response, Failure> {
    match fetched_body(fetched) {
        Err(failure) => Err(failure),
        Ok(body) => match json_document(body) {
            Some(document) => read_response(document),
            None => Err(Failure::Parse),
        },
    }
}

/// The prices at the top of a tick: the price of the first level of each
/// side, as it is written. `None` exactly where a side is empty.
pub open spec fn first_prices(tick: Tick) -> Option<Prices> {
    if tick.bids.len() == 0 || tick.asks.len() == 0 {
        None
    } else {
        Some(Prices { best_bid: tick.bids[0].0@, best_ask: tick.asks[0].0@ })
    }
}

/// The prices that the client picks from what its request brought; a tick
/// with an empty side is an empty book.
pub open spec fn huobi_prices(fetched: Fetched) -> Result<Prices, Failure> {
    match fetched_response(fetched) {
        Err(failure) => Err(failure),
        Ok(response) => match first_prices(response.tick) {
            Some(prices) => Ok(prices),
            None => Err(Failure::EmptyBook),
        },
    }
}

/// The lower-case form of a text, as `str::to_lowercase` gives it.
pub uninterp spec fn lowercase(text: Seq<char>) -> Seq<char>;

/// Calls `str::to_lowercase`. Trusted: the result is the lower-case
/// equivalent of the text, which `lowercase` names.
#[verifier::external_body]
fn to_lowercase(text: &str) -> (r: String)
    ensures
        r@ == lowercase(text@),
{
    text.to_lowercase()
}

/// The address that is asked for the book of `pair`: the symbol is the pair
/// in lower case, the depth is asked for unmerged.
pub open spec fn huobi_request(pair: Seq<char>, endpoint: Seq<char>) -> Seq<char> {
    endpoint + "?symbol="@ + lowercase(pair) + "&type=step0"@
}

/// The address to ask for the book of `trading_pair`.
pub fn request_url(trading_pair: &str, endpoint: &str) -> (url: String)
    ensures
        url@ == huobi_request(trading_pair@, endpoint@),
{
    let symbol = to_lowercase(trading_pair);
    let mut url = String::from_str(endpoint);
    url.append("?symbol=");
    url.append(symbol.as_str());
    url.append("&type=step0");
    url
}

/// Reads one level.
pub fn decode_pair(entry: &Json) -> (r: Option<(String, String)>)
    ensures
        r == read_pair(*entry),
{
    match entry {
        Json::Array(fields) => {
            if fields.len() != 2 {
                return None;
            }
            match (&fields[0], &fields[1]) {
                (Json::Number(price), Json::Number(volume)) => Some(
                    (price.text.clone(), volume.text.clone()),
                ),
                _ => None,
            }
        },
        _ => None,
    }
}

/// Reads the levels of one side.
pub fn decode_pairs(entries: &Vec<Json>) -> (r: Option<Vec<(String, String)>>)
    ensures
        match r {
            Some(levels) => read_pairs(entries@) == Some(levels@),
            None => read_pairs(entries@).is_none(),
        },
{
    let mut levels: Vec<(String, String)> = Vec::new();
    let mut i: usize = 0;
    while i < entries.len()
        invariant
            i <= entries@.len(),
            read_pairs(entries@.take(i as int)) == Some(levels@),
        decreases entries@.len() - i,
    {
        proof {
            lemma_read_each_step(entries@, |entry: Json| read_pair(entry), i as int);
        }
        match decode_pair(&entries[i]) {
            Some(level) => {
                levels.push(level);
            },
            None => {
                proof {
                    lemma_read_each_prefix(entries@, |entry: Json| read_pair(entry), i + 1);
                }
                return None;
            },
        }
        i = i + 1;
    }
    assert(entries@.take(i as int) =~= entries@);
    Some(levels)
}

/// Reads the side of a tick under `key`.
pub fn decode_side(tick: &Json, key: &str) -> (r: Option<Vec<(String, String)>>)
    ensures
        match r {
            Some(levels) => read_side(*tick, key@) == Some(levels@),
            None => read_side(*tick, key@).is_none(),
        },
{
    match tick.member(key) {
        Some(Json::Array(entries)) => decode_pairs(entries),
        _ => None,
    }
}

/// Reads the count under `key`.
pub fn decode_count(value: &Json, key: &str) -> (r: Option<u64>)
    ensures
        r == read_count_under(*value, key@),
{
    match value.member(key) {
        Some(Json::Number(number)) => number.count,
        _ => None,
    }
}

/// Reads the string under `key`.
pub fn decode_text(value: &Json, key: &str) -> (r: Option<String>)
    ensures
        match r {
            Some(text) => read_text_under(*value, key@) == Some(text@),
            None => read_text_under(*value, key@).is_none(),
        },
{
    match value.member(key) {
        Some(Json::Text(text)) => Some(text.clone()),
        _ => None,
    }
}

/// Reads a tick.
pub fn decode_tick(value: &Json) -> (r: Option<HuobiTick>)
    ensures
        match r {
            Some(tick) => read_tick(*value) == Some(tick@),
            None => read_tick(*value).is_none(),
        },
{
    let bids = match decode_side(value, "bids") {
        Some(levels) => levels,
        None => { return None; },
    };
    let asks = match decode_side(value, "asks") {
        Some(levels) => levels,
        None => { return None; },
    };
    let ts: u64 = match decode_count(value, "ts") {
        Some(count) => count,
        None => { return None; },
    };
    let version: u64 = match decode_count(value, "version") {
        Some(count) => count,
        None => { return None; },
    };
    Some(HuobiTick { bids, asks, ts, version })
}

/// Reads a response, the status first.
pub fn decode_response(document: &Json) -> (r: Result<HuobiResponse, ProviderError>)
    ensures
        result_view(r) == read_response(*document),
{
    let status = match decode_text(document, "status") {
        Some(text) => text,
        None => { return Err(ProviderError::Parse); },
    };
    if status != String::from_str("ok") {
        return Err(ProviderError::ApiStatus);
    }
    let ch = match decode_text(document, "ch") {
        Some(text) => text,
        None => { return Err(ProviderError::Parse); },
    };
    let ts: u64 = match decode_count(document, "ts") {
        Some(count) => count,
        None => { return Err(ProviderError::Parse); },
    };
    let tick = match document.member("tick") {
        Some(value) => match decode_tick(value) {
            Some(tick) => tick,
            None => { return Err(ProviderError::Parse); },
        },
        None => { return Err(ProviderError::Parse); },
    };
    Ok(HuobiResponse { status, ch, ts, tick })
}

/// The response that a request brought, or the reason why there is none.
pub fn fetch_order_book(fetched: &Fetched) -> (r: Result<HuobiResponse, ProviderError>)
    ensures
        result_view(r) == fetched_response(*fetched),
{
    let body = match body_of(fetched) {
        Ok(body) => body,
        Err(e) => { return Err(e); },
    };
    match parse_document(body.as_str()) {
        Some(document) => decode_response(&document),
        None => Err(ProviderError::Parse),
    }
}

/// The prices at the top of a response's tick, as they are written.
pub fn best_prices(response: &HuobiResponse) -> (r: Option<BestPrices>)
    ensures
        match r {
            Some(prices) => first_prices(response@.tick) == Some(prices@),
            None => first_prices(response@.tick).is_none(),
        },
{
    if response.tick.bids.len() == 0 || response.tick.asks.len() == 0 {
        return None;
    }
    Some(
        BestPrices {
            best_bid: response.tick.bids[0].0.clone(),
            best_ask: response.tick.asks[0].0.clone(),
        },
    )
}

/// The Huobi client of one trading pair.
#[derive(Debug, PartialEq, Eq)]
pub struct HuobiProvider {
    pub trading_pair: String,
    pub endpoint: String,
}

impl OrderBookProvider for HuobiProvider {
    open spec fn request(&self) -> Seq<char> {
        huobi_request(self.trading_pair@, self.endpoint@)
    }

    open spec fn picked(&self, fetched: Fetched) -> Result<Prices, Failure> {
        huobi_prices(fetched)
    }

    fn request_url(&self) -> (url: String) {
        request_url(self.trading_pair.as_str(), self.endpoint.as_str())
    }

    fn get_order_book_data(&self, fetched: &Fetched) -> (r: Result<BestPrices, ProviderError>) {
        let response = match fetch_order_book(fetched) {
            Ok(response) => response,
            Err(e) => { return Err(e); },
        };
        match best_prices(&response) {
            Some(prices) => Ok(prices),
            None => Err(ProviderError::EmptyBook),
        }
    }
}

/// The levels of a side stand in the order of the entries that wrote them:
/// as many levels as entries, each read from the entry in its place. So the
/// best price of a side is that of the entry listed first.
pub proof fn lemma_levels_keep_their_order(entries: Seq<Json>)
    requires
        read_pairs(entries).is_some(),
    ensures
        read_pairs(entries)->0.len() == entries.len(),
        forall|i: int|
            0 <= i < entries.len() ==> read_pair(entries[i]) == Some(
                #[trigger] read_pairs(entries)->0[i],
            ),
{
    lemma_read_each_items(entries, |entry: Json| read_pair(entry));
}

/// A response whose HTTP status reports no success is a transport error,
/// whatever its body holds.
pub proof fn lemma_http_failure_is_transport_error(status: u16, body: String)
    requires
        !is_success(status),
    ensures
        fetched_response(Fetched::Response { status, body }) matches Err(Failure::Transport(_)),
        huobi_prices(Fetched::Response { status, body }) matches Err(Failure::Transport(_)),
{
}

/// A status other than `ok` decides: the client fails with the venue's
/// refusal whatever the rest of the document holds, a tick or none.
pub proof fn lemma_status_is_read_first(status: u16, body: String, document: Json)
    requires
        is_success(status),
        json_document(body@) == Some(document),
        read_text_under(document, "status"@) matches Some(said) && said != "ok"@,
    ensures
        read_response(document) == Err::<Response, Failure>(Failure::ApiStatus),
        huobi_prices(Fetched::Response { status, body }) == Err::<Prices, Failure>(
            Failure::ApiStatus,
        ),
{
}

/// A tick with no bid or no ask gives no prices: the client fails with an
/// empty book.
pub proof fn lemma_empty_side_is_empty_book(fetched: Fetched, response: Response)
    requires
        fetched_response(fetched) == Ok::<Response, Failure>(response),
        response.tick.asks.len() == 0 || response.tick.bids.len() == 0,
    ensures
        first_prices(response.tick).is_none(),
        huobi_prices(fetched) == Err::<Prices, Failure>(Failure::EmptyBook),
{
}

/// The client picks prices exactly from a response with the status `ok`
/// whose tick has a bid and an ask, and then the price of the first level
/// of each side, as it is written. An empty side is the only reason for
/// which a response that was read gives no prices.
pub proof fn lemma_first_levels_are_picked(fetched: Fetched)
    ensures
        huobi_prices(fetched).is_ok() <==> (fetched_response(fetched) matches Ok(response)
            && response.tick.bids.len() > 0 && response.tick.asks.len() > 0),
        huobi_prices(fetched) matches Ok(prices) ==> {
            &&& prices.best_bid == fetched_response(fetched)->Ok_0.tick.bids[0].0@
            &&& prices.best_ask == fetched_response(fetched)->Ok_0.tick.asks[0].0@
        },
        fetched_response(fetched) matches Ok(response) ==> response.status == "ok"@,
{
}

} // verus!
