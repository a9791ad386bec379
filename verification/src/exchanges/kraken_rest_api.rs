//! The Kraken client: one order book per response, prices as strings.

use crate::collect::{
    lemma_read_each_items, lemma_read_each_prefix, lemma_read_each_step, read_each,
};
use crate::exchanges::orderbook_provider::{
    body_of, fetched_body, is_success, result_view, BestPrices, Failure, Fetched,
    OrderBookProvider, Prices, ProviderError,
};
use crate::json::{json_document, parse_document, Json};
use vstd::prelude::*;
use vstd::string::StringExecFns;

verus! {

/// An order book as Kraken sends it. Each level is a price, a volume and a
/// time, the time as the text that writes the number; the first level of
/// each side is the best.
#[derive(Debug, PartialEq, Eq)]
pub struct OrderBook {
    pub asks: Vec<(String, String, String)>,
    pub bids: Vec<(String, String, String)>,
}

/// The two sides of a Kraken order book.
pub struct Book {
    pub asks: Seq<(String, String, String)>,
    pub bids: Seq<(String, String, String)>,
}

impl View for OrderBook {
    type V = Book;

    open spec fn view(&self) -> Book {
        Book { asks: self.asks@, bids: self.bids@ }
    }
}

/// The level that an entry of a side writes: an array of exactly a price
/// string, a volume string and a time that is a number.
pub open spec fn read_level(entry: Json) -> Option<(String, String, String)> {
    match entry {
        Json::Array(fields) => {
            if fields@.len() != 3 {
                None
            } else {
                match (fields@[0], fields@[1], fields@[2]) {
                    (Json::Text(price), Json::Text(volume), Json::Number(time)) => Some(
                        (price, volume, time.text),
                    ),
                    _ => None,
                }
            }
        },
        _ => None,
    }
}

/// The levels that the entries of a side write, if each writes one.
pub open spec fn read_levels(entries: Seq<Json>) -> Option<Seq<(String, String, String)>> {
    read_each(entries, |entry: Json| read_level(entry))
}

/// The side of a book under `key`: an array of levels.
pub open spec fn read_side(book: Json, key: Seq<char>) -> Option<Seq<(String, String, String)>> {
    match book.get(key) {
        Some(Json::Array(entries)) => read_levels(entries@),
        _ => None,
    }
}

/// The book that a JSON value writes: an object with the sides `asks` and
/// `bids`.
pub open spec fn read_book(value: Json) -> Option<Book> {
    match (read_side(value, "asks"@), read_side(value, "bids"@)) {
        (Some(asks), Some(bids)) => Some(Book { asks, bids }),
        _ => None,
    }
}

/// The books that the members of the result mapping write, if each writes
/// one.
pub open spec fn read_books(members: Seq<(String, Json)>) -> Option<Seq<Book>> {
    read_each(members, |member: (String, Json)| read_book(member.1))
}

/// The book in a response: that of the first member of the mapping under
/// `result`, whatever its key, once every member has been read as a book.
/// A response that is not of this shape is a parse error; a mapping without
/// members holds no book.
pub open spec fn read_response(document: Json) -> Result<Book, Failure> {
    match document.get("result"@) {
        Some(Json::Object(members)) => match read_books(members@) {
            Some(books) => if books.len() == 0 {
                Err(Failure::EmptyBook)
            } else {
                Ok(books[0])
            },
            None => Err(Failure::Parse),
        },
        _ => Err(Failure::Parse),
    }
}

/// The book that a request brought.
pub open spec fn fetched_book(fetched: Fetched) -> Result<Book, Failure> {
    match fetched_body(fetched) {
        Err(failure) => Err(failure),
        Ok(body) => match json_document(body) {
            Some(document) => read_response(document),
            None => Err(Failure::Parse),
        },
    }
}

/// The prices at the top of a book: the price of the first level of each
/// side, as it is written. `None` where a side is empty.
pub open spec fn first_prices(book: Book) -> Option<Prices> {
    if book.bids.len() == 0 || book.asks.len() == 0 {
        None
    } else {
        Some(Prices { best_bid: book.bids[0].0@, best_ask: book.asks[0].0@ })
    }
}

/// The prices that the client picks from what its request brought; a book
/// with an empty side is an empty book.
pub open spec fn kraken_prices(fetched: Fetched) -> Result<Prices, Failure> {
    match fetched_book(fetched) {
        Err(failure) => Err(failure),
        Ok(book) => match first_prices(book) {
            Some(prices) => Ok(prices),
            None => Err(Failure::EmptyBook),
        },
    }
}

/// The address that is asked for the book of `pair`.
pub open spec fn kraken_request(pair: Seq<char>, endpoint: Seq<char>) -> Seq<char> {
    endpoint + "?pair="@ + pair
}

/// Reads one level.
pub fn decode_level(entry: &Json) -> (r: Option<(String, String, String)>)
    ensures
        r == read_level(*entry),
{
    match entry {
        Json::Array(fields) => {
            if fields.len() != 3 {
                return None;
            }
            match (&fields[0], &fields[1], &fields[2]) {
                (Json::Text(price), Json::Text(volume), Json::Number(time)) => Some(
                    (price.clone(), volume.clone(), time.text.clone()),
                ),
                _ => None,
            }
        },
        _ => None,
    }
}

/// Reads the levels of one side.
pub fn decode_levels(entries: &Vec<Json>) -> (r: Option<Vec<(String, String, String)>>)
    ensures
        match r {
            Some(levels) => read_levels(entries@) == Some(levels@),
            None => read_levels(entries@).is_none(),
        },
{
    let mut levels: Vec<(String, String, String)> = Vec::new();
    let mut i: usize = 0;
    while i < entries.len()
        invariant
            i <= entries@.len(),
            read_levels(entries@.take(i as int)) == Some(levels@),
        decreases entries@.len() - i,
    {
        proof {
            lemma_read_each_step(entries@, |entry: Json| read_level(entry), i as int);
        }
        match decode_level(&entries[i]) {
            Some(level) => {
                levels.push(level);
            },
            None => {
                proof {
                    lemma_read_each_prefix(entries@, |entry: Json| read_level(entry), i + 1);
                }
                return None;
            },
        }
        i = i + 1;
    }
    assert(entries@.take(i as int) =~= entries@);
    Some(levels)
}

/// Reads the side of a book under `key`.
pub fn decode_side(book: &Json, key: &str) -> (r: Option<Vec<(String, String, String)>>)
    ensures
        match r {
            Some(levels) => read_side(*book, key@) == Some(levels@),
            None => read_side(*book, key@).is_none(),
        },
{
    match book.member(key) {
        Some(Json::Array(entries)) => decode_levels(entries),
        _ => None,
    }
}

/// Reads a book.
pub fn decode_book(value: &Json) -> (r: Option<OrderBook>)
    ensures
        match r {
            Some(book) => read_book(*value) == Some(book@),
            None => read_book(*value).is_none(),
        },
{
    let asks = match decode_side(value, "asks") {
        Some(levels) => levels,
        None => { return None; },
    };
    let bids = match decode_side(value, "bids") {
        Some(levels) => levels,
        None => { return None; },
    };
    Some(OrderBook { asks, bids })
}

/// Reads the book of a response.
pub fn decode_response(document: &Json) -> (r: Result<OrderBook, ProviderError>)
    ensures
        result_view(r) == read_response(*document),
{
    match document.member("result") {
        Some(Json::Object(members)) => {
            let mut first: Option<OrderBook> = None;
            let ghost mut books: Seq<Book> = Seq::empty();
            let mut i: usize = 0;
            while i < members.len()
                invariant
                    i <= members@.len(),
                    books.len() == i,
                    document.get("result"@) == Some(Json::Object(*members)),
                    read_books(members@.take(i as int)) == Some(books),
                    match first {
                        Some(book) => i > 0 && book@ == books[0],
                        None => i == 0,
                    },
                decreases members@.len() - i,
            {
                proof {
                    lemma_read_each_step(
                        members@,
                        |member: (String, Json)| read_book(member.1),
                        i as int,
                    );
                }
                match decode_book(&members[i].1) {
                    Some(book) => {
                        proof {
                            books = books.push(book@);
                        }
                        if first.is_none() {
                            first = Some(book);
                        }
                    },
                    None => {
                        proof {
                            lemma_read_each_prefix(
                                members@,
                                |member: (String, Json)| read_book(member.1),
                                i + 1,
                            );
                        }
                        return Err(ProviderError::Parse);
                    },
                }
                i = i + 1;
            }
            assert(members@.take(i as int) =~= members@);
            match first {
                Some(book) => Ok(book),
                None => Err(ProviderError::EmptyBook),
            }
        },
        _ => Err(ProviderError::Parse),
    }
}

/// The address to ask for the book of `pair`.
pub fn request_url(pair: &str, endpoint: &str) -> (url: String)
    ensures
        url@ == kraken_request(pair@, endpoint@),
{
    let mut url = String::from_str(endpoint);
    url.append("?pair=");
    url.append(pair);
    url
}

/// The order book that a request brought, or the reason why there is none.
pub fn fetch_order_book(fetched: &Fetched) -> (r: Result<OrderBook, ProviderError>)
    ensures
        result_view(r) == fetched_book(*fetched),
{
    let body = match body_of(fetched) {
        Ok(body) => body,
        Err(e) => { return Err(e); },
    };
    match parse_document(body.as_str()) {
        Some(document) => decode_response(&document),
        None => Err(ProviderError::Parse),
    }
}

/// The prices at the top of an order book, as they are written.
pub fn best_prices(order_book: &OrderBook) -> (r: Option<BestPrices>)
    ensures
        match r {
            Some(prices) => first_prices(order_book@) == Some(prices@),
            None => first_prices(order_book@).is_none(),
        },
{
    if order_book.bids.len() == 0 || order_book.asks.len() == 0 {
        return None;
    }
    Some(
        BestPrices {
            best_bid: order_book.bids[0].0.clone(),
            best_ask: order_book.asks[0].0.clone(),
        },
    )
}

/// The Kraken client of one trading pair.
#[derive(Debug, PartialEq, Eq)]
pub struct KrakenProvider {
    pub trading_pair: String,
    pub endpoint: String,
}

impl OrderBookProvider for KrakenProvider {
    open spec fn request(&self) -> Seq<char> {
        kraken_request(self.trading_pair@, self.endpoint@)
    }

    open spec fn picked(&self, fetched: Fetched) -> Result<Prices, Failure> {
        kraken_prices(fetched)
    }

    fn request_url(&self) -> (url: String) {
        request_url(self.trading_pair.as_str(), self.endpoint.as_str())
    }

    fn get_order_book_data(&self, fetched: &Fetched) -> (r: Result<BestPrices, ProviderError>) {
        let order_book = match fetch_order_book(fetched) {
            Ok(book) => book,
            Err(e) => { return Err(e); },
        };
        match best_prices(&order_book) {
            Some(prices) => Ok(prices),
            None => Err(ProviderError::EmptyBook),
        }
    }
}

/// The levels of a side stand in the order of the entries that wrote them:
/// as many levels as entries, each read from the entry in its place. So the
/// best price of a side is that of the entry listed first.
pub proof fn lemma_levels_keep_their_order(entries: Seq<Json>)
    requires
        read_levels(entries).is_some(),
    ensures
        read_levels(entries)->0.len() == entries.len(),
        forall|i: int|
            0 <= i < entries.len() ==> read_level(entries[i]) == Some(
                #[trigger] read_levels(entries)->0[i],
            ),
{
    lemma_read_each_items(entries, |entry: Json| read_level(entry));
}

/// A response whose HTTP status reports no success is a transport error,
/// whatever its body holds.
pub proof fn lemma_http_failure_is_transport_error(status: u16, body: String)
    requires
        !is_success(status),
    ensures
        fetched_book(Fetched::Response { status, body }) matches Err(Failure::Transport(_)),
        kraken_prices(Fetched::Response { status, body }) matches Err(Failure::Transport(_)),
{
}

/// A book with no bid or no ask gives no prices: the client fails with an
/// empty book.
pub proof fn lemma_empty_side_is_empty_book(fetched: Fetched, book: Book)
    requires
        fetched_book(fetched) == Ok::<Book, Failure>(book),
        book.asks.len() == 0 || book.bids.len() == 0,
    ensures
        first_prices(book).is_none(),
        kraken_prices(fetched) == Err::<Prices, Failure>(Failure::EmptyBook),
{
}

/// The client picks prices exactly from a response whose book has a bid and
/// an ask, and then the price of the first level of each side, as it is
/// written.
pub proof fn lemma_first_levels_are_picked(fetched: Fetched)
    ensures
        kraken_prices(fetched).is_ok() <==> (fetched_book(fetched) matches Ok(book)
            && book.bids.len() > 0 && book.asks.len() > 0),
        kraken_prices(fetched) matches Ok(prices) ==> {
            &&& prices.best_bid == fetched_book(fetched)->Ok_0.bids[0].0@
            &&& prices.best_ask == fetched_book(fetched)->Ok_0.asks[0].0@
        },
{
}

} // verus!
