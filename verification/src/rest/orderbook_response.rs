//! The reply to a request for a mid-price.

use crate::exchanges::orderbook_provider::{
    description_text, option_view, order_book_data, result_view, snapshot, BestPrices, Failure,
    Numbers, OrderBookData, Prices, ProviderError,
};
use vstd::prelude::*;
use vstd::string::StringExecFns;

verus! {

/// A reply of the facade: the status code, whether the body is JSON or
/// plain text, and the body.
#[derive(Debug, PartialEq, Eq)]
pub struct HttpReply {
    pub status: u16,
    pub json: bool,
    pub body: String,
}

/// What a reply holds.
pub struct Reply {
    pub status: u16,
    pub json: bool,
    pub body: Seq<char>,
}

impl View for HttpReply {
    type V = Reply;

    open spec fn view(&self) -> Reply {
        Reply { status: self.status, json: self.json, body: self.body@ }
    }
}

/// The JSON object that writes a top of the book: the three numbers under
/// their keys, each as it was handed in.
pub open spec fn snapshot_body(data: Numbers) -> Seq<char> {
    "{\"best_bid\":"@ + data.best_bid + ",\"best_ask\":"@ + data.best_ask + ",\"mid_price\":"@
        + data.mid_price + "}"@
}

/// The plain text that reports an error.
pub open spec fn failure_body(failure: Failure) -> Seq<char> {
    "Error: "@ + description_text(failure)
}

/// The reply to a request, given what the client came back with: 200 and
/// the top of the book as JSON, or 500 and the error's description as plain
/// text.
pub open spec fn reply_to(outcome: Result<Numbers, Failure>) -> Reply {
    match outcome {
        Ok(data) => Reply { status: 200, json: true, body: snapshot_body(data) },
        Err(failure) => Reply { status: 500, json: false, body: failure_body(failure) },
    }
}

/// The reply to a request, given what the client came back with.
pub fn respond(outcome: &Result<OrderBookData, ProviderError>) -> (reply: HttpReply)
    ensures
        reply@ == reply_to(result_view(*outcome)),
{
    match outcome {
        Ok(data) => {
            let mut body = String::from_str("{\"best_bid\":");
            body.append(data.best_bid.as_str());
            body.append(",\"best_ask\":");
            body.append(data.best_ask.as_str());
            body.append(",\"mid_price\":");
            body.append(data.mid_price.as_str());
            body.append("}");
            HttpReply { status: 200, json: true, body }
        },
        Err(error) => {
            let mut body = String::from_str("Error: ");
            body.append(error.description().as_str());
            HttpReply { status: 500, json: false, body }
        },
    }
}

/// Answers a request, given the prices that a client picked and the numbers
/// that were computed from them, or `None` where they could not be read as
/// numbers.
pub fn order_book_response(
    prices: Result<BestPrices, ProviderError>,
    numbers: Option<OrderBookData>,
) -> (reply: HttpReply)
    ensures
        reply@ == reply_to(snapshot(result_view(prices), option_view(numbers))),
{
    let outcome = order_book_data(prices, numbers);
    respond(&outcome)
}

/// Every failure is answered with 500 and the error's own text, every top
/// of the book with 200 and JSON.
pub proof fn lemma_status_tells_the_outcome(prices: Result<Prices, Failure>, numbers: Option<Numbers>)
    ensures
        reply_to(snapshot(prices, numbers)).status == 200 <==> (prices.is_ok() && numbers.is_some()),
        reply_to(snapshot(prices, numbers)).status == 500 <==> !(prices.is_ok()
            && numbers.is_some()),
        prices matches Err(failure) ==> reply_to(snapshot(prices, numbers)).body == "Error: "@
            + description_text(failure),
{
}

} // verus!
