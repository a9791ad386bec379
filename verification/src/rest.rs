//! The HTTP facade: one read-only route per exchange.

pub mod orderbook_response;

use crate::exchanges::orderbook_provider::{
    result_view, BestPrices, Fetched, OrderBookProvider, ProviderError,
};
use vstd::prelude::*;
use vstd::string::StringExecFns;

verus! {

/// The exchanges that have a route.
#[derive(Clone, Copy, Debug, PartialEq, Eq, Structural)]
pub enum Exchange {
    Kraken,
    Huobi,
}

/// The client behind Kraken's route.
#[derive(Debug, PartialEq, Eq)]
pub struct KrakenData<P: OrderBookProvider>(pub P);

/// The client behind Huobi's route.
#[derive(Debug, PartialEq, Eq)]
pub struct HuobiData<P: OrderBookProvider>(pub P);

/// The path under which an exchange's mid-price is served.
pub open spec fn path_text(exchange: Exchange) -> Seq<char> {
    match exchange {
        Exchange::Kraken => "/kraken/mid_price"@,
        Exchange::Huobi => "/huobi/mid_price"@,
    }
}

/// The exchange that a path asks for, if it asks for one.
pub open spec fn route_of(path: Seq<char>) -> Option<Exchange> {
    if path == path_text(Exchange::Kraken) {
        Some(Exchange::Kraken)
    } else if path == path_text(Exchange::Huobi) {
        Some(Exchange::Huobi)
    } else {
        None
    }
}

impl Exchange {
    /// The path under which the exchange's mid-price is served.
    pub fn path(&self) -> (path: &'static str)
        ensures
            path@ == path_text(*self),
    {
        match self {
            Exchange::Kraken => "/kraken/mid_price",
            Exchange::Huobi => "/huobi/mid_price",
        }
    }
}

/// The routes of the facade: Kraken's, then Huobi's.
pub fn init_routes() -> (routes: Vec<Exchange>)
    ensures
        routes@ == seq![Exchange::Kraken, Exchange::Huobi],
{
    let mut routes: Vec<Exchange> = Vec::new();
    routes.push(Exchange::Kraken);
    routes.push(Exchange::Huobi);
    assert(routes@ =~= seq![Exchange::Kraken, Exchange::Huobi]);
    routes
}

/// The exchange that a path asks for, if it asks for one.
pub fn route(path: &str) -> (r: Option<Exchange>)
    ensures
        r == route_of(path@),
{
    let asked = String::from_str(path);
    if asked == String::from_str(Exchange::Kraken.path()) {
        Some(Exchange::Kraken)
    } else if asked == String::from_str(Exchange::Huobi.path()) {
        Some(Exchange::Huobi)
    } else {
        None
    }
}

/// The first step of a request for Kraken's mid-price: what the route's
/// client picks from the way its own request ended.
pub fn kraken_order_book<P: OrderBookProvider>(data: &KrakenData<P>, fetched: &Fetched) -> (r:
    Result<BestPrices, ProviderError>)
    ensures
        result_view(r) == data.0.picked(*fetched),
{
    data.0.get_order_book_data(fetched)
}

/// The first step of a request for Huobi's mid-price: what the route's
/// client picks from the way its own request ended.
pub fn huobi_order_book<P: OrderBookProvider>(data: &HuobiData<P>, fetched: &Fetched) -> (r:
    Result<BestPrices, ProviderError>)
    ensures
        result_view(r) == data.0.picked(*fetched),
{
    data.0.get_order_book_data(fetched)
}

} // verus!
