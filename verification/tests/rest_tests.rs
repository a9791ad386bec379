use midprice::exchanges::huobi_rest_api::HuobiProvider;
use midprice::exchanges::kraken_rest_api::KrakenProvider;
use midprice::exchanges::orderbook_provider::{
    BestPrices, Failure, Fetched, OrderBookData, OrderBookProvider, Prices, ProviderError,
};
use midprice::rest::orderbook_response::{order_book_response, respond, HttpReply};
use midprice::rest::{huobi_order_book, init_routes, kraken_order_book, route, Exchange, HuobiData, KrakenData};

/// A provider that asks nobody and always comes back with the same answer.
struct Stub {
    bid: &'static str,
    ask: &'static str,
    fails: bool,
}

impl OrderBookProvider for Stub {
    fn request(&self) -> vstd::seq::Seq<char> {
        unreachable!()
    }

    fn picked(&self, _fetched: Fetched) -> Result<Prices, Failure> {
        unreachable!()
    }

    fn request_url(&self) -> String {
        String::new()
    }

    fn get_order_book_data(&self, _fetched: &Fetched) -> Result<BestPrices, ProviderError> {
        if self.fails {
            Err(ProviderError::Transport("provider is down".to_string()))
        } else {
            Ok(BestPrices { best_bid: self.bid.to_string(), best_ask: self.ask.to_string() })
        }
    }
}

/// Reads both prices as numbers and averages them, as a caller does.
fn numbers(picked: &Result<BestPrices, ProviderError>) -> Option<OrderBookData> {
    let picked = picked.as_ref().ok()?;
    let bid = picked.best_bid.parse::<f64>().ok()?;
    let ask = picked.best_ask.parse::<f64>().ok()?;
    let mid = (bid + ask) / 2.0;
    Some(OrderBookData {
        best_bid: serde_json::to_string(&bid).ok()?,
        best_ask: serde_json::to_string(&ask).ok()?,
        mid_price: serde_json::to_string(&mid).ok()?,
    })
}

fn nothing() -> Fetched {
    Fetched::Failed(String::new())
}

fn kraken() -> KrakenData<KrakenProvider> {
    KrakenData(KrakenProvider { trading_pair: "XBTUSD".to_string(), endpoint: "http://k".to_string() })
}

fn huobi() -> HuobiData<HuobiProvider> {
    HuobiData(HuobiProvider { trading_pair: "BTCUSDT".to_string(), endpoint: "http://h".to_string() })
}

#[test]
fn kraken_route_serves_a_stubbed_provider() {
    let data = KrakenData(Stub { bid: "100.0", ask: "102.0", fails: false });
    let picked = kraken_order_book(&data, &nothing());
    let computed = numbers(&picked);
    assert_eq!(
        order_book_response(picked, computed),
        HttpReply {
            status: 200,
            json: true,
            body: "{\"best_bid\":100.0,\"best_ask\":102.0,\"mid_price\":101.0}".to_string(),
        }
    );
}

#[test]
fn huobi_route_reports_a_failing_provider() {
    let data = HuobiData(Stub { bid: "", ask: "", fails: true });
    let picked = huobi_order_book(&data, &nothing());
    let computed = numbers(&picked);
    assert_eq!(
        order_book_response(picked, computed),
        HttpReply { status: 500, json: false, body: "Error: provider is down".to_string() }
    );
}

#[test]
fn kraken_route_serves_the_mid_price() {
    let fetched = Fetched::Response {
        status: 200,
        body: "{\"result\":{\"X\":{\"asks\":[[\"102.0\",\"1\",1]],\"bids\":[[\"100.0\",\"1\",2]]}}}".to_string(),
    };
    let picked = kraken_order_book(&kraken(), &fetched);
    let computed = numbers(&picked);
    let reply = order_book_response(picked, computed);
    assert_eq!(reply.status, 200);
    assert!(reply.json);
    assert_eq!(reply.body, "{\"best_bid\":100.0,\"best_ask\":102.0,\"mid_price\":101.0}");
}

#[test]
fn huobi_route_reports_what_went_wrong() {
    let picked = huobi_order_book(&huobi(), &Fetched::Failed("connection refused".to_string()));
    assert_eq!(
        order_book_response(picked, None),
        HttpReply { status: 500, json: false, body: "Error: connection refused".to_string() }
    );
    let refused = Fetched::Response { status: 200, body: "{\"status\":\"error\"}".to_string() };
    let picked = huobi_order_book(&huobi(), &refused);
    assert_eq!(
        order_book_response(picked, None),
        HttpReply { status: 500, json: false, body: "Error: API returned non-ok status".to_string() }
    );
    let unavailable = Fetched::Response { status: 503, body: "{\"status\":\"ok\"}".to_string() };
    let picked = huobi_order_book(&huobi(), &unavailable);
    assert_eq!(
        order_book_response(picked, None),
        HttpReply { status: 500, json: false, body: "Error: HTTP status reports a failure".to_string() }
    );
}

#[test]
fn unreadable_prices_are_reported_as_malformed() {
    let data = KrakenData(Stub { bid: "abc", ask: "102.0", fails: false });
    let picked = kraken_order_book(&data, &nothing());
    let computed = numbers(&picked);
    assert_eq!(
        order_book_response(picked, computed),
        HttpReply { status: 500, json: false, body: "Error: malformed response".to_string() }
    );
}

#[test]
fn mid_price_is_the_float_mean() {
    let data = HuobiData(Stub { bid: "0.1", ask: "0.2", fails: false });
    let picked = huobi_order_book(&data, &nothing());
    let computed = numbers(&picked);
    assert_eq!(
        order_book_response(picked, computed).body,
        "{\"best_bid\":0.1,\"best_ask\":0.2,\"mid_price\":0.15000000000000002}"
    );
}

#[test]
fn respond_frames_the_numbers_as_they_are_given() {
    let data = OrderBookData {
        best_bid: "1e18".to_string(),
        best_ask: "null".to_string(),
        mid_price: "-0.0".to_string(),
    };
    assert_eq!(
        respond(&Ok(data)).body,
        "{\"best_bid\":1e18,\"best_ask\":null,\"mid_price\":-0.0}"
    );
}

#[test]
fn every_error_has_its_text() {
    assert_eq!(respond(&Err(ProviderError::Parse)).body, "Error: malformed response");
    assert_eq!(respond(&Err(ProviderError::EmptyBook)).body, "Error: no order book data found");
    assert_eq!(respond(&Err(ProviderError::ApiStatus)).body, "Error: API returned non-ok status");
    assert_eq!(respond(&Err(ProviderError::Transport("x".to_string()))).body, "Error: x");
    assert_eq!(ProviderError::Transport(String::new()).description(), "");
    for error in [ProviderError::Parse, ProviderError::EmptyBook, ProviderError::ApiStatus] {
        let reply = respond(&Err(error));
        assert_eq!(reply.status, 500);
        assert!(!reply.json);
    }
}

#[test]
fn routes_are_one_per_exchange() {
    assert_eq!(init_routes(), vec![Exchange::Kraken, Exchange::Huobi]);
    assert_eq!(Exchange::Kraken.path(), "/kraken/mid_price");
    assert_eq!(Exchange::Huobi.path(), "/huobi/mid_price");
    assert_eq!(route("/kraken/mid_price"), Some(Exchange::Kraken));
    assert_eq!(route("/huobi/mid_price"), Some(Exchange::Huobi));
    assert_eq!(route("/binance/mid_price"), None);
    assert_eq!(route("/kraken/mid_price/"), None);
    assert_eq!(route("kraken/mid_price"), None);
    assert_eq!(route("/Kraken/mid_price"), None);
    assert_eq!(route(""), None);
    for exchange in init_routes() {
        assert_eq!(route(exchange.path()), Some(exchange));
    }
}
