use midprice::exchanges::kraken_rest_api::{
    best_prices, decode_book, decode_level, fetch_order_book, request_url, KrakenProvider,
    OrderBook,
};
use midprice::exchanges::orderbook_provider::{
    order_book_data, BestPrices, Fetched, OrderBookData, OrderBookProvider, ProviderError,
};
use midprice::json::parse_document;

fn level(price: &str, volume: &str, at: &str) -> (String, String, String) {
    (price.to_string(), volume.to_string(), at.to_string())
}

fn body(text: &str) -> Fetched {
    Fetched::Response { status: 200, body: text.to_string() }
}

fn prices(bid: &str, ask: &str) -> BestPrices {
    BestPrices { best_bid: bid.to_string(), best_ask: ask.to_string() }
}

fn provider() -> KrakenProvider {
    KrakenProvider {
        trading_pair: "XBTUSD".to_string(),
        endpoint: "https://api.kraken.com/0/public/Depth".to_string(),
    }
}

/// Reads both prices as numbers and averages them, as a caller does.
fn numbers(picked: &BestPrices) -> Option<OrderBookData> {
    let bid = picked.best_bid.parse::<f64>().ok()?;
    let ask = picked.best_ask.parse::<f64>().ok()?;
    let mid = (bid + ask) / 2.0;
    Some(OrderBookData {
        best_bid: serde_json::to_string(&bid).ok()?,
        best_ask: serde_json::to_string(&ask).ok()?,
        mid_price: serde_json::to_string(&mid).ok()?,
    })
}

fn data(bid: &str, ask: &str, mid: &str) -> OrderBookData {
    OrderBookData { best_bid: bid.to_string(), best_ask: ask.to_string(), mid_price: mid.to_string() }
}

fn outcome(fetched: &Fetched) -> Result<OrderBookData, ProviderError> {
    let picked = provider().get_order_book_data(fetched);
    let computed = match &picked {
        Ok(p) => numbers(p),
        Err(_) => None,
    };
    order_book_data(picked, computed)
}

const RESPONSE: &str = "{\"error\":[],\"result\":{\"XXBTZUSD\":{\
    \"asks\":[[\"97016.20000\",\"0.500\",1700000001],[\"97017.00000\",\"1.000\",1700000002]],\
    \"bids\":[[\"97016.10000\",\"0.250\",1700000003],[\"97015.00000\",\"2.000\",1700000004]]}}}";

#[test]
fn kraken_request_names_the_pair() {
    assert_eq!(provider().request_url(), "https://api.kraken.com/0/public/Depth?pair=XBTUSD");
    assert_eq!(request_url("ETHUSD", "http://localhost/depth"), "http://localhost/depth?pair=ETHUSD");
    assert_eq!(request_url("", ""), "?pair=");
}

#[test]
fn kraken_fetch_reads_the_book() {
    assert_eq!(
        fetch_order_book(&body(RESPONSE)),
        Ok(OrderBook {
            asks: vec![
                level("97016.20000", "0.500", "1700000001"),
                level("97017.00000", "1.000", "1700000002")
            ],
            bids: vec![
                level("97016.10000", "0.250", "1700000003"),
                level("97015.00000", "2.000", "1700000004")
            ],
        })
    );
}

#[test]
fn kraken_picks_the_first_level_of_each_side_as_written() {
    assert_eq!(
        provider().get_order_book_data(&body(RESPONSE)),
        Ok(prices("97016.10000", "97016.20000"))
    );
}

#[test]
fn kraken_mid_price_is_the_float_mean_of_the_first_levels() {
    assert_eq!(outcome(&body(RESPONSE)), Ok(data("97016.1", "97016.2", "97016.15")));
    let text = "{\"result\":{\"X\":{\"asks\":[[\"0.2\",\"1\",1]],\"bids\":[[\"0.1\",\"1\",2]]}}}";
    assert_eq!(outcome(&body(text)), Ok(data("0.1", "0.2", "0.15000000000000002")));
}

#[test]
fn kraken_reads_any_price_that_is_a_number() {
    let text = "{\"result\":{\"X\":{\"asks\":[[\"3e18\",\"1\",1]],\"bids\":[[\"1e18\",\"1\",2]]}}}";
    assert_eq!(provider().get_order_book_data(&body(text)), Ok(prices("1e18", "3e18")));
    assert_eq!(outcome(&body(text)), Ok(data("1e+18", "3e+18", "2e+18")));
}

#[test]
fn kraken_takes_the_book_whatever_its_key() {
    let text = "{\"result\":{\"SOMETHING_ELSE\":{\"asks\":[[\"102.0\",\"1\",1]],\"bids\":[[\"100.0\",\"1\",2]]}}}";
    assert_eq!(provider().get_order_book_data(&body(text)), Ok(prices("100.0", "102.0")));
}

#[test]
fn kraken_takes_the_first_of_several_books() {
    let text = "{\"result\":{\
        \"B\":{\"asks\":[[\"9\",\"1\",1]],\"bids\":[[\"7\",\"1\",2]]},\
        \"A\":{\"asks\":[[\"4\",\"1\",1]],\"bids\":[[\"2\",\"1\",2]]}}}";
    assert_eq!(provider().get_order_book_data(&body(text)), Ok(prices("2", "4")));
}

#[test]
fn kraken_refuses_a_response_with_one_malformed_book() {
    let text = "{\"result\":{\
        \"A\":{\"asks\":[[\"4\",\"1\",1]],\"bids\":[[\"2\",\"1\",2]]},\
        \"B\":{\"asks\":[[\"9\",\"1\",1]]}}}";
    assert_eq!(provider().get_order_book_data(&body(text)), Err(ProviderError::Parse));
}

#[test]
fn kraken_empty_asks_is_an_empty_book() {
    let text = "{\"result\":{\"X\":{\"asks\":[],\"bids\":[[\"100.0\",\"1\",2]]}}}";
    assert_eq!(provider().get_order_book_data(&body(text)), Err(ProviderError::EmptyBook));
    assert_eq!(outcome(&body(text)), Err(ProviderError::EmptyBook));
}

#[test]
fn kraken_empty_bids_is_an_empty_book() {
    let text = "{\"result\":{\"X\":{\"asks\":[[\"100.0\",\"1\",2]],\"bids\":[]}}}";
    assert_eq!(provider().get_order_book_data(&body(text)), Err(ProviderError::EmptyBook));
    let text = "{\"result\":{\"X\":{\"asks\":[],\"bids\":[]}}}";
    assert_eq!(provider().get_order_book_data(&body(text)), Err(ProviderError::EmptyBook));
}

#[test]
fn kraken_empty_side_comes_before_a_malformed_price() {
    let text = "{\"result\":{\"X\":{\"asks\":[],\"bids\":[[\"oops\",\"1\",2]]}}}";
    assert_eq!(outcome(&body(text)), Err(ProviderError::EmptyBook));
}

#[test]
fn kraken_empty_mapping_holds_no_book() {
    assert_eq!(provider().get_order_book_data(&body("{\"result\":{}}")), Err(ProviderError::EmptyBook));
}

#[test]
fn kraken_malformed_price_is_a_parse_error() {
    let text = "{\"result\":{\"X\":{\"asks\":[[\"102.0\",\"1\",1]],\"bids\":[[\"abc\",\"1\",2]]}}}";
    assert_eq!(provider().get_order_book_data(&body(text)), Ok(prices("abc", "102.0")));
    assert_eq!(outcome(&body(text)), Err(ProviderError::Parse));
    let text = "{\"result\":{\"X\":{\"asks\":[[\"\",\"1\",1]],\"bids\":[[\"100.0\",\"1\",2]]}}}";
    assert_eq!(outcome(&body(text)), Err(ProviderError::Parse));
    let text = "{\"result\":{\"X\":{\"asks\":[[\"1,5\",\"1\",1]],\"bids\":[[\"100.0\",\"1\",2]]}}}";
    assert_eq!(outcome(&body(text)), Err(ProviderError::Parse));
}

#[test]
fn kraken_malformed_price_deeper_in_the_book_is_not_read() {
    let text = "{\"result\":{\"X\":{\
        \"asks\":[[\"102.0\",\"1\",1],[\"oops\",\"1\",1]],\
        \"bids\":[[\"100.0\",\"1\",2],[\"\",\"1\",1]]}}}";
    assert_eq!(outcome(&body(text)), Ok(data("100.0", "102.0", "101.0")));
}

#[test]
fn kraken_malformed_json_is_a_parse_error() {
    for text in [
        "",
        "not json",
        "{\"result\":",
        "[]",
        "{}",
        "{\"error\":[\"EQuery:Unknown asset pair\"]}",
        "{\"result\":[]}",
        "{\"result\":{\"X\":{\"asks\":[]}}}",
        "{\"result\":{\"X\":{\"asks\":{},\"bids\":[]}}}",
        "{\"result\":{\"X\":{\"asks\":[[\"1\",\"1\"]],\"bids\":[]}}}",
        "{\"result\":{\"X\":{\"asks\":[[\"1\",\"1\",1,1]],\"bids\":[]}}}",
        "{\"result\":{\"X\":{\"asks\":[[1,\"1\",1]],\"bids\":[]}}}",
        "{\"result\":{\"X\":{\"asks\":[[\"1\",\"1\",\"1\"]],\"bids\":[]}}}",
        "{\"result\":{\"X\":5}}",
    ] {
        assert_eq!(provider().get_order_book_data(&body(text)), Err(ProviderError::Parse), "{}", text);
    }
}

#[test]
fn kraken_transport_failure_keeps_its_description() {
    let failed = Fetched::Failed("connection refused".to_string());
    assert_eq!(
        provider().get_order_book_data(&failed),
        Err(ProviderError::Transport("connection refused".to_string()))
    );
    assert_eq!(
        fetch_order_book(&failed),
        Err(ProviderError::Transport("connection refused".to_string()))
    );
    assert_eq!(outcome(&failed), Err(ProviderError::Transport("connection refused".to_string())));
}

#[test]
fn kraken_http_failure_is_a_transport_error_whatever_the_body() {
    for status in [0u16, 100, 199, 300, 304, 400, 404, 429, 500, 503, 65535] {
        let fetched = Fetched::Response { status, body: RESPONSE.to_string() };
        assert_eq!(
            provider().get_order_book_data(&fetched),
            Err(ProviderError::Transport("HTTP status reports a failure".to_string())),
            "{}",
            status
        );
        let fetched = Fetched::Response { status, body: "not json".to_string() };
        assert_eq!(
            fetch_order_book(&fetched),
            Err(ProviderError::Transport("HTTP status reports a failure".to_string()))
        );
    }
    for status in [200u16, 201, 204, 299] {
        let fetched = Fetched::Response { status, body: RESPONSE.to_string() };
        assert_eq!(provider().get_order_book_data(&fetched), Ok(prices("97016.10000", "97016.20000")));
    }
}

#[test]
fn kraken_best_prices_are_the_first_levels() {
    let book = OrderBook {
        asks: vec![level("102.0", "1", "1"), level("oops", "1", "1")],
        bids: vec![level("100.0", "1", "1")],
    };
    assert_eq!(best_prices(&book), Some(prices("100.0", "102.0")));
    let book = OrderBook { asks: vec![level("x", "1", "1")], bids: vec![level("", "1", "1")] };
    assert_eq!(best_prices(&book), Some(prices("", "x")));
}

#[test]
fn kraken_best_prices_need_both_sides() {
    let book = OrderBook { asks: vec![], bids: vec![level("100.0", "1", "1")] };
    assert_eq!(best_prices(&book), None);
    let book = OrderBook { asks: vec![level("100.0", "1", "1")], bids: vec![] };
    assert_eq!(best_prices(&book), None);
    let book = OrderBook { asks: vec![], bids: vec![] };
    assert_eq!(best_prices(&book), None);
}

#[test]
fn kraken_levels_are_triples() {
    let entry = parse_document("[\"1.5\",\"2\",1700000000.25]").unwrap();
    assert_eq!(decode_level(&entry), Some(level("1.5", "2", "1700000000.25")));
    assert_eq!(decode_level(&parse_document("[\"1.5\",\"2\",1e300]").unwrap()), Some(level("1.5", "2", "1e+300")));
    assert_eq!(decode_level(&parse_document("[\"1.5\",\"2\"]").unwrap()), None);
    assert_eq!(decode_level(&parse_document("{}").unwrap()), None);
    assert_eq!(decode_book(&parse_document("{\"asks\":[],\"bids\":[]}").unwrap()), Some(OrderBook {
        asks: vec![],
        bids: vec![],
    }));
}

#[test]
fn order_book_data_keeps_the_order_of_errors() {
    let computed = || Some(data("1.0", "2.0", "1.5"));
    assert_eq!(order_book_data(Ok(prices("1", "2")), computed()), Ok(data("1.0", "2.0", "1.5")));
    assert_eq!(order_book_data(Ok(prices("x", "2")), None), Err(ProviderError::Parse));
    assert_eq!(order_book_data(Err(ProviderError::EmptyBook), None), Err(ProviderError::EmptyBook));
    assert_eq!(order_book_data(Err(ProviderError::EmptyBook), computed()), Err(ProviderError::EmptyBook));
    assert_eq!(order_book_data(Err(ProviderError::ApiStatus), computed()), Err(ProviderError::ApiStatus));
    assert_eq!(
        order_book_data(Err(ProviderError::Transport("t".to_string())), None),
        Err(ProviderError::Transport("t".to_string()))
    );
}
