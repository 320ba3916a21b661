use price_tracker::json::Json;
use price_tracker::price::Price;
use price_tracker::source::{reply_of_response, AssetSource, Endpoint, FetchError, Reply, Request};
use price_tracker::timestamp::Timestamp;

fn text(s: &str) -> String {
    s.to_string()
}

fn bitcoin() -> AssetSource {
    AssetSource::new(Endpoint::Crypto { coin: text("bitcoin") }, text("bitcoin_prices.csv"))
}

fn spy() -> AssetSource {
    AssetSource::new(
        Endpoint::Equity { symbol: text("SPY"), api_key: text("demo-key") },
        text("sp500_values.csv"),
    )
}

fn read_double(quote: &str) -> Option<Price> {
    let value: f64 = quote.parse().ok()?;
    Price::from_text(value.to_string())
}

fn stamp(s: &str) -> Timestamp {
    Timestamp::from_text(text(s)).unwrap()
}

fn value_of(source: &AssetSource) -> f64 {
    source.value().text().parse().unwrap()
}

fn fetch(source: &mut AssetSource, reply: Reply) -> Result<(), FetchError> {
    let quote = source.endpoint().read_reply(reply)?;
    source.record(read_double(&quote))
}

#[test]
fn new_source_has_no_observation() {
    let source = bitcoin();
    assert_eq!(source.timestamp().text(), "");
    assert_eq!(source.value().text(), "0");
    assert_eq!(value_of(&source), 0.0);
    assert_eq!(source.sink_path(), "bitcoin_prices.csv");
    assert_eq!(source.endpoint(), &Endpoint::Crypto { coin: text("bitcoin") });
    assert_eq!(source.endpoint().instrument(), "bitcoin");
    assert_eq!(spy().endpoint().instrument(), "SPY");
}

#[test]
fn crypto_request_names_the_coin_and_the_currency() {
    assert_eq!(
        bitcoin().endpoint().request(),
        Request {
            url: text("https://api.coingecko.com/api/v3/simple/price"),
            query: vec![(text("ids"), text("bitcoin")), (text("vs_currencies"), text("usd"))],
        }
    );
    let ethereum = Endpoint::Crypto { coin: text("ethereum") };
    assert_eq!(ethereum.request().query[0], (text("ids"), text("ethereum")));
}

#[test]
fn equity_request_names_the_function_the_symbol_and_the_key() {
    assert_eq!(
        spy().endpoint().request(),
        Request {
            url: text("https://www.alphavantage.co/query"),
            query: vec![
                (text("function"), text("GLOBAL_QUOTE")),
                (text("symbol"), text("SPY")),
                (text("apikey"), text("demo-key")),
            ],
        }
    );
}

#[test]
fn crypto_fetch_yields_the_value_and_a_timestamp() {
    let mut source = bitcoin();
    let result = fetch(&mut source, Reply::Body(text("{\"bitcoin\":{\"usd\":67000.5}}")));
    assert_eq!(result, Ok(()));
    assert_eq!(value_of(&source), 67000.5);
    assert_eq!(source.value().text(), "67000.5");
    assert!(!source.timestamp().text().is_empty());
    assert!(chrono::DateTime::parse_from_rfc3339(source.timestamp().text()).is_ok());
}

#[test]
fn crypto_fetch_takes_a_whole_number() {
    let mut source = bitcoin();
    assert_eq!(fetch(&mut source, Reply::Body(text("{\"bitcoin\":{\"usd\":67000}}"))), Ok(()));
    assert_eq!(value_of(&source), 67000.0);
    assert_eq!(source.value().text(), "67000");
}

#[test]
fn equity_fetch_yields_the_value() {
    let mut source = spy();
    let body = "{\"Global Quote\":{\"05. price\":\"512.34\"}}";
    assert_eq!(fetch(&mut source, Reply::Body(text(body))), Ok(()));
    assert_eq!(value_of(&source), 512.34);
    assert!(!source.timestamp().text().is_empty());
}

#[test]
fn equity_fetch_prints_the_number_not_the_quote() {
    let mut source = spy();
    let body = "{\"Global Quote\":{\"01. symbol\":\"SPY\",\"05. price\":\"512.3400\"}}";
    assert_eq!(source.endpoint().read_body(body), Ok(text("512.3400")));
    assert_eq!(fetch(&mut source, Reply::Body(text(body))), Ok(()));
    assert_eq!(source.value().text(), "512.34");
}

#[test]
fn equity_fetch_of_what_is_no_number_is_a_conversion_error() {
    let mut source = spy();
    let before = stamp("2024-05-01T12:00:00+00:00");
    source.record_at(read_double("500.25"), before.clone()).unwrap();
    let body = "{\"Global Quote\":{\"05. price\":\"not-a-number\"}}";
    assert_eq!(source.endpoint().read_body(body), Ok(text("not-a-number")));
    assert_eq!(fetch(&mut source, Reply::Body(text(body))), Err(FetchError::Conversion));
    assert_eq!(source.timestamp(), &before);
    assert_eq!(value_of(&source), 500.25);
}

#[test]
fn conversion_error_on_a_fresh_source_leaves_it_fresh() {
    let mut source = spy();
    assert_eq!(source.record(None), Err(FetchError::Conversion));
    assert_eq!(source.record_at(None, stamp("2024-05-01T12:00:00Z")), Err(FetchError::Conversion));
    assert_eq!(source.timestamp().text(), "");
    assert_eq!(source.value().text(), "0");
}

#[test]
fn record_at_sets_the_pair_and_nothing_else() {
    let mut source = bitcoin();
    let first = stamp("2024-05-01T12:00:00+00:00");
    assert_eq!(source.record_at(read_double("1.5"), first.clone()), Ok(()));
    assert_eq!(source.timestamp(), &first);
    assert_eq!(source.value().text(), "1.5");
    let second = stamp("2024-05-01T12:00:10+00:00");
    assert_eq!(source.record_at(read_double("2"), second.clone()), Ok(()));
    assert_eq!(source.timestamp(), &second);
    assert_eq!(source.value().text(), "2");
    assert_eq!(source.sink_path(), "bitcoin_prices.csv");
    assert_eq!(source.endpoint(), &Endpoint::Crypto { coin: text("bitcoin") });
}

#[test]
fn failed_fetches_leave_the_observation_as_it_was() {
    let mut source = bitcoin();
    let before = stamp("2024-05-01T12:00:00+00:00");
    source.record_at(read_double("67000.5"), before.clone()).unwrap();
    let replies = vec![
        (Reply::Failed(text("connection refused")), FetchError::Transport(text("connection refused"))),
        (Reply::Status(429), FetchError::Protocol(429)),
        (Reply::Body(text("<html>busy</html>")), FetchError::Parse),
        (Reply::Body(text("{}")), FetchError::Parse),
        (Reply::Body(text("{\"bitcoin\":{\"usd\":null}}")), FetchError::Parse),
    ];
    for (reply, error) in replies {
        assert_eq!(fetch(&mut source, reply), Err(error));
        assert_eq!(source.timestamp(), &before);
        assert_eq!(value_of(&source), 67000.5);
    }
}

#[test]
fn crypto_quote_must_be_a_number_under_the_coin_and_usd() {
    let endpoint = Endpoint::Crypto { coin: text("bitcoin") };
    for body in [
        "not json",
        "null",
        "[]",
        "{}",
        "{\"bitcoin\":null}",
        "{\"bitcoin\":67000.5}",
        "{\"bitcoin\":[67000.5]}",
        "{\"bitcoin\":{}}",
        "{\"bitcoin\":{\"eur\":61000.1}}",
        "{\"bitcoin\":{\"usd\":null}}",
        "{\"bitcoin\":{\"usd\":\"67000.5\"}}",
        "{\"bitcoin\":{\"usd\":true}}",
        "{\"bitcoin\":{\"usd\":{\"value\":1}}}",
        "{\"ethereum\":{\"usd\":3000.1}}",
        "{\"Bitcoin\":{\"usd\":67000.5}}",
    ] {
        assert_eq!(endpoint.read_body(body), Err(FetchError::Parse), "{body}");
    }
    assert_eq!(
        endpoint.read_body("{\"ethereum\":{\"usd\":3000.1},\"bitcoin\":{\"eur\":1,\"usd\":67000.5}}"),
        Ok(text("67000.5"))
    );
}

#[test]
fn equity_quote_must_be_a_string_under_global_quote_and_price() {
    let endpoint = Endpoint::Equity { symbol: text("SPY"), api_key: text("k") };
    for body in [
        "",
        "{}",
        "{\"Note\":\"call frequency\"}",
        "{\"Global Quote\":{}}",
        "{\"Global Quote\":\"512.34\"}",
        "{\"Global Quote\":{\"05. price\":512.34}}",
        "{\"Global Quote\":{\"05. price\":null}}",
        "{\"Global Quote\":{\"05. Price\":\"512.34\"}}",
        "{\"global quote\":{\"05. price\":\"512.34\"}}",
    ] {
        assert_eq!(endpoint.read_body(body), Err(FetchError::Parse), "{body}");
    }
    assert_eq!(
        endpoint.read_body("{\"Global Quote\":{\"05. price\":\"\"}}"),
        Ok(text(""))
    );
}

#[test]
fn quote_from_reads_a_tree_written_by_hand() {
    let coin = Endpoint::Crypto { coin: text("bitcoin") };
    let doc = Json::Object(vec![(
        text("bitcoin"),
        Json::Object(vec![(text("usd"), Json::Number(text("67000.5")))]),
    )]);
    assert_eq!(coin.quote_from(&doc), Ok(text("67000.5")));
    let symbol = Endpoint::Equity { symbol: text("SPY"), api_key: text("k") };
    assert_eq!(symbol.quote_from(&doc), Err(FetchError::Parse));
    let quote = Json::Object(vec![(
        text("Global Quote"),
        Json::Object(vec![(text("05. price"), Json::Text(text("512.34")))]),
    )]);
    assert_eq!(symbol.quote_from(&quote), Ok(text("512.34")));
    assert_eq!(coin.quote_from(&quote), Err(FetchError::Parse));
    assert_eq!(coin.quote_from(&Json::Null), Err(FetchError::Parse));
}

#[test]
fn read_reply_tells_the_failures_apart() {
    let endpoint = Endpoint::Crypto { coin: text("bitcoin") };
    assert_eq!(
        endpoint.read_reply(Reply::Failed(text("dns failure"))),
        Err(FetchError::Transport(text("dns failure")))
    );
    assert_eq!(endpoint.read_reply(Reply::Status(404)), Err(FetchError::Protocol(404)));
    assert_eq!(endpoint.read_reply(Reply::Status(500)), Err(FetchError::Protocol(500)));
    assert_eq!(endpoint.read_reply(Reply::Body(text("{"))), Err(FetchError::Parse));
    assert_eq!(
        endpoint.read_reply(Reply::Body(text("{\"bitcoin\":{\"usd\":1}}"))),
        Ok(text("1"))
    );
}

#[test]
fn errors_read_as_messages() {
    assert_eq!(FetchError::Transport(text("connection reset")).message(), "connection reset");
    assert_eq!(FetchError::Protocol(503).message(), "status code 503");
    assert_eq!(FetchError::Protocol(0).message(), "status code 0");
    assert_eq!(FetchError::Parse.message(), "the response holds no quote");
    assert_eq!(FetchError::Conversion.message(), "the quote is not a number");
    let error = FetchError::Transport(text("x"));
    assert_eq!(error.clone(), error);
    assert_eq!(FetchError::Protocol(404).clone(), FetchError::Protocol(404));
}

#[test]
fn sources_share_a_sink_when_the_paths_are_equal() {
    let a = bitcoin();
    let b = AssetSource::new(Endpoint::Crypto { coin: text("ethereum") }, text("bitcoin_prices.csv"));
    let c = spy();
    assert!(a.shares_sink_with(&b));
    assert!(a.shares_sink_with(&a));
    assert!(!a.shares_sink_with(&c));
}

#[test]
fn response_with_a_success_status_counts_for_its_body() {
    for status in [200, 201, 204, 206, 250, 299] {
        assert_eq!(reply_of_response(status, text("{}")), Reply::Body(text("{}")), "{status}");
    }
    assert_eq!(reply_of_response(200, String::new()), Reply::Body(String::new()));
}

#[test]
fn response_with_any_other_status_counts_for_its_status() {
    for status in [0, 1, 100, 101, 199, 300, 301, 302, 304, 399, 400, 401, 404, 429, 500, 503, 599, 65535] {
        assert_eq!(
            reply_of_response(status, text("{\"bitcoin\":{\"usd\":67000.5}}")),
            Reply::Status(status),
            "{status}"
        );
    }
}

#[test]
fn fetch_of_a_response_without_a_success_status_is_a_protocol_error() {
    let mut source = bitcoin();
    let before = stamp("2024-05-01T12:00:00+00:00");
    source.record_at(read_double("67000.5"), before.clone()).unwrap();
    let body = "{\"bitcoin\":{\"usd\":68000.25}}";
    for status in [199, 300, 304, 399, 404, 500] {
        let reply = reply_of_response(status, text(body));
        assert_eq!(fetch(&mut source, reply), Err(FetchError::Protocol(status)));
        assert_eq!(source.timestamp(), &before);
        assert_eq!(value_of(&source), 67000.5);
    }
    assert_eq!(fetch(&mut source, reply_of_response(200, text(body))), Ok(()));
    assert_eq!(value_of(&source), 68000.25);
}

#[test]
fn fetch_succeeds_exactly_when_status_body_field_and_number_are_right() {
    let good_coin = "{\"ethereum\":{\"usd\":3000.25}}";
    let good_quote = "{\"Global Quote\":{\"05. price\":\"512.34\"}}";
    let cases = [
        (200, good_coin, good_quote, true),
        (299, good_coin, good_quote, true),
        (300, good_coin, good_quote, false),
        (404, good_coin, good_quote, false),
        (200, "not json", "not json", false),
        (200, "{\"ethereum\":{}}", "{\"Global Quote\":{}}", false),
        (200, "{\"ethereum\":{\"usd\":\"3000.25\"}}", "{\"Global Quote\":{\"05. price\":512.34}}", false),
        (200, "{\"ethereum\":{\"usd\":null}}", "{\"Global Quote\":{\"05. price\":\"n/a\"}}", false),
    ];
    for (status, coin_body, quote_body, succeeds) in cases {
        let mut ethereum = AssetSource::new(Endpoint::Crypto { coin: text("ethereum") }, text("e.csv"));
        let result = fetch(&mut ethereum, reply_of_response(status, text(coin_body)));
        assert_eq!(result.is_ok(), succeeds, "{status} {coin_body}");
        assert_eq!(ethereum.timestamp().text().is_empty(), !succeeds);
        let mut equity = spy();
        let result = fetch(&mut equity, reply_of_response(status, text(quote_body)));
        assert_eq!(result.is_ok(), succeeds, "{status} {quote_body}");
        assert_eq!(equity.timestamp().text().is_empty(), !succeeds);
    }
}
