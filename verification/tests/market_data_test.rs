use cvdtrader::market_data::{
    after_failed_attempt, candle_step, feed_channel, feed_outcome, is_pong_message, minute_of,
    pending_subscriptions, reconnect_delay_secs, side_from_code, CandleStep, FeedChannel,
    FeedOutcome, ReconnectDecision, TradeData, MAX_RECONNECT_RETRIES,
};
use cvdtrader::types::Side;

fn trade_data(side: &str) -> TradeData {
    TradeData {
        coin: "BTC".to_string(),
        side: side.to_string(),
        px: "50000.0".to_string(),
        sz: "1.5".to_string(),
        time: 1700000000000,
    }
}

#[test]
fn test_trade_side_codes() {
    assert_eq!(side_from_code("B"), Ok(Side::Buy));
    assert_eq!(side_from_code("A"), Ok(Side::Sell));
    assert_eq!(side_from_code("S"), Err("Unknown trade side: S".to_string()));
    assert_eq!(side_from_code(""), Err("Unknown trade side: ".to_string()));
    assert_eq!(trade_data("B").parsed_side(), Ok(Side::Buy));
    assert_eq!(trade_data("A").parsed_side(), Ok(Side::Sell));
    assert_eq!(
        trade_data("buy").parsed_side(),
        Err("Unknown trade side: buy".to_string())
    );
}

#[test]
fn test_pong_messages() {
    assert!(is_pong_message("pong"));
    assert!(is_pong_message("{\"channel\":\"pong\"}"));
    assert!(is_pong_message("ping pong"));
    assert!(!is_pong_message("pon"));
    assert!(!is_pong_message(""));
    assert!(!is_pong_message("{\"channel\":\"trades\",\"data\":[]}"));
    assert!(!is_pong_message("PONG"));
    assert!(is_pong_message("ééépong"));
}

#[test]
fn test_feed_channels() {
    assert_eq!(feed_channel("trades"), FeedChannel::Trades);
    assert_eq!(feed_channel("error"), FeedChannel::Error);
    assert_eq!(feed_channel("subscriptionResponse"), FeedChannel::Other);
}

#[test]
fn test_reconnect_delays() {
    // base 2^(n-1) plus (13 n) mod (base / 2 + 1)
    assert_eq!(reconnect_delay_secs(1), 1);
    assert_eq!(reconnect_delay_secs(2), 2);
    assert_eq!(reconnect_delay_secs(3), 4);
    assert_eq!(reconnect_delay_secs(4), 10);
    assert_eq!(reconnect_delay_secs(5), 18);
    assert_eq!(reconnect_delay_secs(9), 373);
    assert_eq!(reconnect_delay_secs(64), (1u64 << 63) + (64 * 13) % ((1u64 << 62) + 1));
    let mut previous = 0;
    for retry in 1..=20 {
        let delay = reconnect_delay_secs(retry);
        let base = 1u64 << (retry - 1);
        assert!(delay >= base && delay <= base + base / 2);
        assert!(delay >= previous);
        previous = delay;
    }
}

#[test]
fn test_reconnect_gives_up_on_tenth_failure() {
    let mut failures = 0;
    let mut waits = Vec::new();
    loop {
        match after_failed_attempt(failures) {
            ReconnectDecision::Retry { retry, delay_secs } => {
                assert_eq!(retry, failures + 1);
                waits.push(delay_secs);
                failures = retry;
            }
            ReconnectDecision::GiveUp { retries } => {
                assert_eq!(retries, MAX_RECONNECT_RETRIES);
                break;
            }
        }
    }
    assert_eq!(waits.len(), 9);
    assert_eq!(waits[0], 1);
    assert_eq!(waits[3], 10);
}

#[test]
fn test_pending_subscriptions() {
    let symbols = vec!["BTC".to_string(), "ETH".to_string(), "SOL".to_string()];
    let none: Vec<String> = Vec::new();
    assert_eq!(pending_subscriptions(&symbols, &none), symbols);
    let some = vec!["ETH".to_string()];
    assert_eq!(
        pending_subscriptions(&symbols, &some),
        vec!["BTC".to_string(), "SOL".to_string()]
    );
    let all = vec!["SOL".to_string(), "BTC".to_string(), "ETH".to_string()];
    assert!(pending_subscriptions(&symbols, &all).is_empty());
}

#[test]
fn test_candle_steps() {
    assert_eq!(candle_step(None, 28_333_333), CandleStep::Open);
    assert_eq!(candle_step(Some(28_333_333), 28_333_333), CandleStep::Extend);
    assert_eq!(candle_step(Some(28_333_333), 28_333_334), CandleStep::Roll);
}

#[test]
fn test_feed_heartbeat_and_invalid_json_are_ignored() {
    assert!(matches!(feed_outcome("pong"), FeedOutcome::Ignore));
    assert!(matches!(
        feed_outcome("{\"channel\":\"pong\",\"data\":[]}"),
        FeedOutcome::Ignore
    ));
    assert!(matches!(feed_outcome("not json"), FeedOutcome::Ignore));
    assert!(matches!(feed_outcome(""), FeedOutcome::Ignore));
}

#[test]
fn test_feed_trades_in_order_skipping_bad_items() {
    let text = [
        "{\"channel\":\"trades\",\"data\":[",
        "{\"coin\":\"BTC\",\"side\":\"B\",\"px\":\"50000.5\",\"sz\":\"0.1\",\"time\":1700000000000,\"tid\":7},",
        "{\"coin\":\"BTC\",\"side\":\"A\",\"px\":50001,\"sz\":\"0.2\",\"time\":1700000000001},",
        "{\"coin\":\"ETH\",\"side\":\"A\",\"px\":\"3000\",\"sz\":\"2\",\"time\":1700000000002},",
        "[\"SOL\",\"B\",\"150.5\",\"3\",1700000000003],",
        "[\"SOL\",\"B\",\"150.5\",\"3\",1700000000004,9],",
        "{\"coin\":\"SOL\",\"side\":\"B\",\"px\":\"1\",\"sz\":\"1\",\"time\":-5}",
        "]}",
    ]
    .concat();
    match feed_outcome(&text) {
        FeedOutcome::Trades(trades) => {
            assert_eq!(trades.len(), 3);
            assert_eq!(trades[0].coin, "BTC");
            assert_eq!(trades[0].side, "B");
            assert_eq!(trades[0].px, "50000.5");
            assert_eq!(trades[0].sz, "0.1");
            assert_eq!(trades[0].time, 1700000000000);
            assert_eq!(trades[1].coin, "ETH");
            assert_eq!(trades[1].time, 1700000000002);
            assert_eq!(trades[2].coin, "SOL");
            assert_eq!(trades[2].side, "B");
            assert_eq!(trades[2].px, "150.5");
            assert_eq!(trades[2].sz, "3");
            assert_eq!(trades[2].time, 1700000000003);
        }
        other => panic!("unexpected {:?}", other),
    }
}

#[test]
fn test_feed_error_and_other_channels() {
    match feed_outcome("{\"channel\":\"error\",\"data\":[]}") {
        FeedOutcome::Error(msg) => assert_eq!(msg, None),
        other => panic!("unexpected {:?}", other),
    }
    assert!(matches!(
        feed_outcome("{\"channel\":\"subscriptionResponse\",\"data\":[]}"),
        FeedOutcome::Ignore
    ));
    // Without a list of data, even the trades channel is ignored.
    assert!(matches!(
        feed_outcome("{\"channel\":\"trades\",\"data\":{\"msg\":\"x\"}}"),
        FeedOutcome::Ignore
    ));
    assert!(matches!(
        feed_outcome("{\"channel\":\"error\",\"data\":{\"msg\":\"boom\"}}"),
        FeedOutcome::Ignore
    ));
    assert!(matches!(feed_outcome("{\"data\":[]}"), FeedOutcome::Ignore));
}

#[test]
fn test_minute_of_rounds_down() {
    assert_eq!(minute_of(0), 0);
    assert_eq!(minute_of(59_999), 0);
    assert_eq!(minute_of(60_000), 60_000);
    assert_eq!(minute_of(1_700_000_123_456), 1_700_000_100_000);
    assert_eq!(minute_of(-1), -60_000);
    assert_eq!(minute_of(-60_000), -60_000);
    assert_eq!(minute_of(-60_001), -120_000);
}
