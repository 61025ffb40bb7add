use candle_chart::binance_client::candle_from_kline;
use candle_chart::binance_client::candles_from_klines;
use candle_chart::binance_client::create_binance_stream;
use candle_chart::binance_client::on_stream_message;
use candle_chart::binance_client::BinanceWebSocketClient;
use candle_chart::binance_client::KlineError;
use candle_chart::binance_client::KlineRecord;
use candle_chart::binance_client::StreamAction;
use candle_chart::binance_client::StreamMessage;
use candle_chart::decimal::parse_decimal;
use candle_chart::market_data::Symbol;
use candle_chart::market_data::TimeInterval;

fn record(open_time: u64, open: &str, high: &str, low: &str, close: &str, volume: &str) -> KlineRecord {
    KlineRecord {
        open_time,
        open: open.to_string(),
        high: high.to_string(),
        low: low.to_string(),
        close: close.to_string(),
        volume: volume.to_string(),
    }
}

#[test]
fn decimals_are_read_into_ticks() {
    assert_eq!(parse_decimal(b"42"), Some(4_200_000_000));
    assert_eq!(parse_decimal(b"42."), Some(4_200_000_000));
    assert_eq!(parse_decimal(b".5"), Some(50_000_000));
    assert_eq!(parse_decimal(b"0.01000000"), Some(1_000_000));
    assert_eq!(parse_decimal(b"12345.678"), Some(1_234_567_800_000));
    assert_eq!(parse_decimal(b"67890.12345678"), Some(6_789_012_345_678));
    assert_eq!(parse_decimal(b"0"), Some(0));
    assert_eq!(parse_decimal(b"0.0"), Some(0));
    assert_eq!(parse_decimal(b"0.00000001"), Some(1));
    assert_eq!(parse_decimal(b"007"), Some(700_000_000));
}

#[test]
fn digits_past_the_eighth_are_dropped() {
    assert_eq!(parse_decimal(b"0.000000019"), Some(1));
    assert_eq!(parse_decimal(b"0.000000009"), Some(0));
    assert_eq!(parse_decimal(b"1.123456789999999999999999999999"), Some(112_345_678));
}

#[test]
fn what_is_no_decimal_is_refused() {
    assert_eq!(parse_decimal(b""), None);
    assert_eq!(parse_decimal(b"."), None);
    assert_eq!(parse_decimal(b"1e5"), None);
    assert_eq!(parse_decimal(b"-1"), None);
    assert_eq!(parse_decimal(b"+1"), None);
    assert_eq!(parse_decimal(b" 1"), None);
    assert_eq!(parse_decimal(b"1 "), None);
    assert_eq!(parse_decimal(b"1.2.3"), None);
    assert_eq!(parse_decimal(b"1..2"), None);
    assert_eq!(parse_decimal(b"1,5"), None);
    assert_eq!(parse_decimal(b"NaN"), None);
    assert_eq!(parse_decimal(b"inf"), None);
    assert_eq!(parse_decimal(b"0x10"), None);
    assert_eq!(parse_decimal("١٢".as_bytes()), None);
    assert_eq!(parse_decimal(b"1.0000000000000000000x"), None);
    assert_eq!(parse_decimal(b"99999999999999999999999999x.5"), None);
}

#[test]
fn decimals_stop_at_the_limit() {
    assert_eq!(parse_decimal(b"1000000000"), Some(100_000_000_000_000_000));
    assert_eq!(parse_decimal(b"1000000000.00000000"), Some(100_000_000_000_000_000));
    assert_eq!(parse_decimal(b"1000000000.000000009"), Some(100_000_000_000_000_000));
    assert_eq!(parse_decimal(b"1000000000.00000001"), None);
    assert_eq!(parse_decimal(b"1000000001"), None);
    assert_eq!(parse_decimal(b"999999999.99999999"), Some(99_999_999_999_999_999));
    assert_eq!(parse_decimal(b"99999999999999999999999999999999999999999"), None);
    assert_eq!(parse_decimal(b"00000000000000000000000000000000000000001"), Some(100_000_000));
}

#[test]
fn kline_becomes_a_candle() {
    let candle =
        candle_from_kline(1_700_000_000_000, "42000.10", "42100.00", "41950.5", "42050", "12.5")
            .unwrap();
    assert_eq!(candle.timestamp().value(), 1_700_000_000_000);
    assert_eq!(candle.ohlcv().open.value(), 4_200_010_000_000);
    assert_eq!(candle.ohlcv().high.value(), 4_210_000_000_000);
    assert_eq!(candle.ohlcv().low.value(), 4_195_050_000_000);
    assert_eq!(candle.ohlcv().close.value(), 4_205_000_000_000);
    assert_eq!(candle.ohlcv().volume.value(), 1_250_000_000);
}

#[test]
fn kline_errors_name_the_first_bad_field() {
    assert_eq!(candle_from_kline(1, "x", "y", "z", "w", "v"), Err(KlineError::InvalidOpen));
    assert_eq!(candle_from_kline(1, "1", "y", "z", "w", "v"), Err(KlineError::InvalidHigh));
    assert_eq!(candle_from_kline(1, "1", "2", "z", "w", "v"), Err(KlineError::InvalidLow));
    assert_eq!(candle_from_kline(1, "1", "2", "1", "w", "v"), Err(KlineError::InvalidClose));
    assert_eq!(candle_from_kline(1, "1", "2", "1", "2", "-3"), Err(KlineError::InvalidVolume));
    assert_eq!(candle_from_kline(1, "", "2", "1", "2", "3"), Err(KlineError::InvalidOpen));
    assert_eq!(
        candle_from_kline(1, "1", "2", "1", "2", "1000000000.1"),
        Err(KlineError::InvalidVolume)
    );
}

#[test]
fn inconsistent_kline_is_refused() {
    assert_eq!(candle_from_kline(1, "5", "4", "3", "4", "1"), Err(KlineError::Inconsistent));
    assert_eq!(candle_from_kline(1, "5", "6", "5.5", "6", "1"), Err(KlineError::Inconsistent));
    assert_eq!(candle_from_kline(1, "5", "6", "4", "7", "1"), Err(KlineError::Inconsistent));
    assert!(candle_from_kline(1, "5", "5", "5", "5", "0").is_ok());
}

#[test]
fn kline_errors_have_their_words() {
    assert_eq!(KlineError::InvalidOpen.message(), "Invalid open price");
    assert_eq!(KlineError::InvalidHigh.message(), "Invalid high price");
    assert_eq!(KlineError::InvalidLow.message(), "Invalid low price");
    assert_eq!(KlineError::InvalidClose.message(), "Invalid close price");
    assert_eq!(KlineError::InvalidVolume.message(), "Invalid volume");
    assert_eq!(KlineError::Inconsistent.message(), "Inconsistent prices");
}

#[test]
fn history_becomes_candles_in_order() {
    let records = vec![
        record(10, "1", "2", "1", "2", "5"),
        record(20, "2", "3", "1", "2.5", "6"),
        record(30, "2.5", "3", "2", "2", "7"),
    ];
    let candles = candles_from_klines(&records).unwrap();
    assert_eq!(candles.len(), 3);
    let stamps: Vec<u64> = candles.iter().map(|c| c.timestamp().value()).collect();
    assert_eq!(stamps, vec![10, 20, 30]);
    assert_eq!(candles[1].ohlcv().close.value(), 250_000_000);
    assert_eq!(candles_from_klines(&Vec::new()), Ok(Vec::new()));
}

#[test]
fn one_bad_record_fails_the_history() {
    let records = vec![
        record(10, "1", "2", "1", "2", "5"),
        record(20, "2", "three", "1", "2.5", "6"),
        record(30, "bad", "3", "2", "2", "7"),
    ];
    assert_eq!(candles_from_klines(&records), Err(KlineError::InvalidHigh));
}

#[test]
fn stream_name_and_addresses() {
    let client = BinanceWebSocketClient::new(Symbol::from("BtcUsdt"), TimeInterval::OneMinute);
    assert_eq!(client.symbol().value(), "BTCUSDT");
    assert_eq!(client.interval(), TimeInterval::OneMinute);
    assert_eq!(client.stream_name(), "btcusdt@kline_1m");
    assert_eq!(client.stream_url(), "wss://stream.binance.com:9443/ws/btcusdt@kline_1m");
    assert_eq!(
        client.history_url(200),
        "https://api.binance.com/api/v3/klines?symbol=BTCUSDT&interval=1m&limit=200"
    );
    assert_eq!(
        client.history_url_before(1_700_000_000_000, 1_000),
        "https://api.binance.com/api/v3/klines?symbol=BTCUSDT&interval=1m&endTime=1700000000000&limit=1000"
    );
    assert_eq!(
        client.history_url(0),
        "https://api.binance.com/api/v3/klines?symbol=BTCUSDT&interval=1m&limit=0"
    );
    assert_eq!(
        client.history_url_before(u64::MAX, u32::MAX),
        "https://api.binance.com/api/v3/klines?symbol=BTCUSDT&interval=1m&endTime=18446744073709551615&limit=4294967295"
    );
}

#[test]
fn stream_is_created_from_names() {
    let client = create_binance_stream("ethusdt", "4h").unwrap();
    assert_eq!(client.symbol().value(), "ETHUSDT");
    assert_eq!(client.interval(), TimeInterval::FourHours);
    assert_eq!(client.stream_name(), "ethusdt@kline_4h");
    let month = create_binance_stream("SOLUSDT", "1M").unwrap();
    assert_eq!(month.stream_name(), "solusdt@kline_1M");
}

#[test]
fn unknown_interval_is_refused() {
    assert_eq!(
        create_binance_stream("BTCUSDT", "7m").err(),
        Some("Invalid interval: 7m".to_string())
    );
    assert_eq!(create_binance_stream("BTCUSDT", "").err(), Some("Invalid interval: ".to_string()));
}

#[test]
fn stream_messages_are_decided() {
    let good = StreamMessage::Kline(record(10, "1", "2", "1", "2", "5"));
    match on_stream_message(&good) {
        StreamAction::Deliver(candle) => {
            assert_eq!(candle.timestamp().value(), 10);
            assert_eq!(candle.ohlcv().high.value(), 200_000_000);
        }
        other => panic!("{:?}", other),
    }
    let bad = StreamMessage::Kline(record(10, "1", "0.5", "1", "2", "5"));
    assert_eq!(on_stream_message(&bad), StreamAction::Skip);
    let garbled = StreamMessage::Kline(record(10, "one", "2", "1", "2", "5"));
    assert_eq!(on_stream_message(&garbled), StreamAction::Skip);
    assert_eq!(on_stream_message(&StreamMessage::Unreadable), StreamAction::Skip);
    assert_eq!(on_stream_message(&StreamMessage::Binary), StreamAction::Skip);
    assert_eq!(on_stream_message(&StreamMessage::Failure), StreamAction::Stop);
}
