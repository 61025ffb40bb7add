use candle_chart::market_data::default_symbols;
use candle_chart::market_data::Candle;
use candle_chart::market_data::Price;
use candle_chart::market_data::Symbol;
use candle_chart::market_data::TimeInterval;
use candle_chart::market_data::Timestamp;
use candle_chart::market_data::ValidationError;
use candle_chart::market_data::Volume;
use candle_chart::market_data::OHLCV;
use candle_chart::market_data::PRICE_LIMIT;
use candle_chart::market_data::VOLUME_LIMIT;

fn price(ticks: i64) -> Price {
    Price::validate(ticks).unwrap()
}

fn volume(ticks: i64) -> Volume {
    Volume::validate(ticks).unwrap()
}

#[test]
fn price_accepts_zero_and_the_limit() {
    assert_eq!(Price::validate(0).unwrap().value(), 0);
    assert_eq!(Price::validate(PRICE_LIMIT).unwrap().value(), PRICE_LIMIT);
    assert_eq!(Price::validate(4_200_000_000_000).unwrap().value(), 4_200_000_000_000);
}

#[test]
fn price_rejects_negative_and_too_large() {
    assert_eq!(Price::validate(-1), Err(ValidationError::InvalidPrice(-1)));
    assert_eq!(
        Price::validate(PRICE_LIMIT + 1),
        Err(ValidationError::InvalidPrice(PRICE_LIMIT + 1))
    );
    assert_eq!(Price::validate(i64::MIN), Err(ValidationError::InvalidPrice(i64::MIN)));
}

#[test]
fn volume_accepts_zero_and_the_limit() {
    assert_eq!(Volume::validate(0).unwrap().value(), 0);
    assert_eq!(Volume::validate(VOLUME_LIMIT).unwrap().value(), VOLUME_LIMIT);
}

#[test]
fn volume_rejects_negative_and_too_large() {
    assert_eq!(Volume::validate(-5), Err(ValidationError::InvalidVolume(-5)));
    assert_eq!(
        Volume::validate(VOLUME_LIMIT + 1),
        Err(ValidationError::InvalidVolume(VOLUME_LIMIT + 1))
    );
}

#[test]
fn timestamp_round_trips() {
    assert_eq!(Timestamp::from_millis(1_700_000_000_000).value(), 1_700_000_000_000);
    assert_eq!(Timestamp::from_milliseconds(42), Ok(Timestamp(42)));
    assert_eq!(Timestamp::from_millis(0), Timestamp(0));
}

#[test]
fn ohlcv_validity_follows_the_invariant() {
    let good = OHLCV::new(price(100), price(110), price(90), price(105), volume(7));
    assert!(good.is_valid());
    let flat = OHLCV::new(price(100), price(100), price(100), price(100), volume(0));
    assert!(flat.is_valid());
    let high_below_open = OHLCV::new(price(100), price(99), price(90), price(95), volume(7));
    assert!(!high_below_open.is_valid());
    let high_below_close = OHLCV::new(price(100), price(104), price(90), price(105), volume(7));
    assert!(!high_below_close.is_valid());
    let low_above_open = OHLCV::new(price(100), price(110), price(101), price(105), volume(7));
    assert!(!low_above_open.is_valid());
    let low_above_close = OHLCV::new(price(100), price(110), price(96), price(95), volume(7));
    assert!(!low_above_close.is_valid());
}

#[test]
fn candle_is_built_only_from_a_valid_record() {
    let good = OHLCV::new(price(100), price(110), price(90), price(105), volume(7));
    let candle = Candle::new(Timestamp(5), good).unwrap();
    assert_eq!(candle.timestamp(), Timestamp(5));
    assert_eq!(candle.ohlcv(), good);
    let bad = OHLCV::new(price(100), price(99), price(90), price(95), volume(7));
    assert_eq!(Candle::new(Timestamp(5), bad), Err(ValidationError::InvalidOhlcv));
}

#[test]
fn symbol_is_held_in_upper_case() {
    let symbol = Symbol::new("btcusdt".to_string()).unwrap();
    assert_eq!(symbol.value(), "BTCUSDT");
    assert_eq!(Symbol::from("ethUsdt").value(), "ETHUSDT");
    assert_eq!(Symbol::from_name("solusdt").value(), "SOLUSDT");
    assert_eq!(Symbol::from(""), Symbol::from_name(""));
}

#[test]
fn empty_symbol_is_rejected() {
    assert_eq!(Symbol::new(String::new()), Err("Symbol cannot be empty".to_string()));
}

#[test]
fn default_symbols_are_the_three_pairs() {
    let symbols = default_symbols();
    assert_eq!(symbols.len(), 3);
    assert_eq!(symbols[0].value(), "BTCUSDT");
    assert_eq!(symbols[1].value(), "ETHUSDT");
    assert_eq!(symbols[2].value(), "SOLUSDT");
}

#[test]
fn interval_names() {
    assert_eq!(TimeInterval::TwoSeconds.to_binance_str(), "2s");
    assert_eq!(TimeInterval::OneMinute.to_binance_str(), "1m");
    assert_eq!(TimeInterval::FiveMinutes.to_binance_str(), "5m");
    assert_eq!(TimeInterval::FifteenMinutes.to_binance_str(), "15m");
    assert_eq!(TimeInterval::OneHour.to_binance_str(), "1h");
    assert_eq!(TimeInterval::FourHours.to_binance_str(), "4h");
    assert_eq!(TimeInterval::OneDay.to_binance_str(), "1d");
    assert_eq!(TimeInterval::OneWeek.to_binance_str(), "1w");
    assert_eq!(TimeInterval::OneMonth.to_binance_str(), "1M");
}

#[test]
fn interval_names_are_read_back() {
    assert_eq!(TimeInterval::from_binance_str("1m"), Some(TimeInterval::OneMinute));
    assert_eq!(TimeInterval::from_binance_str("1M"), Some(TimeInterval::OneMonth));
    assert_eq!(TimeInterval::from_binance_str("15m"), Some(TimeInterval::FifteenMinutes));
    assert_eq!(TimeInterval::from_binance_str("2s"), Some(TimeInterval::TwoSeconds));
    assert_eq!(TimeInterval::from_binance_str("3m"), None);
    assert_eq!(TimeInterval::from_binance_str(""), None);
    assert_eq!(TimeInterval::from_binance_str("1H"), None);
}

#[test]
fn interval_durations() {
    assert_eq!(TimeInterval::TwoSeconds.duration_ms(), 2_000);
    assert_eq!(TimeInterval::OneMinute.duration_ms(), 60_000);
    assert_eq!(TimeInterval::FiveMinutes.duration_ms(), 300_000);
    assert_eq!(TimeInterval::FifteenMinutes.duration_ms(), 900_000);
    assert_eq!(TimeInterval::OneHour.duration_ms(), 3_600_000);
    assert_eq!(TimeInterval::FourHours.duration_ms(), 14_400_000);
    assert_eq!(TimeInterval::OneDay.duration_ms(), 86_400_000);
    assert_eq!(TimeInterval::OneWeek.duration_ms(), 604_800_000);
    assert_eq!(TimeInterval::OneMonth.duration_ms(), 2_592_000_000);
}

#[test]
fn prices_are_ordered_by_their_ticks() {
    assert!(price(1) < price(2));
    assert!(price(2) > price(1));
    assert!(price(2) >= price(2));
    assert!(price(2) <= price(2));
    assert!(!(price(3) < price(3)));
    assert_eq!(price(5).partial_cmp(&price(7)), Some(std::cmp::Ordering::Less));
    assert_eq!(price(7).partial_cmp(&price(5)), Some(std::cmp::Ordering::Greater));
    assert_eq!(price(7).partial_cmp(&price(7)), Some(std::cmp::Ordering::Equal));
    assert_eq!(price(7), price(7));
}
