use candle_chart::indicators::exponential_moving_average;
use candle_chart::indicators::moving_average;
use candle_chart::indicators::simple_moving_average;
use candle_chart::indicators::IndicatorPoint;
use candle_chart::indicators::LineVisibility;
use candle_chart::market_data::Candle;
use candle_chart::market_data::Price;
use candle_chart::market_data::Timestamp;
use candle_chart::market_data::Volume;
use candle_chart::market_data::OHLCV;
use candle_chart::market_data::PRICE_LIMIT;
use candle_chart::vertex::IndicatorType;

fn point(index: usize, value: i64) -> IndicatorPoint {
    IndicatorPoint { index, value: Price::validate(value).unwrap() }
}

fn closing_at(index: usize, close: i64) -> Candle {
    let p = Price::validate(close).unwrap();
    let volume = Volume::validate(1).unwrap();
    Candle::new(Timestamp(index as u64), OHLCV::new(p, p, p, p, volume)).unwrap()
}

fn with_closes(closes: &[i64]) -> Vec<Candle> {
    closes.iter().enumerate().map(|(i, c)| closing_at(i, *c)).collect()
}

fn ascending(count: usize) -> Vec<Candle> {
    let closes: Vec<i64> = (1..=count as i64).map(|k| k * 100_000_000).collect();
    with_closes(&closes)
}

#[test]
fn sma_20_over_25_candles_has_6_points() {
    let points = simple_moving_average(&ascending(25), 20);
    assert_eq!(points.len(), 25 - 20 + 1);
    assert_eq!(points.len(), 6);
    assert_eq!(moving_average(&ascending(25), IndicatorType::Sma20).len(), 6);
}

#[test]
fn sma_20_over_10_candles_has_no_points() {
    assert_eq!(simple_moving_average(&ascending(10), 20).len(), 0);
    assert_eq!(moving_average(&ascending(10), IndicatorType::Sma20), Vec::new());
    assert_eq!(simple_moving_average(&ascending(19), 20).len(), 0);
}

#[test]
fn sma_values_are_the_window_means() {
    let points = simple_moving_average(&ascending(25), 20);
    assert_eq!(points[0], point(19, 1_050_000_000));
    assert_eq!(points[1], point(20, 1_150_000_000));
    assert_eq!(points[5], point(24, 1_550_000_000));
}

#[test]
fn sma_rounds_down() {
    let points = simple_moving_average(&with_closes(&[1, 2, 4, 8]), 3);
    assert_eq!(
        points,
        vec![point(2, 2), point(3, 4)]
    );
}

#[test]
fn sma_of_window_as_long_as_the_run_has_one_point() {
    let points = simple_moving_average(&with_closes(&[10, 20, 30]), 3);
    assert_eq!(points, vec![point(2, 20)]);
}

#[test]
fn sma_of_period_one_is_the_closes() {
    let points = simple_moving_average(&with_closes(&[7, 9, 11]), 1);
    assert_eq!(
        points,
        vec![
            point(0, 7),
            point(1, 9),
            point(2, 11),
        ]
    );
}

#[test]
fn zero_period_gives_no_points() {
    assert_eq!(simple_moving_average(&ascending(5), 0), Vec::new());
    assert_eq!(exponential_moving_average(&ascending(5), 0), Vec::new());
}

#[test]
fn empty_run_gives_no_points() {
    assert_eq!(simple_moving_average(&Vec::new(), 20), Vec::new());
    assert_eq!(exponential_moving_average(&Vec::new(), 12), Vec::new());
    assert_eq!(simple_moving_average(&Vec::new(), 1), Vec::new());
    assert_eq!(exponential_moving_average(&Vec::new(), 1), Vec::new());
}

#[test]
fn sma_at_the_price_limit_does_not_overflow() {
    let candles = with_closes(&[PRICE_LIMIT; 250]);
    let points = simple_moving_average(&candles, 200);
    assert_eq!(points.len(), 51);
    assert!(points.iter().all(|p| p.value.value() == PRICE_LIMIT));
}

#[test]
fn ema_follows_the_recurrence() {
    // k = 2 / 3: 3, then (2 * 6 + 3) / 3 = 5, then (2 * 9 + 5) / 3 = 7 (rounded down).
    let points = exponential_moving_average(&with_closes(&[3, 6, 9]), 2);
    assert_eq!(
        points,
        vec![point(1, 5), point(2, 7)]
    );
}

#[test]
fn ema_seed_values_are_not_shown() {
    let points = exponential_moving_average(&ascending(25), 12);
    assert_eq!(points.len(), 25 - 12 + 1);
    assert_eq!(points[0].index, 11);
    assert_eq!(points[13].index, 24);
    assert_eq!(exponential_moving_average(&ascending(11), 12).len(), 0);
}

#[test]
fn ema_12_value_is_exact() {
    // Seeded with 0, then every close is 13: the average moves 2 / 13 of the way each time.
    let mut closes = vec![0i64];
    closes.extend(std::iter::repeat(13).take(11));
    let points = exponential_moving_average(&with_closes(&closes), 12);
    // 2, 3, 4, 5, 6, 7, 7, ...: (26 + 11 * 7) / 13 = 7 (rounded down).
    let mut ema = 0i64;
    for _ in 0..11 {
        ema = (2 * 13 + 11 * ema) / 13;
    }
    assert_eq!(ema, 7);
    assert_eq!(points, vec![point(11, 7)]);
}

#[test]
fn ema_of_constant_closes_is_constant() {
    let points = exponential_moving_average(&with_closes(&[500; 40]), 26);
    assert_eq!(points.len(), 15);
    assert!(points.iter().all(|p| p.value.value() == 500));
    let at_limit = exponential_moving_average(&with_closes(&[PRICE_LIMIT; 30]), 12);
    assert!(at_limit.iter().all(|p| p.value.value() == PRICE_LIMIT));
}

#[test]
fn ema_of_period_one_is_the_closes() {
    let points = exponential_moving_average(&with_closes(&[7, 9, 11]), 1);
    assert_eq!(
        points,
        vec![
            point(0, 7),
            point(1, 9),
            point(2, 11),
        ]
    );
}

#[test]
fn each_indicator_has_its_period() {
    assert_eq!(IndicatorType::Sma20.period(), 20);
    assert_eq!(IndicatorType::Sma50.period(), 50);
    assert_eq!(IndicatorType::Sma200.period(), 200);
    assert_eq!(IndicatorType::Ema12.period(), 12);
    assert_eq!(IndicatorType::Ema26.period(), 26);
    assert!(!IndicatorType::Sma20.is_exponential());
    assert!(IndicatorType::Ema12.is_exponential());
    assert_eq!(moving_average(&ascending(60), IndicatorType::Sma50).len(), 11);
    assert_eq!(moving_average(&ascending(60), IndicatorType::Sma200).len(), 0);
    assert_eq!(moving_average(&ascending(60), IndicatorType::Ema26).len(), 35);
    assert_eq!(
        moving_average(&ascending(60), IndicatorType::Ema12),
        exponential_moving_average(&ascending(60), 12)
    );
}

#[test]
fn every_line_is_shown_by_default() {
    let v = LineVisibility::default();
    assert!(v.sma_20 && v.sma_50 && v.sma_200 && v.ema_12 && v.ema_26);
    let only = LineVisibility { sma_20: false, sma_50: true, sma_200: false, ema_12: false, ema_26: true };
    assert!(!only.shows(IndicatorType::Sma20));
    assert!(only.shows(IndicatorType::Sma50));
    assert!(!only.shows(IndicatorType::Sma200));
    assert!(!only.shows(IndicatorType::Ema12));
    assert!(only.shows(IndicatorType::Ema26));
}
