//! Value objects of the market-data domain.
//!
//! Prices and volumes are held in fixed point: one tick is `1 / PRICE_SCALE` of
//! the quote currency, so every comparison and every sum in the library is
//! exact. A value is checked once, when it is built; a `Candle` that exists
//! always carries a consistent record.

use vstd::prelude::*;

verus! {

/// Ticks per unit of the quote currency.
pub const PRICE_SCALE: i64 = 100_000_000;

/// Largest number of ticks a price may hold.
pub const PRICE_LIMIT: i64 = 100_000_000_000_000_000;

/// Largest number of ticks a volume may hold.
pub const VOLUME_LIMIT: i64 = 100_000_000_000_000_000;

/// Why a value was refused at construction.
#[derive(Clone, Copy, Debug, PartialEq, Eq, Structural)]
pub enum ValidationError {
    /// The price is negative or above `PRICE_LIMIT`.
    InvalidPrice(i64),
    /// The volume is negative or above `VOLUME_LIMIT`.
    InvalidVolume(i64),
    /// The record breaks `low <= open, close <= high`.
    InvalidOhlcv,
}

/// A price in ticks, never negative and never above `PRICE_LIMIT`.
#[derive(Clone, Copy, Debug, PartialEq, Eq)]
pub struct Price {
    ticks: i64,
}

impl View for Price {
    type V = int;

    closed spec fn view(&self) -> int {
        self.ticks as int
    }
}

impl Price {
    /// Whether `ticks` is an admissible price.
    pub open spec fn admits(ticks: int) -> bool {
        0 <= ticks <= PRICE_LIMIT
    }

    #[verifier::type_invariant]
    spec fn inv(self) -> bool {
        Self::admits(self.ticks as int)
    }

    /// Accepts `ticks` exactly when it is admissible.
    pub fn validate(ticks: i64) -> (r: Result<Price, ValidationError>)
        ensures
            match r {
                Ok(p) => Self::admits(ticks as int) && p@ == ticks,
                Err(e) => !Self::admits(ticks as int) && e == ValidationError::InvalidPrice(ticks),
            },
    {
        if 0 <= ticks && ticks <= PRICE_LIMIT {
            Ok(Price { ticks })
        } else {
            Err(ValidationError::InvalidPrice(ticks))
        }
    }

    /// The price of an admissible number of ticks.
    pub(crate) fn from_ticks(ticks: i64) -> (p: Price)
        requires
            Self::admits(ticks as int),
        ensures
            p@ == ticks,
    {
        Price { ticks }
    }

    /// The price in ticks.
    pub fn value(&self) -> (t: i64)
        ensures
            t == self@,
            Self::admits(t as int),
    {
        proof {
            use_type_invariant(self);
        }
        self.ticks
    }
}

/// A traded volume in ticks, never negative and never above `VOLUME_LIMIT`.
#[derive(Clone, Copy, Debug, PartialEq, Eq)]
pub struct Volume {
    ticks: i64,
}

impl View for Volume {
    type V = int;

    closed spec fn view(&self) -> int {
        self.ticks as int
    }
}

impl Volume {
    /// Whether `ticks` is an admissible volume.
    pub open spec fn admits(ticks: int) -> bool {
        0 <= ticks <= VOLUME_LIMIT
    }

    #[verifier::type_invariant]
    spec fn inv(self) -> bool {
        Self::admits(self.ticks as int)
    }

    /// Accepts `ticks` exactly when it is admissible.
    pub fn validate(ticks: i64) -> (r: Result<Volume, ValidationError>)
        ensures
            match r {
                Ok(v) => Self::admits(ticks as int) && v@ == ticks,
                Err(e) => !Self::admits(ticks as int) && e == ValidationError::InvalidVolume(ticks),
            },
    {
        if 0 <= ticks && ticks <= VOLUME_LIMIT {
            Ok(Volume { ticks })
        } else {
            Err(ValidationError::InvalidVolume(ticks))
        }
    }

    /// The volume in ticks.
    pub fn value(&self) -> (t: i64)
        ensures
            t == self@,
            Self::admits(t as int),
    {
        proof {
            use_type_invariant(self);
        }
        self.ticks
    }
}

/// Milliseconds since the epoch: the one key by which candles are ordered and
/// told apart.
#[derive(Clone, Copy, Debug, PartialEq, Eq, Structural)]
pub struct Timestamp(pub u64);

impl Timestamp {
    /// The timestamp in milliseconds.
    pub fn value(&self) -> (ms: u64)
        ensures
            ms == self.0,
    {
        self.0
    }

    /// The timestamp of `value` milliseconds.
    pub fn from_millis(value: u64) -> (t: Timestamp)
        ensures
            t == Timestamp(value),
    {
        Timestamp(value)
    }

    /// The timestamp of `millis` milliseconds; every count is accepted.
    pub fn from_milliseconds(millis: u64) -> (r: Result<Timestamp, String>)
        ensures
            r == Ok::<Timestamp, String>(Timestamp(millis)),
    {
        Ok(Timestamp(millis))
    }
}

/// The mathematical content of an `OHLCV` record, in ticks.
pub struct OhlcvView {
    pub open: int,
    pub high: int,
    pub low: int,
    pub close: int,
    pub volume: int,
}

impl OhlcvView {
    /// `low <= open, close <= high`, and the volume is not negative.
    pub open spec fn is_valid(self) -> bool {
        &&& self.high >= self.open
        &&& self.high >= self.close
        &&& self.high >= self.low
        &&& self.low <= self.open
        &&& self.low <= self.close
        &&& self.volume >= 0
    }

    /// Every component is within the range its type admits.
    pub open spec fn in_range(self) -> bool {
        &&& Price::admits(self.open)
        &&& Price::admits(self.high)
        &&& Price::admits(self.low)
        &&& Price::admits(self.close)
        &&& Volume::admits(self.volume)
    }
}

/// Open, high, low and close price of one interval, and the volume traded in it.
#[derive(Clone, Copy, Debug, PartialEq)]
pub struct OHLCV {
    pub open: Price,
    pub high: Price,
    pub low: Price,
    pub close: Price,
    pub volume: Volume,
}

impl View for OHLCV {
    type V = OhlcvView;

    open spec fn view(&self) -> OhlcvView {
        OhlcvView {
            open: self.open@,
            high: self.high@,
            low: self.low@,
            close: self.close@,
            volume: self.volume@,
        }
    }
}

impl OHLCV {
    /// Puts the five components together, unchecked: see `is_valid`.
    pub fn new(open: Price, high: Price, low: Price, close: Price, volume: Volume) -> (r: OHLCV)
        ensures
            r == (OHLCV { open, high, low, close, volume }),
    {
        OHLCV { open, high, low, close, volume }
    }

    /// Whether the record is consistent.
    pub fn is_valid(&self) -> (ok: bool)
        ensures
            ok == self@.is_valid(),
            self@.in_range(),
    {
        proof {
            use_type_invariant(&self.open);
            use_type_invariant(&self.high);
            use_type_invariant(&self.low);
            use_type_invariant(&self.close);
            use_type_invariant(&self.volume);
        }
        self.high >= self.open && self.high >= self.close && self.high >= self.low && self.low
            <= self.open && self.low <= self.close && self.volume.value() >= 0
    }
}

/// The mathematical content of a `Candle`.
pub struct CandleView {
    pub timestamp: int,
    pub ohlcv: OhlcvView,
}

impl CandleView {
    /// The record is consistent and in range.
    pub open spec fn wf(self) -> bool {
        &&& 0 <= self.timestamp <= u64::MAX
        &&& self.ohlcv.is_valid()
        &&& self.ohlcv.in_range()
    }

    /// The close is not below the open.
    pub open spec fn is_bullish(self) -> bool {
        self.ohlcv.close >= self.ohlcv.open
    }
}

/// One consistent OHLCV record for one time bucket. It cannot be changed once
/// built: an update replaces the whole candle.
#[derive(Clone, Copy, Debug, PartialEq)]
pub struct Candle {
    timestamp: Timestamp,
    ohlcv: OHLCV,
}

impl View for Candle {
    type V = CandleView;

    closed spec fn view(&self) -> CandleView {
        CandleView { timestamp: self.timestamp.0 as int, ohlcv: self.ohlcv@ }
    }
}

/// The contents of a run of candles.
pub open spec fn candle_views(candles: Seq<Candle>) -> Seq<CandleView> {
    candles.map_values(|c: Candle| c@)
}

impl Candle {
    #[verifier::type_invariant]
    spec fn inv(self) -> bool {
        self.ohlcv@.is_valid()
    }

    /// Builds the candle exactly when the record is consistent.
    pub fn new(timestamp: Timestamp, ohlcv: OHLCV) -> (r: Result<Candle, ValidationError>)
        ensures
            match r {
                Ok(c) => ohlcv@.is_valid() && c@ == (CandleView {
                    timestamp: timestamp.0 as int,
                    ohlcv: ohlcv@,
                }) && c@.wf(),
                Err(e) => !ohlcv@.is_valid() && e == ValidationError::InvalidOhlcv,
            },
    {
        if ohlcv.is_valid() {
            Ok(Candle { timestamp, ohlcv })
        } else {
            Err(ValidationError::InvalidOhlcv)
        }
    }

    /// The start of the candle's time bucket.
    pub fn timestamp(&self) -> (t: Timestamp)
        ensures
            t.0 == self@.timestamp,
            self@.wf(),
    {
        proof {
            use_type_invariant(self);
            use_type_invariant(&self.ohlcv.open);
            use_type_invariant(&self.ohlcv.high);
            use_type_invariant(&self.ohlcv.low);
            use_type_invariant(&self.ohlcv.close);
            use_type_invariant(&self.ohlcv.volume);
        }
        self.timestamp
    }

    /// The candle's record.
    pub fn ohlcv(&self) -> (o: OHLCV)
        ensures
            o@ == self@.ohlcv,
            self@.wf(),
    {
        proof {
            use_type_invariant(self);
            use_type_invariant(&self.ohlcv.open);
            use_type_invariant(&self.ohlcv.high);
            use_type_invariant(&self.ohlcv.low);
            use_type_invariant(&self.ohlcv.close);
            use_type_invariant(&self.ohlcv.volume);
        }
        self.ohlcv
    }
}

/// The upper-case form of a text, as `str::to_uppercase` gives it.
pub uninterp spec fn uppercase_of(text: Seq<char>) -> Seq<char>;

/// Calls `str::to_uppercase`. The result is the Unicode upper-case mapping of
/// the argument, a function of the text alone.
#[verifier::external_body]
pub(crate) fn to_uppercase(text: &str) -> (upper: String)
    ensures
        upper@ == uppercase_of(text@),
{
    text.to_uppercase()
}

/// Compares two texts with `str`'s `==`: equal exactly when they hold the same
/// characters.
#[verifier::external_body]
pub(crate) fn str_eq(a: &str, b: &str) -> (same: bool)
    ensures
        same == (a@ == b@),
{
    a == b
}

/// The name of a traded pair, in upper case.
#[derive(Clone, Debug, PartialEq, Eq, Hash)]
pub struct Symbol(String);

impl View for Symbol {
    type V = Seq<char>;

    closed spec fn view(&self) -> Seq<char> {
        self.0@
    }
}

impl Symbol {
    /// Takes a name that is not empty, and holds it in upper case.
    pub fn new(symbol: String) -> (r: Result<Symbol, String>)
        ensures
            match r {
                Ok(s) => symbol@.len() > 0 && s@ == uppercase_of(symbol@),
                Err(e) => symbol@.len() == 0 && e@ == "Symbol cannot be empty"@,
            },
    {
        if symbol.as_str().is_empty() {
            return Err("Symbol cannot be empty".to_owned());
        }
        Ok(Symbol(to_uppercase(symbol.as_str())))
    }

    /// Holds `name` in upper case, whatever it is.
    pub fn from_name(name: &str) -> (s: Symbol)
        ensures
            s@ == uppercase_of(name@),
    {
        Symbol(to_uppercase(name))
    }

    /// The name.
    pub fn value(&self) -> (name: &str)
        ensures
            name@ == self@,
    {
        self.0.as_str()
    }
}

impl From<&str> for Symbol {
    fn from(value: &str) -> (s: Symbol) {
        Symbol::from_name(value)
    }
}

impl vstd::std_specs::convert::FromSpecImpl<&str> for Symbol {
    open spec fn obeys_from_spec() -> bool {
        false
    }

    open spec fn from_spec(value: &str) -> Symbol {
        arbitrary()
    }
}

/// The pairs that are offered by default.
pub fn default_symbols() -> (symbols: Vec<Symbol>)
    ensures
        symbols@.len() == 3,
        symbols@[0]@ == uppercase_of("BTCUSDT"@),
        symbols@[1]@ == uppercase_of("ETHUSDT"@),
        symbols@[2]@ == uppercase_of("SOLUSDT"@),
{
    let mut symbols: Vec<Symbol> = Vec::new();
    symbols.push(Symbol::from_name("BTCUSDT"));
    symbols.push(Symbol::from_name("ETHUSDT"));
    symbols.push(Symbol::from_name("SOLUSDT"));
    symbols
}

/// The length of a candle's time bucket.
#[derive(Clone, Copy, Debug, PartialEq, Eq, Hash, Structural)]
pub enum TimeInterval {
    TwoSeconds,
    OneMinute,
    FiveMinutes,
    FifteenMinutes,
    OneHour,
    FourHours,
    OneDay,
    OneWeek,
    OneMonth,
}

impl TimeInterval {
    /// The interval's name on the exchange.
    pub open spec fn binance_name(self) -> Seq<char> {
        match self {
            TimeInterval::TwoSeconds => "2s"@,
            TimeInterval::OneMinute => "1m"@,
            TimeInterval::FiveMinutes => "5m"@,
            TimeInterval::FifteenMinutes => "15m"@,
            TimeInterval::OneHour => "1h"@,
            TimeInterval::FourHours => "4h"@,
            TimeInterval::OneDay => "1d"@,
            TimeInterval::OneWeek => "1w"@,
            TimeInterval::OneMonth => "1M"@,
        }
    }

    /// The interval's length in seconds; a month counts thirty days.
    pub open spec fn seconds(self) -> int {
        match self {
            TimeInterval::TwoSeconds => 2,
            TimeInterval::OneMinute => 60,
            TimeInterval::FiveMinutes => 300,
            TimeInterval::FifteenMinutes => 900,
            TimeInterval::OneHour => 3_600,
            TimeInterval::FourHours => 14_400,
            TimeInterval::OneDay => 86_400,
            TimeInterval::OneWeek => 604_800,
            TimeInterval::OneMonth => 2_592_000,
        }
    }

    /// The interval's name on the exchange.
    pub fn to_binance_str(&self) -> (name: &'static str)
        ensures
            name@ == self.binance_name(),
    {
        match self {
            TimeInterval::TwoSeconds => "2s",
            TimeInterval::OneMinute => "1m",
            TimeInterval::FiveMinutes => "5m",
            TimeInterval::FifteenMinutes => "15m",
            TimeInterval::OneHour => "1h",
            TimeInterval::FourHours => "4h",
            TimeInterval::OneDay => "1d",
            TimeInterval::OneWeek => "1w",
            TimeInterval::OneMonth => "1M",
        }
    }

    /// The interval with the given exchange name, if there is one.
    pub fn from_binance_str(name: &str) -> (r: Option<TimeInterval>)
        ensures
            match r {
                Some(interval) => interval.binance_name() == name@,
                None => forall|interval: TimeInterval| interval.binance_name() != name@,
            },
    {
        if str_eq(name, "2s") {
            Some(TimeInterval::TwoSeconds)
        } else if str_eq(name, "1m") {
            Some(TimeInterval::OneMinute)
        } else if str_eq(name, "5m") {
            Some(TimeInterval::FiveMinutes)
        } else if str_eq(name, "15m") {
            Some(TimeInterval::FifteenMinutes)
        } else if str_eq(name, "1h") {
            Some(TimeInterval::OneHour)
        } else if str_eq(name, "4h") {
            Some(TimeInterval::FourHours)
        } else if str_eq(name, "1d") {
            Some(TimeInterval::OneDay)
        } else if str_eq(name, "1w") {
            Some(TimeInterval::OneWeek)
        } else if str_eq(name, "1M") {
            Some(TimeInterval::OneMonth)
        } else {
            None
        }
    }

    /// The interval's length in milliseconds.
    pub fn duration_ms(&self) -> (ms: u64)
        ensures
            ms == self.seconds() * 1000,
    {
        match self {
            TimeInterval::TwoSeconds => 2 * 1000,
            TimeInterval::OneMinute => 60 * 1000,
            TimeInterval::FiveMinutes => 5 * 60 * 1000,
            TimeInterval::FifteenMinutes => 15 * 60 * 1000,
            TimeInterval::OneHour => 60 * 60 * 1000,
            TimeInterval::FourHours => 4 * 60 * 60 * 1000,
            TimeInterval::OneDay => 24 * 60 * 60 * 1000,
            TimeInterval::OneWeek => 7 * 24 * 60 * 60 * 1000,
            TimeInterval::OneMonth => 30 * 24 * 60 * 60 * 1000,
        }
    }
}

} // verus!
