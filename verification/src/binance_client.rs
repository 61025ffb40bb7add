//! What the exchange client decides without touching the network: the
//! addresses it talks to, and the candle that a kline record stands for.

use vstd::prelude::*;
use vstd::utf8::encode_utf8;
use crate::decimal::parse_decimal;
use crate::decimal::parsed;
use crate::market_data::Candle;
use crate::market_data::candle_views;
use crate::market_data::CandleView;
use crate::market_data::OHLCV;
use crate::market_data::OhlcvView;
use crate::market_data::Price;
use crate::market_data::Symbol;
use crate::market_data::TimeInterval;
use crate::market_data::Timestamp;
use crate::market_data::to_uppercase;
use crate::market_data::uppercase_of;
use crate::market_data::Volume;

verus! {

/// The lower-case form of a text, as `str::to_lowercase` gives it.
pub uninterp spec fn lowercase_of(text: Seq<char>) -> Seq<char>;

/// Calls `str::to_lowercase`. The result is the Unicode lower-case mapping of
/// the argument, a function of the text alone.
#[verifier::external_body]
fn to_lowercase(text: &str) -> (lower: String)
    ensures
        lower@ == lowercase_of(text@),
{
    text.to_lowercase()
}

/// Calls `String::push_str`, which appends the characters of `tail` to
/// `text`.
#[verifier::external_body]
fn push_str(text: &mut String, tail: &str)
    ensures
        final(text)@ == old(text)@ + tail@,
{
    text.push_str(tail)
}

/// The character of a digit.
pub open spec fn digit_char(d: int) -> char {
    if d == 0 {
        '0'
    } else if d == 1 {
        '1'
    } else if d == 2 {
        '2'
    } else if d == 3 {
        '3'
    } else if d == 4 {
        '4'
    } else if d == 5 {
        '5'
    } else if d == 6 {
        '6'
    } else if d == 7 {
        '7'
    } else if d == 8 {
        '8'
    } else {
        '9'
    }
}

/// A number in decimal digits, without leading zeros.
pub open spec fn decimal_text(n: nat) -> Seq<char>
    decreases n,
{
    if n < 10 {
        seq![digit_char(n as int)]
    } else {
        decimal_text(n / 10).push(digit_char((n % 10) as int))
    }
}

/// Calls `u64`'s `to_string`, which writes the number in decimal digits,
/// without sign or leading zeros.
#[verifier::external_body]
fn number_text(n: u64) -> (text: String)
    ensures
        text@ == decimal_text(n as nat),
{
    n.to_string()
}

/// Where the live stream is served.
pub open spec fn stream_base() -> Seq<char> {
    "wss://stream.binance.com:9443/ws/"@
}

/// Where the history of candles is served.
pub open spec fn history_base() -> Seq<char> {
    "https://api.binance.com/api/v3/klines?symbol="@
}

/// The name of the stream of a pair's candles, from the pair's name in lower
/// case.
pub open spec fn spec_stream_name(lower: Seq<char>, interval: TimeInterval) -> Seq<char> {
    lower + "@kline_"@ + interval.binance_name()
}

/// The address that the history of a pair's candles is fetched from, from the
/// pair's name in upper case.
pub open spec fn spec_history_url(upper: Seq<char>, interval: TimeInterval, limit: u32) -> Seq<
    char,
> {
    history_base() + upper + "&interval="@ + interval.binance_name() + "&limit="@ + decimal_text(
        limit as nat,
    )
}

/// The address that the history before a given time is fetched from, from
/// the pair's name in upper case.
pub open spec fn spec_history_url_before(
    upper: Seq<char>,
    interval: TimeInterval,
    end_time: u64,
    limit: u32,
) -> Seq<char> {
    history_base() + upper + "&interval="@ + interval.binance_name() + "&endTime="@ + decimal_text(
        end_time as nat,
    ) + "&limit="@ + decimal_text(limit as nat)
}

/// The name of the stream of a pair's candles: the pair in lower case,
/// `@kline_`, and the interval.
pub fn stream_name_of(lower: &str, interval: TimeInterval) -> (name: String)
    ensures
        name@ == spec_stream_name(lower@, interval),
{
    let mut name = lower.to_owned();
    push_str(&mut name, "@kline_");
    push_str(&mut name, interval.to_binance_str());
    name
}

/// The address of the stream of the given name.
pub fn stream_url_of(name: &str) -> (url: String)
    ensures
        url@ == stream_base() + name@,
{
    let mut url = "wss://stream.binance.com:9443/ws/".to_owned();
    push_str(&mut url, name);
    url
}

/// The address that the latest `limit` candles of a pair are fetched from.
pub fn history_url_of(upper: &str, interval: TimeInterval, limit: u32) -> (url: String)
    ensures
        url@ == spec_history_url(upper@, interval, limit),
{
    let mut url = "https://api.binance.com/api/v3/klines?symbol=".to_owned();
    push_str(&mut url, upper);
    push_str(&mut url, "&interval=");
    push_str(&mut url, interval.to_binance_str());
    push_str(&mut url, "&limit=");
    let count = number_text(limit as u64);
    push_str(&mut url, count.as_str());
    url
}

/// The address that the last `limit` candles of a pair before `end_time` are
/// fetched from.
pub fn history_url_before_of(
    upper: &str,
    interval: TimeInterval,
    end_time: u64,
    limit: u32,
) -> (url: String)
    ensures
        url@ == spec_history_url_before(upper@, interval, end_time, limit),
{
    let mut url = "https://api.binance.com/api/v3/klines?symbol=".to_owned();
    push_str(&mut url, upper);
    push_str(&mut url, "&interval=");
    push_str(&mut url, interval.to_binance_str());
    push_str(&mut url, "&endTime=");
    let end = number_text(end_time);
    push_str(&mut url, end.as_str());
    push_str(&mut url, "&limit=");
    let count = number_text(limit as u64);
    push_str(&mut url, count.as_str());
    url
}

/// A client for the candles of one pair at one interval.
#[derive(Clone, Debug)]
pub struct BinanceWebSocketClient {
    symbol: Symbol,
    interval: TimeInterval,
}

impl BinanceWebSocketClient {
    /// The pair that the client is for.
    pub closed spec fn spec_symbol(self) -> Seq<char> {
        self.symbol@
    }

    /// The interval that the client is for.
    pub closed spec fn spec_interval(self) -> TimeInterval {
        self.interval
    }

    /// A client for the given pair and interval.
    pub fn new(symbol: Symbol, interval: TimeInterval) -> (client: BinanceWebSocketClient)
        ensures
            client.spec_symbol() == symbol@,
            client.spec_interval() == interval,
    {
        BinanceWebSocketClient { symbol, interval }
    }

    /// The pair that the client is for.
    pub fn symbol(&self) -> (s: &Symbol)
        ensures
            s@ == self.spec_symbol(),
    {
        &self.symbol
    }

    /// The interval that the client is for.
    pub fn interval(&self) -> (i: TimeInterval)
        ensures
            i == self.spec_interval(),
    {
        self.interval
    }

    /// The name of the client's stream.
    pub fn stream_name(&self) -> (name: String)
        ensures
            name@ == spec_stream_name(lowercase_of(self.spec_symbol()), self.spec_interval()),
    {
        let lower = to_lowercase(self.symbol.value());
        stream_name_of(lower.as_str(), self.interval)
    }

    /// The address of the client's stream.
    pub fn stream_url(&self) -> (url: String)
        ensures
            url@ == stream_base() + spec_stream_name(
                lowercase_of(self.spec_symbol()),
                self.spec_interval(),
            ),
    {
        let name = self.stream_name();
        stream_url_of(name.as_str())
    }

    /// The address that the latest `limit` candles are fetched from.
    pub fn history_url(&self, limit: u32) -> (url: String)
        ensures
            url@ == spec_history_url(
                uppercase_of(self.spec_symbol()),
                self.spec_interval(),
                limit,
            ),
    {
        let upper = to_uppercase(self.symbol.value());
        history_url_of(upper.as_str(), self.interval, limit)
    }

    /// The address that the last `limit` candles before `end_time` are
    /// fetched from.
    pub fn history_url_before(&self, end_time: u64, limit: u32) -> (url: String)
        ensures
            url@ == spec_history_url_before(
                uppercase_of(self.spec_symbol()),
                self.spec_interval(),
                end_time,
                limit,
            ),
    {
        let upper = to_uppercase(self.symbol.value());
        history_url_before_of(upper.as_str(), self.interval, end_time, limit)
    }
}

/// A client for the pair and the interval of the given names. The pair is
/// taken in upper case; the interval has to be one that the exchange knows.
pub fn create_binance_stream(symbol: &str, interval: &str) -> (r: Result<
    BinanceWebSocketClient,
    String,
>)
    ensures
        match r {
            Ok(client) => {
                &&& client.spec_symbol() == uppercase_of(symbol@)
                &&& client.spec_interval().binance_name() == interval@
            },
            Err(message) => {
                &&& forall|known: TimeInterval| known.binance_name() != interval@
                &&& message@ == "Invalid interval: "@ + interval@
            },
        },
{
    match TimeInterval::from_binance_str(interval) {
        Some(known) => Ok(BinanceWebSocketClient::new(Symbol::from_name(symbol), known)),
        None => {
            let mut message = "Invalid interval: ".to_owned();
            push_str(&mut message, interval);
            Err(message)
        },
    }
}

/// Why a kline record is no candle.
#[derive(Clone, Copy, Debug, PartialEq, Eq, Structural)]
pub enum KlineError {
    /// The open price is no decimal number within the limit.
    InvalidOpen,
    /// The high price is no decimal number within the limit.
    InvalidHigh,
    /// The low price is no decimal number within the limit.
    InvalidLow,
    /// The close price is no decimal number within the limit.
    InvalidClose,
    /// The volume is no decimal number within the limit.
    InvalidVolume,
    /// The prices break `low <= open, close <= high`.
    Inconsistent,
}

impl KlineError {
    /// The error in words.
    pub open spec fn spec_message(self) -> Seq<char> {
        match self {
            KlineError::InvalidOpen => "Invalid open price"@,
            KlineError::InvalidHigh => "Invalid high price"@,
            KlineError::InvalidLow => "Invalid low price"@,
            KlineError::InvalidClose => "Invalid close price"@,
            KlineError::InvalidVolume => "Invalid volume"@,
            KlineError::Inconsistent => "Inconsistent prices"@,
        }
    }

    /// The error in words.
    pub fn message(&self) -> (text: &'static str)
        ensures
            text@ == self.spec_message(),
    {
        match self {
            KlineError::InvalidOpen => "Invalid open price",
            KlineError::InvalidHigh => "Invalid high price",
            KlineError::InvalidLow => "Invalid low price",
            KlineError::InvalidClose => "Invalid close price",
            KlineError::InvalidVolume => "Invalid volume",
            KlineError::Inconsistent => "Inconsistent prices",
        }
    }
}

/// The candle that a kline record stands for: its five numbers read as
/// decimals, in the order open, high, low, close, volume, the first that
/// cannot be read deciding the error; then the record has to be consistent.
pub open spec fn kline_candle(
    open_time: u64,
    open: Seq<u8>,
    high: Seq<u8>,
    low: Seq<u8>,
    close: Seq<u8>,
    volume: Seq<u8>,
) -> Result<CandleView, KlineError> {
    if parsed(open) is None {
        Err(KlineError::InvalidOpen)
    } else if parsed(high) is None {
        Err(KlineError::InvalidHigh)
    } else if parsed(low) is None {
        Err(KlineError::InvalidLow)
    } else if parsed(close) is None {
        Err(KlineError::InvalidClose)
    } else if parsed(volume) is None {
        Err(KlineError::InvalidVolume)
    } else {
        let record = OhlcvView {
            open: parsed(open)->0 as int,
            high: parsed(high)->0 as int,
            low: parsed(low)->0 as int,
            close: parsed(close)->0 as int,
            volume: parsed(volume)->0 as int,
        };
        if record.is_valid() {
            Ok(CandleView { timestamp: open_time as int, ohlcv: record })
        } else {
            Err(KlineError::Inconsistent)
        }
    }
}

/// Builds the candle that a kline record stands for.
pub fn candle_from_kline(
    open_time: u64,
    open: &str,
    high: &str,
    low: &str,
    close: &str,
    volume: &str,
) -> (r: Result<Candle, KlineError>)
    ensures
        kline_candle(
            open_time,
            encode_utf8(open@),
            encode_utf8(high@),
            encode_utf8(low@),
            encode_utf8(close@),
            encode_utf8(volume@),
        ) == match r {
            Ok(candle) => Ok::<CandleView, KlineError>(candle@),
            Err(e) => Err::<CandleView, KlineError>(e),
        },
{
    let open_ticks: i64 = match parse_decimal(open.as_bytes()) {
        Some(t) => t,
        None => {
            return Err(KlineError::InvalidOpen);
        },
    };
    let high_ticks: i64 = match parse_decimal(high.as_bytes()) {
        Some(t) => t,
        None => {
            return Err(KlineError::InvalidHigh);
        },
    };
    let low_ticks: i64 = match parse_decimal(low.as_bytes()) {
        Some(t) => t,
        None => {
            return Err(KlineError::InvalidLow);
        },
    };
    let close_ticks: i64 = match parse_decimal(close.as_bytes()) {
        Some(t) => t,
        None => {
            return Err(KlineError::InvalidClose);
        },
    };
    let volume_ticks: i64 = match parse_decimal(volume.as_bytes()) {
        Some(t) => t,
        None => {
            return Err(KlineError::InvalidVolume);
        },
    };
    let record = match (
        Price::validate(open_ticks),
        Price::validate(high_ticks),
        Price::validate(low_ticks),
        Price::validate(close_ticks),
        Volume::validate(volume_ticks),
    ) {
        (Ok(o), Ok(h), Ok(l), Ok(c), Ok(v)) => OHLCV::new(o, h, l, c, v),
        _ => {
            return Err(KlineError::Inconsistent);
        },
    };
    match Candle::new(Timestamp(open_time), record) {
        Ok(candle) => Ok(candle),
        Err(_) => Err(KlineError::Inconsistent),
    }
}

/// A kline record as the exchange sends it: the start of the bucket, and the
/// five numbers in decimal text.
#[derive(Clone, Debug, PartialEq, Eq)]
pub struct KlineRecord {
    pub open_time: u64,
    pub open: String,
    pub high: String,
    pub low: String,
    pub close: String,
    pub volume: String,
}

impl KlineRecord {
    /// The candle that the record stands for.
    pub open spec fn candle(self) -> Result<CandleView, KlineError> {
        kline_candle(
            self.open_time,
            encode_utf8(self.open@),
            encode_utf8(self.high@),
            encode_utf8(self.low@),
            encode_utf8(self.close@),
            encode_utf8(self.volume@),
        )
    }

    /// Builds the candle that the record stands for.
    pub fn to_candle(&self) -> (r: Result<Candle, KlineError>)
        ensures
            self.candle() == match r {
                Ok(candle) => Ok::<CandleView, KlineError>(candle@),
                Err(e) => Err::<CandleView, KlineError>(e),
            },
    {
        candle_from_kline(
            self.open_time,
            self.open.as_str(),
            self.high.as_str(),
            self.low.as_str(),
            self.close.as_str(),
            self.volume.as_str(),
        )
    }
}

/// The candles that a run of records stands for, in order; or the error of
/// the first record that is no candle.
pub open spec fn kline_candles(records: Seq<KlineRecord>) -> Result<Seq<CandleView>, KlineError>
    decreases records.len(),
{
    if records.len() == 0 {
        Ok(Seq::empty())
    } else {
        match kline_candles(records.drop_last()) {
            Err(e) => Err(e),
            Ok(candles) => match records.last().candle() {
                Err(e) => Err(e),
                Ok(c) => Ok(candles.push(c)),
            },
        }
    }
}

/// Builds the candles of a fetched history. One record that is no candle
/// fails the whole history.
pub fn candles_from_klines(records: &Vec<KlineRecord>) -> (r: Result<Vec<Candle>, KlineError>)
    ensures
        kline_candles(records@) == match r {
            Ok(candles) => Ok::<Seq<CandleView>, KlineError>(
                candle_views(candles@),
            ),
            Err(e) => Err::<Seq<CandleView>, KlineError>(e),
        },
{
    let mut candles: Vec<Candle> = Vec::new();
    let mut i: usize = 0;
    assert(records@.take(0) =~= Seq::empty());
    assert(candle_views(candles@) =~= Seq::empty());
    while i < records.len()
        invariant
            i <= records.len(),
            kline_candles(records@.take(i as int)) == Ok::<Seq<CandleView>, KlineError>(
                candle_views(candles@),
            ),
        decreases records.len() - i,
    {
        let ghost so_far = candle_views(candles@);
        proof {
            let next = records@.take(i + 1);
            assert(next.drop_last() =~= records@.take(i as int));
            assert(next.last() == records@[i as int]);
        }
        match records[i].to_candle() {
            Ok(candle) => {
                candles.push(candle);
                assert(candle_views(candles@) =~= so_far.push(candle@));
            },
            Err(e) => {
                proof {
                    lemma_kline_error_stays(records@, i + 1);
                }
                return Err(e);
            },
        }
        i = i + 1;
    }
    assert(records@.take(records.len() as int) =~= records@);
    Ok(candles)
}

/// Once a record is no candle, records that follow do not change the error.
pub proof fn lemma_kline_error_stays(records: Seq<KlineRecord>, n: int)
    requires
        0 <= n <= records.len(),
        kline_candles(records.take(n)) is Err,
    ensures
        kline_candles(records) == kline_candles(records.take(n)),
    decreases records.len() - n,
{
    if n < records.len() {
        let next = records.take(n + 1);
        assert(next.drop_last() =~= records.take(n));
        lemma_kline_error_stays(records, n + 1);
    } else {
        assert(records.take(n) =~= records);
    }
}

/// What arrives on the stream.
#[derive(Clone, Debug, PartialEq, Eq)]
pub enum StreamMessage {
    /// A text message that holds a kline record.
    Kline(KlineRecord),
    /// A text message that holds none.
    Unreadable,
    /// A message that is not text.
    Binary,
    /// The connection failed.
    Failure,
}

/// What is done about a message.
#[derive(Clone, Copy, Debug, PartialEq)]
pub enum StreamAction {
    /// The candle is handed on.
    Deliver(Candle),
    /// The message is passed over; the stream goes on.
    Skip,
    /// The stream ends.
    Stop,
}

/// Decides what is done about a message: a record that stands for a candle is
/// handed on, a failed connection ends the stream, and everything else is
/// passed over.
pub fn on_stream_message(message: &StreamMessage) -> (action: StreamAction)
    ensures
        match action {
            StreamAction::Deliver(candle) => message matches StreamMessage::Kline(record)
                && record.candle() == Ok::<CandleView, KlineError>(candle@),
            StreamAction::Skip => match message {
                StreamMessage::Kline(record) => record.candle() is Err,
                StreamMessage::Unreadable => true,
                StreamMessage::Binary => true,
                StreamMessage::Failure => false,
            },
            StreamAction::Stop => message is Failure,
        },
{
    match message {
        StreamMessage::Kline(record) => match record.to_candle() {
            Ok(candle) => StreamAction::Deliver(candle),
            Err(_) => StreamAction::Skip,
        },
        StreamMessage::Unreadable => StreamAction::Skip,
        StreamMessage::Binary => StreamAction::Skip,
        StreamMessage::Failure => StreamAction::Stop,
    }
}

} // verus!
