//! What the streams speak of: exchanges, instruments, trades, bars, and the
//! events that consumers receive.

use crate::depth::{Book, Depth};
use crate::price::{round_to_tick, MinTicksize, Price};
use vstd::prelude::*;
use vstd::string::StringExecFns;

verus! {

/// The longest symbol that is accepted for an instrument, in characters.
pub const MAX_SYMBOL_LEN: usize = 28;

/// An exchange that market data comes from.
#[derive(Clone, Copy, Debug, PartialEq, Eq, Structural, Hash)]
pub enum Exchange {
    Forex,
}

/// The kind of market an instrument trades on.
#[derive(Clone, Copy, Debug, PartialEq, Eq, Structural, Hash)]
pub enum MarketKind {
    Spot,
    LinearPerps,
    InversePerps,
}

/// The unit that quantities are reported in: the base asset, or the quote
/// asset.
#[derive(Clone, Copy, Debug, PartialEq, Eq, Structural, Hash)]
pub enum SizeUnit {
    Base,
    Quote,
}

/// How often the exchange is asked to push depth.
#[derive(Clone, Copy, Debug, PartialEq, Eq, Structural, Hash)]
pub enum PushFrequency {
    ServerDefault,
    Custom(Timeframe),
}

/// Who aggregates depth into ticks: the exchange, or this side.
#[derive(Clone, Copy, Debug, PartialEq, Eq, Structural, Hash)]
pub enum StreamTicksize {
    ServerSide,
    Client,
}

/// The length of a bar.
#[derive(Clone, Copy, Debug, PartialEq, Eq, Structural, Hash)]
pub enum Timeframe {
    MS100,
    MS200,
    MS500,
    MS1000,
    M1,
    M3,
    M5,
    M15,
    M30,
    H1,
    H2,
    H4,
    H6,
    H12,
    D1,
}

impl Timeframe {
    /// The length of the bar in milliseconds.
    pub open spec fn spec_milliseconds(self) -> u64 {
        match self {
            Timeframe::MS100 => 100,
            Timeframe::MS200 => 200,
            Timeframe::MS500 => 500,
            Timeframe::MS1000 => 1_000,
            Timeframe::M1 => 60_000,
            Timeframe::M3 => 180_000,
            Timeframe::M5 => 300_000,
            Timeframe::M15 => 900_000,
            Timeframe::M30 => 1_800_000,
            Timeframe::H1 => 3_600_000,
            Timeframe::H2 => 7_200_000,
            Timeframe::H4 => 14_400_000,
            Timeframe::H6 => 21_600_000,
            Timeframe::H12 => 43_200_000,
            Timeframe::D1 => 86_400_000,
        }
    }

    /// The name by which the exchange knows the bar length.
    pub open spec fn spec_name(self) -> Seq<char> {
        match self {
            Timeframe::MS100 => "100ms"@,
            Timeframe::MS200 => "200ms"@,
            Timeframe::MS500 => "500ms"@,
            Timeframe::MS1000 => "1000ms"@,
            Timeframe::M1 => "1m"@,
            Timeframe::M3 => "3m"@,
            Timeframe::M5 => "5m"@,
            Timeframe::M15 => "15m"@,
            Timeframe::M30 => "30m"@,
            Timeframe::H1 => "1h"@,
            Timeframe::H2 => "2h"@,
            Timeframe::H4 => "4h"@,
            Timeframe::H6 => "6h"@,
            Timeframe::H12 => "12h"@,
            Timeframe::D1 => "1d"@,
        }
    }

    /// The length of the bar in milliseconds.
    pub fn to_milliseconds(self) -> (ms: u64)
        ensures
            ms == self.spec_milliseconds(),
            ms > 0,
    {
        match self {
            Timeframe::MS100 => 100,
            Timeframe::MS200 => 200,
            Timeframe::MS500 => 500,
            Timeframe::MS1000 => 1_000,
            Timeframe::M1 => 60_000,
            Timeframe::M3 => 180_000,
            Timeframe::M5 => 300_000,
            Timeframe::M15 => 900_000,
            Timeframe::M30 => 1_800_000,
            Timeframe::H1 => 3_600_000,
            Timeframe::H2 => 7_200_000,
            Timeframe::H4 => 14_400_000,
            Timeframe::H6 => 21_600_000,
            Timeframe::H12 => 43_200_000,
            Timeframe::D1 => 86_400_000,
        }
    }

    /// The name by which the exchange knows the bar length.
    pub fn as_str(self) -> (name: &'static str)
        ensures
            name@ == self.spec_name(),
    {
        match self {
            Timeframe::MS100 => "100ms",
            Timeframe::MS200 => "200ms",
            Timeframe::MS500 => "500ms",
            Timeframe::MS1000 => "1000ms",
            Timeframe::M1 => "1m",
            Timeframe::M3 => "3m",
            Timeframe::M5 => "5m",
            Timeframe::M15 => "15m",
            Timeframe::M30 => "30m",
            Timeframe::H1 => "1h",
            Timeframe::H2 => "2h",
            Timeframe::H4 => "4h",
            Timeframe::H6 => "6h",
            Timeframe::H12 => "12h",
            Timeframe::D1 => "1d",
        }
    }
}

/// An instrument on an exchange.
#[derive(Debug, PartialEq, Eq, Hash)]
pub struct Ticker {
    pub symbol: String,
    pub exchange: Exchange,
    pub display: Option<String>,
}

impl Clone for Ticker {
    fn clone(&self) -> (r: Self)
        ensures
            r == *self,
    {
        let display = match &self.display {
            Some(d) => Some(d.clone()),
            None => None,
        };
        Ticker { symbol: self.symbol.clone(), exchange: self.exchange, display }
    }
}

impl Ticker {
    /// The instrument `symbol` on `exchange`, shown under its symbol.
    pub fn new(symbol: &str, exchange: Exchange) -> (r: Ticker)
        ensures
            r.symbol@ == symbol@,
            r.exchange == exchange,
            r.display is None,
    {
        Ticker { symbol: String::from_str(symbol), exchange, display: None }
    }

    /// The instrument `symbol` on `exchange`, shown under `display` where
    /// one is given.
    pub fn new_with_display(symbol: &str, exchange: Exchange, display: Option<&str>) -> (r: Ticker)
        ensures
            r.symbol@ == symbol@,
            r.exchange == exchange,
            match display {
                Some(d) => r.display is Some && r.display->0@ == d@,
                None => r.display is None,
            },
    {
        let display = match display {
            Some(d) => Some(String::from_str(d)),
            None => None,
        };
        Ticker { symbol: String::from_str(symbol), exchange, display }
    }

    /// The symbol as the exchange writes it, and the kind of market.
    pub fn to_full_symbol_and_type(&self) -> (r: (String, MarketKind))
        ensures
            r.0@ == self.symbol@,
            r.1 == market_of(self.exchange),
    {
        (self.symbol.clone(), market_kind(self.exchange))
    }

    /// Two tickers name the same instrument: the same symbol on the same
    /// exchange.
    pub open spec fn same_instrument(&self, other: &Ticker) -> bool {
        self.symbol@ == other.symbol@ && self.exchange == other.exchange
    }

    /// Whether two tickers name the same instrument.
    pub fn is_same_instrument(&self, other: &Ticker) -> (r: bool)
        ensures
            r == self.same_instrument(other),
    {
        self.symbol == other.symbol && self.exchange == other.exchange
    }
}

/// The kind of market that an exchange trades.
pub open spec fn market_of(exchange: Exchange) -> MarketKind {
    match exchange {
        Exchange::Forex => MarketKind::LinearPerps,
    }
}

/// The kind of market that an exchange trades.
pub fn market_kind(exchange: Exchange) -> (r: MarketKind)
    ensures
        r == market_of(exchange),
{
    match exchange {
        Exchange::Forex => MarketKind::LinearPerps,
    }
}

/// An instrument with the sizes that the exchange sets for it: the tick,
/// the smallest quantity, and the size of one contract where the
/// instrument trades in contracts. Quantities are in atomic units.
#[derive(Debug)]
pub struct TickerInfo {
    pub ticker: Ticker,
    pub min_ticksize: MinTicksize,
    pub min_qty: u64,
    pub contract_size: Option<u64>,
}

impl Clone for TickerInfo {
    fn clone(&self) -> (r: Self)
        ensures
            r == *self,
    {
        TickerInfo {
            ticker: self.ticker.clone(),
            min_ticksize: self.min_ticksize,
            min_qty: self.min_qty,
            contract_size: self.contract_size,
        }
    }
}

impl TickerInfo {
    /// The instrument with its sizes.
    pub fn new(ticker: Ticker, min_ticksize: MinTicksize, min_qty: u64, contract_size: Option<u64>) -> (r:
        TickerInfo)
        ensures
            r == (TickerInfo { ticker, min_ticksize, min_qty, contract_size }),
    {
        TickerInfo { ticker, min_ticksize, min_qty, contract_size }
    }

    /// The exchange that the instrument trades on.
    pub fn exchange(&self) -> (r: Exchange)
        ensures
            r == self.ticker.exchange,
    {
        self.ticker.exchange
    }
}

/// One print: when, at what price, how much, and whether the taker sold.
#[derive(Clone, Copy, Debug, PartialEq, Eq, Structural)]
pub struct Trade {
    pub time: u64,
    pub is_sell: bool,
    pub price: Price,
    pub qty: u64,
}

/// One bar. The volume is split into what takers bought and what takers
/// sold.
#[derive(Clone, Copy, Debug, PartialEq, Eq)]
pub struct Kline {
    pub time: u64,
    pub open: Price,
    pub high: Price,
    pub low: Price,
    pub close: Price,
    pub volume: (u64, u64),
}

impl Kline {
    /// The bar with its prices rounded to the tick.
    pub open spec fn spec_new(
        time: u64,
        open: Price,
        high: Price,
        low: Price,
        close: Price,
        volume: (u64, u64),
        tick: MinTicksize,
    ) -> Kline {
        Kline {
            time,
            open: Price { units: round_to_tick(open.units as int, tick.units as int) as i64 },
            high: Price { units: round_to_tick(high.units as int, tick.units as int) as i64 },
            low: Price { units: round_to_tick(low.units as int, tick.units as int) as i64 },
            close: Price { units: round_to_tick(close.units as int, tick.units as int) as i64 },
            volume,
        }
    }

    /// The bar with its prices rounded to the tick.
    pub fn new(
        time: u64,
        open: Price,
        high: Price,
        low: Price,
        close: Price,
        volume: (u64, u64),
        min_ticksize: MinTicksize,
    ) -> (r: Kline)
        ensures
            r == Kline::spec_new(time, open, high, low, close, volume, min_ticksize),
    {
        Kline {
            time,
            open: open.round_to_min_tick(min_ticksize),
            high: high.round_to_min_tick(min_ticksize),
            low: low.round_to_min_tick(min_ticksize),
            close: close.round_to_min_tick(min_ticksize),
            volume,
        }
    }
}

/// Open interest at one time, in atomic units.
#[derive(Clone, Copy, Debug, PartialEq, Eq, Structural)]
pub struct OpenInterest {
    pub time: u64,
    pub value: u64,
}

/// The statistics of an instrument over the last day: the last price, the
/// change of the price in percent, and the volume in the quote asset, each
/// in atomic units.
#[derive(Clone, Copy, Debug, PartialEq, Eq, Structural)]
pub struct TickerStats {
    pub mark_price: Price,
    pub daily_price_chg: i64,
    pub daily_volume: u64,
}

/// The stream that an event belongs to.
#[derive(Debug)]
pub enum StreamKind {
    Kline { ticker_info: TickerInfo, timeframe: Timeframe },
    DepthAndTrades { ticker_info: TickerInfo, depth_aggr: StreamTicksize, push_freq: PushFrequency },
}

/// Why a request to the exchange came to nothing.
#[derive(Debug)]
pub enum AdapterError {
    /// The request failed on the network or was refused.
    FetchError(String),
    /// The answer could not be read.
    ParseError(String),
    /// The streaming connection could not be set up or broke.
    WebsocketError(String),
}

impl AdapterError {
    /// What the error says, as it is shown to a user.
    pub open spec fn spec_message(&self) -> Seq<char> {
        match self {
            AdapterError::FetchError(e) => "Fetch error: "@ + e@,
            AdapterError::ParseError(e) => "Parsing error: "@ + e@,
            AdapterError::WebsocketError(e) => "Stream error: "@ + e@,
        }
    }

    /// What the error says, as it is shown to a user.
    pub fn message(&self) -> (r: String)
        ensures
            r@ == self.spec_message(),
    {
        match self {
            AdapterError::FetchError(e) => String::from_str("Fetch error: ").concat(e.as_str()),
            AdapterError::ParseError(e) => String::from_str("Parsing error: ").concat(e.as_str()),
            AdapterError::WebsocketError(e) => String::from_str("Stream error: ").concat(
                e.as_str(),
            ),
        }
    }
}

/// What a stream tells its consumers.
#[derive(Debug)]
pub enum Event {
    /// The stream of the exchange is up.
    Connected(Exchange),
    /// The stream of the exchange is down, and why.
    Disconnected(Exchange, String),
    /// The book as it stood at a time, with the trades since the book was
    /// last sent.
    DepthReceived(StreamKind, u64, Depth, Vec<Trade>),
    /// A bar.
    KlineReceived(StreamKind, Kline),
}

/// What an event says, over the models of what it carries.
pub enum EventView {
    Connected(Exchange),
    Disconnected(Exchange, Seq<char>),
    DepthReceived(StreamKind, u64, Book, Seq<Trade>),
    KlineReceived(StreamKind, Kline),
}

impl View for Event {
    type V = EventView;

    open spec fn view(&self) -> EventView {
        match self {
            Event::Connected(exchange) => EventView::Connected(*exchange),
            Event::Disconnected(exchange, reason) => EventView::Disconnected(*exchange, reason@),
            Event::DepthReceived(kind, time, depth, trades) => EventView::DepthReceived(
                *kind,
                *time,
                depth@,
                trades@,
            ),
            Event::KlineReceived(kind, kline) => EventView::KlineReceived(*kind, *kline),
        }
    }
}

} // verus!
