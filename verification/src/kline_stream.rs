//! The stream of the bars of several instruments on one connection, as a
//! state machine that its driver feeds.

use crate::adapter::{
    exchange_from_market_type, ws_domain_from_market_type, SonicKline, StreamData, WS_DOMAIN,
};
use crate::market::{
    Event, EventView, Exchange, Kline, MarketKind, SizeUnit, StreamKind, Ticker, TickerInfo,
    Timeframe,
};
use crate::qty::{reported_volume, split_volume};
use crate::stream::{Directive, Outcome, OutcomeView, RECONNECT_BACKOFF_MS};
use crate::text::{lowercase_of, str_eq, to_lowercase};
use vstd::prelude::*;
use vstd::string::StringExecFns;

verus! {

/// The first stream from `i` on whose bars have the length that `interval`
/// names.
pub open spec fn first_timeframe_from(
    streams: Seq<(TickerInfo, Timeframe)>,
    interval: Seq<char>,
    i: int,
) -> Option<int>
    decreases streams.len() - i,
{
    if i < 0 || i >= streams.len() {
        None
    } else if streams[i].1.spec_name() == interval {
        Some(i)
    } else {
        first_timeframe_from(streams, interval, i + 1)
    }
}

/// The last stream among the first `n` that is of the instrument.
pub open spec fn last_instrument_upto(
    streams: Seq<(TickerInfo, Timeframe)>,
    ticker: Ticker,
    n: int,
) -> Option<int>
    decreases n,
{
    if n <= 0 || n > streams.len() {
        None
    } else if streams[n - 1].0.ticker.same_instrument(&ticker) {
        Some(n - 1)
    } else {
        last_instrument_upto(streams, ticker, n - 1)
    }
}

/// The name of the stream of the bars of an instrument, given its symbol
/// in lower case.
pub open spec fn kline_name(folded: Seq<char>, timeframe: Timeframe) -> Seq<char> {
    folded + "@kline_"@ + timeframe.spec_name()
}

/// The first `n` names, one after the other with `/` in between.
pub open spec fn joined_names(names: Seq<Seq<char>>, n: int) -> Seq<char>
    decreases n,
{
    if n <= 0 || n > names.len() {
        Seq::empty()
    } else if n == 1 {
        names[0]
    } else {
        joined_names(names, n - 1) + "/"@ + names[n - 1]
    }
}

/// The address of the stream that carries the streams of the names given.
pub open spec fn kline_address(names: Seq<Seq<char>>) -> Seq<char> {
    "wss://"@ + WS_DOMAIN@ + "/stream?streams="@ + joined_names(names, names.len() as int)
}

/// What each of the texts holds.
pub open spec fn texts(names: Seq<String>) -> Seq<Seq<char>> {
    Seq::new(names.len(), |i: int| names[i]@)
}

/// The names of the streams of the bars that are asked for.
pub open spec fn kline_stream_names(streams: Seq<(TickerInfo, Timeframe)>) -> Seq<Seq<char>> {
    Seq::new(
        streams.len(),
        |i: int| kline_name(lowercase_of(streams[i].0.ticker.symbol@), streams[i].1),
    )
}

/// The address of the stream of the bars.
pub open spec fn kline_stream_url(streams: Seq<(TickerInfo, Timeframe)>) -> Seq<char> {
    kline_address(kline_stream_names(streams))
}

/// Writes the name of the stream of the bars of an instrument, given its
/// symbol in lower case.
pub fn kline_stream_name(folded: &str, timeframe: Timeframe) -> (r: String)
    ensures
        r@ == kline_name(folded@, timeframe),
{
    let mut name = String::from_str(folded);
    name.append("@kline_");
    name.append(timeframe.as_str());
    name
}

/// Writes the address of the stream that carries the streams of the names
/// given.
pub fn kline_stream_address(names: &Vec<String>) -> (r: String)
    ensures
        r@ == kline_address(texts(names@)),
{
    let mut url = String::from_str("wss://");
    url.append(WS_DOMAIN);
    url.append("/stream?streams=");
    let ghost head = url@;
    let ghost all = texts(names@);
    let mut i: usize = 0;
    while i < names.len()
        invariant
            0 <= i <= names.len(),
            all == texts(names@),
            url@ == head + joined_names(all, i as int),
        decreases names.len() - i,
    {
        if i > 0 {
            url.append("/");
        }
        url.append(names[i].as_str());
        proof {
            assert(all[i as int] == names@[i as int]@);
            if i == 0 {
                assert(joined_names(all, 0) =~= Seq::<char>::empty());
                assert(url@ =~= head + joined_names(all, 1));
            } else {
                assert(url@ =~= head + joined_names(all, i + 1));
            }
        }
        i += 1;
    }
    url
}

/// What the stream says of a bar: nothing while there is no connection;
/// else the bar under the first stream whose bars have its length, for the
/// instrument as the last stream of that instrument describes it; nothing
/// where either is missing.
pub open spec fn kline_outcome(
    connected: bool,
    streams: Seq<(TickerInfo, Timeframe)>,
    size_in_quote_ccy: bool,
    ticker: Ticker,
    de_kline: SonicKline,
) -> OutcomeView {
    if !connected {
        OutcomeView::quiet()
    } else {
        match (
            first_timeframe_from(streams, de_kline.interval@, 0),
            last_instrument_upto(streams, ticker, streams.len() as int),
        ) {
            (Some(t), Some(j)) => OutcomeView::says(
                EventView::KlineReceived(
                    StreamKind::Kline { ticker_info: streams[j].0, timeframe: streams[t].1 },
                    Kline::spec_new(
                        de_kline.time,
                        de_kline.open,
                        de_kline.high,
                        de_kline.low,
                        de_kline.close,
                        reported_volume(
                            de_kline.volume,
                            de_kline.taker_buy_base_asset_volume,
                            de_kline.close,
                            size_in_quote_ccy,
                        ),
                        streams[j].0.min_ticksize,
                    ),
                ),
            ),
            _ => OutcomeView::quiet(),
        }
    }
}

/// The stream of the bars of several instruments.
#[derive(Debug)]
pub struct KlineStream {
    streams: Vec<(TickerInfo, Timeframe)>,
    market: MarketKind,
    size_unit: SizeUnit,
    connected: bool,
}

impl KlineStream {
    /// The instruments with the lengths of the bars that are asked for.
    pub closed spec fn streams(&self) -> Seq<(TickerInfo, Timeframe)> {
        self.streams@
    }

    /// Sizes are reported in the quote asset.
    pub closed spec fn size_in_quote_ccy(&self) -> bool {
        self.size_unit == SizeUnit::Quote
    }

    /// The stream has a connection.
    pub closed spec fn connected(&self) -> bool {
        self.connected
    }

    /// A stream before its first connection.
    pub fn new(streams: Vec<(TickerInfo, Timeframe)>, market: MarketKind, size_unit: SizeUnit) -> (r:
        KlineStream)
        ensures
            r.streams() == streams@,
            r.size_in_quote_ccy() == (size_unit == SizeUnit::Quote),
            !r.connected(),
    {
        KlineStream { streams, market, size_unit, connected: false }
    }

    /// Whether the stream has a connection.
    pub fn is_connected(&self) -> (r: bool)
        ensures
            r == self.connected(),
    {
        self.connected
    }

    /// The exchange of the stream.
    pub fn exchange(&self) -> (r: Exchange)
        ensures
            r == Exchange::Forex,
    {
        exchange_from_market_type(self.market)
    }

    /// Writes the address of the stream: the bars of all the instruments
    /// on one connection.
    pub fn stream_url(&self) -> (r: String)
        ensures
            r@ == kline_stream_url(self.streams()),
    {
        let mut names: Vec<String> = Vec::new();
        let mut i: usize = 0;
        while i < self.streams.len()
            invariant
                0 <= i <= self.streams.len(),
                names@.len() == i,
                forall|j: int|
                    0 <= j < i ==> (#[trigger] names@[j])@ == kline_stream_names(self.streams@)[j],
            decreases self.streams.len() - i,
        {
            let (symbol_str, _market) = self.streams[i].0.ticker.to_full_symbol_and_type();
            let lower = to_lowercase(symbol_str.as_str());
            names.push(kline_stream_name(lower.as_str(), self.streams[i].1));
            i += 1;
        }
        proof {
            assert(texts(names@) =~= kline_stream_names(self.streams@));
        }
        kline_stream_address(&names)
    }

    /// The driver could not connect: it waits, then says so.
    pub fn on_connect_failed(&self) -> (r: Outcome)
        ensures
            r@ == (OutcomeView {
                directive: Directive::Backoff(RECONNECT_BACKOFF_MS),
                event: Some(
                    EventView::Disconnected(Exchange::Forex, "Failed to connect to websocket"@),
                ),
            }),
    {
        Outcome {
            directive: Directive::Backoff(RECONNECT_BACKOFF_MS),
            event: Some(
                Event::Disconnected(
                    exchange_from_market_type(self.market),
                    String::from_str("Failed to connect to websocket"),
                ),
            ),
        }
    }

    /// The driver connected.
    pub fn on_connected(&mut self) -> (r: Outcome)
        ensures
            final(self).connected(),
            final(self).streams() == old(self).streams(),
            final(self).size_in_quote_ccy() == old(self).size_in_quote_ccy(),
            r@ == (if old(self).connected() {
                OutcomeView::quiet()
            } else {
                OutcomeView::says(EventView::Connected(Exchange::Forex))
            }),
    {
        if self.connected {
            return Outcome { directive: Directive::Continue, event: None };
        }
        self.connected = true;
        Outcome {
            directive: Directive::Continue,
            event: Some(Event::Connected(exchange_from_market_type(self.market))),
        }
    }

    /// The index of the first stream whose bars have the length that
    /// `interval` names.
    fn find_timeframe(&self, interval: &str) -> (r: Option<usize>)
        ensures
            r is Some == first_timeframe_from(self.streams(), interval@, 0) is Some,
            r is Some ==> first_timeframe_from(self.streams(), interval@, 0) == Some(r->0 as int)
                && r->0 < self.streams().len(),
    {
        let mut i: usize = 0;
        while i < self.streams.len()
            invariant
                0 <= i <= self.streams.len(),
                first_timeframe_from(self.streams@, interval@, 0) == first_timeframe_from(
                    self.streams@,
                    interval@,
                    i as int,
                ),
            decreases self.streams.len() - i,
        {
            if str_eq(self.streams[i].1.as_str(), interval) {
                return Some(i);
            }
            i += 1;
        }
        None
    }

    /// The index of the last stream of the instrument.
    fn find_instrument(&self, ticker: &Ticker) -> (r: Option<usize>)
        ensures
            r is Some == last_instrument_upto(
                self.streams(),
                *ticker,
                self.streams().len() as int,
            ) is Some,
            r is Some ==> last_instrument_upto(
                self.streams(),
                *ticker,
                self.streams().len() as int,
            ) == Some(r->0 as int) && r->0 < self.streams().len(),
    {
        let mut n: usize = self.streams.len();
        while n > 0
            invariant
                0 <= n <= self.streams.len(),
                last_instrument_upto(self.streams@, *ticker, self.streams@.len() as int)
                    == last_instrument_upto(self.streams@, *ticker, n as int),
            decreases n,
        {
            if self.streams[n - 1].0.ticker.is_same_instrument(ticker) {
                return Some(n - 1);
            }
            n -= 1;
        }
        None
    }

    /// A bar arrived.
    pub fn on_kline(&self, ticker: &Ticker, de_kline: &SonicKline) -> (r: Outcome)
        ensures
            r@ == kline_outcome(
                self.connected(),
                self.streams(),
                self.size_in_quote_ccy(),
                *ticker,
                *de_kline,
            ),
    {
        if !self.connected {
            return Outcome { directive: Directive::Continue, event: None };
        }
        let size_in_quote_ccy = self.size_unit == SizeUnit::Quote;
        let volume = split_volume(
            de_kline.volume,
            de_kline.taker_buy_base_asset_volume,
            de_kline.close,
            size_in_quote_ccy,
        );
        let found_timeframe = self.find_timeframe(de_kline.interval.as_str());
        let found_instrument = self.find_instrument(ticker);
        let ghost expected = kline_outcome(
            self.connected(),
            self.streams(),
            self.size_in_quote_ccy(),
            *ticker,
            *de_kline,
        );
        match found_timeframe {
            Some(t) => match found_instrument {
                Some(j) => {
                    let timeframe = self.streams[t].1;
                    let ticker_info = self.streams[j].0.clone();
                    let kline = Kline::new(
                        de_kline.time,
                        de_kline.open,
                        de_kline.high,
                        de_kline.low,
                        de_kline.close,
                        volume,
                        ticker_info.min_ticksize,
                    );
                    let r = Outcome {
                        directive: Directive::Continue,
                        event: Some(
                            Event::KlineReceived(
                                StreamKind::Kline { ticker_info, timeframe },
                                kline,
                            ),
                        ),
                    };
                    proof {
                        assert(first_timeframe_from(self.streams@, de_kline.interval@, 0) == Some(
                            t as int,
                        ));
                        assert(last_instrument_upto(
                            self.streams@,
                            *ticker,
                            self.streams@.len() as int,
                        ) == Some(j as int));
                        assert(r@.event == expected.event);
                    }
                    r
                },
                None => Outcome { directive: Directive::Continue, event: None },
            },
            None => Outcome { directive: Directive::Continue, event: None },
        }
    }

    /// A message arrived: a bar is passed on, anything else is none of this
    /// stream's.
    pub fn on_message(&self, data: &StreamData) -> (r: Outcome)
        ensures
            r@ == (match *data {
                StreamData::Kline(ticker, de_kline) => kline_outcome(
                    self.connected(),
                    self.streams(),
                    self.size_in_quote_ccy(),
                    ticker,
                    de_kline,
                ),
                _ => OutcomeView::quiet(),
            }),
    {
        match data {
            StreamData::Kline(ticker, de_kline) => self.on_kline(ticker, de_kline),
            _ => Outcome { directive: Directive::Continue, event: None },
        }
    }

    /// The connection goes for the reason given: one event, unless there
    /// was no connection.
    fn drop_connection(&mut self, reason: String) -> (r: Outcome)
        ensures
            !final(self).connected(),
            final(self).streams() == old(self).streams(),
            final(self).size_in_quote_ccy() == old(self).size_in_quote_ccy(),
            r@ == (if old(self).connected() {
                OutcomeView::says(EventView::Disconnected(Exchange::Forex, reason@))
            } else {
                OutcomeView::quiet()
            }),
    {
        if !self.connected {
            return Outcome { directive: Directive::Continue, event: None };
        }
        self.connected = false;
        Outcome {
            directive: Directive::Continue,
            event: Some(Event::Disconnected(exchange_from_market_type(self.market), reason)),
        }
    }

    /// The exchange closed the connection.
    pub fn on_close(&mut self) -> (r: Outcome)
        ensures
            !final(self).connected(),
            final(self).streams() == old(self).streams(),
            final(self).size_in_quote_ccy() == old(self).size_in_quote_ccy(),
            r@ == (if old(self).connected() {
                OutcomeView::says(EventView::Disconnected(Exchange::Forex, "Connection closed"@))
            } else {
                OutcomeView::quiet()
            }),
    {
        self.drop_connection(String::from_str("Connection closed"))
    }

    /// Reading a frame failed.
    pub fn on_read_error(&mut self, error: &str) -> (r: Outcome)
        ensures
            !final(self).connected(),
            final(self).streams() == old(self).streams(),
            final(self).size_in_quote_ccy() == old(self).size_in_quote_ccy(),
            r@ == (if old(self).connected() {
                OutcomeView::says(
                    EventView::Disconnected(Exchange::Forex, "Error reading frame: "@ + error@),
                )
            } else {
                OutcomeView::quiet()
            }),
    {
        self.drop_connection(String::from_str("Error reading frame: ").concat(error))
    }
}

} // verus!
