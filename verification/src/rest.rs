//! What is asked of the exchange over HTTP, and what is made of its
//! answers: the addresses of the requests with the weight that each costs,
//! and the records of the answers turned into bars, books and instruments.
//!
//! A record that lacks what is needed, or holds what cannot be read, is
//! left out; the records around it are not affected.

use crate::adapter::{reported_levels, report_levels};
use crate::depth::{DeOrder, DepthPayload};
use crate::market::{
    Exchange, Kline, OpenInterest, Ticker, TickerInfo, TickerStats, Timeframe, MAX_SYMBOL_LEN,
};
use crate::price::{MinTicksize, Price};
use crate::qty::{reported_volume, split_volume};
use crate::text::{
    append_decimal, decimal_text, ends_with, has_prefix, has_suffix, starts_with, str_eq,
    to_uppercase, trim_end_matches, trim_start_matches, uppercase_of, without_prefixes,
    without_suffixes,
};
use vstd::prelude::*;
use vstd::string::{StrSliceExecFns, StringExecFns};

verus! {

/// Where requests go.
pub const LINEAR_PERP_DOMAIN: &'static str = "https://fapi.binance.com";

/// The request weight that the exchange grants per window.
pub const LIMIT: usize = 2400;

/// The length of a window of request weight, in milliseconds.
pub const REFILL_RATE_MS: u64 = 60_000;

/// The weight of a request for a snapshot of the book.
pub const DEPTH_WEIGHT: usize = 20;

/// The weight of a request for bars.
pub const KLINES_WEIGHT: usize = 2;

/// The weight of a request for the instruments.
pub const EXCHANGE_INFO_WEIGHT: usize = 20;

/// The weight of a request for the statistics of the last day.
pub const TICKER_STATS_WEIGHT: usize = 40;

/// The weight of a request for open interest.
pub const OPEN_INTEREST_WEIGHT: usize = 12;

/// The most levels per side that a snapshot is asked for.
pub const DEPTH_LIMIT: u64 = 1000;

/// The most bars that one request is asked for.
pub const MAX_KLINES: u64 = 1000;

/// The intervals by which a range that is too short is widened on either
/// side.
pub const KLINES_PADDING: u64 = 5;

/// The bars that are asked for where no range is given.
pub const DEFAULT_KLINES: u64 = 400;

/// The most values of open interest that one request is asked for.
pub const MAX_OPEN_INTEREST: u64 = 500;

/// How far back the exchange keeps open interest: thirty days, in
/// milliseconds.
pub const OPEN_INTEREST_HISTORY_MS: u64 = 2_592_000_000;

/// `a - b`, or zero where `b` is the larger.
pub open spec fn sat_sub(a: u64, b: u64) -> u64 {
    if a >= b {
        (a - b) as u64
    } else {
        0
    }
}

/// `a + b`, or the largest `u64` where the sum lies beyond it.
pub open spec fn sat_add(a: u64, b: u64) -> u64 {
    if a + b > u64::MAX {
        u64::MAX
    } else {
        (a + b) as u64
    }
}

/// The lesser of two numbers.
pub open spec fn at_most(a: u64, cap: u64) -> u64 {
    if a > cap {
        cap
    } else {
        a
    }
}

/// The span of time that is asked for, with the number of items.
#[derive(Clone, Copy, Debug, PartialEq, Eq, Structural)]
pub struct Window {
    pub start: u64,
    pub end: u64,
    pub limit: u64,
}

/// The bars that are asked for to cover a range: as many as the range holds
/// intervals, a thousand at most; a range of fewer than three intervals is
/// widened by five intervals on either side.
pub open spec fn kline_window(start: u64, end: u64, timeframe: Timeframe) -> Window {
    let interval_ms = timeframe.spec_milliseconds();
    let n = at_most(sat_sub(end, start) / interval_ms, MAX_KLINES);
    if n < 3 {
        let pad = crate::qty::clamp_u64(interval_ms * KLINES_PADDING);
        let new_start = sat_sub(start, pad);
        let new_end = sat_add(end, pad);
        Window {
            start: new_start,
            end: new_end,
            limit: at_most(sat_sub(new_end, new_start) / interval_ms, MAX_KLINES),
        }
    } else {
        Window { start, end, limit: n }
    }
}

/// Works out the bars that are asked for to cover a range.
pub fn klines_window(start: u64, end: u64, timeframe: Timeframe) -> (r: Window)
    ensures
        r == kline_window(start, end, timeframe),
{
    let interval_ms: u64 = timeframe.to_milliseconds();
    let span: u64 = end.saturating_sub(start);
    let n: u64 = span / interval_ms;
    let n: u64 = if n > MAX_KLINES {
        MAX_KLINES
    } else {
        n
    };
    if n < 3 {
        let pad: u64 = match interval_ms.checked_mul(KLINES_PADDING) {
            Some(pad) => pad,
            None => u64::MAX,
        };
        let new_start: u64 = start.saturating_sub(pad);
        let new_end: u64 = end.saturating_add(pad);
        let m: u64 = new_end.saturating_sub(new_start) / interval_ms;
        let m: u64 = if m > MAX_KLINES {
            MAX_KLINES
        } else {
            m
        };
        Window { start: new_start, end: new_end, limit: m }
    } else {
        Window { start, end, limit: n }
    }
}

/// The values of open interest that are asked for to cover a range: the
/// range cut off where the history of the exchange ends, and as many values
/// as it then holds intervals, five hundred at most.
pub open spec fn open_interest_window(start: u64, end: u64, period: Timeframe, now_ms: u64) -> Window {
    let interval_ms = period.spec_milliseconds();
    let oldest = sat_sub(now_ms, OPEN_INTEREST_HISTORY_MS);
    let adjusted = if start < oldest {
        oldest
    } else {
        start
    };
    Window {
        start: adjusted,
        end,
        limit: at_most(sat_sub(end, adjusted) / interval_ms, MAX_OPEN_INTEREST),
    }
}

/// Works out the values of open interest that are asked for to cover a
/// range, the clock reading `now_ms` milliseconds since the epoch.
pub fn oi_window(start: u64, end: u64, period: Timeframe, now_ms: u64) -> (r: Window)
    ensures
        r == open_interest_window(start, end, period, now_ms),
{
    let interval_ms: u64 = period.to_milliseconds();
    let oldest: u64 = now_ms.saturating_sub(OPEN_INTEREST_HISTORY_MS);
    let adjusted: u64 = if start < oldest {
        oldest
    } else {
        start
    };
    let n: u64 = end.saturating_sub(adjusted) / interval_ms;
    let n: u64 = if n > MAX_OPEN_INTEREST {
        MAX_OPEN_INTEREST
    } else {
        n
    };
    Window { start: adjusted, end, limit: n }
}

/// The address of a snapshot of the book of an instrument, given its
/// symbol in upper case.
pub open spec fn depth_address(folded: Seq<char>) -> Seq<char> {
    LINEAR_PERP_DOMAIN@ + "/fapi/v1/depth"@ + "?symbol="@ + folded + "&limit="@ + decimal_text(
        DEPTH_LIMIT as nat,
    )
}

/// The address of a snapshot of the book.
pub open spec fn depth_url(symbol: Seq<char>) -> Seq<char> {
    depth_address(uppercase_of(symbol))
}

/// Writes the address of a snapshot of the book of an instrument, given
/// its symbol in upper case.
pub fn depth_request_address(folded: &str) -> (r: String)
    ensures
        r@ == depth_address(folded@),
{
    let mut url = String::from_str(LINEAR_PERP_DOMAIN);
    url.append("/fapi/v1/depth");
    url.append("?symbol=");
    url.append(folded);
    url.append("&limit=");
    append_decimal(&mut url, DEPTH_LIMIT);
    url
}

/// Writes the address of a snapshot of the book of an instrument.
pub fn depth_request_url(ticker: &Ticker) -> (r: String)
    ensures
        r@ == depth_url(ticker.symbol@),
{
    let (symbol_str, _market_type) = ticker.to_full_symbol_and_type();
    let upper = to_uppercase(symbol_str.as_str());
    depth_request_address(upper.as_str())
}

/// What of an address says which span of time is asked for.
pub open spec fn window_query(w: Window) -> Seq<char> {
    "&startTime="@ + decimal_text(w.start as nat) + "&endTime="@ + decimal_text(w.end as nat)
        + "&limit="@ + decimal_text(w.limit as nat)
}

/// Appends to an address the span of time that is asked for.
fn append_window(url: &mut String, w: Window)
    ensures
        final(url)@ == old(url)@ + window_query(w),
{
    url.append("&startTime=");
    append_decimal(url, w.start);
    url.append("&endTime=");
    append_decimal(url, w.end);
    url.append("&limit=");
    append_decimal(url, w.limit);
    proof {
        assert(final(url)@ =~= old(url)@ + window_query(w));
    }
}

/// The address of the bars of an instrument.
pub open spec fn klines_url(symbol: Seq<char>, timeframe: Timeframe, range: Option<(u64, u64)>) -> Seq<
    char,
> {
    let head = LINEAR_PERP_DOMAIN@ + "/fapi/v1/klines"@ + "?symbol="@ + symbol + "&interval="@
        + timeframe.spec_name();
    match range {
        Some((start, end)) => head + window_query(
            kline_window(start, end, timeframe),
        ),
        None => head + "&limit="@ + decimal_text(DEFAULT_KLINES as nat),
    }
}

/// Writes the address of the bars of an instrument, for a range of time or
/// for the latest bars.
pub fn klines_request_url(ticker: &Ticker, timeframe: Timeframe, range: Option<(u64, u64)>) -> (r:
    String)
    ensures
        r@ == klines_url(ticker.symbol@, timeframe, range),
{
    let (symbol_str, _market_type) = ticker.to_full_symbol_and_type();
    let mut url = String::from_str(LINEAR_PERP_DOMAIN);
    url.append("/fapi/v1/klines");
    url.append("?symbol=");
    url.append(symbol_str.as_str());
    url.append("&interval=");
    url.append(timeframe.as_str());
    match range {
        Some((start, end)) => {
            let w = klines_window(start, end, timeframe);
            append_window(&mut url, w);
        },
        None => {
            url.append("&limit=");
            append_decimal(&mut url, DEFAULT_KLINES);
        },
    }
    proof {
        assert(url@ =~= klines_url(ticker.symbol@, timeframe, range));
    }
    url
}

/// The address of the open interest of an instrument.
pub open spec fn open_interest_url(
    symbol: Seq<char>,
    period: Timeframe,
    range: Option<(u64, u64)>,
    now_ms: u64,
) -> Seq<char> {
    let head = LINEAR_PERP_DOMAIN@ + "/futures/data/openInterestHist"@ + "?symbol="@ + symbol
        + "&period="@ + period.spec_name();
    match range {
        Some((start, end)) => head + window_query(
            open_interest_window(start, end, period, now_ms),
        ),
        None => head + "&limit="@ + decimal_text(DEFAULT_KLINES as nat),
    }
}

/// Writes the address of the open interest of an instrument, for a range of
/// time or for the latest values, the clock reading `now_ms` milliseconds
/// since the epoch.
pub fn open_interest_request_url(
    ticker: &Ticker,
    range: Option<(u64, u64)>,
    period: Timeframe,
    now_ms: u64,
) -> (r: String)
    ensures
        r@ == open_interest_url(ticker.symbol@, period, range, now_ms),
{
    let (ticker_str, _market_type) = ticker.to_full_symbol_and_type();
    let mut url = String::from_str(LINEAR_PERP_DOMAIN);
    url.append("/futures/data/openInterestHist");
    url.append("?symbol=");
    url.append(ticker_str.as_str());
    url.append("&period=");
    url.append(period.as_str());
    match range {
        Some((start, end)) => {
            let w = oi_window(start, end, period, now_ms);
            append_window(&mut url, w);
        },
        None => {
            url.append("&limit=");
            append_decimal(&mut url, DEFAULT_KLINES);
        },
    }
    proof {
        assert(url@ =~= open_interest_url(ticker.symbol@, period, range, now_ms));
    }
    url
}

/// The address of the instruments of the exchange.
pub fn exchange_info_url() -> (r: String)
    ensures
        r@ == LINEAR_PERP_DOMAIN@ + "/fapi/v1/exchangeInfo"@,
{
    String::from_str(LINEAR_PERP_DOMAIN).concat("/fapi/v1/exchangeInfo")
}

/// The address of the statistics of the last day.
pub fn ticker_stats_url() -> (r: String)
    ensures
        r@ == LINEAR_PERP_DOMAIN@ + "/fapi/v1/ticker/24hr"@,
{
    String::from_str(LINEAR_PERP_DOMAIN).concat("/fapi/v1/ticker/24hr")
}

/// A snapshot of the book as the exchange sends it.
#[derive(Debug)]
pub struct FetchedPerpDepth {
    pub update_id: u64,
    pub time: u64,
    pub bids: Vec<DeOrder>,
    pub asks: Vec<DeOrder>,
}

/// The payload that a fetched snapshot makes: its levels as they are
/// reported, under its id.
pub open spec fn snapshot_payload(
    fetched: FetchedPerpDepth,
    contract_size: Option<u64>,
    size_in_quote_ccy: bool,
    payload: DepthPayload,
) -> bool {
    &&& payload.last_update_id == fetched.update_id
    &&& payload.time == fetched.time
    &&& payload.bids@ == reported_levels(fetched.bids@, contract_size, size_in_quote_ccy)
    &&& payload.asks@ == reported_levels(fetched.asks@, contract_size, size_in_quote_ccy)
}

/// Makes the payload of a fetched snapshot.
pub fn depth_from_fetched(
    fetched: &FetchedPerpDepth,
    contract_size: Option<u64>,
    size_in_quote_ccy: bool,
) -> (r: DepthPayload)
    ensures
        snapshot_payload(*fetched, contract_size, size_in_quote_ccy, r),
{
    DepthPayload {
        last_update_id: fetched.update_id,
        time: fetched.time,
        bids: report_levels(&fetched.bids, contract_size, size_in_quote_ccy),
        asks: report_levels(&fetched.asks, contract_size, size_in_quote_ccy),
    }
}

/// A bar as the exchange sends it on request: the volume whole, and the
/// part of it that takers bought.
#[derive(Clone, Copy, Debug, PartialEq, Eq, Structural)]
pub struct FetchedKlines {
    pub open_time: u64,
    pub open: Price,
    pub high: Price,
    pub low: Price,
    pub close: Price,
    pub volume: u64,
    pub close_time: u64,
    pub trades: u32,
    pub taker_buy_volume: u64,
}

impl FetchedKlines {
    /// The bar with its prices as they came and its volume in the base
    /// asset.
    pub open spec fn spec_kline(self) -> Kline {
        Kline {
            time: self.open_time,
            open: self.open,
            high: self.high,
            low: self.low,
            close: self.close,
            volume: reported_volume(self.volume, self.taker_buy_volume, self.close, false),
        }
    }

    /// The bar as it is reported for an instrument: the prices rounded to
    /// the tick, the volume in the unit that the setting asks for.
    pub open spec fn spec_reported(self, tick: MinTicksize, size_in_quote_ccy: bool) -> Kline {
        Kline::spec_new(
            self.open_time,
            self.open,
            self.high,
            self.low,
            self.close,
            reported_volume(self.volume, self.taker_buy_volume, self.close, size_in_quote_ccy),
            tick,
        )
    }

    /// Makes the bar with its prices as they came.
    pub fn to_kline(&self) -> (r: Kline)
        ensures
            r == self.spec_kline(),
    {
        Kline {
            time: self.open_time,
            open: self.open,
            high: self.high,
            low: self.low,
            close: self.close,
            volume: split_volume(self.volume, self.taker_buy_volume, self.close, false),
        }
    }

    /// Makes the bar as it is reported for an instrument.
    pub fn to_reported(&self, min_ticksize: MinTicksize, size_in_quote_ccy: bool) -> (r: Kline)
        ensures
            r == self.spec_reported(min_ticksize, size_in_quote_ccy),
    {
        Kline::new(
            self.open_time,
            self.open,
            self.high,
            self.low,
            self.close,
            split_volume(self.volume, self.taker_buy_volume, self.close, size_in_quote_ccy),
            min_ticksize,
        )
    }
}

/// Makes the bars of an instrument of what was fetched, one for one.
pub fn klines_from_fetched(
    fetched: &Vec<FetchedKlines>,
    ticker_info: &TickerInfo,
    size_in_quote_ccy: bool,
) -> (r: Vec<Kline>)
    ensures
        r@.len() == fetched@.len(),
        forall|i: int|
            0 <= i < fetched@.len() ==> r@[i] == fetched@[i].spec_reported(
                ticker_info.min_ticksize,
                size_in_quote_ccy,
            ),
{
    let mut klines: Vec<Kline> = Vec::new();
    let mut i: usize = 0;
    while i < fetched.len()
        invariant
            0 <= i <= fetched.len(),
            klines@.len() == i,
            forall|j: int|
                0 <= j < i ==> klines@[j] == fetched@[j].spec_reported(
                    ticker_info.min_ticksize,
                    size_in_quote_ccy,
                ),
        decreases fetched.len() - i,
    {
        let k = fetched[i];
        klines.push(k.to_reported(ticker_info.min_ticksize, size_in_quote_ccy));
        i += 1;
    }
    klines
}

/// Open interest as the exchange sends it.
#[derive(Clone, Copy, Debug, PartialEq, Eq, Structural)]
pub struct DeOpenInterest {
    pub time: u64,
    pub sum: u64,
}

/// Makes the open interest of what was fetched, one for one.
pub fn open_interest_from_fetched(fetched: &Vec<DeOpenInterest>) -> (r: Vec<OpenInterest>)
    ensures
        r@.len() == fetched@.len(),
        forall|i: int|
            0 <= i < fetched@.len() ==> r@[i] == (OpenInterest {
                time: fetched@[i].time,
                value: fetched@[i].sum,
            }),
{
    let mut out: Vec<OpenInterest> = Vec::new();
    let mut i: usize = 0;
    while i < fetched.len()
        invariant
            0 <= i <= fetched.len(),
            out@.len() == i,
            forall|j: int|
                0 <= j < i ==> out@[j] == (OpenInterest {
                    time: fetched@[j].time,
                    value: fetched@[j].sum,
                }),
        decreases fetched.len() - i,
    {
        let x = fetched[i];
        out.push(OpenInterest { time: x.time, value: x.sum });
        i += 1;
    }
    out
}

/// A character that a symbol may hold: an ASCII letter or digit, `_` or
/// `-`.
pub open spec fn is_symbol_char(c: char) -> bool {
    ('a' <= c && c <= 'z') || ('A' <= c && c <= 'Z') || ('0' <= c && c <= '9') || c == '_' || c
        == '-'
}

/// A symbol that can be kept: made of the characters that a symbol may
/// hold, and not too long.
pub open spec fn symbol_supported(symbol: Seq<char>) -> bool {
    symbol.len() <= MAX_SYMBOL_LEN && forall|i: int|
        0 <= i < symbol.len() ==> is_symbol_char(#[trigger] symbol[i])
}

/// Whether a symbol can be kept.
pub fn is_symbol_supported(symbol: &str) -> (r: bool)
    ensures
        r == symbol_supported(symbol@),
{
    let n: usize = symbol.unicode_len();
    if n > MAX_SYMBOL_LEN {
        return false;
    }
    let mut i: usize = 0;
    while i < n
        invariant
            0 <= i <= n,
            n == symbol@.len(),
            forall|j: int| 0 <= j < i ==> is_symbol_char(#[trigger] symbol@[j]),
        decreases n - i,
    {
        let c: char = symbol.get_char(i);
        let ok: bool = ('a' <= c && c <= 'z') || ('A' <= c && c <= 'Z') || ('0' <= c && c <= '9')
            || c == '_' || c == '-';
        if !ok {
            assert(!is_symbol_char(symbol@[i as int]));
            return false;
        }
        i += 1;
    }
    true
}

/// The currencies whose pairs are listed, as base assets.
pub open spec fn accepted_base_list() -> Seq<Seq<char>> {
    seq![
        "EUR"@,
        "GBP"@,
        "JPY"@,
        "1000JPY"@,
        "AUD"@,
        "CAD"@,
        "CHF"@,
        "NZD"@,
        "SGD"@,
        "HKD"@,
        "SEK"@,
        "NOK"@,
        "DKK"@,
        "ZAR"@,
        "TRY"@,
        "BRL"@,
        "MXN"@,
        "INR"@,
        "RUB"@,
        "KRW"@,
        "CNY"@,
        "IDR"@,
        "TWD"@,
        "THB"@,
        "VND"@,
    ]
}

/// The currencies whose pairs are listed, as base assets.
pub fn accepted_bases() -> (r: Vec<&'static str>)
    ensures
        r@.len() == accepted_base_list().len(),
        forall|i: int| 0 <= i < r@.len() ==> (#[trigger] r@[i])@ == accepted_base_list()[i],
{
    vec![
        "EUR",
        "GBP",
        "JPY",
        "1000JPY",
        "AUD",
        "CAD",
        "CHF",
        "NZD",
        "SGD",
        "HKD",
        "SEK",
        "NOK",
        "DKK",
        "ZAR",
        "TRY",
        "BRL",
        "MXN",
        "INR",
        "RUB",
        "KRW",
        "CNY",
        "IDR",
        "TWD",
        "THB",
        "VND",
    ]
}

/// The base asset is one of the currencies that are listed.
pub open spec fn accepted_base(base: Seq<char>) -> bool {
    exists|i: int| 0 <= i < accepted_base_list().len() && accepted_base_list()[i] == base
}

/// The symbol begins with one of the currencies that are listed.
pub open spec fn accepted_base_prefix(symbol: Seq<char>) -> bool {
    exists|i: int|
        0 <= i < accepted_base_list().len() && has_prefix(symbol, accepted_base_list()[i])
}

/// The asset that pairs are quoted in: a dollar stablecoin.
pub open spec fn accepted_quote(quote: Seq<char>) -> bool {
    quote == "USDT"@ || quote == "USDC"@
}

/// Whether the base asset is one of the currencies that are listed.
pub fn is_accepted_base(base: &str) -> (r: bool)
    ensures
        r == accepted_base(base@),
{
    let bases = accepted_bases();
    let mut i: usize = 0;
    while i < bases.len()
        invariant
            0 <= i <= bases.len(),
            bases@.len() == accepted_base_list().len(),
            forall|j: int| 0 <= j < bases@.len() ==> (#[trigger] bases@[j])@ == accepted_base_list()[j],
            forall|j: int| 0 <= j < i ==> accepted_base_list()[j] != base@,
        decreases bases.len() - i,
    {
        if str_eq(bases[i], base) {
            assert(accepted_base_list()[i as int] == base@);
            return true;
        }
        i += 1;
    }
    false
}

/// Whether the symbol begins with one of the currencies that are listed.
pub fn has_accepted_base_prefix(symbol: &str) -> (r: bool)
    ensures
        r == accepted_base_prefix(symbol@),
{
    let bases = accepted_bases();
    let mut i: usize = 0;
    while i < bases.len()
        invariant
            0 <= i <= bases.len(),
            bases@.len() == accepted_base_list().len(),
            forall|j: int| 0 <= j < bases@.len() ==> (#[trigger] bases@[j])@ == accepted_base_list()[j],
            forall|j: int| 0 <= j < i ==> !has_prefix(symbol@, accepted_base_list()[j]),
        decreases bases.len() - i,
    {
        if starts_with(symbol, bases[i]) {
            assert(has_prefix(symbol@, accepted_base_list()[i as int]));
            return true;
        }
        i += 1;
    }
    false
}

/// The symbol ends with a dollar stablecoin.
pub open spec fn dollar_quoted(symbol: Seq<char>) -> bool {
    has_suffix(symbol, "USDT"@) || has_suffix(symbol, "USDC"@)
}

/// The name that an instrument is shown under, given its base asset: for a
/// pair quoted in a dollar stablecoin the base, without the multiplier that
/// the exchange puts before it, against the dollar; else the symbol.
pub open spec fn display_name(symbol: Seq<char>, base: Seq<char>) -> Seq<char> {
    if dollar_quoted(symbol) {
        without_prefixes(base, "1000"@) + "USD"@
    } else {
        symbol
    }
}

/// The name that an instrument is shown under where only its symbol is
/// known: what is left of the symbol without the stablecoin at its end and
/// the multiplier at its beginning, against the dollar.
pub open spec fn display_name_of_symbol(symbol: Seq<char>) -> Seq<char> {
    without_prefixes(without_suffixes(without_suffixes(symbol, "USDT"@), "USDC"@), "1000"@)
        + "USD"@
}

/// A number that an answer should hold.
#[derive(Clone, Copy, Debug, PartialEq, Eq, Structural)]
pub enum Reading {
    /// The answer does not hold it.
    Missing,
    /// The answer holds something that is no number.
    Unreadable,
    /// The number, in atomic units.
    Value(i64),
}

/// What the exchange says of one instrument.
#[derive(Debug)]
pub struct SymbolRecord {
    pub symbol: Option<String>,
    pub status: Option<String>,
    pub base_asset: Option<String>,
    pub quote_asset: Option<String>,
    /// The tick size of the price filter.
    pub tick_size: Reading,
    /// The smallest quantity of the lot-size filter.
    pub min_qty: Reading,
    pub contract_size: Option<u64>,
}

/// The text of a field, nothing standing for a field that is missing.
pub open spec fn text_or_empty(field: Option<String>) -> Seq<char> {
    match field {
        Some(s) => s@,
        None => Seq::empty(),
    }
}

/// The instrument can be traded: it is trading or halted, or does not say.
pub open spec fn tradable(status: Option<String>) -> bool {
    match status {
        Some(s) => s@ == "TRADING"@ || s@ == "HALT"@,
        None => true,
    }
}

/// The instrument of a record is listed: it has a symbol that can be kept,
/// can be traded, is a pair of a listed currency with a dollar stablecoin,
/// and holds no number that cannot be read.
pub open spec fn record_listed(record: SymbolRecord) -> bool {
    &&& record.symbol is Some
    &&& symbol_supported(record.symbol->0@)
    &&& tradable(record.status)
    &&& accepted_quote(text_or_empty(record.quote_asset))
    &&& accepted_base(text_or_empty(record.base_asset))
    &&& record.tick_size != Reading::Unreadable
    &&& record.min_qty != Reading::Unreadable
}

/// The sizes of the instrument of a record are known: both its tick and
/// its smallest quantity are there.
pub open spec fn record_sized(record: SymbolRecord) -> bool {
    record.tick_size is Value && record.min_qty is Value
}

/// `entry` is what a listed record makes: the instrument under its display
/// name, with its sizes where they are known.
pub open spec fn entry_of_record(record: SymbolRecord, entry: (Ticker, Option<TickerInfo>)) -> bool {
    let symbol = record.symbol->0@;
    let name = display_name(symbol, text_or_empty(record.base_asset));
    &&& entry.0.symbol@ == symbol
    &&& entry.0.exchange == Exchange::Forex
    &&& entry.0.display is Some
    &&& entry.0.display->0@ == name
    &&& entry.1 is Some == record_sized(record)
    &&& entry.1 is Some ==> {
        let info = entry.1->0;
        &&& info.ticker == entry.0
        &&& info.min_ticksize.units == record.tick_size->Value_0
        &&& info.min_qty == crate::qty::clamp_u64(record.min_qty->Value_0 as int)
        &&& info.contract_size == record.contract_size
    }
}

/// What a record makes: nothing where its instrument is not listed, else
/// its entry.
pub open spec fn slot_of_record(
    record: SymbolRecord,
    slot: Option<(Ticker, Option<TickerInfo>)>,
) -> bool {
    match slot {
        Some(entry) => record_listed(record) && entry_of_record(record, entry),
        None => !record_listed(record),
    }
}

/// A number that is not negative as a quantity; zero for one that is.
fn as_qty(v: i64) -> (r: u64)
    ensures
        r == crate::qty::clamp_u64(v as int),
{
    if v < 0 {
        0
    } else {
        v as u64
    }
}

/// Makes the entry of the instrument of a record, if it is listed.
pub fn ticker_entry(record: &SymbolRecord) -> (r: Option<(Ticker, Option<TickerInfo>)>)
    ensures
        slot_of_record(*record, r),
{
    let symbol_str: &str = match &record.symbol {
        Some(s) => s.as_str(),
        None => {
            return None;
        },
    };
    if !is_symbol_supported(symbol_str) {
        return None;
    }
    match &record.status {
        Some(status) => {
            if !str_eq(status.as_str(), "TRADING") && !str_eq(status.as_str(), "HALT") {
                return None;
            }
        },
        None => {},
    }
    let base_asset: &str = match &record.base_asset {
        Some(s) => s.as_str(),
        None => "",
    };
    let quote_asset: &str = match &record.quote_asset {
        Some(s) => s.as_str(),
        None => "",
    };
    proof {
        reveal_strlit("");
        assert(""@ =~= Seq::<char>::empty());
    }
    if !str_eq(quote_asset, "USDT") && !str_eq(quote_asset, "USDC") {
        return None;
    }
    if !is_accepted_base(base_asset) {
        return None;
    }
    let tick: Option<i64> = match record.tick_size {
        Reading::Unreadable => {
            return None;
        },
        Reading::Missing => None,
        Reading::Value(v) => Some(v),
    };
    let min_qty: Option<i64> = match record.min_qty {
        Reading::Unreadable => {
            return None;
        },
        Reading::Missing => None,
        Reading::Value(v) => Some(v),
    };
    let display: String = if ends_with(symbol_str, "USDT") || ends_with(symbol_str, "USDC") {
        String::from_str(trim_start_matches(base_asset, "1000")).concat("USD")
    } else {
        String::from_str(symbol_str)
    };
    let ticker = Ticker::new_with_display(symbol_str, Exchange::Forex, Some(display.as_str()));
    match (tick, min_qty) {
        (Some(t), Some(q)) => {
            let info = TickerInfo::new(
                ticker.clone(),
                MinTicksize { units: t },
                as_qty(q),
                record.contract_size,
            );
            Some((ticker, Some(info)))
        },
        _ => Some((ticker, None)),
    }
}

/// Makes the entries of the instruments of the records, one slot for each
/// record: a record whose instrument is not listed leaves its slot empty.
pub fn ticker_entries(records: &Vec<SymbolRecord>) -> (r: Vec<Option<(Ticker, Option<TickerInfo>)>>)
    ensures
        r@.len() == records@.len(),
        forall|i: int| 0 <= i < records@.len() ==> slot_of_record(records@[i], #[trigger] r@[i]),
{
    let mut out: Vec<Option<(Ticker, Option<TickerInfo>)>> = Vec::new();
    let mut i: usize = 0;
    while i < records.len()
        invariant
            0 <= i <= records.len(),
            out@.len() == i,
            forall|j: int| 0 <= j < i ==> slot_of_record(records@[j], #[trigger] out@[j]),
        decreases records.len() - i,
    {
        out.push(ticker_entry(&records[i]));
        i += 1;
    }
    out
}

/// What the exchange says of the last day of one instrument.
#[derive(Debug)]
pub struct TickerStatsRecord {
    pub symbol: Option<String>,
    pub last_price: Reading,
    pub price_change_percent: Reading,
    pub quote_volume: Reading,
}

/// The statistics of a record are listed: its instrument is a pair of a
/// listed currency with a dollar stablecoin under a symbol that can be
/// kept, and all its numbers are there.
pub open spec fn stats_listed(record: TickerStatsRecord) -> bool {
    &&& record.symbol is Some
    &&& accepted_base_prefix(record.symbol->0@)
    &&& dollar_quoted(record.symbol->0@)
    &&& symbol_supported(record.symbol->0@)
    &&& record.last_price is Value
    &&& record.price_change_percent is Value
    &&& record.quote_volume is Value
}

/// `entry` is what a listed record of statistics makes.
pub open spec fn entry_of_stats(record: TickerStatsRecord, entry: (Ticker, TickerStats)) -> bool {
    let symbol = record.symbol->0@;
    &&& entry.0.symbol@ == symbol
    &&& entry.0.exchange == Exchange::Forex
    &&& entry.0.display is Some
    &&& entry.0.display->0@ == display_name_of_symbol(symbol)
    &&& entry.1 == (TickerStats {
        mark_price: Price { units: record.last_price->Value_0 },
        daily_price_chg: record.price_change_percent->Value_0,
        daily_volume: crate::qty::clamp_u64(record.quote_volume->Value_0 as int),
    })
}

/// What a record of statistics makes: nothing where it is not listed, else
/// its entry.
pub open spec fn slot_of_stats(record: TickerStatsRecord, slot: Option<(Ticker, TickerStats)>) -> bool {
    match slot {
        Some(entry) => stats_listed(record) && entry_of_stats(record, entry),
        None => !stats_listed(record),
    }
}

/// Makes the entry of the statistics of a record, if it is listed.
pub fn ticker_stats_entry(record: &TickerStatsRecord) -> (r: Option<(Ticker, TickerStats)>)
    ensures
        slot_of_stats(*record, r),
{
    let symbol: &str = match &record.symbol {
        Some(s) => s.as_str(),
        None => {
            return None;
        },
    };
    let is_valid_forex: bool = has_accepted_base_prefix(symbol) && (ends_with(symbol, "USDT")
        || ends_with(symbol, "USDC"));
    if !is_valid_forex {
        return None;
    }
    if !is_symbol_supported(symbol) {
        return None;
    }
    let last_price: i64 = match record.last_price {
        Reading::Value(v) => v,
        _ => {
            return None;
        },
    };
    let price_change_pt: i64 = match record.price_change_percent {
        Reading::Value(v) => v,
        _ => {
            return None;
        },
    };
    let volume: i64 = match record.quote_volume {
        Reading::Value(v) => v,
        _ => {
            return None;
        },
    };
    let ticker_stats = TickerStats {
        mark_price: Price { units: last_price },
        daily_price_chg: price_change_pt,
        daily_volume: as_qty(volume),
    };
    let base_asset: &str = trim_end_matches(trim_end_matches(symbol, "USDT"), "USDC");
    let display_name: String = String::from_str(trim_start_matches(base_asset, "1000")).concat(
        "USD",
    );
    let ticker = Ticker::new_with_display(symbol, Exchange::Forex, Some(display_name.as_str()));
    Some((ticker, ticker_stats))
}

/// Makes the entries of the statistics of the records, one slot for each
/// record: a record that is not listed leaves its slot empty.
pub fn ticker_stats_entries(records: &Vec<TickerStatsRecord>) -> (r: Vec<Option<(Ticker, TickerStats)>>)
    ensures
        r@.len() == records@.len(),
        forall|i: int| 0 <= i < records@.len() ==> slot_of_stats(records@[i], #[trigger] r@[i]),
{
    let mut out: Vec<Option<(Ticker, TickerStats)>> = Vec::new();
    let mut i: usize = 0;
    while i < records.len()
        invariant
            0 <= i <= records.len(),
            out@.len() == i,
            forall|j: int| 0 <= j < i ==> slot_of_stats(records@[j], #[trigger] out@[j]),
        decreases records.len() - i,
    {
        out.push(ticker_stats_entry(&records[i]));
        i += 1;
    }
    out
}

} // verus!
