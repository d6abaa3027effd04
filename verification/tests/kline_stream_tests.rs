use exchange::adapter::{SonicKline, SonicTrade, StreamData};
use exchange::kline_stream::{kline_stream_address, kline_stream_name, KlineStream};
use exchange::market::{
    Event, Exchange, MarketKind, SizeUnit, StreamKind, Ticker, TickerInfo, Timeframe,
};
use exchange::price::{MinTicksize, Price, PRICE_SCALE};
use exchange::stream::Directive;

const ONE: u64 = PRICE_SCALE as u64;

fn info(symbol: &str, tick: i64) -> TickerInfo {
    TickerInfo::new(Ticker::new(symbol, Exchange::Forex), MinTicksize { units: tick }, 1, None)
}

fn bar(interval: &str) -> SonicKline {
    SonicKline {
        time: 60_000,
        open: Price::from_units(104_999_999),
        high: Price::from_units(105_500_000),
        low: Price::from_units(104_400_000),
        close: Price::from_units(2 * PRICE_SCALE),
        volume: 10 * ONE,
        taker_buy_base_asset_volume: 4 * ONE,
        interval: interval.to_string(),
    }
}

fn streams() -> Vec<(TickerInfo, Timeframe)> {
    vec![
        (info("EURUSDT", 1_000_000), Timeframe::M1),
        (info("GBPUSDT", 10_000_000), Timeframe::M5),
        (info("EURUSDT", 100_000_000), Timeframe::H1),
    ]
}

fn connected(unit: SizeUnit) -> KlineStream {
    let mut s = KlineStream::new(streams(), MarketKind::LinearPerps, unit);
    let out = s.on_connected();
    assert!(matches!(out.event, Some(Event::Connected(Exchange::Forex))));
    s
}

#[test]
fn the_address_names_every_stream() {
    let s = KlineStream::new(streams(), MarketKind::LinearPerps, SizeUnit::Base);
    assert_eq!(
        s.stream_url(),
        "wss://fstream.binance.com/stream?streams=eurusdt@kline_1m/gbpusdt@kline_5m/eurusdt@kline_1h"
    );
    let none = KlineStream::new(Vec::new(), MarketKind::LinearPerps, SizeUnit::Base);
    assert_eq!(none.stream_url(), "wss://fstream.binance.com/stream?streams=");
    assert_eq!(none.exchange(), Exchange::Forex);
}

#[test]
fn connecting_says_so_once() {
    let mut s = KlineStream::new(streams(), MarketKind::LinearPerps, SizeUnit::Base);
    assert!(!s.is_connected());
    assert!(s.on_connected().event.is_some());
    assert!(s.is_connected());
    assert!(s.on_connected().event.is_none());
}

#[test]
fn a_failed_kline_connection_backs_off_and_says_so() {
    let s = KlineStream::new(streams(), MarketKind::LinearPerps, SizeUnit::Base);
    let out = s.on_connect_failed();
    assert_eq!(out.directive, Directive::Backoff(1000));
    match out.event {
        Some(Event::Disconnected(Exchange::Forex, reason)) => {
            assert_eq!(reason, "Failed to connect to websocket")
        },
        other => panic!("{:?}", other),
    }
}

#[test]
fn a_bar_is_passed_on_under_its_stream() {
    let s = connected(SizeUnit::Base);
    let out = s.on_kline(&Ticker::new("GBPUSDT", Exchange::Forex), &bar("5m"));
    match out.event {
        Some(Event::KlineReceived(StreamKind::Kline { ticker_info, timeframe }, kline)) => {
            assert_eq!(ticker_info.ticker.symbol, "GBPUSDT");
            assert_eq!(timeframe, Timeframe::M5);
            assert_eq!(kline.time, 60_000);
            assert_eq!(kline.open.units, 100_000_000);
            assert_eq!(kline.high.units, 110_000_000);
            assert_eq!(kline.low.units, 100_000_000);
            assert_eq!(kline.close.units, 2 * PRICE_SCALE);
            assert_eq!(kline.volume, (4 * ONE, 6 * ONE));
        },
        other => panic!("{:?}", other),
    }
}

#[test]
fn the_last_stream_of_an_instrument_describes_it() {
    let s = connected(SizeUnit::Quote);
    let out = s.on_kline(&Ticker::new("EURUSDT", Exchange::Forex), &bar("1m"));
    match out.event {
        Some(Event::KlineReceived(StreamKind::Kline { ticker_info, timeframe }, kline)) => {
            assert_eq!(timeframe, Timeframe::M1);
            assert_eq!(ticker_info.min_ticksize, MinTicksize { units: 100_000_000 });
            assert_eq!(kline.open.units, 100_000_000);
            assert_eq!(kline.volume, (8 * ONE, 12 * ONE));
        },
        other => panic!("{:?}", other),
    }
}

#[test]
fn a_bar_of_no_stream_is_passed_over() {
    let s = connected(SizeUnit::Base);
    assert!(s.on_kline(&Ticker::new("EURUSDT", Exchange::Forex), &bar("3m")).event.is_none());
    assert!(s.on_kline(&Ticker::new("CHFUSDT", Exchange::Forex), &bar("1m")).event.is_none());
    let idle = KlineStream::new(streams(), MarketKind::LinearPerps, SizeUnit::Base);
    assert!(idle.on_kline(&Ticker::new("EURUSDT", Exchange::Forex), &bar("1m")).event.is_none());
}

#[test]
fn only_bars_are_taken() {
    let s = connected(SizeUnit::Base);
    let trade = StreamData::Trade(SonicTrade {
        time: 1,
        price: Price::from_units(1),
        qty: 1,
        is_sell: false,
    });
    assert!(s.on_message(&trade).event.is_none());
    let kline = StreamData::Kline(Ticker::new("EURUSDT", Exchange::Forex), bar("1h"));
    assert!(s.on_message(&kline).event.is_some());
}

#[test]
fn closing_and_read_errors_disconnect_once() {
    let mut s = connected(SizeUnit::Base);
    match s.on_close().event {
        Some(Event::Disconnected(_, reason)) => assert_eq!(reason, "Connection closed"),
        other => panic!("{:?}", other),
    }
    assert!(!s.is_connected());
    assert!(s.on_close().event.is_none());
    let mut s = connected(SizeUnit::Base);
    match s.on_read_error("eof").event {
        Some(Event::Disconnected(_, reason)) => assert_eq!(reason, "Error reading frame: eof"),
        other => panic!("{:?}", other),
    }
    assert!(s.on_read_error("eof").event.is_none());
}

#[test]
fn names_and_addresses_take_the_symbols_as_they_are_given() {
    assert_eq!(kline_stream_name("eurusdt", Timeframe::M5), "eurusdt@kline_5m");
    assert_eq!(kline_stream_name("", Timeframe::D1), "@kline_1d");
    assert_eq!(kline_stream_address(&Vec::new()), "wss://fstream.binance.com/stream?streams=");
    assert_eq!(
        kline_stream_address(&vec!["a@kline_1m".to_string()]),
        "wss://fstream.binance.com/stream?streams=a@kline_1m"
    );
    assert_eq!(
        kline_stream_address(&vec!["a".to_string(), "b".to_string(), "c".to_string()]),
        "wss://fstream.binance.com/stream?streams=a/b/c"
    );
}

#[test]
fn tickers_can_key_a_map() {
    let mut map = std::collections::HashMap::new();
    map.insert(Ticker::new("EURUSDT", Exchange::Forex), 1);
    map.insert(Ticker::new("GBPUSDT", Exchange::Forex), 2);
    map.insert(Ticker::new("EURUSDT", Exchange::Forex), 3);
    assert_eq!(map.len(), 2);
    assert_eq!(map[&Ticker::new("EURUSDT", Exchange::Forex)], 3);
}
