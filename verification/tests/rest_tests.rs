use exchange::depth::DeOrder;
use exchange::market::{Exchange, Ticker, TickerInfo, Timeframe};
use exchange::price::{MinTicksize, Price, PRICE_SCALE};
use exchange::rest::{
    accepted_bases, depth_from_fetched, depth_request_address, depth_request_url,
    exchange_info_url,
    has_accepted_base_prefix, is_accepted_base, is_symbol_supported, klines_from_fetched,
    klines_request_url, klines_window, oi_window, open_interest_from_fetched,
    open_interest_request_url, ticker_entries, ticker_entry, ticker_stats_entries,
    ticker_stats_entry, ticker_stats_url, DeOpenInterest, FetchedKlines, FetchedPerpDepth,
    Reading, SymbolRecord, TickerStatsRecord, Window,
};

const ONE: u64 = PRICE_SCALE as u64;

fn ticker() -> Ticker {
    Ticker::new("eurUSDT", Exchange::Forex)
}

fn record(symbol: &str, base: &str, quote: &str) -> SymbolRecord {
    SymbolRecord {
        symbol: Some(symbol.to_string()),
        status: Some("TRADING".to_string()),
        base_asset: Some(base.to_string()),
        quote_asset: Some(quote.to_string()),
        tick_size: Reading::Value(10_000),
        min_qty: Reading::Value(100_000),
        contract_size: None,
    }
}

#[test]
fn the_snapshot_address_asks_for_the_symbol_in_upper_case() {
    assert_eq!(
        depth_request_url(&ticker()),
        "https://fapi.binance.com/fapi/v1/depth?symbol=EURUSDT&limit=1000"
    );
}

#[test]
fn addresses_without_a_symbol() {
    assert_eq!(exchange_info_url(), "https://fapi.binance.com/fapi/v1/exchangeInfo");
    assert_eq!(ticker_stats_url(), "https://fapi.binance.com/fapi/v1/ticker/24hr");
}

#[test]
fn the_bars_address_without_a_range_asks_for_the_latest() {
    assert_eq!(
        klines_request_url(&Ticker::new("EURUSDT", Exchange::Forex), Timeframe::M5, None),
        "https://fapi.binance.com/fapi/v1/klines?symbol=EURUSDT&interval=5m&limit=400"
    );
}

#[test]
fn the_bars_address_with_a_range_counts_the_intervals() {
    let t = Ticker::new("EURUSDT", Exchange::Forex);
    assert_eq!(
        klines_request_url(&t, Timeframe::M1, Some((600_000, 1_200_000))),
        "https://fapi.binance.com/fapi/v1/klines?symbol=EURUSDT&interval=1m&startTime=600000&endTime=1200000&limit=10"
    );
    assert_eq!(
        klines_request_url(&t, Timeframe::M1, Some((600_000, 660_000))),
        "https://fapi.binance.com/fapi/v1/klines?symbol=EURUSDT&interval=1m&startTime=300000&endTime=960000&limit=11"
    );
}

#[test]
fn windows_of_bars() {
    assert_eq!(
        klines_window(0, 60_000 * 5_000, Timeframe::M1),
        Window { start: 0, end: 300_000_000, limit: 1000 }
    );
    assert_eq!(klines_window(0, 180_000, Timeframe::M1), Window { start: 0, end: 180_000, limit: 3 });
    assert_eq!(klines_window(100, 200, Timeframe::M1), Window { start: 0, end: 300_200, limit: 5 });
    assert_eq!(klines_window(500, 100, Timeframe::MS1000), Window { start: 0, end: 5_100, limit: 5 });
    assert_eq!(
        klines_window(u64::MAX - 10, u64::MAX, Timeframe::MS100),
        Window { start: u64::MAX - 510, end: u64::MAX, limit: 5 }
    );
}

#[test]
fn windows_of_open_interest() {
    let day: u64 = 86_400_000;
    let now = 100 * day;
    assert_eq!(
        oi_window(90 * day, 95 * day, Timeframe::H1, now),
        Window { start: 90 * day, end: 95 * day, limit: 120 }
    );
    assert_eq!(
        oi_window(10 * day, 95 * day, Timeframe::H1, now),
        Window { start: 70 * day, end: 95 * day, limit: 500 }
    );
    assert_eq!(oi_window(5, 3, Timeframe::MS1000, 10), Window { start: 5, end: 3, limit: 0 });
    assert_eq!(
        open_interest_request_url(&Ticker::new("EURUSDT", Exchange::Forex), None, Timeframe::H1, now),
        "https://fapi.binance.com/futures/data/openInterestHist?symbol=EURUSDT&period=1h&limit=400"
    );
    assert_eq!(
        open_interest_request_url(
            &Ticker::new("EURUSDT", Exchange::Forex),
            Some((90 * day, 95 * day)),
            Timeframe::H1,
            now
        ),
        "https://fapi.binance.com/futures/data/openInterestHist?symbol=EURUSDT&period=1h&startTime=7776000000&endTime=8208000000&limit=120"
    );
}

#[test]
fn a_fetched_snapshot_makes_a_payload() {
    let fetched = FetchedPerpDepth {
        update_id: 42,
        time: 7,
        bids: vec![DeOrder { price: Price::from_units(2 * PRICE_SCALE), qty: 3 * ONE }],
        asks: vec![DeOrder { price: Price::from_units(3 * PRICE_SCALE), qty: ONE }],
    };
    let payload = depth_from_fetched(&fetched, None, false);
    assert_eq!(payload.last_update_id, 42);
    assert_eq!(payload.time, 7);
    assert_eq!(payload.bids, fetched.bids);
    assert_eq!(payload.asks, fetched.asks);
    let payload = depth_from_fetched(&fetched, None, true);
    assert_eq!(payload.bids[0].qty, 6 * ONE);
    assert_eq!(payload.asks[0].qty, 3 * ONE);
}

#[test]
fn fetched_bars_are_rounded_and_split() {
    let k = FetchedKlines {
        open_time: 60_000,
        open: Price::from_units(104_999_999),
        high: Price::from_units(105_500_000),
        low: Price::from_units(104_400_000),
        close: Price::from_units(2 * PRICE_SCALE),
        volume: 10 * ONE,
        close_time: 119_999,
        trades: 17,
        taker_buy_volume: 4 * ONE,
    };
    let raw = k.to_kline();
    assert_eq!(raw.open.units, 104_999_999);
    assert_eq!(raw.volume, (4 * ONE, 6 * ONE));
    let info = TickerInfo::new(ticker(), MinTicksize { units: 1_000_000 }, 1, None);
    let bars = klines_from_fetched(&vec![k, k], &info, true);
    assert_eq!(bars.len(), 2);
    assert_eq!(bars[0].time, 60_000);
    assert_eq!(bars[0].open.units, 105_000_000);
    assert_eq!(bars[0].high.units, 106_000_000);
    assert_eq!(bars[0].low.units, 104_000_000);
    assert_eq!(bars[0].close.units, 2 * PRICE_SCALE);
    assert_eq!(bars[0].volume, (8 * ONE, 12 * ONE));
    assert_eq!(bars[1], bars[0]);
    assert!(klines_from_fetched(&Vec::new(), &info, false).is_empty());
}

#[test]
fn fetched_open_interest_is_passed_on() {
    let out = open_interest_from_fetched(&vec![
        DeOpenInterest { time: 1, sum: 10 },
        DeOpenInterest { time: 2, sum: 20 },
    ]);
    assert_eq!(out.len(), 2);
    assert_eq!((out[0].time, out[0].value), (1, 10));
    assert_eq!((out[1].time, out[1].value), (2, 20));
}

#[test]
fn symbols_that_can_be_kept() {
    assert!(is_symbol_supported("EURUSDT"));
    assert!(is_symbol_supported("1000JPY_USDT-x"));
    assert!(is_symbol_supported(""));
    assert!(is_symbol_supported(&"A".repeat(28)));
    assert!(!is_symbol_supported(&"A".repeat(29)));
    assert!(!is_symbol_supported("EUR/USDT"));
    assert!(!is_symbol_supported("EUR USDT"));
    assert!(!is_symbol_supported("EURÜSDT"));
}

#[test]
fn listed_currencies() {
    assert_eq!(accepted_bases().len(), 25);
    assert!(is_accepted_base("EUR"));
    assert!(is_accepted_base("1000JPY"));
    assert!(is_accepted_base("VND"));
    assert!(!is_accepted_base("BTC"));
    assert!(!is_accepted_base("eur"));
    assert!(!is_accepted_base(""));
    assert!(has_accepted_base_prefix("EURUSDT"));
    assert!(has_accepted_base_prefix("1000JPYUSDT"));
    assert!(!has_accepted_base_prefix("BTCUSDT"));
    assert!(!has_accepted_base_prefix("EU"));
}

#[test]
fn a_listed_record_makes_an_entry() {
    let (ticker, info) = ticker_entry(&record("EURUSDT", "EUR", "USDT")).unwrap();
    assert_eq!(ticker.symbol, "EURUSDT");
    assert_eq!(ticker.exchange, Exchange::Forex);
    assert_eq!(ticker.display.as_deref(), Some("EURUSD"));
    let info = info.unwrap();
    assert_eq!(info.ticker.symbol, "EURUSDT");
    assert_eq!(info.min_ticksize, MinTicksize { units: 10_000 });
    assert_eq!(info.min_qty, 100_000);
    assert_eq!(info.contract_size, None);
}

#[test]
fn the_multiplier_is_left_out_of_the_display_name() {
    let (ticker, _) = ticker_entry(&record("1000JPYUSDC", "1000JPY", "USDC")).unwrap();
    assert_eq!(ticker.display.as_deref(), Some("JPYUSD"));
    let (ticker, _) = ticker_entry(&record("EUR_PERP", "EUR", "USDT")).unwrap();
    assert_eq!(ticker.display.as_deref(), Some("EUR_PERP"));
}

#[test]
fn missing_sizes_leave_the_entry_without_them() {
    let mut r = record("EURUSDT", "EUR", "USDT");
    r.tick_size = Reading::Missing;
    let (ticker, info) = ticker_entry(&r).unwrap();
    assert_eq!(ticker.symbol, "EURUSDT");
    assert!(info.is_none());
    let mut r = record("EURUSDT", "EUR", "USDT");
    r.min_qty = Reading::Missing;
    assert!(ticker_entry(&r).unwrap().1.is_none());
    let mut r = record("EURUSDT", "EUR", "USDT");
    r.contract_size = Some(5);
    r.status = None;
    r.min_qty = Reading::Value(-4);
    let info = ticker_entry(&r).unwrap().1.unwrap();
    assert_eq!(info.contract_size, Some(5));
    assert_eq!(info.min_qty, 0);
}

#[test]
fn records_that_are_not_listed_are_left_out() {
    let mut no_symbol = record("EURUSDT", "EUR", "USDT");
    no_symbol.symbol = None;
    let mut settling = record("EURUSDT", "EUR", "USDT");
    settling.status = Some("SETTLING".to_string());
    let mut bad_tick = record("EURUSDT", "EUR", "USDT");
    bad_tick.tick_size = Reading::Unreadable;
    let mut bad_qty = record("EURUSDT", "EUR", "USDT");
    bad_qty.min_qty = Reading::Unreadable;
    let mut no_base = record("EURUSDT", "EUR", "USDT");
    no_base.base_asset = None;
    let mut no_quote = record("EURUSDT", "EUR", "USDT");
    no_quote.quote_asset = None;
    let mut halted = record("GBPUSDT", "GBP", "USDT");
    halted.status = Some("HALT".to_string());
    let records = vec![
        no_symbol,
        record("EUR/USDT", "EUR", "USDT"),
        settling,
        record("EURBTC", "EUR", "BTC"),
        record("BTCUSDT", "BTC", "USDT"),
        bad_tick,
        bad_qty,
        no_base,
        no_quote,
        halted,
        record("EURUSDT", "EUR", "USDT"),
    ];
    let entries = ticker_entries(&records);
    assert_eq!(entries.len(), records.len());
    for slot in &entries[..9] {
        assert!(slot.is_none());
    }
    assert_eq!(entries[9].as_ref().unwrap().0.symbol, "GBPUSDT");
    assert_eq!(entries[10].as_ref().unwrap().0.symbol, "EURUSDT");
}

fn stats(symbol: &str) -> TickerStatsRecord {
    TickerStatsRecord {
        symbol: Some(symbol.to_string()),
        last_price: Reading::Value(105_000_000),
        price_change_percent: Reading::Value(-25_000_000),
        quote_volume: Reading::Value(9_000_000_000),
    }
}

#[test]
fn listed_statistics_make_an_entry() {
    let (ticker, s) = ticker_stats_entry(&stats("1000JPYUSDT")).unwrap();
    assert_eq!(ticker.symbol, "1000JPYUSDT");
    assert_eq!(ticker.display.as_deref(), Some("JPYUSD"));
    assert_eq!(s.mark_price, Price::from_units(105_000_000));
    assert_eq!(s.daily_price_chg, -25_000_000);
    assert_eq!(s.daily_volume, 9_000_000_000);
    let (ticker, _) = ticker_stats_entry(&stats("EURUSDC")).unwrap();
    assert_eq!(ticker.display.as_deref(), Some("EURUSD"));
}

#[test]
fn statistics_that_are_not_listed_are_left_out() {
    let mut no_symbol = stats("EURUSDT");
    no_symbol.symbol = None;
    let mut no_price = stats("EURUSDT");
    no_price.last_price = Reading::Missing;
    let mut bad_change = stats("EURUSDT");
    bad_change.price_change_percent = Reading::Unreadable;
    let mut no_volume = stats("EURUSDT");
    no_volume.quote_volume = Reading::Missing;
    let records = vec![
        no_symbol,
        stats("BTCUSDT"),
        stats("EURBTC"),
        stats("EUR-USDT!USDT"),
        no_price,
        bad_change,
        no_volume,
        stats("GBPUSDT"),
    ];
    let entries = ticker_stats_entries(&records);
    assert_eq!(entries.len(), 8);
    for slot in &entries[..7] {
        assert!(slot.is_none());
    }
    assert_eq!(entries[7].as_ref().unwrap().0.display.as_deref(), Some("GBPUSD"));
}

#[test]
fn the_snapshot_address_takes_the_symbol_as_it_is_given() {
    assert_eq!(
        depth_request_address("EURUSDT"),
        "https://fapi.binance.com/fapi/v1/depth?symbol=EURUSDT&limit=1000"
    );
    assert_eq!(
        depth_request_address("eur"),
        "https://fapi.binance.com/fapi/v1/depth?symbol=eur&limit=1000"
    );
    assert_eq!(depth_request_address(""), "https://fapi.binance.com/fapi/v1/depth?symbol=&limit=1000");
}
