use exchange::adapter::{PerpDepth, SonicDepth, SonicKline, SonicTrade, StreamData};
use exchange::depth::{DeOrder, DepthPayload};
use exchange::market::{
    Event, Exchange, PushFrequency, SizeUnit, StreamKind, StreamTicksize, Ticker, TickerInfo,
};
use exchange::price::{MinTicksize, Price, PRICE_SCALE};
use exchange::stream::{
    classify_diff, market_stream_address, DiffVerdict, Directive, FrameKind, MarketStream,
    Outcome, Phase, SnapshotFailure,
};

const ONE: u64 = PRICE_SCALE as u64;

fn level(price: i64, qty: u64) -> DeOrder {
    DeOrder { price: Price::from_units(price * PRICE_SCALE), qty: qty * ONE }
}

fn at(price: i64) -> Price {
    Price::from_units(price * PRICE_SCALE)
}

fn info() -> TickerInfo {
    TickerInfo::new(
        Ticker::new("EURUSDT", Exchange::Forex),
        MinTicksize { units: PRICE_SCALE / 100 },
        ONE / 1000,
        None,
    )
}

fn stream() -> MarketStream {
    MarketStream::new(info(), PushFrequency::ServerDefault, SizeUnit::Base)
}

fn snapshot(id: u64) -> DepthPayload {
    DepthPayload {
        last_update_id: id,
        time: 1_000,
        bids: vec![level(100, 2), level(99, 1)],
        asks: vec![level(101, 3)],
    }
}

fn diff(first: u64, last: u64, prev: u64, bids: Vec<DeOrder>, asks: Vec<DeOrder>) -> SonicDepth {
    SonicDepth::Perp(PerpDepth {
        time: last * 10,
        first_id: first,
        final_id: last,
        prev_final_id: prev,
        bids,
        asks,
    })
}

fn synchronized(id: u64) -> MarketStream {
    let mut s = stream();
    let out = s.on_connected(Ok(snapshot(id)));
    assert!(matches!(out.event, Some(Event::Connected(Exchange::Forex))));
    assert_eq!(out.directive, Directive::Continue);
    s
}

fn is_quiet(out: &Outcome) -> bool {
    out.event.is_none() && out.directive == Directive::Continue
}

fn reason(out: &Outcome) -> String {
    match &out.event {
        Some(Event::Disconnected(Exchange::Forex, reason)) => reason.clone(),
        other => panic!("no disconnect: {:?}", other),
    }
}

#[test]
fn a_new_stream_is_disconnected_and_empty() {
    let s = stream();
    assert_eq!(s.phase(), Phase::Disconnected);
    assert!(!s.is_connected());
    assert_eq!(s.prev_id(), 0);
    assert_eq!(s.pending_trades(), 0);
    assert_eq!(s.orderbook().last_update_id, 0);
    assert_eq!(s.ticker_info().ticker.symbol, "EURUSDT");
}

#[test]
fn the_address_names_both_streams_in_lower_case() {
    assert_eq!(
        stream().stream_url(),
        "wss://fstream.binance.com/stream?streams=eurusdt@aggTrade/eurusdt@depth@100ms"
    );
}

#[test]
fn a_failed_connection_backs_off_and_says_so() {
    let s = stream();
    let out = s.on_connect_failed();
    assert_eq!(out.directive, Directive::Backoff(1000));
    assert_eq!(reason(&out), "Failed to connect to websocket");
    assert_eq!(s.phase(), Phase::Disconnected);
}

#[test]
fn a_snapshot_seeds_the_book() {
    let s = synchronized(10);
    assert_eq!(s.phase(), Phase::Synchronized);
    assert_eq!(s.orderbook().last_update_id, 10);
    assert_eq!(s.orderbook().time, 1_000);
    assert_eq!(s.prev_id(), 0);
    assert_eq!(s.orderbook().depth.mid_price(), Some(Price::from_units(10_050_000_000)));
}

#[test]
fn a_snapshot_that_did_not_come_leaves_the_stream_disconnected() {
    let mut s = stream();
    let out = s.on_connected(Err(SnapshotFailure::Fetch("timeout".to_string())));
    assert_eq!(reason(&out), "Depth fetch failed: timeout");
    assert_eq!(s.phase(), Phase::Disconnected);
    let out = s.on_connected(Err(SnapshotFailure::Channel("closed".to_string())));
    assert_eq!(reason(&out), "Channel error: closed");
    assert_eq!(s.phase(), Phase::Disconnected);
}

#[test]
fn the_first_diff_after_a_snapshot_is_applied() {
    let mut s = synchronized(10);
    let out = s.on_depth(&diff(9, 12, 8, vec![level(100, 0), level(98, 5)], vec![level(102, 1)]));
    match out.event {
        Some(Event::DepthReceived(kind, time, depth, trades)) => {
            match kind {
                StreamKind::DepthAndTrades { ticker_info, depth_aggr, push_freq } => {
                    assert_eq!(ticker_info.ticker.symbol, "EURUSDT");
                    assert_eq!(depth_aggr, StreamTicksize::Client);
                    assert_eq!(push_freq, PushFrequency::ServerDefault);
                },
                other => panic!("wrong stream: {:?}", other),
            }
            assert_eq!(time, 120);
            assert!(trades.is_empty());
            assert_eq!(depth.bid_qty(at(100)), None);
            assert_eq!(depth.bid_qty(at(98)), Some(5 * ONE));
            assert_eq!(depth.bid_qty(at(99)), Some(ONE));
            assert_eq!(depth.ask_qty(at(102)), Some(ONE));
            assert_eq!(depth.best_bid(), Some((at(99), ONE)));
        },
        other => panic!("no depth: {:?}", other),
    }
    assert_eq!(s.prev_id(), 12);
    assert_eq!(s.orderbook().last_update_id, 12);
    assert_eq!(s.orderbook().time, 120);
    assert_eq!(s.phase(), Phase::Synchronized);
}

#[test]
fn diffs_that_continue_each_other_are_applied() {
    let mut s = synchronized(10);
    assert!(s.on_depth(&diff(11, 12, 10, vec![level(98, 5)], vec![])).event.is_some());
    assert!(s.on_depth(&diff(15, 20, 12, vec![level(97, 5)], vec![])).event.is_some());
    assert!(s.on_depth(&diff(30, 31, 20, vec![level(98, 0)], vec![])).event.is_some());
    assert_eq!(s.prev_id(), 31);
    assert_eq!(s.orderbook().depth.bids_len(), 3);
    assert_eq!(s.orderbook().depth.bid_qty(at(98)), None);
}

#[test]
fn a_stale_diff_changes_nothing() {
    let mut s = synchronized(10);
    assert!(s.on_depth(&diff(11, 12, 10, vec![level(98, 5)], vec![])).event.is_some());
    for stale in [diff(11, 12, 10, vec![level(98, 9)], vec![]), diff(1, 5, 0, vec![level(100, 0)], vec![])] {
        let out = s.on_depth(&stale);
        assert!(is_quiet(&out));
        assert_eq!(s.prev_id(), 12);
        assert_eq!(s.orderbook().last_update_id, 12);
        assert_eq!(s.orderbook().depth.bid_qty(at(98)), Some(5 * ONE));
        assert_eq!(s.orderbook().depth.bid_qty(at(100)), Some(2 * ONE));
        assert_eq!(s.phase(), Phase::Synchronized);
    }
}

#[test]
fn a_gap_disconnects_and_says_so_once() {
    let mut s = synchronized(10);
    assert!(s.on_depth(&diff(11, 12, 10, vec![level(98, 5)], vec![])).event.is_some());
    let out = s.on_depth(&diff(14, 15, 13, vec![level(98, 0)], vec![]));
    assert_eq!(out.directive, Directive::Continue);
    assert_eq!(reason(&out), "Out of sync. Expected update_id: 13, got: 12");
    assert_eq!(s.phase(), Phase::Disconnected);
    assert_eq!(s.orderbook().depth.bid_qty(at(98)), Some(5 * ONE));

    for later in [
        diff(16, 17, 15, vec![level(98, 0)], vec![]),
        diff(13, 14, 12, vec![level(98, 0)], vec![]),
    ] {
        let out = s.on_depth(&later);
        assert!(is_quiet(&out));
        assert_eq!(s.phase(), Phase::Disconnected);
        assert_eq!(s.orderbook().last_update_id, 12);
        assert_eq!(s.orderbook().depth.bid_qty(at(98)), Some(5 * ONE));
    }
    assert!(is_quiet(&s.on_close()));
}

#[test]
fn a_first_diff_that_starts_too_late_asks_for_a_snapshot() {
    let mut s = synchronized(10);
    let out = s.on_depth(&diff(13, 15, 12, vec![level(98, 5)], vec![]));
    assert_eq!(out.directive, Directive::FetchSnapshot);
    assert!(out.event.is_none());
    assert_eq!(s.phase(), Phase::Resyncing);
    assert_eq!(s.orderbook().last_update_id, 10);
    assert_eq!(s.orderbook().depth.bid_qty(at(98)), None);
}

#[test]
fn diffs_are_dropped_while_a_snapshot_is_fetched() {
    let mut s = synchronized(10);
    assert_eq!(s.on_depth(&diff(13, 15, 12, vec![], vec![])).directive, Directive::FetchSnapshot);
    let out = s.on_depth(&diff(11, 16, 10, vec![level(98, 5)], vec![]));
    assert!(is_quiet(&out));
    assert_eq!(s.phase(), Phase::Resyncing);
    assert_eq!(s.orderbook().depth.bid_qty(at(98)), None);
}

#[test]
fn a_new_snapshot_brings_the_stream_back_in_step() {
    let mut s = synchronized(10);
    assert_eq!(s.on_depth(&diff(13, 15, 12, vec![], vec![])).directive, Directive::FetchSnapshot);
    let fresh = DepthPayload { last_update_id: 20, time: 2_000, bids: vec![level(50, 1)], asks: vec![] };
    let out = s.on_resync(Ok(fresh));
    assert!(is_quiet(&out));
    assert_eq!(s.phase(), Phase::Synchronized);
    assert_eq!(s.prev_id(), 0);
    assert_eq!(s.orderbook().last_update_id, 20);
    assert_eq!(s.orderbook().depth.bids_len(), 1);
    assert_eq!(s.orderbook().depth.asks_len(), 0);
    assert!(s.on_depth(&diff(21, 22, 20, vec![level(51, 1)], vec![])).event.is_some());
}

#[test]
fn a_new_snapshot_that_did_not_come_disconnects() {
    let mut s = synchronized(10);
    assert_eq!(s.on_depth(&diff(13, 15, 12, vec![], vec![])).directive, Directive::FetchSnapshot);
    let out = s.on_resync(Err(SnapshotFailure::Fetch("HTTP 500".to_string())));
    assert_eq!(reason(&out), "Depth fetch failed: HTTP 500");
    assert_eq!(s.phase(), Phase::Disconnected);

    let mut s = synchronized(10);
    assert_eq!(s.on_depth(&diff(13, 15, 12, vec![], vec![])).directive, Directive::FetchSnapshot);
    let out = s.on_resync(Err(SnapshotFailure::Channel("gone".to_string())));
    assert_eq!(reason(&out), "Failed to send fetched depth for EURUSDT, error: gone");
    assert_eq!(s.phase(), Phase::Disconnected);
}

#[test]
fn a_snapshot_that_was_not_asked_for_is_passed_over() {
    let mut s = synchronized(10);
    let out = s.on_resync(Ok(snapshot(99)));
    assert!(is_quiet(&out));
    assert_eq!(s.orderbook().last_update_id, 10);
    let out = s.on_connected(Ok(snapshot(99)));
    assert!(is_quiet(&out));
    assert_eq!(s.orderbook().last_update_id, 10);
}

#[test]
fn a_book_without_a_snapshot_takes_no_diff() {
    let mut s = synchronized(0);
    let out = s.on_depth(&diff(1, 2, 0, vec![level(98, 5)], vec![]));
    assert!(is_quiet(&out));
    assert_eq!(s.orderbook().depth.bid_qty(at(98)), None);
}

#[test]
fn trades_wait_for_the_next_book() {
    let mut s = synchronized(10);
    let raw = SonicTrade { time: 5, price: Price::from_units(10_000_400_000), qty: 3 * ONE, is_sell: true };
    s.on_trade(raw);
    s.on_trade(SonicTrade { time: 6, price: at(101), qty: ONE, is_sell: false });
    assert_eq!(s.pending_trades(), 2);
    let out = s.on_depth(&diff(11, 12, 10, vec![], vec![]));
    match out.event {
        Some(Event::DepthReceived(_, _, _, trades)) => {
            assert_eq!(trades.len(), 2);
            assert_eq!(trades[0].time, 5);
            assert!(trades[0].is_sell);
            assert_eq!(trades[0].price, at(100));
            assert_eq!(trades[0].qty, 3 * ONE);
            assert_eq!(trades[1].price, at(101));
            assert!(!trades[1].is_sell);
        },
        other => panic!("no depth: {:?}", other),
    }
    assert_eq!(s.pending_trades(), 0);
}

#[test]
fn trades_are_reported_in_the_quote_asset_where_asked() {
    let mut s = MarketStream::new(info(), PushFrequency::ServerDefault, SizeUnit::Quote);
    assert!(s.on_connected(Ok(snapshot(10))).event.is_some());
    s.on_trade(SonicTrade { time: 5, price: at(100), qty: 3 * ONE / 2, is_sell: false });
    let out = s.on_depth(&diff(11, 12, 10, vec![level(10, 2)], vec![]));
    match out.event {
        Some(Event::DepthReceived(_, _, depth, trades)) => {
            assert_eq!(trades[0].qty, 150 * ONE);
            assert_eq!(depth.bid_qty(at(10)), Some(20 * ONE));
        },
        other => panic!("no depth: {:?}", other),
    }
}

#[test]
fn a_disconnected_stream_takes_no_trades() {
    let mut s = stream();
    s.on_trade(SonicTrade { time: 5, price: at(100), qty: ONE, is_sell: true });
    assert_eq!(s.pending_trades(), 0);
}

#[test]
fn closing_and_read_errors_disconnect() {
    let mut s = synchronized(10);
    let out = s.on_close();
    assert_eq!(reason(&out), "Connection closed");
    assert_eq!(s.phase(), Phase::Disconnected);

    let mut s = synchronized(10);
    let out = s.on_read_error("reset by peer");
    assert_eq!(reason(&out), "Error reading frame: reset by peer");
    assert_eq!(s.phase(), Phase::Disconnected);
    assert!(is_quiet(&s.on_read_error("again")));
}

#[test]
fn a_stream_can_connect_again_after_a_gap() {
    let mut s = synchronized(10);
    assert!(s.on_depth(&diff(11, 12, 10, vec![], vec![])).event.is_some());
    assert!(s.on_depth(&diff(14, 15, 13, vec![], vec![])).event.is_some());
    assert_eq!(s.phase(), Phase::Disconnected);
    let out = s.on_connected(Ok(snapshot(40)));
    assert!(matches!(out.event, Some(Event::Connected(_))));
    assert_eq!(s.prev_id(), 0);
    assert!(s.on_depth(&diff(41, 42, 40, vec![], vec![])).event.is_some());
}

#[test]
fn frames_are_told_apart() {
    let mut s = synchronized(10);
    let trade = StreamData::Trade(SonicTrade { time: 5, price: at(100), qty: ONE, is_sell: true });
    assert!(is_quiet(&s.on_frame(FrameKind::Text, Some(&trade))));
    assert_eq!(s.pending_trades(), 1);
    assert!(is_quiet(&s.on_frame(FrameKind::Text, None)));
    assert!(is_quiet(&s.on_frame(FrameKind::Other, Some(&trade))));
    assert_eq!(s.pending_trades(), 1);
    let kline = StreamData::Kline(
        Ticker::new("EURUSDT", Exchange::Forex),
        SonicKline {
            time: 1,
            open: at(1),
            high: at(1),
            low: at(1),
            close: at(1),
            volume: ONE,
            taker_buy_base_asset_volume: 0,
            interval: "1m".to_string(),
        },
    );
    assert!(is_quiet(&s.on_message(&kline)));
    let depth = StreamData::Depth(diff(11, 12, 10, vec![], vec![]));
    assert!(s.on_frame(FrameKind::Text, Some(&depth)).event.is_some());
    let out = s.on_frame(FrameKind::Close, None);
    assert_eq!(reason(&out), "Connection closed");
}

#[test]
fn verdicts_follow_the_ids() {
    let sync = Phase::Synchronized;
    assert_eq!(classify_diff(sync, 10, 0, 5, 10, 4), DiffVerdict::Ignore);
    assert_eq!(classify_diff(sync, 10, 0, 5, 9, 4), DiffVerdict::Ignore);
    assert_eq!(classify_diff(sync, 0, 0, 1, 2, 0), DiffVerdict::Ignore);
    assert_eq!(classify_diff(sync, 10, 0, 11, 12, 99), DiffVerdict::Apply);
    assert_eq!(classify_diff(sync, 10, 0, 5, 11, 99), DiffVerdict::Apply);
    assert_eq!(classify_diff(sync, 10, 0, 12, 13, 10), DiffVerdict::Resync);
    assert_eq!(classify_diff(sync, 12, 12, 20, 25, 12), DiffVerdict::Apply);
    assert_eq!(classify_diff(sync, 12, 12, 20, 25, 13), DiffVerdict::Gap);
    assert_eq!(classify_diff(sync, u64::MAX, 0, 1, u64::MAX, 0), DiffVerdict::Ignore);
    assert_eq!(classify_diff(sync, u64::MAX - 1, 7, 1, u64::MAX, 7), DiffVerdict::Apply);
    assert_eq!(classify_diff(Phase::Disconnected, 10, 0, 11, 12, 10), DiffVerdict::Ignore);
    assert_eq!(classify_diff(Phase::Resyncing, 10, 0, 11, 12, 10), DiffVerdict::Ignore);
}

#[test]
fn the_stream_address_takes_the_symbol_as_it_is_given() {
    assert_eq!(
        market_stream_address("eurusdt"),
        "wss://fstream.binance.com/stream?streams=eurusdt@aggTrade/eurusdt@depth@100ms"
    );
    assert_eq!(
        market_stream_address("X"),
        "wss://fstream.binance.com/stream?streams=X@aggTrade/X@depth@100ms"
    );
}
