use exchange::depth::{DeOrder, Depth, DepthPayload, DepthUpdate, LocalDepthCache};
use exchange::price::{MinTicksize, Price, PRICE_SCALE};

fn level(price: i64, qty: u64) -> DeOrder {
    DeOrder { price: Price::from_units(price * PRICE_SCALE), qty: qty * PRICE_SCALE as u64 }
}

fn payload(id: u64, bids: Vec<DeOrder>, asks: Vec<DeOrder>) -> DepthPayload {
    DepthPayload { last_update_id: id, time: id * 10, bids, asks }
}

fn at(price: i64) -> Price {
    Price::from_units(price * PRICE_SCALE)
}

const TICK: MinTicksize = MinTicksize { units: PRICE_SCALE / 100 };

#[test]
fn mid_price_of_two_sided_book() {
    let mut cache = LocalDepthCache::default();
    cache.update(
        DepthUpdate::Snapshot(payload(1, vec![level(100, 2), level(99, 1)], vec![level(101, 3)])),
        TICK,
    );
    let mid = cache.depth.mid_price();
    assert_eq!(mid, Some(Price::from_units(10_050_000_000)));
}

#[test]
fn mid_price_needs_both_sides() {
    let mut depth = Depth::new();
    assert_eq!(depth.mid_price(), None);
    depth.update(&payload(1, vec![level(100, 2)], vec![]), TICK);
    assert_eq!(depth.mid_price(), None);
    depth.replace_all(&payload(2, vec![], vec![level(101, 2)]), TICK);
    assert_eq!(depth.mid_price(), None);
}

#[test]
fn zero_quantity_removes_the_level() {
    let mut depth = Depth::new();
    depth.update(&payload(1, vec![level(100, 2), level(99, 1)], vec![level(101, 3)]), TICK);
    assert_eq!(depth.bid_qty(at(100)), Some(2 * PRICE_SCALE as u64));
    depth.update(&payload(2, vec![level(100, 0)], vec![level(101, 0)]), TICK);
    assert_eq!(depth.bid_qty(at(100)), None);
    assert_eq!(depth.ask_qty(at(101)), None);
    assert_eq!(depth.bids_len(), 1);
    assert_eq!(depth.asks_len(), 0);
    assert_eq!(depth.best_bid(), Some((at(99), PRICE_SCALE as u64)));
}

#[test]
fn zero_quantity_for_an_absent_level_is_no_level() {
    let mut depth = Depth::new();
    depth.update(&payload(1, vec![level(100, 0)], vec![]), TICK);
    assert_eq!(depth.bids_len(), 0);
    assert_eq!(depth.bid_qty(at(100)), None);
}

#[test]
fn zero_quantity_in_a_snapshot_is_no_level() {
    let mut depth = Depth::new();
    depth.replace_all(&payload(1, vec![level(100, 0), level(99, 4)], vec![]), TICK);
    assert_eq!(depth.bids_len(), 1);
    assert_eq!(depth.bid_qty(at(100)), None);
}

#[test]
fn later_level_of_a_payload_wins() {
    let mut depth = Depth::new();
    depth.update(&payload(1, vec![level(100, 2), level(100, 5)], vec![]), TICK);
    assert_eq!(depth.bid_qty(at(100)), Some(5 * PRICE_SCALE as u64));
    depth.update(&payload(2, vec![level(100, 7), level(100, 0)], vec![]), TICK);
    assert_eq!(depth.bid_qty(at(100)), None);
}

#[test]
fn snapshot_leaves_nothing_of_the_old_book() {
    let snapshot = || payload(9, vec![level(50, 1)], vec![level(51, 2)]);
    let mut used = LocalDepthCache::default();
    used.update(
        DepthUpdate::Snapshot(payload(1, vec![level(100, 2), level(99, 1)], vec![level(101, 3)])),
        TICK,
    );
    used.update(DepthUpdate::Diff(payload(2, vec![level(98, 4)], vec![level(102, 1)])), TICK);
    used.update(DepthUpdate::Snapshot(snapshot()), TICK);

    let mut fresh = LocalDepthCache::default();
    fresh.update(DepthUpdate::Diff(snapshot()), TICK);

    for cache in [&used, &fresh] {
        assert_eq!(cache.last_update_id, 9);
        assert_eq!(cache.time, 90);
        assert_eq!(cache.depth.bids_len(), 1);
        assert_eq!(cache.depth.asks_len(), 1);
        assert_eq!(cache.depth.best_bid(), Some((at(50), PRICE_SCALE as u64)));
        assert_eq!(cache.depth.best_ask(), Some((at(51), 2 * PRICE_SCALE as u64)));
        assert_eq!(cache.depth.bid_qty(at(100)), None);
        assert_eq!(cache.depth.ask_qty(at(102)), None);
    }
}

#[test]
fn levels_are_keyed_by_the_rounded_price() {
    let mut depth = Depth::new();
    let raw = DeOrder { price: Price::from_units(10_000_400_000), qty: 5 };
    depth.update(&payload(1, vec![raw], vec![]), TICK);
    assert_eq!(depth.bid_qty(Price::from_units(10_000_000_000)), Some(5));
    let raw = DeOrder { price: Price::from_units(10_000_600_000), qty: 6 };
    depth.update(&payload(2, vec![raw], vec![]), TICK);
    assert_eq!(depth.bid_qty(Price::from_units(10_001_000_000)), Some(6));
    assert_eq!(depth.bids_len(), 2);
}

#[test]
fn best_levels_are_the_extremes() {
    let mut depth = Depth::new();
    depth.update(
        &payload(
            1,
            vec![level(97, 1), level(99, 2), level(98, 3)],
            vec![level(103, 1), level(101, 2), level(102, 3)],
        ),
        TICK,
    );
    assert_eq!(depth.best_bid(), Some((at(99), 2 * PRICE_SCALE as u64)));
    assert_eq!(depth.best_ask(), Some((at(101), 2 * PRICE_SCALE as u64)));
    assert_eq!(depth.mid_price(), Some(at(100)));
}

#[test]
fn a_clone_is_a_snapshot_of_its_own() {
    let mut depth = Depth::new();
    depth.update(&payload(1, vec![level(99, 2)], vec![level(101, 2)]), TICK);
    let held = depth.clone();
    depth.update(&payload(2, vec![level(99, 0)], vec![]), TICK);
    assert_eq!(held.bid_qty(at(99)), Some(2 * PRICE_SCALE as u64));
    assert_eq!(depth.bid_qty(at(99)), None);
}

#[test]
fn default_cache_is_empty() {
    let cache = LocalDepthCache::default();
    assert_eq!(cache.last_update_id, 0);
    assert_eq!(cache.time, 0);
    assert_eq!(cache.depth.bids_len(), 0);
    assert_eq!(cache.depth.asks_len(), 0);
    assert_eq!(Depth::default().mid_price(), None);
}

#[test]
fn sides_are_listed_from_the_lowest_price_up() {
    let mut depth = Depth::new();
    assert!(depth.bids().is_empty());
    depth.update(
        &payload(
            1,
            vec![level(97, 1), level(99, 2), level(98, 3), level(96, 0)],
            vec![level(103, 1), level(101, 2)],
        ),
        TICK,
    );
    let one = PRICE_SCALE as u64;
    assert_eq!(depth.bids(), vec![(at(97), one), (at(98), 3 * one), (at(99), 2 * one)]);
    assert_eq!(depth.asks(), vec![(at(101), 2 * one), (at(103), one)]);
    assert_eq!(depth.bids_len(), 3);
}
