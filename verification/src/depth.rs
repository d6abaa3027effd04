//! The order book: price levels by side, and the cache that a stream keeps
//! of them.
//!
//! A book holds two ordered maps from price to remaining quantity, one for
//! bids and one for asks. A level whose quantity is zero is never stored:
//! in a payload, quantity zero removes the level.

use crate::price::{round_to_tick, MinTicksize, Price};
use std::collections::BTreeMap;
use vstd::prelude::*;

verus! {

/// One price level of a payload: the price as the exchange sent it, not yet
/// rounded to the tick, and the quantity in atomic units.
#[derive(Clone, Copy, Debug, PartialEq, Eq, Structural)]
pub struct DeOrder {
    pub price: Price,
    pub qty: u64,
}

/// The levels of a snapshot or of a diff, with the sequence id and the
/// exchange's timestamp they carry.
#[derive(Debug)]
pub struct DepthPayload {
    pub last_update_id: u64,
    pub time: u64,
    pub bids: Vec<DeOrder>,
    pub asks: Vec<DeOrder>,
}

/// A full replacement of the book, or an incremental change to it.
#[derive(Debug)]
pub enum DepthUpdate {
    Snapshot(DepthPayload),
    Diff(DepthPayload),
}

/// The key under which a level is stored: its price rounded to the tick.
pub open spec fn level_key(order: DeOrder, tick: MinTicksize) -> i64 {
    round_to_tick(order.price.units as int, tick.units as int) as i64
}

/// One level applied to one side: quantity zero removes the level, any
/// other quantity sets it.
pub open spec fn apply_level(side: Map<i64, u64>, order: DeOrder, tick: MinTicksize) -> Map<
    i64,
    u64,
> {
    if order.qty == 0 {
        side.remove(level_key(order, tick))
    } else {
        side.insert(level_key(order, tick), order.qty)
    }
}

/// The levels applied to one side in the order given.
pub open spec fn apply_levels(side: Map<i64, u64>, orders: Seq<DeOrder>, tick: MinTicksize) -> Map<
    i64,
    u64,
>
    decreases orders.len(),
{
    if orders.len() == 0 {
        side
    } else {
        apply_level(apply_levels(side, orders.drop_last(), tick), orders.last(), tick)
    }
}

/// No stored level has quantity zero.
pub open spec fn all_positive(side: Map<i64, u64>) -> bool {
    forall|k: i64| side.contains_key(k) ==> #[trigger] side[k] > 0
}

/// `k` is the lowest price of the side.
pub open spec fn is_lowest(side: Map<i64, u64>, k: i64) -> bool {
    side.contains_key(k) && forall|j: i64| side.contains_key(j) ==> k <= j
}

/// `k` is the highest price of the side.
pub open spec fn is_highest(side: Map<i64, u64>, k: i64) -> bool {
    side.contains_key(k) && forall|j: i64| side.contains_key(j) ==> j <= k
}

/// The lowest price of a side that is not empty.
pub open spec fn lowest(side: Map<i64, u64>) -> i64 {
    choose|k: i64| is_lowest(side, k)
}

/// The highest price of a side that is not empty.
pub open spec fn highest(side: Map<i64, u64>) -> i64 {
    choose|k: i64| is_highest(side, k)
}

/// No side has two lowest prices.
pub proof fn lemma_lowest_unique(side: Map<i64, u64>, k: i64)
    requires
        is_lowest(side, k),
    ensures
        lowest(side) == k,
{
    let c = lowest(side);
    assert(is_lowest(side, c));
}

/// No side has two highest prices.
pub proof fn lemma_highest_unique(side: Map<i64, u64>, k: i64)
    requires
        is_highest(side, k),
    ensures
        highest(side) == k,
{
    let c = highest(side);
    assert(is_highest(side, c));
}

/// Applying levels never leaves a level of quantity zero behind.
pub proof fn lemma_apply_levels_positive(side: Map<i64, u64>, orders: Seq<DeOrder>, tick: MinTicksize)
    requires
        all_positive(side),
    ensures
        all_positive(apply_levels(side, orders, tick)),
    decreases orders.len(),
{
    if orders.len() > 0 {
        lemma_apply_levels_positive(side, orders.drop_last(), tick);
    }
}

/// A level whose last mention among the applied levels has quantity zero is
/// absent afterwards, whatever the side held before.
pub proof fn lemma_zero_quantity_removes(
    side: Map<i64, u64>,
    orders: Seq<DeOrder>,
    tick: MinTicksize,
    i: int,
)
    requires
        0 <= i < orders.len(),
        orders[i].qty == 0,
        forall|j: int| i < j < orders.len() ==> level_key(orders[j], tick) != level_key(orders[i], tick),
    ensures
        !apply_levels(side, orders, tick).contains_key(level_key(orders[i], tick)),
    decreases orders.len(),
{
    if i < orders.len() - 1 {
        let front = orders.drop_last();
        assert(forall|j: int| i < j < front.len() ==> front[j] == orders[j]);
        lemma_zero_quantity_removes(side, front, tick, i);
    }
}

/// A level whose last mention among the applied levels has a quantity other
/// than zero is present afterwards with that quantity.
pub proof fn lemma_last_quantity_wins(
    side: Map<i64, u64>,
    orders: Seq<DeOrder>,
    tick: MinTicksize,
    i: int,
)
    requires
        0 <= i < orders.len(),
        orders[i].qty != 0,
        forall|j: int| i < j < orders.len() ==> level_key(orders[j], tick) != level_key(orders[i], tick),
    ensures
        apply_levels(side, orders, tick).contains_key(level_key(orders[i], tick)),
        apply_levels(side, orders, tick)[level_key(orders[i], tick)] == orders[i].qty,
    decreases orders.len(),
{
    if i < orders.len() - 1 {
        let front = orders.drop_last();
        assert(forall|j: int| i < j < front.len() ==> front[j] == orders[j]);
        lemma_last_quantity_wins(side, front, tick, i);
    }
}

/// A price that no applied level mentions keeps what the side held for it.
pub proof fn lemma_unmentioned_level_kept(
    side: Map<i64, u64>,
    orders: Seq<DeOrder>,
    tick: MinTicksize,
    k: i64,
)
    requires
        forall|j: int| 0 <= j < orders.len() ==> level_key(orders[j], tick) != k,
    ensures
        apply_levels(side, orders, tick).contains_key(k) == side.contains_key(k),
        side.contains_key(k) ==> apply_levels(side, orders, tick)[k] == side[k],
    decreases orders.len(),
{
    if orders.len() > 0 {
        let front = orders.drop_last();
        assert(forall|j: int| 0 <= j < front.len() ==> front[j] == orders[j]);
        lemma_unmentioned_level_kept(side, front, tick, k);
    }
}

/// Applying one run of levels after another is applying the two runs as
/// one.
pub proof fn lemma_apply_levels_concat(
    side: Map<i64, u64>,
    first: Seq<DeOrder>,
    second: Seq<DeOrder>,
    tick: MinTicksize,
)
    ensures
        apply_levels(side, first + second, tick) == apply_levels(
            apply_levels(side, first, tick),
            second,
            tick,
        ),
    decreases second.len(),
{
    if second.len() == 0 {
        assert(first + second =~= first);
    } else {
        lemma_apply_levels_concat(side, first, second.drop_last(), tick);
        assert((first + second).drop_last() =~= first + second.drop_last());
        assert((first + second).last() == second.last());
    }
}

/// Applying no level changes nothing.
pub proof fn lemma_apply_no_levels(side: Map<i64, u64>, tick: MinTicksize)
    ensures
        apply_levels(side, Seq::<DeOrder>::empty(), tick) == side,
{
}


/// The first level of a side in price order.
///
/// Trusted: this is `BTreeMap::first_key_value` of the standard library,
/// which returns the entry with the minimum key, or nothing for an empty
/// map. The entry is handed out by value.
#[verifier::external_body]
fn first_level(side: &BTreeMap<i64, u64>) -> (r: Option<(i64, u64)>)
    ensures
        match r {
            Some((k, v)) => is_lowest(side@, k) && side@[k] == v,
            None => forall|j: i64| !side@.contains_key(j),
        },
{
    side.first_key_value().map(|(k, v)| (*k, *v))
}

/// The last level of a side in price order.
///
/// Trusted: this is `BTreeMap::last_key_value` of the standard library,
/// which returns the entry with the maximum key, or nothing for an empty
/// map. The entry is handed out by value.
#[verifier::external_body]
fn last_level(side: &BTreeMap<i64, u64>) -> (r: Option<(i64, u64)>)
    ensures
        match r {
            Some((k, v)) => is_highest(side@, k) && side@[k] == v,
            None => forall|j: i64| !side@.contains_key(j),
        },
{
    side.last_key_value().map(|(k, v)| (*k, *v))
}

/// `levels` lists a side: each of its levels once, from the lowest price to
/// the highest, with its quantity.
pub open spec fn is_listing(side: Map<i64, u64>, levels: Seq<(Price, u64)>) -> bool {
    &&& forall|i: int, j: int|
        0 <= i < j < levels.len() ==> (#[trigger] levels[i]).0.units < (#[trigger] levels[j]).0.units
    &&& forall|i: int|
        0 <= i < levels.len() ==> side.contains_key((#[trigger] levels[i]).0.units)
            && side[levels[i].0.units] == levels[i].1
    &&& forall|k: i64|
        side.contains_key(k) ==> exists|i: int|
            0 <= i < levels.len() && (#[trigger] levels[i]).0.units == k
}

/// Lists a side from the lowest price to the highest.
fn levels_of(side: &BTreeMap<i64, u64>) -> (r: Vec<(Price, u64)>)
    ensures
        is_listing(side@, r@),
{
    let mut rest: BTreeMap<i64, u64> = side.clone();
    let mut out: Vec<(Price, u64)> = Vec::new();
    loop
        invariant
            rest@.dom().finite(),
            forall|k: i64| #[trigger]
                rest@.contains_key(k) ==> side@.contains_key(k) && side@[k] == rest@[k],
            forall|k: i64| #[trigger]
                side@.contains_key(k) ==> rest@.contains_key(k) || exists|i: int|
                    0 <= i < out@.len() && (#[trigger] out@[i]).0.units == k,
            forall|i: int|
                0 <= i < out@.len() ==> side@.contains_key((#[trigger] out@[i]).0.units)
                    && side@[out@[i].0.units] == out@[i].1,
            forall|i: int, j: int|
                0 <= i < j < out@.len() ==> (#[trigger] out@[i]).0.units < (
                #[trigger] out@[j]).0.units,
            forall|i: int, k: i64|
                0 <= i < out@.len() && #[trigger] rest@.contains_key(k) ==> (
                #[trigger] out@[i]).0.units < k,
        decreases rest@.len(),
    {
        match first_level(&rest) {
            None => {
                return out;
            },
            Some((k, v)) => {
                proof {
                    rest@.lemma_remove_key_len(k);
                }
                let ghost before = rest@;
                let ghost listed = out@;
                rest.remove(&k);
                out.push((Price { units: k }, v));
                proof {
                    assert(rest@ == before.remove(k));
                    assert forall|key: i64| #[trigger] rest@.contains_key(key) implies side@.contains_key(
                        key,
                    ) && side@[key] == rest@[key] by {
                        assert(before.contains_key(key));
                    }
                    assert forall|key: i64| side@.contains_key(key) implies rest@.contains_key(key)
                        || exists|i: int|
                        0 <= i < out@.len() && (#[trigger] out@[i]).0.units == key by {
                        if key == k {
                            assert(out@[listed.len() as int].0.units == k);
                        } else if !before.contains_key(key) {
                            let i = choose|i: int|
                                0 <= i < listed.len() && (#[trigger] listed[i]).0.units == key;
                            assert(out@[i] == listed[i]);
                        }
                    }
                    assert forall|i: int, j: int| 0 <= i < j < out@.len() implies (
                    #[trigger] out@[i]).0.units < (#[trigger] out@[j]).0.units by {
                        if j < listed.len() {
                            assert(out@[i] == listed[i]);
                            assert(out@[j] == listed[j]);
                        } else {
                            assert(out@[i] == listed[i]);
                        }
                    }
                    assert forall|i: int, key: i64|
                        0 <= i < out@.len() && #[trigger] rest@.contains_key(key) implies (
                    #[trigger] out@[i]).0.units < key by {
                        if i < listed.len() {
                            assert(out@[i] == listed[i]);
                        }
                    }
                }
            },
        }
    }
}

/// What a book holds, as two maps from price to quantity in atomic units.
pub struct Book {
    pub bids: Map<i64, u64>,
    pub asks: Map<i64, u64>,
}

impl Book {
    /// The book without any level.
    pub open spec fn empty() -> Book {
        Book { bids: Map::empty(), asks: Map::empty() }
    }

    /// The book after levels were applied, bids to bids and asks to asks.
    pub open spec fn patched_with(
        self,
        bids: Seq<DeOrder>,
        asks: Seq<DeOrder>,
        tick: MinTicksize,
    ) -> Book {
        Book { bids: apply_levels(self.bids, bids, tick), asks: apply_levels(self.asks, asks, tick) }
    }

    /// The book after the levels of a payload were applied.
    pub open spec fn patched(self, payload: DepthPayload, tick: MinTicksize) -> Book {
        self.patched_with(payload.bids@, payload.asks@, tick)
    }

    /// No level of either side has quantity zero.
    pub open spec fn well_formed(self) -> bool {
        all_positive(self.bids) && all_positive(self.asks)
    }

    /// The average of the lowest ask and the highest bid, rounded down to a
    /// whole atomic unit, where both sides hold a level.
    pub open spec fn mid_price(self) -> Option<Price> {
        if self.bids.dom() =~= Set::empty() || self.asks.dom() =~= Set::empty() {
            None
        } else {
            Some(Price { units: ((lowest(self.asks) + highest(self.bids)) / 2) as i64 })
        }
    }
}

/// Applying a payload keeps a well-formed book well formed.
pub proof fn lemma_patched_well_formed(book: Book, payload: DepthPayload, tick: MinTicksize)
    requires
        book.well_formed(),
    ensures
        book.patched(payload, tick).well_formed(),
{
    lemma_apply_levels_positive(book.bids, payload.bids@, tick);
    lemma_apply_levels_positive(book.asks, payload.asks@, tick);
}

/// A bid that a payload mentions last with quantity zero is not in the book
/// after the payload, whatever the book held.
pub proof fn lemma_removed_bid_absent(book: Book, payload: DepthPayload, tick: MinTicksize, i: int)
    requires
        0 <= i < payload.bids@.len(),
        payload.bids@[i].qty == 0,
        forall|j: int|
            i < j < payload.bids@.len() ==> level_key(payload.bids@[j], tick) != level_key(
                payload.bids@[i],
                tick,
            ),
    ensures
        !book.patched(payload, tick).bids.contains_key(level_key(payload.bids@[i], tick)),
{
    lemma_zero_quantity_removes(book.bids, payload.bids@, tick, i);
}

/// An ask that a payload mentions last with quantity zero is not in the book
/// after the payload, whatever the book held.
pub proof fn lemma_removed_ask_absent(book: Book, payload: DepthPayload, tick: MinTicksize, i: int)
    requires
        0 <= i < payload.asks@.len(),
        payload.asks@[i].qty == 0,
        forall|j: int|
            i < j < payload.asks@.len() ==> level_key(payload.asks@[j], tick) != level_key(
                payload.asks@[i],
                tick,
            ),
    ensures
        !book.patched(payload, tick).asks.contains_key(level_key(payload.asks@[i], tick)),
{
    lemma_zero_quantity_removes(book.asks, payload.asks@, tick, i);
}

/// The two sides of a book are patched apart: what a payload says of the
/// asks leaves the bids as they are, and the other way round.
pub proof fn lemma_sides_independent(
    book: Book,
    bids: Seq<DeOrder>,
    asks: Seq<DeOrder>,
    other_bids: Seq<DeOrder>,
    other_asks: Seq<DeOrder>,
    tick: MinTicksize,
)
    ensures
        book.patched_with(bids, asks, tick).bids == book.patched_with(bids, other_asks, tick).bids,
        book.patched_with(bids, asks, tick).asks == book.patched_with(other_bids, asks, tick).asks,
{
}

/// Both sides of an order book.
#[derive(Debug)]
pub struct Depth {
    bids: BTreeMap<i64, u64>,
    asks: BTreeMap<i64, u64>,
}

impl View for Depth {
    type V = Book;

    closed spec fn view(&self) -> Book {
        Book { bids: self.bids@, asks: self.asks@ }
    }
}

impl Clone for Depth {
    fn clone(&self) -> (r: Self)
        ensures
            r@ == self@,
    {
        proof {
            use_type_invariant(self);
        }
        Depth { bids: self.bids.clone(), asks: self.asks.clone() }
    }
}

impl Default for Depth {
    fn default() -> (r: Self)
        ensures
            r@ == Book::empty(),
    {
        Depth::new()
    }
}

impl Depth {
    #[verifier::type_invariant]
    spec fn positive_levels(self) -> bool {
        all_positive(self.bids@) && all_positive(self.asks@)
    }

    /// The empty book.
    pub fn new() -> (r: Depth)
        ensures
            r@ == Book::empty(),
    {
        Depth { bids: BTreeMap::new(), asks: BTreeMap::new() }
    }

    /// Applies the levels of a diff to both sides.
    pub fn update(&mut self, diff: &DepthPayload, min_ticksize: MinTicksize)
        ensures
            final(self)@ == old(self)@.patched(*diff, min_ticksize),
            final(self)@.well_formed(),
    {
        proof {
            use_type_invariant(&*self);
        }
        let mut bids: BTreeMap<i64, u64> = BTreeMap::new();
        let mut asks: BTreeMap<i64, u64> = BTreeMap::new();
        std::mem::swap(&mut self.bids, &mut bids);
        std::mem::swap(&mut self.asks, &mut asks);
        Self::diff_price_levels(&mut bids, &diff.bids, min_ticksize);
        Self::diff_price_levels(&mut asks, &diff.asks, min_ticksize);
        self.bids = bids;
        self.asks = asks;
    }

    /// Applies levels to one side, in the order given.
    fn diff_price_levels(
        price_map: &mut BTreeMap<i64, u64>,
        orders: &Vec<DeOrder>,
        min_ticksize: MinTicksize,
    )
        requires
            all_positive(old(price_map)@),
        ensures
            final(price_map)@ == apply_levels(old(price_map)@, orders@, min_ticksize),
            all_positive(final(price_map)@),
    {
        let mut i: usize = 0;
        while i < orders.len()
            invariant
                0 <= i <= orders.len(),
                price_map@ == apply_levels(old(price_map)@, orders@.take(i as int), min_ticksize),
            decreases orders.len() - i,
        {
            let order = orders[i];
            let price = order.price.round_to_min_tick(min_ticksize);
            if order.qty == 0 {
                price_map.remove(&price.units);
            } else {
                price_map.insert(price.units, order.qty);
            }
            proof {
                assert(orders@.take(i + 1).drop_last() =~= orders@.take(i as int));
            }
            i += 1;
        }
        proof {
            assert(orders@.take(i as int) =~= orders@);
            lemma_apply_levels_positive(old(price_map)@, orders@, min_ticksize);
        }
    }

    /// Replaces both sides by the levels of a snapshot: nothing of what the
    /// book held before is left.
    pub fn replace_all(&mut self, snapshot: &DepthPayload, min_ticksize: MinTicksize)
        ensures
            final(self)@ == Book::empty().patched(*snapshot, min_ticksize),
            final(self)@.well_formed(),
    {
        proof {
            use_type_invariant(&*self);
        }
        let mut bids: BTreeMap<i64, u64> = BTreeMap::new();
        let mut asks: BTreeMap<i64, u64> = BTreeMap::new();
        Self::diff_price_levels(&mut bids, &snapshot.bids, min_ticksize);
        Self::diff_price_levels(&mut asks, &snapshot.asks, min_ticksize);
        self.bids = bids;
        self.asks = asks;
    }

    /// The average of the best bid and the best ask.
    pub fn mid_price(&self) -> (r: Option<Price>)
        ensures
            r == self@.mid_price(),
    {
        match (first_level(&self.asks), last_level(&self.bids)) {
            (Some((ask_price, _)), Some((bid_price, _))) => {
                proof {
                    lemma_lowest_unique(self.asks@, ask_price);
                    lemma_highest_unique(self.bids@, bid_price);
                }
                Some(Price { units: ask_price }.midpoint(Price { units: bid_price }))
            },
            _ => None,
        }
    }

    /// The highest bid with its quantity, if there is a bid.
    pub fn best_bid(&self) -> (r: Option<(Price, u64)>)
        ensures
            match r {
                Some((p, q)) => is_highest(self@.bids, p.units) && self@.bids[p.units] == q && q > 0,
                None => self@.bids.dom() =~= Set::empty(),
            },
    {
        proof {
            use_type_invariant(self);
        }
        match last_level(&self.bids) {
            Some((k, v)) => Some((Price { units: k }, v)),
            None => None,
        }
    }

    /// The lowest ask with its quantity, if there is an ask.
    pub fn best_ask(&self) -> (r: Option<(Price, u64)>)
        ensures
            match r {
                Some((p, q)) => is_lowest(self@.asks, p.units) && self@.asks[p.units] == q && q > 0,
                None => self@.asks.dom() =~= Set::empty(),
            },
    {
        proof {
            use_type_invariant(self);
        }
        match first_level(&self.asks) {
            Some((k, v)) => Some((Price { units: k }, v)),
            None => None,
        }
    }

    /// The quantity bid at a price, if there is any.
    pub fn bid_qty(&self, price: Price) -> (r: Option<u64>)
        ensures
            r == (if self@.bids.contains_key(price.units) {
                Some(self@.bids[price.units])
            } else {
                None
            }),
            r != Some(0u64),
    {
        proof {
            use_type_invariant(self);
        }
        match self.bids.get(&price.units) {
            Some(q) => Some(*q),
            None => None,
        }
    }

    /// The quantity asked at a price, if there is any.
    pub fn ask_qty(&self, price: Price) -> (r: Option<u64>)
        ensures
            r == (if self@.asks.contains_key(price.units) {
                Some(self@.asks[price.units])
            } else {
                None
            }),
            r != Some(0u64),
    {
        proof {
            use_type_invariant(self);
        }
        match self.asks.get(&price.units) {
            Some(q) => Some(*q),
            None => None,
        }
    }

    /// The bids, from the lowest price to the highest.
    pub fn bids(&self) -> (r: Vec<(Price, u64)>)
        ensures
            is_listing(self@.bids, r@),
    {
        levels_of(&self.bids)
    }

    /// The asks, from the lowest price to the highest.
    pub fn asks(&self) -> (r: Vec<(Price, u64)>)
        ensures
            is_listing(self@.asks, r@),
    {
        levels_of(&self.asks)
    }

    /// The number of bid levels.
    pub fn bids_len(&self) -> (n: usize)
        ensures
            n == self@.bids.len(),
    {
        self.bids.len()
    }

    /// The number of ask levels.
    pub fn asks_len(&self) -> (n: usize)
        ensures
            n == self@.asks.len(),
    {
        self.asks.len()
    }
}

/// What a cache holds: the sequence id and the time of the payload applied
/// last, and the book.
pub struct CacheState {
    pub last_update_id: u64,
    pub time: u64,
    pub book: Book,
}

impl CacheState {
    /// A cache to which nothing was applied yet.
    pub open spec fn empty() -> CacheState {
        CacheState { last_update_id: 0, time: 0, book: Book::empty() }
    }

    /// The cache after a diff: the levels patch the book, and the sequence
    /// id and the time are those of the diff.
    pub open spec fn diffed(
        self,
        last_update_id: u64,
        time: u64,
        bids: Seq<DeOrder>,
        asks: Seq<DeOrder>,
        tick: MinTicksize,
    ) -> CacheState {
        CacheState { last_update_id, time, book: self.book.patched_with(bids, asks, tick) }
    }

    /// The cache after a snapshot: the book holds the levels of the snapshot
    /// and nothing else.
    pub open spec fn reseeded(
        last_update_id: u64,
        time: u64,
        bids: Seq<DeOrder>,
        asks: Seq<DeOrder>,
        tick: MinTicksize,
    ) -> CacheState {
        CacheState { last_update_id, time, book: Book::empty().patched_with(bids, asks, tick) }
    }

    /// The cache after an update: a snapshot replaces the book, a diff
    /// patches it, and either sets the sequence id and the time.
    pub open spec fn updated(self, update: DepthUpdate, tick: MinTicksize) -> CacheState {
        match update {
            DepthUpdate::Snapshot(p) => CacheState::reseeded(
                p.last_update_id,
                p.time,
                p.bids@,
                p.asks@,
                tick,
            ),
            DepthUpdate::Diff(p) => self.diffed(p.last_update_id, p.time, p.bids@, p.asks@, tick),
        }
    }
}

impl CacheState {
    /// The cache after a run of updates, one after the other.
    pub open spec fn after_updates(self, updates: Seq<DepthUpdate>, tick: MinTicksize) -> CacheState
        decreases updates.len(),
    {
        if updates.len() == 0 {
            self
        } else {
            self.after_updates(updates.drop_last(), tick).updated(updates.last(), tick)
        }
    }
}

/// Whatever run of snapshots and diffs is applied to a cache, no level of
/// its book has quantity zero afterwards: a level is there with a quantity,
/// or it is not there.
pub proof fn lemma_updates_keep_well_formed(
    cache: CacheState,
    updates: Seq<DepthUpdate>,
    tick: MinTicksize,
)
    requires
        cache.book.well_formed(),
    ensures
        cache.after_updates(updates, tick).book.well_formed(),
    decreases updates.len(),
{
    if updates.len() > 0 {
        lemma_updates_keep_well_formed(cache, updates.drop_last(), tick);
        lemma_updated_well_formed(
            cache.after_updates(updates.drop_last(), tick),
            updates.last(),
            tick,
        );
    }
}

/// A snapshot leaves the cache as if its levels had been applied, one after
/// the other, to a cache that held nothing: whatever the cache held before
/// is gone.
pub proof fn lemma_snapshot_rebuilds_from_empty(
    cache: CacheState,
    snapshot: DepthPayload,
    tick: MinTicksize,
)
    ensures
        cache.updated(DepthUpdate::Snapshot(snapshot), tick) == CacheState::empty().updated(
            DepthUpdate::Diff(snapshot),
            tick,
        ),
{
}

/// Whatever is applied to a cache, no level of its book has quantity zero
/// afterwards.
pub proof fn lemma_updated_well_formed(cache: CacheState, update: DepthUpdate, tick: MinTicksize)
    requires
        cache.book.well_formed(),
    ensures
        cache.updated(update, tick).book.well_formed(),
{
    match update {
        DepthUpdate::Snapshot(p) => lemma_patched_well_formed(Book::empty(), p, tick),
        DepthUpdate::Diff(p) => lemma_patched_well_formed(cache.book, p, tick),
    }
}

/// The local copy of an exchange's order book, with the sequence id up to
/// which it is current.
#[derive(Debug)]
pub struct LocalDepthCache {
    pub last_update_id: u64,
    pub time: u64,
    pub depth: Depth,
}

impl View for LocalDepthCache {
    type V = CacheState;

    open spec fn view(&self) -> CacheState {
        CacheState { last_update_id: self.last_update_id, time: self.time, book: self.depth@ }
    }
}

impl Default for LocalDepthCache {
    fn default() -> (r: Self)
        ensures
            r@ == CacheState::empty(),
    {
        LocalDepthCache { last_update_id: 0, time: 0, depth: Depth::new() }
    }
}

impl LocalDepthCache {
    /// Applies a snapshot or a diff.
    pub fn update(&mut self, new_depth: DepthUpdate, min_ticksize: MinTicksize)
        ensures
            final(self)@ == old(self)@.updated(new_depth, min_ticksize),
            final(self)@.book.well_formed(),
    {
        match new_depth {
            DepthUpdate::Snapshot(snapshot) => {
                self.last_update_id = snapshot.last_update_id;
                self.time = snapshot.time;
                self.depth.replace_all(&snapshot, min_ticksize);
            },
            DepthUpdate::Diff(diff) => {
                self.last_update_id = diff.last_update_id;
                self.time = diff.time;
                self.depth.update(&diff, min_ticksize);
            },
        }
    }
}

} // verus!
